//! Tiled basemaps: the catalogue of XYZ presets, the settings of an XYZ
//! layer and the checks before it is added, where its tiles are cached, and
//! the raster tile cache budgets.
use vstd::prelude::*;
use crate::text::same_text;
use crate::text::push_decimal;
use crate::text::push_char;
use crate::text::decimal;

verus! {

/// The number of XYZ presets in the catalogue.
pub open spec fn preset_count() -> int {
    27
}

/// Preset `i` of the catalogue: its name and its URL template.
pub open spec fn preset(i: int) -> (Seq<char>, Seq<char>) {
    if i == 0 {
        ("Bing Virtual Earth"@, "http://ecn.t3.tiles.virtualearth.net/tiles/a{q}.jpeg?g=1"@)
    } else if i == 1 {
        ("CartoDb Dark Matter"@, "http://basemaps.cartocdn.com/dark_all/{z}/{x}/{y}.png"@)
    } else if i == 2 {
        ("CartoDb Dark Matter (No Labels)"@, "http://basemaps.cartocdn.com/dark_nolabels/{z}/{x}/{y}.png"@)
    } else if i == 3 {
        ("CartoDb Positron"@, "http://basemaps.cartocdn.com/light_all/{z}/{x}/{y}.png"@)
    } else if i == 4 {
        ("CartoDb Positron (No Labels)"@, "http://basemaps.cartocdn.com/light_nolabels/{z}/{x}/{y}.png"@)
    } else if i == 5 {
        ("Esri Boundaries Places"@, "https://server.arcgisonline.com/ArcGIS/rest/services/Reference/World_Boundaries_and_Places/MapServer/tile/{z}/{y}/{x}"@)
    } else if i == 6 {
        ("Esri Gray (dark)"@, "http://services.arcgisonline.com/ArcGIS/rest/services/Canvas/World_Dark_Gray_Base/MapServer/tile/{z}/{y}/{x}"@)
    } else if i == 7 {
        ("Esri Gray (light)"@, "http://services.arcgisonline.com/ArcGIS/rest/services/Canvas/World_Light_Gray_Base/MapServer/tile/{z}/{y}/{x}"@)
    } else if i == 8 {
        ("Esri Hillshade"@, "http://services.arcgisonline.com/ArcGIS/rest/services/Elevation/World_Hillshade/MapServer/tile/{z}/{y}/{x}"@)
    } else if i == 9 {
        ("Esri National Geographic"@, "http://services.arcgisonline.com/ArcGIS/rest/services/NatGeo_World_Map/MapServer/tile/{z}/{y}/{x}"@)
    } else if i == 10 {
        ("Esri Navigation Charts"@, "http://services.arcgisonline.com/ArcGIS/rest/services/Specialty/World_Navigation_Charts/MapServer/tile/{z}/{y}/{x}"@)
    } else if i == 11 {
        ("Esri Ocean"@, "https://services.arcgisonline.com/ArcGIS/rest/services/Ocean/World_Ocean_Base/MapServer/tile/{z}/{y}/{x}"@)
    } else if i == 12 {
        ("Esri Physical Map"@, "https://services.arcgisonline.com/ArcGIS/rest/services/World_Physical_Map/MapServer/tile/{z}/{y}/{x}"@)
    } else if i == 13 {
        ("Esri Satellite"@, "https://server.arcgisonline.com/ArcGIS/rest/services/World_Imagery/MapServer/tile/{z}/{y}/{x}"@)
    } else if i == 14 {
        ("Esri Shaded Relief"@, "https://server.arcgisonline.com/ArcGIS/rest/services/World_Shaded_Relief/MapServer/tile/{z}/{y}/{x}"@)
    } else if i == 15 {
        ("Esri Standard"@, "https://server.arcgisonline.com/ArcGIS/rest/services/World_Street_Map/MapServer/tile/{z}/{y}/{x}"@)
    } else if i == 16 {
        ("Esri Topo World"@, "http://services.arcgisonline.com/ArcGIS/rest/services/World_Topo_Map/MapServer/tile/{z}/{y}/{x}"@)
    } else if i == 17 {
        ("Esri Transportation"@, "https://server.arcgisonline.com/ArcGIS/rest/services/Reference/World_Transportation/MapServer/tile/{z}/{y}/{x}"@)
    } else if i == 18 {
        ("Google Maps"@, "https://mt1.google.com/vt/lyrs=m&x={x}&y={y}&z={z}"@)
    } else if i == 19 {
        ("Google Satellite"@, "https://mt1.google.com/vt/lyrs=s&x={x}&y={y}&z={z}"@)
    } else if i == 20 {
        ("Google Satellite Hybrid"@, "https://mt1.google.com/vt/lyrs=y&x={x}&y={y}&z={z}"@)
    } else if i == 21 {
        ("Google Terrain"@, "https://mt1.google.com/vt/lyrs=t&x={x}&y={y}&z={z}"@)
    } else if i == 22 {
        ("Google Terrain Hybrid"@, "https://mt1.google.com/vt/lyrs=p&x={x}&y={y}&z={z}"@)
    } else if i == 23 {
        ("Mapzen Global Terrain"@, "https://s3.amazonaws.com/elevation-tiles-prod/terrarium/{z}/{x}/{y}.png"@)
    } else if i == 24 {
        ("Gempa"@, "https://demo.gempa.de/gaps/tiles/{z}/{y}/{x}"@)
    } else if i == 25 {
        ("OpenStreetMap"@, "https://tile.openstreetmap.org/{z}/{x}/{y}.png"@)
    } else {
        ("OpenTopoMap"@, "https://tile.opentopomap.org/{z}/{x}/{y}.png"@)
    }
}

/// Preset `i` as static text.
pub fn preset_entry(i: usize) -> (r: (&'static str, &'static str))
    requires
        i < preset_count(),
    ensures
        (r.0@, r.1@) == preset(i as int),
{
    if i == 0 {
        ("Bing Virtual Earth", "http://ecn.t3.tiles.virtualearth.net/tiles/a{q}.jpeg?g=1")
    } else if i == 1 {
        ("CartoDb Dark Matter", "http://basemaps.cartocdn.com/dark_all/{z}/{x}/{y}.png")
    } else if i == 2 {
        ("CartoDb Dark Matter (No Labels)", "http://basemaps.cartocdn.com/dark_nolabels/{z}/{x}/{y}.png")
    } else if i == 3 {
        ("CartoDb Positron", "http://basemaps.cartocdn.com/light_all/{z}/{x}/{y}.png")
    } else if i == 4 {
        ("CartoDb Positron (No Labels)", "http://basemaps.cartocdn.com/light_nolabels/{z}/{x}/{y}.png")
    } else if i == 5 {
        ("Esri Boundaries Places", "https://server.arcgisonline.com/ArcGIS/rest/services/Reference/World_Boundaries_and_Places/MapServer/tile/{z}/{y}/{x}")
    } else if i == 6 {
        ("Esri Gray (dark)", "http://services.arcgisonline.com/ArcGIS/rest/services/Canvas/World_Dark_Gray_Base/MapServer/tile/{z}/{y}/{x}")
    } else if i == 7 {
        ("Esri Gray (light)", "http://services.arcgisonline.com/ArcGIS/rest/services/Canvas/World_Light_Gray_Base/MapServer/tile/{z}/{y}/{x}")
    } else if i == 8 {
        ("Esri Hillshade", "http://services.arcgisonline.com/ArcGIS/rest/services/Elevation/World_Hillshade/MapServer/tile/{z}/{y}/{x}")
    } else if i == 9 {
        ("Esri National Geographic", "http://services.arcgisonline.com/ArcGIS/rest/services/NatGeo_World_Map/MapServer/tile/{z}/{y}/{x}")
    } else if i == 10 {
        ("Esri Navigation Charts", "http://services.arcgisonline.com/ArcGIS/rest/services/Specialty/World_Navigation_Charts/MapServer/tile/{z}/{y}/{x}")
    } else if i == 11 {
        ("Esri Ocean", "https://services.arcgisonline.com/ArcGIS/rest/services/Ocean/World_Ocean_Base/MapServer/tile/{z}/{y}/{x}")
    } else if i == 12 {
        ("Esri Physical Map", "https://services.arcgisonline.com/ArcGIS/rest/services/World_Physical_Map/MapServer/tile/{z}/{y}/{x}")
    } else if i == 13 {
        ("Esri Satellite", "https://server.arcgisonline.com/ArcGIS/rest/services/World_Imagery/MapServer/tile/{z}/{y}/{x}")
    } else if i == 14 {
        ("Esri Shaded Relief", "https://server.arcgisonline.com/ArcGIS/rest/services/World_Shaded_Relief/MapServer/tile/{z}/{y}/{x}")
    } else if i == 15 {
        ("Esri Standard", "https://server.arcgisonline.com/ArcGIS/rest/services/World_Street_Map/MapServer/tile/{z}/{y}/{x}")
    } else if i == 16 {
        ("Esri Topo World", "http://services.arcgisonline.com/ArcGIS/rest/services/World_Topo_Map/MapServer/tile/{z}/{y}/{x}")
    } else if i == 17 {
        ("Esri Transportation", "https://server.arcgisonline.com/ArcGIS/rest/services/Reference/World_Transportation/MapServer/tile/{z}/{y}/{x}")
    } else if i == 18 {
        ("Google Maps", "https://mt1.google.com/vt/lyrs=m&x={x}&y={y}&z={z}")
    } else if i == 19 {
        ("Google Satellite", "https://mt1.google.com/vt/lyrs=s&x={x}&y={y}&z={z}")
    } else if i == 20 {
        ("Google Satellite Hybrid", "https://mt1.google.com/vt/lyrs=y&x={x}&y={y}&z={z}")
    } else if i == 21 {
        ("Google Terrain", "https://mt1.google.com/vt/lyrs=t&x={x}&y={y}&z={z}")
    } else if i == 22 {
        ("Google Terrain Hybrid", "https://mt1.google.com/vt/lyrs=p&x={x}&y={y}&z={z}")
    } else if i == 23 {
        ("Mapzen Global Terrain", "https://s3.amazonaws.com/elevation-tiles-prod/terrarium/{z}/{x}/{y}.png")
    } else if i == 24 {
        ("Gempa", "https://demo.gempa.de/gaps/tiles/{z}/{y}/{x}")
    } else if i == 25 {
        ("OpenStreetMap", "https://tile.openstreetmap.org/{z}/{x}/{y}.png")
    } else {
        ("OpenTopoMap", "https://tile.opentopomap.org/{z}/{x}/{y}.png")
    }
}

/// The first preset whose URL template is `url`.
pub open spec fn preset_with_url(url: Seq<char>) -> Option<int> {
    if exists|i: int| 0 <= i < preset_count() && preset(i).1 == url {
        Some(choose|i: int| 0 <= i < preset_count() && preset(i).1 == url && forall|j: int|
            0 <= j < i ==> preset(j).1 != url)
    } else {
        None
    }
}

/// The first preset called `name`.
pub open spec fn preset_named(name: Seq<char>) -> Option<int> {
    if exists|i: int| 0 <= i < preset_count() && preset(i).0 == name {
        Some(choose|i: int| 0 <= i < preset_count() && preset(i).0 == name && forall|j: int|
            0 <= j < i ==> preset(j).0 != name)
    } else {
        None
    }
}

/// The preset whose URL template is `url`, if any.
pub fn find_preset_by_url(url: &str) -> (r: Option<usize>)
    ensures
        r is Some <==> preset_with_url(url@) is Some,
        r matches Some(i) ==> preset_with_url(url@) == Some(i as int),
{
    let mut i: usize = 0;
    while i < 27
        invariant
            i <= 27,
            forall|j: int| 0 <= j < i ==> preset(j).1 != url@,
        decreases 27 - i,
    {
        let entry = preset_entry(i);
        if same_text(entry.1, url) {
            return Some(i);
        }
        i = i + 1;
    }
    None
}

/// The preset called `name`, if any.
pub fn find_preset_by_name(name: &str) -> (r: Option<usize>)
    ensures
        r is Some <==> preset_named(name@) is Some,
        r matches Some(i) ==> preset_named(name@) == Some(i as int),
{
    let mut i: usize = 0;
    while i < 27
        invariant
            i <= 27,
            forall|j: int| 0 <= j < i ==> preset(j).0 != name@,
        decreases 27 - i,
    {
        let entry = preset_entry(i);
        if same_text(entry.0, name) {
            return Some(i);
        }
        i = i + 1;
    }
    None
}

/// An ASCII letter or digit.
pub open spec fn is_ascii_alnum(c: char) -> bool {
    ('0' <= c && c <= '9') || ('a' <= c && c <= 'z') || ('A' <= c && c <= 'Z')
}

/// The cache folder of a preset: its name with every character that is not
/// an ASCII letter or digit replaced by `_`, so that providers never share
/// tiles.
pub open spec fn folder_of(name: Seq<char>) -> Seq<char> {
    name.map_values(|c: char| if is_ascii_alnum(c) { c } else { '_' })
}

/// The cache folder of the preset called `name`.
pub fn cache_folder(name: &str) -> (r: String)
    ensures
        r@ == folder_of(name@),
{
    broadcast use vstd::string::group_string_axioms;
    let mut out = String::new();
    for c in it: name.chars()
        invariant
            it.seq() == name@,
            out@ == folder_of(name@.take(it.index() as int)),
    {
        assert(folder_of(name@.take(it.index() + 1)) =~= folder_of(name@.take(it.index() as int)).push(
            if is_ascii_alnum(c) { c } else { '_' },
        ));
        if ('0' <= c && c <= '9') || ('a' <= c && c <= 'z') || ('A' <= c && c <= 'Z') {
            push_char(&mut out, c);
        } else {
            push_char(&mut out, '_');
        }
    }
    assert(name@.take(name@.len() as int) =~= name@);
    out
}

/// Two presets never share a cache folder, so the tiles of one basemap are
/// never served for another.
pub proof fn lemma_cache_folders_differ(i: int, j: int)
    requires
        0 <= i < preset_count(),
        0 <= j < preset_count(),
        i != j,
    ensures
        folder_of(preset(i).0) != folder_of(preset(j).0),
{
    reveal_strlit("Bing Virtual Earth");
    reveal_strlit("CartoDb Dark Matter");
    reveal_strlit("CartoDb Dark Matter (No Labels)");
    reveal_strlit("CartoDb Positron");
    reveal_strlit("CartoDb Positron (No Labels)");
    reveal_strlit("Esri Boundaries Places");
    reveal_strlit("Esri Gray (dark)");
    reveal_strlit("Esri Gray (light)");
    reveal_strlit("Esri Hillshade");
    reveal_strlit("Esri National Geographic");
    reveal_strlit("Esri Navigation Charts");
    reveal_strlit("Esri Ocean");
    reveal_strlit("Esri Physical Map");
    reveal_strlit("Esri Satellite");
    reveal_strlit("Esri Shaded Relief");
    reveal_strlit("Esri Standard");
    reveal_strlit("Esri Topo World");
    reveal_strlit("Esri Transportation");
    reveal_strlit("Google Maps");
    reveal_strlit("Google Satellite");
    reveal_strlit("Google Satellite Hybrid");
    reveal_strlit("Google Terrain");
    reveal_strlit("Google Terrain Hybrid");
    reveal_strlit("Mapzen Global Terrain");
    reveal_strlit("Gempa");
    reveal_strlit("OpenStreetMap");
    reveal_strlit("OpenTopoMap");
    let (a, b) = (preset(i).0, preset(j).0);
    if a.len() == b.len() {
        assert(folder_of(a)[5] != folder_of(b)[5]);
    } else {
        assert(folder_of(a).len() != folder_of(b).len());
    }
}

/// Why an XYZ layer was not added.
#[derive(Debug, Clone, Copy, PartialEq, Eq, Structural)]
pub enum XyzError {
    /// The minimum zoom is above the maximum.
    ZoomOrder,
    /// The URL is not one of the catalogue's.
    UnknownPreset,
}

impl XyzError {
    /// The message shown for the refusal.
    pub fn message(self) -> (m: &'static str)
        ensures
            self == XyzError::ZoomOrder ==> m@ == "Minimum zoom must not exceed maximum zoom"@,
            self == XyzError::UnknownPreset ==> m@ == "Unknown XYZ preset URL"@,
    {
        match self {
            XyzError::ZoomOrder => "Minimum zoom must not exceed maximum zoom",
            XyzError::UnknownPreset => "Unknown XYZ preset URL",
        }
    }
}

/// The settings of an XYZ layer.
#[derive(Debug, Clone)]
pub struct XyzSettings {
    pub url: String,
    pub min: i32,
    pub max: i32,
    pub cache: bool,
}

/// What a control of the XYZ panel asks for.
#[derive(Debug, Clone, Copy, PartialEq, Eq, Structural)]
pub enum XyzAction {
    /// Only the settings changed.
    Nothing,
    /// Add the layer with the current settings.
    Apply,
    /// Show the layer's diagnostics.
    Diagnostics,
    /// Show the whole map.
    FullExtent,
    /// The preset with this index was chosen: add it and name it in the
    /// status line.
    Preset(usize),
}

/// The OpenStreetMap template the samples start with.
pub open spec fn osm_template() -> Seq<char> {
    "https://tile.openstreetmap.org/{z}/{x}/{y}.png"@
}

impl XyzSettings {
    /// The settings the samples start with: OpenStreetMap, zoom zero to
    /// nineteen, cached.
    pub fn new() -> (s: XyzSettings)
        ensures
            s.url@ == osm_template(),
            s.min == 0,
            s.max == 19,
            s.cache,
    {
        XyzSettings { url: "https://tile.openstreetmap.org/{z}/{x}/{y}.png".to_owned(), min: 0, max: 19, cache: true }
    }

    /// A control of the panel changed: `whole` is its number cut to an
    /// integer, `text` its text, `on` whether it switches the cache on (the
    /// caller reads that from the control). A preset chosen by a name the
    /// catalogue does not have is ignored.
    pub fn control(&mut self, id: i32, whole: i32, text: &str, on: bool) -> (a: XyzAction)
        ensures
            id == 1 ==> final(self).url@ == text@,
            id == 8 && preset_named(text@) is Some ==> final(self).url@ == preset(
                preset_named(text@)->0,
            ).1,
            id != 1 && !(id == 8 && preset_named(text@) is Some) ==> final(self).url@ == old(self).url@,
            final(self).min == (if id == 2 { whole } else { old(self).min }),
            final(self).max == (if id == 3 { whole } else { old(self).max }),
            final(self).cache == (if id == 4 { on } else { old(self).cache }),
            a == (if id == 5 {
                XyzAction::Apply
            } else if id == 6 {
                XyzAction::Diagnostics
            } else if id == 7 {
                XyzAction::FullExtent
            } else if id == 8 && preset_named(text@) is Some {
                XyzAction::Preset(preset_named(text@)->0 as usize)
            } else {
                XyzAction::Nothing
            }),
    {
        if id == 1 {
            self.url = text.to_owned();
            XyzAction::Nothing
        } else if id == 2 {
            self.min = whole;
            XyzAction::Nothing
        } else if id == 3 {
            self.max = whole;
            XyzAction::Nothing
        } else if id == 4 {
            self.cache = on;
            XyzAction::Nothing
        } else if id == 5 {
            XyzAction::Apply
        } else if id == 6 {
            XyzAction::Diagnostics
        } else if id == 7 {
            XyzAction::FullExtent
        } else if id == 8 {
            match find_preset_by_name(text) {
                Some(i) => {
                    self.url = preset_entry(i).1.to_owned();
                    XyzAction::Preset(i)
                },
                None => XyzAction::Nothing,
            }
        } else {
            XyzAction::Nothing
        }
    }

    /// Whether the zoom range can be used.
    pub fn check_zoom(&self) -> (r: Result<(), XyzError>)
        ensures
            r is Ok <==> self.min <= self.max,
            r is Err ==> r == Err::<(), XyzError>(XyzError::ZoomOrder),
    {
        if self.min > self.max {
            Err(XyzError::ZoomOrder)
        } else {
            Ok(())
        }
    }

    /// The catalogue entry to add: the zoom range is checked first, then the
    /// URL must be a preset's.
    pub fn preset_to_add(&self) -> (r: Result<usize, XyzError>)
        ensures
            self.min > self.max ==> r == Err::<usize, XyzError>(XyzError::ZoomOrder),
            self.min <= self.max && preset_with_url(self.url@) is None ==> r == Err::<usize, XyzError>(
                XyzError::UnknownPreset,
            ),
            self.min <= self.max && preset_with_url(self.url@) is Some ==> r == Ok::<usize, XyzError>(
                preset_with_url(self.url@)->0 as usize,
            ),
    {
        if self.min > self.max {
            return Err(XyzError::ZoomOrder);
        }
        match find_preset_by_url(self.url.as_str()) {
            Some(i) => Ok(i),
            None => Err(XyzError::UnknownPreset),
        }
    }
}

/// Whether the cache combo's text switches the cache on.
pub fn cache_text_enabled(text: &str) -> (b: bool)
    ensures
        b == (text@ == "Enabled"@),
{
    same_text(text, "Enabled")
}

/// The status line once a preset is shown.
pub fn basemap_status(name: &str) -> (r: String)
    ensures
        r@ == "Basemap: "@ + name@,
{
    let mut out = "Basemap: ".to_owned();
    out.append(name);
    out
}

/// The tile size of the pane at `index` in the tile size comparison: 256
/// pixels on the left, 512 on the right.
pub fn pane_tile_size(index: usize) -> (s: i32)
    ensures
        s == (if index == 0 { 256i32 } else { 512i32 }),
{
    if index == 0 {
        256
    } else {
        512
    }
}

/// The layer name of a pane with `size`-pixel tiles.
pub fn tile_layer_name(size: i32) -> (r: String)
    requires
        size >= 0,
    ensures
        r@ == decimal(size as nat) + " px tiles"@,
{
    let mut out = String::new();
    push_decimal(&mut out, size as u64);
    out.append(" px tiles");
    out
}

/// The raster tile cache of a loading mode.
#[derive(Debug, Clone, Copy, PartialEq, Eq, Structural)]
pub struct CacheBudget {
    pub enabled: bool,
    /// The pixels the cache may hold.
    pub pixels: i64,
    /// The pixels one cached tile may have.
    pub item_pixels: i64,
}

/// The cache of mode `mode`: none, a small one, or a large one.
pub fn cache_budget(mode: i32) -> (b: CacheBudget)
    requires
        0 <= mode < 3,
    ensures
        b.enabled == (mode != 0),
        mode == 0 ==> b.pixels == 0 && b.item_pixels == 0,
        mode == 1 ==> b.pixels == 131072 && b.item_pixels == 131072,
        mode == 2 ==> b.pixels == 4194304 && b.item_pixels == 262144,
{
    if mode == 0 {
        CacheBudget { enabled: false, pixels: 0, item_pixels: 0 }
    } else if mode == 1 {
        CacheBudget { enabled: true, pixels: 131072, item_pixels: 131072 }
    } else {
        CacheBudget { enabled: true, pixels: 4194304, item_pixels: 262144 }
    }
}

/// Two presets never share a URL template.
proof fn lemma_urls_differ(i: int, j: int)
    requires
        0 <= j < i < preset_count(),
    ensures
        preset(j).1 != preset(i).1,
{
    reveal_strlit("https://tile.openstreetmap.org/{z}/{x}/{y}.png");
    reveal_strlit("http://ecn.t3.tiles.virtualearth.net/tiles/a{q}.jpeg?g=1");
    reveal_strlit("http://basemaps.cartocdn.com/dark_all/{z}/{x}/{y}.png");
    reveal_strlit("http://basemaps.cartocdn.com/dark_nolabels/{z}/{x}/{y}.png");
    reveal_strlit("http://basemaps.cartocdn.com/light_all/{z}/{x}/{y}.png");
    reveal_strlit("http://basemaps.cartocdn.com/light_nolabels/{z}/{x}/{y}.png");
    reveal_strlit("https://server.arcgisonline.com/ArcGIS/rest/services/Reference/World_Boundaries_and_Places/MapServer/tile/{z}/{y}/{x}");
    reveal_strlit("http://services.arcgisonline.com/ArcGIS/rest/services/Canvas/World_Dark_Gray_Base/MapServer/tile/{z}/{y}/{x}");
    reveal_strlit("http://services.arcgisonline.com/ArcGIS/rest/services/Canvas/World_Light_Gray_Base/MapServer/tile/{z}/{y}/{x}");
    reveal_strlit("http://services.arcgisonline.com/ArcGIS/rest/services/Elevation/World_Hillshade/MapServer/tile/{z}/{y}/{x}");
    reveal_strlit("http://services.arcgisonline.com/ArcGIS/rest/services/NatGeo_World_Map/MapServer/tile/{z}/{y}/{x}");
    reveal_strlit("http://services.arcgisonline.com/ArcGIS/rest/services/Specialty/World_Navigation_Charts/MapServer/tile/{z}/{y}/{x}");
    reveal_strlit("https://services.arcgisonline.com/ArcGIS/rest/services/Ocean/World_Ocean_Base/MapServer/tile/{z}/{y}/{x}");
    reveal_strlit("https://services.arcgisonline.com/ArcGIS/rest/services/World_Physical_Map/MapServer/tile/{z}/{y}/{x}");
    reveal_strlit("https://server.arcgisonline.com/ArcGIS/rest/services/World_Imagery/MapServer/tile/{z}/{y}/{x}");
    reveal_strlit("https://server.arcgisonline.com/ArcGIS/rest/services/World_Shaded_Relief/MapServer/tile/{z}/{y}/{x}");
    reveal_strlit("https://server.arcgisonline.com/ArcGIS/rest/services/World_Street_Map/MapServer/tile/{z}/{y}/{x}");
    reveal_strlit("http://services.arcgisonline.com/ArcGIS/rest/services/World_Topo_Map/MapServer/tile/{z}/{y}/{x}");
    reveal_strlit("https://server.arcgisonline.com/ArcGIS/rest/services/Reference/World_Transportation/MapServer/tile/{z}/{y}/{x}");
    reveal_strlit("https://mt1.google.com/vt/lyrs=m&x={x}&y={y}&z={z}");
    reveal_strlit("https://mt1.google.com/vt/lyrs=s&x={x}&y={y}&z={z}");
    reveal_strlit("https://mt1.google.com/vt/lyrs=y&x={x}&y={y}&z={z}");
    reveal_strlit("https://mt1.google.com/vt/lyrs=t&x={x}&y={y}&z={z}");
    reveal_strlit("https://mt1.google.com/vt/lyrs=p&x={x}&y={y}&z={z}");
    reveal_strlit("https://s3.amazonaws.com/elevation-tiles-prod/terrarium/{z}/{x}/{y}.png");
    reveal_strlit("https://demo.gempa.de/gaps/tiles/{z}/{y}/{x}");
    reveal_strlit("https://tile.opentopomap.org/{z}/{x}/{y}.png");
    let (a, b) = (preset(j).1, preset(i).1);
    if a.len() == b.len() {
        assert(a[8] != b[8] || a[31] != b[31]);
    }
}

/// Every preset is found again by its URL template: a preset chosen by its
/// name is the one whose layer is added.
pub proof fn lemma_preset_found_by_url(i: int)
    requires
        0 <= i < preset_count(),
    ensures
        preset_with_url(preset(i).1) == Some(i),
{
    let url = preset(i).1;
    assert forall|j: int| 0 <= j < i implies preset(j).1 != url by {
        lemma_urls_differ(i, j);
    }
    let k = choose|k: int| 0 <= k < preset_count() && preset(k).1 == url && forall|j: int|
        0 <= j < k ==> preset(j).1 != url;
    if k < i {
        lemma_urls_differ(i, k);
    }
    assert(k == i);
}

/// The starting template is in the catalogue, so the samples' first layer
/// can always be added.
pub proof fn lemma_start_is_a_preset()
    ensures
        preset_with_url(osm_template()) == Some(25int),
{
    lemma_preset_found_by_url(25);
}

} // verus!
