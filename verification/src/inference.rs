//! The AI inference samples: stepping through the sample images, the
//! execution provider chosen, how a result is reported, and the check that
//! inferred shapes lie where the raster is.
use vstd::prelude::*;
use crate::text::escaped_char;
use crate::text::push_char;
use crate::text::push_decimal;
use crate::text::decimal;
use crate::text::same_text;
use crate::text::lower_text;
use crate::text::lowercased;
use crate::text::all_ascii;
use crate::text::ascii_lowered;
use crate::ordering::parse_u32;
use crate::ordering::parsed_u32;
use crate::ordering::keyed_views;
use crate::ordering::keyed_order;
use crate::ordering::sort_keyed;
use crate::ordering::lemma_keyed_total;
use crate::cities::file_stem;
use crate::cities::stem_of;

verus! {

/// What one character of a report becomes in the rich-text log: markup is
/// escaped and a line break becomes `<br>`.
pub open spec fn detail_char(c: char) -> Seq<char> {
    if c == '\n' {
        seq!['<', 'b', 'r', '>']
    } else {
        escaped_char(c)
    }
}

/// A report as shown in the rich-text log.
pub open spec fn details_markup(s: Seq<char>) -> Seq<char>
    decreases s.len(),
{
    if s.len() == 0 {
        Seq::empty()
    } else {
        details_markup(s.drop_last()) + detail_char(s.last())
    }
}

/// Writes a report for the rich-text log.
pub fn details_text(text: &str) -> (r: String)
    ensures
        r@ == details_markup(text@),
{
    broadcast use vstd::string::group_string_axioms;
    let mut out = String::new();
    for c in it: text.chars()
        invariant
            it.seq() == text@,
            out@ == details_markup(text@.take(it.index() as int)),
    {
        assert(text@.take(it.index() + 1).drop_last() =~= text@.take(it.index() as int));
        let ghost before = out@;
        if c == '\n' {
            push_char(&mut out, '<');
            push_char(&mut out, 'b');
            push_char(&mut out, 'r');
            push_char(&mut out, '>');
        } else if c == '&' {
            push_char(&mut out, '&');
            push_char(&mut out, 'a');
            push_char(&mut out, 'm');
            push_char(&mut out, 'p');
            push_char(&mut out, ';');
        } else if c == '<' {
            push_char(&mut out, '&');
            push_char(&mut out, 'l');
            push_char(&mut out, 't');
            push_char(&mut out, ';');
        } else if c == '>' {
            push_char(&mut out, '&');
            push_char(&mut out, 'g');
            push_char(&mut out, 't');
            push_char(&mut out, ';');
        } else {
            push_char(&mut out, c);
        }
        assert(out@ =~= before + detail_char(c));
    }
    assert(text@.take(text@.len() as int) =~= text@);
    out
}

/// The image a control moves to, from image `current` of `count`: the
/// previous one (7) or the next one (8) where there is one, or the image
/// chosen by name (9, found at `chosen`) when it is another one.
pub open spec fn image_step(id: i32, current: int, count: int, chosen: Option<int>) -> Option<int> {
    if id == 7 {
        if current > 0 {
            Some(current - 1)
        } else {
            None
        }
    } else if id == 8 {
        if current + 1 < count {
            Some(current + 1)
        } else {
            None
        }
    } else if id == 9 {
        match chosen {
            Some(i) => if i != current {
                Some(i)
            } else {
                None
            },
            None => None,
        }
    } else {
        None
    }
}

/// The image to move to after control `id`, if any.
pub fn next_image(id: i32, current: usize, count: usize, chosen: Option<usize>) -> (r: Option<usize>)
    requires
        current < count,
    ensures
        r == (match image_step(id as i32, current as int, count as int, match chosen {
            Some(i) => Some(i as int),
            None => None,
        }) {
            Some(i) => Some(i as usize),
            None => None,
        }),
{
    if id == 7 {
        if current > 0 {
            Some(current - 1)
        } else {
            None
        }
    } else if id == 8 {
        if current + 1 < count {
            Some(current + 1)
        } else {
            None
        }
    } else if id == 9 {
        match chosen {
            Some(i) => if i != current {
                Some(i)
            } else {
                None
            },
            None => None,
        }
    } else {
        None
    }
}

/// The first of `names` that is `text`.
pub fn name_position(names: &Vec<String>, text: &str) -> (r: Option<usize>)
    ensures
        r matches Some(i) ==> i < names.len() && names@[i as int]@ == text@ && forall|j: int|
            0 <= j < i ==> names@[j]@ != text@,
        r is None ==> forall|j: int| 0 <= j < names.len() ==> names@[j]@ != text@,
{
    let mut i: usize = 0;
    while i < names.len()
        invariant
            i <= names.len(),
            forall|j: int| 0 <= j < i ==> names@[j]@ != text@,
        decreases names.len() - i,
    {
        if same_text(names[i].as_str(), text) {
            return Some(i);
        }
        i = i + 1;
    }
    None
}

/// Whether the previous and the next image buttons are enabled at image
/// `index` of `count`; an index past the images is refused ("Invalid image
/// index").
pub fn image_buttons(index: usize, count: usize) -> (r: Result<(bool, bool), &'static str>)
    ensures
        index < count ==> r == Ok::<(bool, bool), &'static str>((index > 0, index + 1 < count)),
        index >= count ==> (r matches Err(m) && m@ == "Invalid image index"@),
{
    if index >= count {
        return Err("Invalid image index");
    }
    Ok((index > 0, index + 1 < count))
}

/// The position line of image `index` of `count`, called `name`.
pub fn image_position(index: usize, count: usize, name: &str) -> (r: String)
    requires
        index < count,
    ensures
        r@ == decimal(index as nat + 1) + " / "@ + decimal(count as nat) + " - "@ + name@,
{
    let mut out = String::new();
    push_decimal(&mut out, index as u64 + 1);
    out.append(" / ");
    push_decimal(&mut out, count as u64);
    out.append(" - ");
    out.append(name);
    out
}

/// The execution provider chosen by a number: the last one for any number
/// past the end.
pub fn provider_index(n: usize, count: usize) -> (r: usize)
    requires
        count > 0,
    ensures
        r == (if n < count { n } else { (count - 1) as usize }),
{
    if n < count {
        n
    } else {
        count - 1
    }
}

/// Whether inferred polygons may be kept: when there are some, at least one
/// must lie in the raster's view.
pub fn check_overlap(total: usize, visible: usize) -> (r: Result<(), &'static str>)
    ensures
        r is Ok <==> (total == 0 || visible > 0),
        r matches Err(m) ==> m@ == "Inference polygons do not overlap the raster view; check coordinate systems"@,
{
    if total > 0 && visible == 0 {
        Err("Inference polygons do not overlap the raster view; check coordinate systems")
    } else {
        Ok(())
    }
}

/// The status line after `count` buildings were vectorized.
pub fn completed_status(count: usize) -> (r: String)
    ensures
        r@ == "Inference completed: "@ + decimal(count as nat) + " building polygons"@,
{
    let mut out = "Inference completed: ".to_owned();
    push_decimal(&mut out, count as u64);
    out.append(" building polygons");
    out
}

/// Stepping never leaves the images: a step from an image lands on another
/// image, and the previous and next steps undo each other.
pub proof fn lemma_image_steps(current: int, count: int, chosen: Option<int>)
    requires
        0 <= current < count,
        chosen matches Some(i) ==> 0 <= i < count,
    ensures
        forall|id: i32| #[trigger] image_step(id, current, count, chosen) matches Some(i) ==> 0 <= i < count && i
            != current,
        image_step(8, current, count, chosen) matches Some(i) ==> image_step(7, i, count, chosen) == Some(current),
        image_step(7, current, count, chosen) matches Some(i) ==> image_step(8, i, count, chosen) == Some(current),
{
}

/// The order key of a sample image: its stem as a number, or past every
/// number when the stem is not one.
pub open spec fn image_key_of(name: Seq<char>) -> u32 {
    match parsed_u32(stem_of(name)) {
        Some(n) => n,
        None => u32::MAX,
    }
}

/// The order key of the sample image called `name`.
pub fn image_key(name: &str) -> (k: u32)
    ensures
        k == image_key_of(name@),
{
    let stem = file_stem(name);
    match parse_u32(stem.as_str()) {
        Some(n) => n,
        None => u32::MAX,
    }
}

/// Whether an extension, in lower case, is one of the sample image
/// formats.
pub open spec fn image_extension(ext: Seq<char>) -> bool {
    is_image_name(lowercased(ext))
}

/// One of the sample image extensions, in lower case.
pub open spec fn is_image_name(e: Seq<char>) -> bool {
    e == "jpg"@ || e == "jpeg"@ || e == "png"@ || e == "tif"@ || e == "tiff"@
}

/// Whether a file with extension `ext` is a sample image; on an ASCII
/// extension, whether its ASCII lower case is one of them.
pub fn is_image_extension(ext: &str) -> (b: bool)
    ensures
        b == image_extension(ext@),
        all_ascii(ext@) ==> b == is_image_name(ext@.map_values(|c: char| ascii_lowered(c))),
{
    let e = lower_text(ext);
    let s = e.as_str();
    same_text(s, "jpg") || same_text(s, "jpeg") || same_text(s, "png") || same_text(s, "tif") || same_text(
        s,
        "tiff",
    )
}

/// The sample images in the order they are offered: numbered images by
/// number, then the others, each group by name; refused when there is
/// none ("No supported sample images found").
pub fn order_images(names: Vec<String>) -> (r: Result<Vec<String>, &'static str>)
    ensures
        names.len() == 0 ==> (r matches Err(m) && m@ == "No supported sample images found"@),
        names.len() > 0 ==> (r matches Ok(v) && v.len() == names.len() && forall|i: int|
            #![trigger v@[i]]
            0 <= i < v.len() ==> v@[i]@ == keyed_views(
                names@.map_values(|f: String| (image_key_of(f@), f)),
            ).sort_by(keyed_order())[i].1),
{
    if names.len() == 0 {
        return Err("No supported sample images found");
    }
    let ghost n = names.len();
    let mut keyed: Vec<(u32, String)> = Vec::new();
    let mut i: usize = 0;
    while i < names.len()
        invariant
            i <= names.len(),
            keyed.len() == i,
            forall|k: int| 0 <= k < i ==> (#[trigger] keyed@[k]).0 == image_key_of(names@[k]@) && keyed@[k].1@
                == names@[k]@,
        decreases names.len() - i,
    {
        let key = image_key(names[i].as_str());
        keyed.push((key, names[i].clone()));
        i = i + 1;
    }
    assert(keyed_views(keyed@) =~= keyed_views(names@.map_values(|f: String| (image_key_of(f@), f))));
    let sorted = sort_keyed(keyed);
    let ghost sv = keyed_views(sorted@);
    proof {
        let input = keyed_views(names@.map_values(|f: String| (image_key_of(f@), f)));
        lemma_keyed_total();
        input.lemma_sort_by_ensures(keyed_order());
        vstd::seq_lib::to_multiset_len(input);
        vstd::seq_lib::to_multiset_len(sv);
        assert(sv.len() == n);
    }
    let mut out: Vec<String> = Vec::new();
    let mut j: usize = 0;
    while j < sorted.len()
        invariant
            j <= sorted.len(),
            sv == keyed_views(sorted@),
            out.len() == j,
            forall|k: int| 0 <= k < j ==> (#[trigger] out@[k])@ == sv[k].1,
        decreases sorted.len() - j,
    {
        out.push(sorted[j].1.clone());
        j = j + 1;
    }
    Ok(out)
}

/// The execution provider as the inference service takes it: in lower
/// case.
pub fn provider_name(text: &str) -> (r: String)
    ensures
        r@ == lowercased(text@),
        all_ascii(text@) ==> r@ == text@.map_values(|c: char| ascii_lowered(c)),
{
    lower_text(text)
}

/// The legend of the land-cover classes shown after the details.
pub open spec fn land_legend() -> Seq<char> {
    "<br><br><b>ESA WorldCover classes</b><br><font color='#006400'>●</font> Tree cover &nbsp; <font color='#ffbb22'>●</font> Shrubland &nbsp; <font color='#ffff4c'>●</font> Grassland<br><font color='#f096ff'>●</font> Cropland &nbsp; <font color='#fa0000'>●</font> Built-up &nbsp; <font color='#b4b4b4'>●</font> Bare / sparse<br><font color='#0064c8'>●</font> Permanent water"@
}

/// The land-cover details as log markup: the escaped text, then the legend.
pub fn land_details(text: &str) -> (r: String)
    ensures
        r@ == details_markup(text@) + land_legend(),
{
    let mut out = details_text(text);
    out.append("<br><br><b>ESA WorldCover classes</b><br><font color='#006400'>●</font> Tree cover &nbsp; <font color='#ffbb22'>●</font> Shrubland &nbsp; <font color='#ffff4c'>●</font> Grassland<br><font color='#f096ff'>●</font> Cropland &nbsp; <font color='#fa0000'>●</font> Built-up &nbsp; <font color='#b4b4b4'>●</font> Bare / sparse<br><font color='#0064c8'>●</font> Permanent water");
    out
}

/// What a land-cover run reports, as written by the service.
#[derive(Debug, Clone)]
pub struct LandFacts {
    pub model_id: String,
    pub model_version: String,
    pub provider: String,
    pub width: String,
    pub height: String,
    pub tiles: String,
    pub elapsed: String,
    pub mask_path: String,
    pub preview_path: String,
}

/// The diagnostics text of a land-cover run.
pub open spec fn land_text(f: LandFacts) -> Seq<char> {
    "GeoKernel AI land-cover inference\n\nModel: "@ + f.model_id@ + " "@ + f.model_version@ + "\nProvider: "@
        + f.provider@ + "\nRaster: "@ + f.width@ + " x "@ + f.height@ + "\nTiles: "@ + f.tiles@ + "\nElapsed: "@
        + f.elapsed@ + " ms\n\nClass mask:\n"@ + f.mask_path@ + "\n\nColor preview:\n"@ + f.preview_path@
}

/// Writes the diagnostics text of a land-cover run.
pub fn land_diagnostics(f: &LandFacts) -> (r: String)
    ensures
        r@ == land_text(*f),
{
    let mut out = "GeoKernel AI land-cover inference\n\nModel: ".to_owned();
    out.append(f.model_id.as_str());
    out.append(" ");
    out.append(f.model_version.as_str());
    out.append("\nProvider: ");
    out.append(f.provider.as_str());
    out.append("\nRaster: ");
    out.append(f.width.as_str());
    out.append(" x ");
    out.append(f.height.as_str());
    out.append("\nTiles: ");
    out.append(f.tiles.as_str());
    out.append("\nElapsed: ");
    out.append(f.elapsed.as_str());
    out.append(" ms\n\nClass mask:\n");
    out.append(f.mask_path.as_str());
    out.append("\n\nColor preview:\n");
    out.append(f.preview_path.as_str());
    out
}

/// The land-cover panel: the raster and model chosen, the execution
/// provider, whether a prediction layer is shown, and whether a run was
/// asked for.
#[derive(Debug, Clone)]
pub struct LandCoverPanel {
    pub raster: String,
    pub model: String,
    pub provider: String,
    pub has_prediction: bool,
    pub start: bool,
}

/// What a land-cover control asks for beyond the panel's own state.
#[derive(Debug, Clone, Copy, PartialEq, Eq, Structural)]
pub enum LandAction {
    Nothing,
    /// The raster changed: open it if it is a file, then `input_opened`.
    OpenIfFile,
    /// Clear the result: remove the prediction layer where there is one,
    /// disable its controls, reset the progress and say so.
    Clear { remove_layer: bool },
    /// The opacity changed: apply it to the prediction layer where there is
    /// one.
    Opacity { apply: bool },
}

impl LandCoverPanel {
    /// The panel on `raster` and `model`, with the automatic provider and no
    /// prediction.
    pub fn new(raster: &str, model: &str) -> (p: LandCoverPanel)
        ensures
            p.raster@ == raster@,
            p.model@ == model@,
            p.provider@ == "auto"@,
            !p.has_prediction,
            !p.start,
    {
        LandCoverPanel {
            raster: raster.to_owned(),
            model: model.to_owned(),
            provider: "auto".to_owned(),
            has_prediction: false,
            start: false,
        }
    }

    /// A control changed: 1 the raster, 2 the model, 3 the provider (in lower
    /// case), 4 a run asked for, 5 clear the result, 7 the opacity.
    pub fn control(&mut self, id: i32, text: &str) -> (a: LandAction)
        ensures
            final(self).raster@ == (if id == 1 { text@ } else { old(self).raster@ }),
            final(self).model@ == (if id == 2 { text@ } else { old(self).model@ }),
            final(self).provider@ == (if id == 3 { lowercased(text@) } else { old(self).provider@ }),
            final(self).start == (id == 4 || old(self).start),
            final(self).has_prediction == (id != 5 && old(self).has_prediction),
            a == (if id == 1 {
                LandAction::OpenIfFile
            } else if id == 5 {
                LandAction::Clear { remove_layer: old(self).has_prediction }
            } else if id == 7 {
                LandAction::Opacity { apply: old(self).has_prediction }
            } else {
                LandAction::Nothing
            }),
    {
        if id == 1 {
            self.raster = text.to_owned();
            LandAction::OpenIfFile
        } else if id == 2 {
            self.model = text.to_owned();
            LandAction::Nothing
        } else if id == 3 {
            self.provider = provider_name(text);
            LandAction::Nothing
        } else if id == 4 {
            self.start = true;
            LandAction::Nothing
        } else if id == 5 {
            let remove_layer = self.has_prediction;
            self.has_prediction = false;
            LandAction::Clear { remove_layer }
        } else if id == 7 {
            LandAction::Opacity { apply: self.has_prediction }
        } else {
            LandAction::Nothing
        }
    }

    /// A new raster was opened: it has no prediction yet.
    pub fn input_opened(&mut self)
        ensures
            !final(self).has_prediction,
            final(self).raster@ == old(self).raster@,
            final(self).model@ == old(self).model@,
            final(self).provider@ == old(self).provider@,
            final(self).start == old(self).start,
    {
        self.has_prediction = false;
    }

    /// The prediction controls (opacity 7, clear 5) are enabled exactly when
    /// a prediction is shown.
    pub fn prediction_controls(&self) -> (r: Vec<(i32, bool)>)
        ensures
            r@ == seq![(7i32, self.has_prediction), (5i32, self.has_prediction)],
    {
        let mut r: Vec<(i32, bool)> = Vec::new();
        r.push((7, self.has_prediction));
        r.push((5, self.has_prediction));
        r
    }

    /// Whether a run starts now: one was asked for and the window is open.
    pub fn take_start(&mut self, visible: bool) -> (go: bool)
        ensures
            go == (old(self).start && visible),
            final(self).start == (old(self).start && !visible),
            final(self).raster@ == old(self).raster@,
            final(self).model@ == old(self).model@,
            final(self).provider@ == old(self).provider@,
            final(self).has_prediction == old(self).has_prediction,
    {
        let go = self.start && visible;
        if go {
            self.start = false;
        }
        go
    }

    /// A run ended: a prediction is shown after a success, and whatever was
    /// shown stays after a failure.
    pub fn finished(&mut self, ok: bool)
        ensures
            final(self).has_prediction == (old(self).has_prediction || ok),
            final(self).raster@ == old(self).raster@,
            final(self).model@ == old(self).model@,
            final(self).provider@ == old(self).provider@,
            final(self).start == old(self).start,
    {
        self.has_prediction = self.has_prediction || ok;
    }
}

/// A run needs an existing raster file and model folder.
pub fn check_land_inputs(raster_is_file: bool, model_is_dir: bool) -> (r: Result<(), &'static str>)
    ensures
        r is Ok <==> (raster_is_file && model_is_dir),
        r matches Err(m) ==> m@ == "Select an existing input raster and model package."@,
{
    if raster_is_file && model_is_dir {
        Ok(())
    } else {
        Err("Select an existing input raster and model package.")
    }
}

} // verus!
