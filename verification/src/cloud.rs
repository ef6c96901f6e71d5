//! Remote data: which searched imagery tiles are opened, the checks on what
//! the remote services report, and the texts of the cloud samples.
use vstd::prelude::*;
use crate::text::same_text;
use crate::text::push_char;
use crate::text::push_signed;
use crate::text::signed_decimal;

verus! {

/// The most tiles opened from one search.
pub open spec fn tile_limit() -> int {
    16
}

/// One searched item: its tile key (zone, latitude band and grid square)
/// and whether it has a visual asset.
#[derive(Debug, Clone)]
pub struct TileItem {
    pub key: String,
    pub has_visual: bool,
}

/// The items as values.
pub open spec fn item_views(items: Seq<TileItem>) -> Seq<(Seq<char>, bool)> {
    items.map_values(|t: TileItem| (t.key@, t.has_visual))
}

/// Whether one of the picked items has key `key`.
pub open spec fn key_taken(items: Seq<(Seq<char>, bool)>, picked: Seq<int>, key: Seq<char>) -> bool {
    exists|k: int| 0 <= k < picked.len() && items[picked[k]].0 == key
}

/// The items picked among the first `n`, in order: an item is picked when
/// it has a visual asset and no item of its tile was picked before, until
/// the limit is reached.
pub open spec fn picked(items: Seq<(Seq<char>, bool)>, n: int) -> Seq<int>
    decreases n,
{
    if n <= 0 {
        Seq::empty()
    } else {
        let p = picked(items, n - 1);
        if p.len() >= tile_limit() {
            p
        } else if key_taken(items, p, items[n - 1].0) {
            p
        } else if items[n - 1].1 {
            p.push(n - 1)
        } else {
            p
        }
    }
}

proof fn lemma_picked_full_stays(items: Seq<(Seq<char>, bool)>, n: int, m: int)
    requires
        0 <= n <= m,
        picked(items, n).len() >= tile_limit(),
    ensures
        picked(items, m) == picked(items, n),
    decreases m - n,
{
    if n < m {
        lemma_picked_full_stays(items, n, m - 1);
    }
}

proof fn lemma_picked_bounds(items: Seq<(Seq<char>, bool)>, n: int)
    requires
        0 <= n,
    ensures
        picked(items, n).len() <= tile_limit(),
        forall|k: int| 0 <= k < picked(items, n).len() ==> 0 <= #[trigger] picked(items, n)[k] < n,
    decreases n,
{
    if n > 0 {
        lemma_picked_bounds(items, n - 1);
    }
}

/// The searched items to open, by index; refused when none has a visual
/// asset ("No visual COG assets matched the search").
pub fn select_tiles(items: &Vec<TileItem>) -> (r: Result<Vec<usize>, &'static str>)
    ensures
        match r {
            Ok(v) => v@.map_values(|i: usize| i as int) == picked(item_views(items@), items.len() as int)
                && v.len() > 0,
            Err(m) => picked(item_views(items@), items.len() as int).len() == 0 && m@
                == "No visual COG assets matched the search"@,
        },
{
    let ghost views = item_views(items@);
    let mut chosen: Vec<usize> = Vec::new();
    let mut keys: Vec<String> = Vec::new();
    let mut i: usize = 0;
    while i < items.len()
        invariant
            i <= items.len(),
            views == item_views(items@),
            chosen@.map_values(|j: usize| j as int) == picked(views, i as int),
            keys.len() == chosen.len(),
            forall|k: int| 0 <= k < chosen.len() ==> (#[trigger] keys@[k])@ == views[chosen@[k] as int].0,
            forall|k: int| 0 <= k < chosen.len() ==> #[trigger] chosen@[k] < i,
            chosen.len() < 16,
        decreases items.len() - i,
    {
        let ghost before = chosen@.map_values(|j: usize| j as int);
        let item = &items[i];
        let mut taken = false;
        let mut k: usize = 0;
        while k < keys.len()
            invariant
                k <= keys.len(),
                !taken ==> forall|q: int| 0 <= q < k ==> keys@[q]@ != item.key@,
                taken ==> exists|q: int| 0 <= q < keys.len() && keys@[q]@ == item.key@,
            decreases keys.len() - k,
        {
            if same_text(keys[k].as_str(), item.key.as_str()) {
                taken = true;
            }
            k = k + 1;
        }
        proof {
            assert(views[i as int] == (item.key@, item.has_visual));
            if taken {
                let q = choose|q: int| 0 <= q < keys.len() && keys@[q]@ == item.key@;
                assert(before[q] == chosen@[q] as int);
                assert(views[before[q]].0 == item.key@);
            } else {
                assert forall|q: int| 0 <= q < before.len() implies views[before[q]].0 != item.key@ by {
                    assert(before[q] == chosen@[q] as int);
                    assert(keys@[q]@ != item.key@);
                }
            }
        }
        if !taken && item.has_visual {
            chosen.push(i);
            keys.push(item.key.clone());
            assert(chosen@.map_values(|j: usize| j as int) =~= before.push(i as int));
        }
        i = i + 1;
        if chosen.len() >= 16 {
            proof {
                lemma_picked_full_stays(views, i as int, items.len() as int);
            }
            return Ok(chosen);
        }
    }
    if chosen.len() == 0 {
        assert(picked(views, items.len() as int).len() == 0);
        return Err("No visual COG assets matched the search");
    }
    Ok(chosen)
}

/// What a report becomes in the cloud samples' log: `&` and `<` escaped.
pub open spec fn report_char(c: char) -> Seq<char> {
    if c == '&' {
        seq!['&', 'a', 'm', 'p', ';']
    } else if c == '<' {
        seq!['&', 'l', 't', ';']
    } else {
        seq![c]
    }
}

/// A report as the cloud samples show it.
pub open spec fn report_markup(s: Seq<char>) -> Seq<char>
    decreases s.len(),
{
    if s.len() == 0 {
        Seq::empty()
    } else {
        report_markup(s.drop_last()) + report_char(s.last())
    }
}

/// A remote service's report, preformatted for the log.
pub fn report_log(report: &str) -> (r: String)
    ensures
        r@ == "<pre>"@ + report_markup(report@) + "</pre>"@,
{
    broadcast use vstd::string::group_string_axioms;
    let mut out = "<pre>".to_owned();
    let ghost head = out@;
    for c in it: report.chars()
        invariant
            it.seq() == report@,
            out@ == head + report_markup(report@.take(it.index() as int)),
    {
        assert(report@.take(it.index() + 1).drop_last() =~= report@.take(it.index() as int));
        let ghost before = out@;
        if c == '&' {
            push_char(&mut out, '&');
            push_char(&mut out, 'a');
            push_char(&mut out, 'm');
            push_char(&mut out, 'p');
            push_char(&mut out, ';');
        } else if c == '<' {
            push_char(&mut out, '&');
            push_char(&mut out, 'l');
            push_char(&mut out, 't');
            push_char(&mut out, ';');
        } else {
            push_char(&mut out, c);
        }
        assert(out@ =~= before + report_char(c));
    }
    assert(report@.take(report@.len() as int) =~= report@);
    out.append("</pre>");
    out
}

/// The coordinate system of an opened raster: a positive EPSG code, or the
/// refusal ("Raster CRS is unavailable").
pub fn raster_epsg(code: Option<i64>) -> (r: Result<i32, &'static str>)
    ensures
        forall|c: i64| code == Some(c) && c > 0 ==> r == Ok::<i32, &'static str>(c as i32),
        !(code matches Some(c) && c > 0) ==> (r matches Err(m) && m@ == "Raster CRS is unavailable"@),
{
    match code {
        Some(c) => if c > 0 {
            Ok(c as i32)
        } else {
            Err("Raster CRS is unavailable")
        },
        None => Err("Raster CRS is unavailable"),
    }
}

/// Whether a tile archive has layers to open ("PMTiles has no vector
/// source layers" when it has none).
pub fn check_sources(count: usize) -> (r: Result<(), &'static str>)
    ensures
        r is Ok <==> count > 0,
        r matches Err(m) ==> m@ == "PMTiles has no vector source layers"@,
{
    if count == 0 {
        Err("PMTiles has no vector source layers")
    } else {
        Ok(())
    }
}

/// The error given when a source layer of a tile archive does not open.
pub fn source_layer_failure(index: i64) -> (r: String)
    ensures
        r@ == "Could not open PMTiles source layer "@ + signed_decimal(index as int),
{
    let mut out = "Could not open PMTiles source layer ".to_owned();
    push_signed(&mut out, index);
    out
}

/// The error given when a remote raster does not open.
pub fn open_failure(path: &str) -> (r: String)
    ensures
        r@ == "GDAL could not open "@ + path@,
{
    let mut out = "GDAL could not open ".to_owned();
    out.append(path);
    out
}

/// What is picked never exceeds the limit, only items with a visual asset
/// are picked, and no two picked items share a tile.
pub proof fn lemma_picked_items(items: Seq<(Seq<char>, bool)>, n: int)
    requires
        0 <= n <= items.len(),
    ensures
        picked(items, n).len() <= tile_limit(),
        forall|k: int| 0 <= k < picked(items, n).len() ==> items[#[trigger] picked(items, n)[k]].1,
        forall|k: int, l: int|
            0 <= k < l < picked(items, n).len() ==> items[#[trigger] picked(items, n)[k]].0 != items[#[trigger] picked(
                items,
                n,
            )[l]].0,
    decreases n,
{
    lemma_picked_bounds(items, n);
    if n > 0 {
        lemma_picked_items(items, n - 1);
        lemma_picked_bounds(items, n - 1);
    }
}

} // verus!
