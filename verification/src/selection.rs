//! Feature selection samples: the report of the selection set, the status
//! lines, and how a click is read.
use vstd::prelude::*;
use crate::text::escape_markup;
use crate::text::escape_markup_text;
use crate::text::push_decimal;
use crate::text::decimal;
use crate::text::trimmed;
use crate::text::trim_text;
use crate::text::push_char;

verus! {

/// Whether a viewer event is a primary click on the map: a mouse event
/// (type twenty) of the left button (two) released (one).
pub fn is_map_click(event_type: i32, button: i32, phase: i32) -> (b: bool)
    ensures
        b == (event_type == 20 && button == 2 && phase == 1),
{
    event_type == 20 && button == 2 && phase == 1
}

/// Whether a click with these keyboard modifiers toggles the hit feature
/// in the selection (Ctrl held) rather than adding it.
pub fn toggles_selection(modifiers: i32) -> (b: bool)
    ensures
        b == (modifiers & 0x0400_0000i32 != 0),
{
    modifiers & 0x0400_0000i32 != 0
}

/// The attribute that names a hit feature: the first of the candidate
/// attributes (in the order the caller looks them up) that holds text that
/// is not blank, or `-`.
pub open spec fn first_named(c: Seq<Option<Seq<char>>>) -> Seq<char>
    decreases c.len(),
{
    if c.len() == 0 {
        "-"@
    } else {
        match c[0] {
            Some(v) => if trimmed(v).len() > 0 {
                v
            } else {
                first_named(c.drop_first())
            },
            None => first_named(c.drop_first()),
        }
    }
}

/// The candidates' texts, by their views.
pub open spec fn candidate_texts(c: Seq<Option<String>>) -> Seq<Option<Seq<char>>> {
    c.map_values(|o: Option<String>| match o { Some(s) => Some(s@), None => None })
}

/// The name shown for a hit feature.
pub fn feature_name(candidates: &Vec<Option<String>>) -> (r: String)
    ensures
        r@ == first_named(candidate_texts(candidates@)),
{
    let ghost all = candidate_texts(candidates@);
    assert(all.subrange(0, all.len() as int) =~= all);
    let mut i: usize = 0;
    while i < candidates.len()
        invariant
            i <= candidates.len(),
            all == candidate_texts(candidates@),
            first_named(all) == first_named(all.subrange(i as int, all.len() as int)),
        decreases candidates.len() - i,
    {
        let ghost rest = all.subrange(i as int, all.len() as int);
        assert(rest.drop_first() =~= all.subrange(i as int + 1, all.len() as int));
        match &candidates[i] {
            Some(v) => {
                let t = trim_text(v.as_str());
                if !t.is_empty() {
                    return v.clone();
                }
            },
            None => {},
        }
        i = i + 1;
    }
    assert(all.subrange(i as int, all.len() as int) =~= Seq::<Option<Seq<char>>>::empty());
    "-".to_owned()
}

/// One hit of the selection set, as it is listed.
#[derive(Debug, Clone)]
pub struct HitLine {
    /// The layer the feature is in.
    pub layer: String,
    /// The feature's identifier as written by the viewer.
    pub feature: String,
    /// The feature's name.
    pub name: String,
}

/// The hits as values.
pub open spec fn hit_views(hits: Seq<HitLine>) -> Seq<(Seq<char>, Seq<char>, Seq<char>)> {
    hits.map_values(|h: HitLine| (h.layer@, h.feature@, h.name@))
}

/// The lines of the first hits, numbered from one.
pub open spec fn hit_lines(hits: Seq<(Seq<char>, Seq<char>, Seq<char>)>) -> Seq<char>
    decreases hits.len(),
{
    if hits.len() == 0 {
        Seq::empty()
    } else {
        let h = hits.last();
        hit_lines(hits.drop_last()) + decimal(hits.len()) + ". "@ + h.0 + " | Feature "@ + h.1 + " | "@ + h.2
            + seq!['\n']
    }
}

/// The signal lines, each on a line of its own.
pub open spec fn signal_lines(signals: Seq<Seq<char>>) -> Seq<char>
    decreases signals.len(),
{
    if signals.len() == 0 {
        Seq::empty()
    } else {
        signal_lines(signals.drop_last()) + signals.last() + seq!['\n']
    }
}

/// The selection report before it is escaped: the count and the hint, the
/// selection set (or that it is empty), then the selection signals logged
/// so far.
pub open spec fn report_body(hits: Seq<(Seq<char>, Seq<char>, Seq<char>)>, signals: Seq<Seq<char>>) -> Seq<char> {
    "Selected: "@ + decimal(hits.len()) + "\nClick: add | Ctrl+Click: toggle\n\nSelection set\n"@ + (if hits.len()
        == 0 {
        "No selected features.\n"@
    } else {
        Seq::empty()
    }) + hit_lines(hits) + "\nselectionChanged(int count) log\nElapsed time since opening\n"@ + signal_lines(
        signals,
    )
}

/// The selection report as shown in the rich-text log: escaped and
/// preformatted.
pub fn selection_report(hits: &Vec<HitLine>, signals: &Vec<String>) -> (r: String)
    ensures
        r@ == "<pre>"@ + escape_markup(
            report_body(hit_views(hits@), signals@.map_values(|s: String| s@)),
        ) + "</pre>"@,
{
    let ghost hv = hit_views(hits@);
    let ghost sv = signals@.map_values(|s: String| s@);
    let mut body = "Selected: ".to_owned();
    push_decimal(&mut body, hits.len() as u64);
    body.append("\nClick: add | Ctrl+Click: toggle\n\nSelection set\n");
    if hits.len() == 0 {
        body.append("No selected features.\n");
    }
    let ghost head = body@;
    let mut i: usize = 0;
    while i < hits.len()
        invariant
            i <= hits.len(),
            hv == hit_views(hits@),
            body@ == head + hit_lines(hv.subrange(0, i as int)),
        decreases hits.len() - i,
    {
        proof {
            assert(hv.subrange(0, i as int + 1).drop_last() =~= hv.subrange(0, i as int));
        }
        let h = &hits[i];
        push_decimal(&mut body, i as u64 + 1);
        body.append(". ");
        body.append(h.layer.as_str());
        body.append(" | Feature ");
        body.append(h.feature.as_str());
        body.append(" | ");
        body.append(h.name.as_str());
        push_char(&mut body, '\n');
        assert(hv.subrange(0, i as int + 1).last() == hv[i as int]);
        i = i + 1;
    }
    assert(hv.subrange(0, hits.len() as int) =~= hv);
    body.append("\nselectionChanged(int count) log\nElapsed time since opening\n");
    let ghost middle = body@;
    let mut j: usize = 0;
    while j < signals.len()
        invariant
            j <= signals.len(),
            sv == signals@.map_values(|s: String| s@),
            body@ == middle + signal_lines(sv.subrange(0, j as int)),
        decreases signals.len() - j,
    {
        proof {
            assert(sv.subrange(0, j as int + 1).drop_last() =~= sv.subrange(0, j as int));
        }
        body.append(signals[j].as_str());
        push_char(&mut body, '\n');
        assert(sv.subrange(0, j as int + 1).last() == sv[j as int]);
        j = j + 1;
    }
    assert(sv.subrange(0, signals.len() as int) =~= sv);
    let escaped = escape_markup_text(body.as_str());
    let mut out = "<pre>".to_owned();
    out.append(escaped.as_str());
    out.append("</pre>");
    out
}

/// The status line after a selection change.
pub fn selection_status(count: usize) -> (r: String)
    ensures
        r@ == "Selected: "@ + decimal(count as nat) + " | Signal: selectionChanged(int count)"@,
{
    let mut out = "Selected: ".to_owned();
    push_decimal(&mut out, count as u64);
    out.append(" | Signal: selectionChanged(int count)");
    out
}

/// The status line after a click within the world tolerance: how many
/// features were hit and the layer of the one selected.
pub fn tolerance_status(hits: usize, layer: &str) -> (r: String)
    ensures
        r@ == decimal(hits as nat) + " hit(s) | Selected: "@ + layer@,
{
    let mut out = String::new();
    push_decimal(&mut out, hits as u64);
    out.append(" hit(s) | Selected: ");
    out.append(layer);
    out
}

/// Why a field of a hit could not be read.
#[derive(Debug, Clone, Copy, PartialEq, Eq, Structural)]
pub enum HitFieldError {
    /// The hit has no such integer field.
    Missing,
    /// The field does not fit a 32-bit integer.
    OutOfRange,
}

/// A hit's identifying field as a 32-bit integer.
pub fn hit_field(value: Option<i64>) -> (r: Result<i32, HitFieldError>)
    ensures
        value is None ==> r == Err::<i32, HitFieldError>(HitFieldError::Missing),
        forall|v: i64| value == Some(v) ==> (if i32::MIN <= v <= i32::MAX {
            r == Ok::<i32, HitFieldError>(v as i32)
        } else {
            r == Err::<i32, HitFieldError>(HitFieldError::OutOfRange)
        }),
{
    match value {
        None => Err(HitFieldError::Missing),
        Some(v) => {
            if i32::MIN as i64 <= v && v <= i32::MAX as i64 {
                Ok(v as i32)
            } else {
                Err(HitFieldError::OutOfRange)
            }
        },
    }
}

} // verus!
