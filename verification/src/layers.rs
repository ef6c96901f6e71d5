//! Checks and texts of the layer and geometry samples: how many attribute
//! rows are listed, the loaded-layer checks, the raster's centre pixel and
//! the result summaries.
use vstd::prelude::*;
use crate::text::escape_markup;
use crate::text::escape_markup_text;
use crate::text::push_signed;
use crate::text::push_decimal;
use crate::text::signed_decimal;
use crate::text::decimal;

verus! {

/// The most attribute rows listed for a layer.
pub open spec fn listed_rows() -> i32 {
    12
}

/// How many of `count` features have their attributes listed.
pub fn rows_listed(count: i32) -> (n: i32)
    ensures
        n == (if count < 12 { count } else { 12 }),
{
    if count < 12 {
        count
    } else {
        12
    }
}

/// A titled block of the attribute log: the title in bold, then the text
/// escaped and preformatted.
pub fn titled_block(title: &str, text: &str) -> (r: String)
    ensures
        r@ == "<b>"@ + title@ + "</b><pre>"@ + escape_markup(text@) + "</pre>"@,
{
    let mut out = "<b>".to_owned();
    out.append(title);
    out.append("</b><pre>");
    let escaped = escape_markup_text(text);
    out.append(escaped.as_str());
    out.append("</pre>");
    out
}

/// The title of the attribute block of row `row`: `Feature` and the row
/// counted from one.
pub fn feature_title(row: i32) -> (r: String)
    requires
        row < i32::MAX,
    ensures
        r@ == "Feature "@ + signed_decimal(row + 1),
{
    let mut out = "Feature ".to_owned();
    push_signed(&mut out, row as i64 + 1);
    out
}

/// The status line once a layer of `count` features is listed.
pub fn listed_status(count: i32) -> (r: String)
    ensures
        r@ == "Loaded "@ + signed_decimal(count as int) + " features; showing the first 12 attribute rows."@,
{
    let mut out = "Loaded ".to_owned();
    push_signed(&mut out, count as i64);
    out.append(" features; showing the first 12 attribute rows.");
    out
}

/// The features of the measured map: the two layers' counts together, or
/// the refusal when there are not exactly the country and city layers, or
/// no feature.
pub fn measured_features(layers: i32, countries: i32, cities: i32) -> (r: Result<i64, &'static str>)
    ensures
        layers != 2 ==> (r matches Err(m) && m@ == "Expected country and city layers"@),
        layers == 2 && countries + cities <= 0 ==> (r matches Err(m) && m@ == "World layer has no features"@),
        layers == 2 && countries + cities > 0 ==> r == Ok::<i64, &'static str>((countries + cities) as i64),
{
    if layers != 2 {
        return Err("Expected country and city layers");
    }
    let count = countries as i64 + cities as i64;
    if count <= 0 {
        Err("World layer has no features")
    } else {
        Ok(count)
    }
}

/// The status line of the measured map.
pub fn measured_status(count: i64) -> (r: String)
    ensures
        r@ == "World layer loaded — "@ + signed_decimal(count as int) + " features"@,
{
    let mut out = "World layer loaded — ".to_owned();
    push_signed(&mut out, count);
    out.append(" features");
    out
}

/// Whether the arc search found the query's own copy, the second candidate
/// ("ArcFind returned the wrong candidate" otherwise).
pub fn check_arc_found(found: i32) -> (r: Result<(), &'static str>)
    ensures
        r is Ok <==> found == 1,
        r matches Err(m) ==> m@ == "ArcFind returned the wrong candidate"@,
{
    if found == 1 {
        Ok(())
    } else {
        Err("ArcFind returned the wrong candidate")
    }
}

/// The pixel a raster is first inspected at: its centre, for a raster with
/// a positive width and height.
pub fn raster_center(width: Option<u64>, height: Option<u64>) -> (r: Result<(u64, u64), &'static str>)
    ensures
        !(width matches Some(w) && w > 0) ==> (r matches Err(m) && m@ == "Invalid raster width"@),
        (width matches Some(w) && w > 0) && !(height matches Some(h) && h > 0) ==> (r matches Err(m) && m@
            == "Invalid raster height"@),
        forall|w: u64, h: u64|
            width == Some(w) && height == Some(h) && w > 0 && h > 0 ==> r == Ok::<(u64, u64), &'static str>(
                (w / 2, h / 2),
            ),
{
    let w = match width {
        Some(w) => if w > 0 {
            w
        } else {
            return Err("Invalid raster width");
        },
        None => {
            return Err("Invalid raster width");
        },
    };
    let h = match height {
        Some(h) => if h > 0 {
            h
        } else {
            return Err("Invalid raster height");
        },
        None => {
            return Err("Invalid raster height");
        },
    };
    Ok((w / 2, h / 2))
}

/// The status line of a convex hull of `rings` rings and `vertices`
/// vertices.
pub fn hull_status(rings: usize, vertices: usize) -> (r: String)
    ensures
        r@ == "ConvexHullShape: "@ + decimal(rings as nat) + " result rings, "@ + decimal(vertices as nat)
            + " vertices"@,
{
    let mut out = "ConvexHullShape: ".to_owned();
    push_decimal(&mut out, rings as u64);
    out.append(" result rings, ");
    push_decimal(&mut out, vertices as u64);
    out.append(" vertices");
    out
}

/// The spatial predicates shown, each with the case that must satisfy it.
pub open spec fn predicate_name(i: int) -> Seq<char> {
    if i == 0 {
        "contains"@
    } else if i == 1 {
        "within"@
    } else if i == 2 {
        "touch"@
    } else if i == 3 {
        "overlap"@
    } else if i == 4 {
        "cross"@
    } else {
        "disjoint"@
    }
}

/// Predicate `i` as static text.
pub fn predicate_text(i: usize) -> (t: &'static str)
    requires
        i < 6,
    ensures
        t@ == predicate_name(i as int),
{
    if i == 0 {
        "contains"
    } else if i == 1 {
        "within"
    } else if i == 2 {
        "touch"
    } else if i == 3 {
        "overlap"
    } else if i == 4 {
        "cross"
    } else {
        "disjoint"
    }
}

/// Whether a case satisfied its predicate; if not, the error names the
/// predicate and the relation found.
pub fn check_predicate(name: &str, holds: bool, result: &str) -> (r: Result<(), String>)
    ensures
        r is Ok <==> holds,
        r matches Err(m) ==> m@ == "Expected "@ + name@ + " to be true: "@ + result@,
{
    if holds {
        Ok(())
    } else {
        let mut out = "Expected ".to_owned();
        out.append(name);
        out.append(" to be true: ");
        out.append(result);
        Err(out)
    }
}

} // verus!
