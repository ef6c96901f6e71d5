//! Reading and writing single geometries: the GeoJSON presets, the checks
//! on a decoded geometry, how it is drawn, and the drawing modes of the
//! GeoJSON writer.
use vstd::prelude::*;
use crate::Tool;
use crate::text::same_text;

verus! {

/// The GeoJSON presets, by the name shown in the preset combo.
pub open spec fn preset_index_of(name: Seq<char>) -> Option<int> {
    if name == "Point"@ {
        Some(0)
    } else if name == "LineString"@ {
        Some(1)
    } else if name == "Polygon"@ {
        Some(2)
    } else if name == "MultiPolygon"@ {
        Some(3)
    } else {
        None
    }
}

/// The preset chosen by name, if any.
pub fn geojson_preset(name: &str) -> (r: Option<usize>)
    ensures
        r is Some <==> preset_index_of(name@) is Some,
        r matches Some(i) ==> preset_index_of(name@) == Some(i as int),
{
    if same_text(name, "Point") {
        Some(0)
    } else if same_text(name, "LineString") {
        Some(1)
    } else if same_text(name, "Polygon") {
        Some(2)
    } else if same_text(name, "MultiPolygon") {
        Some(3)
    } else {
        None
    }
}

/// Whether a decoded geometry has something to draw: at least one part,
/// and no part without points ("Empty geometry" otherwise).
pub fn check_parts(lens: &Vec<usize>) -> (r: Result<(), &'static str>)
    ensures
        r is Ok <==> (lens.len() > 0 && forall|i: int| 0 <= i < lens.len() ==> lens@[i] > 0),
        r matches Err(m) ==> m@ == "Empty geometry"@,
{
    if lens.len() == 0 {
        return Err("Empty geometry");
    }
    let mut i: usize = 0;
    while i < lens.len()
        invariant
            i <= lens.len(),
            forall|k: int| 0 <= k < i ==> lens@[k] > 0,
        decreases lens.len() - i,
    {
        if lens[i] == 0 {
            return Err("Empty geometry");
        }
        i = i + 1;
    }
    Ok(())
}

/// How a decoded geometry is drawn.
#[derive(Debug, Clone, Copy, PartialEq, Eq, Structural)]
pub enum ShapeDraw {
    /// The first point of the first part.
    Point,
    /// Each part as a line.
    Lines,
    /// All parts as one polygon.
    Polygon,
}

/// How a geometry of shape class `class` is drawn, or the refusal
/// ("Unsupported geometry").
pub fn shape_draw(class: Option<&str>) -> (r: Result<ShapeDraw, &'static str>)
    ensures
        match class {
            Some(c) => if c@ == "Point"@ {
                r == Ok::<ShapeDraw, &'static str>(ShapeDraw::Point)
            } else if c@ == "Polyline"@ {
                r == Ok::<ShapeDraw, &'static str>(ShapeDraw::Lines)
            } else if c@ == "Polygon"@ {
                r == Ok::<ShapeDraw, &'static str>(ShapeDraw::Polygon)
            } else {
                r matches Err(m) && m@ == "Unsupported geometry"@
            },
            None => r matches Err(m) && m@ == "Unsupported geometry"@,
        },
{
    match class {
        Some(c) => if same_text(c, "Point") {
            Ok(ShapeDraw::Point)
        } else if same_text(c, "Polyline") {
            Ok(ShapeDraw::Lines)
        } else if same_text(c, "Polygon") {
            Ok(ShapeDraw::Polygon)
        } else {
            Err("Unsupported geometry")
        },
        None => Err("Unsupported geometry"),
    }
}

/// The drawing mode chosen by name in the GeoJSON writer.
pub fn draw_mode(name: &str) -> (r: Option<i32>)
    ensures
        r == (if name@ == "Point"@ {
            Some(0i32)
        } else if name@ == "Polyline"@ {
            Some(1i32)
        } else if name@ == "Polygon"@ {
            Some(2i32)
        } else {
            None
        }),
{
    if same_text(name, "Point") {
        Some(0)
    } else if same_text(name, "Polyline") {
        Some(1)
    } else if same_text(name, "Polygon") {
        Some(2)
    } else {
        None
    }
}

/// The drawing layer of a mode: its shape type (point one, polyline three,
/// polygon five) and the tool that adds to it.
pub fn draw_layer(mode: i32) -> (r: (i32, Tool))
    requires
        0 <= mode < 3,
    ensures
        mode == 0 ==> r == (1i32, Tool::AddPoint),
        mode == 1 ==> r == (3i32, Tool::AddPolyline),
        mode == 2 ==> r == (5i32, Tool::AddPolygon),
{
    if mode == 0 {
        (1, Tool::AddPoint)
    } else if mode == 1 {
        (3, Tool::AddPolyline)
    } else {
        (5, Tool::AddPolygon)
    }
}

/// Whether written GeoJSON read back to at least one part
/// ("GeoJSON roundtrip failed" otherwise).
pub fn check_roundtrip(parts: Option<usize>) -> (r: Result<(), &'static str>)
    ensures
        r is Ok <==> (parts matches Some(n) && n > 0),
        r matches Err(m) ==> m@ == "GeoJSON roundtrip failed"@,
{
    match parts {
        Some(n) => if n > 0 {
            Ok(())
        } else {
            Err("GeoJSON roundtrip failed")
        },
        None => Err("GeoJSON roundtrip failed"),
    }
}

/// Whether the log must show the written GeoJSON: only when it changed.
pub fn output_changed(value: &str, last: &str) -> (b: bool)
    ensures
        b == (value@ != last@),
{
    !same_text(value, last)
}

} // verus!
