//! Verified decision logic for the GeoKernel viewer samples: text rendering
//! for the viewer's rich-text log, geometry transport decoding, routing graph
//! topology, and the state machines that drive the sample controls.
use vstd::prelude::*;

pub mod editing;
pub mod graph;
pub mod transport;
pub mod text;
pub mod projection;
pub mod setup;
pub mod topology;
pub mod classification;
pub mod labels;
pub mod events;
pub mod selection;
pub mod analytics;
pub mod tiles;
pub mod inference;
pub mod memory;
pub mod zones;
pub mod renderers;
pub mod panes;
pub mod cloud;
pub mod drawing;
pub mod layers;
pub mod ordering;
pub mod cities;
pub mod lockfile;

verus! {

/// The interaction tool the map viewer is switched to.
#[derive(Debug, Clone, Copy, PartialEq, Eq, Structural)]
pub enum Tool {
    Pan,
    ZoomBox,
    Info,
    Select,
    AddPoint,
    AddPolyline,
    AddPolygon,
    MoveFeature,
    Route,
    EditVertices,
}

/// Turns a failed step into an error that carries `message`.
pub fn require(ok: bool, message: &str) -> (r: Result<(), String>)
    ensures
        r is Ok <==> ok,
        r matches Err(m) ==> m@ == message@,
{
    if ok {
        Ok(())
    } else {
        Err(message.to_owned())
    }
}

} // verus!
