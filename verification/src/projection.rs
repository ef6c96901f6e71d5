//! Coordinate systems in the viewer: the view each display projection opens
//! on, the texts that name a projection, the authority codes that are
//! resolved to a definition, and which projection diagnostics are expected
//! and silenced.
use vstd::prelude::*;
use vstd::string::StringSliceAdditionalSpecFns;
use crate::text::same_text;
use crate::text::push_signed;
use crate::text::push_char;
use crate::text::trim_text;
use crate::text::upper_text;
use crate::text::trimmed;
use crate::text::uppercased;
use crate::text::signed_decimal;

verus! {

/// The part of the map a display projection opens on.
#[derive(Debug, Clone, Copy, PartialEq, Eq, Structural)]
pub enum ViewFit {
    /// A rectangle centred on the origin that reaches `half_x` to each side
    /// and `half_y` up and down, in hundredths of the projection's unit.
    Centered { half_x: i64, half_y: i64 },
    /// The extent of the loaded layer.
    Layer,
}

/// The whole geographic world, in hundredths of a degree.
pub open spec fn geographic_fit() -> ViewFit {
    ViewFit::Centered { half_x: 18000, half_y: 8500 }
}

/// The square web-mercator world, in hundredths of a metre.
pub open spec fn mercator_fit() -> ViewFit {
    ViewFit::Centered { half_x: 2003750834, half_y: 2003750834 }
}

/// The view the on-the-fly reprojection sample opens for each display
/// projection: the known ones by name, a generic world frame otherwise.
pub open spec fn reprojected_fit(preset: Seq<char>) -> ViewFit {
    if preset == "EPSG:4326"@ {
        geographic_fit()
    } else if preset == "EPSG:3857"@ {
        mercator_fit()
    } else if preset == "EPSG:3395"@ {
        ViewFit::Centered { half_x: 2003750834, half_y: 2000000000 }
    } else if preset == "Miller"@ {
        ViewFit::Centered { half_x: 2003750834, half_y: 1550000000 }
    } else if preset == "Sinusoidal"@ {
        ViewFit::Centered { half_x: 2003750834, half_y: 1050000000 }
    } else {
        ViewFit::Centered { half_x: 1850000000, half_y: 950000000 }
    }
}

/// The view the geographic setup sample opens: the two world frames it
/// knows, the layer's own extent for anything else.
pub open spec fn geographic_setup_fit(preset: Seq<char>) -> ViewFit {
    if preset == "EPSG:4326"@ {
        geographic_fit()
    } else if preset == "EPSG:3857"@ {
        mercator_fit()
    } else {
        ViewFit::Layer
    }
}

impl ViewFit {
    /// The view opened after switching the display to `preset` while the
    /// source layer stays geographic.
    pub fn for_reprojection(preset: &str) -> (f: ViewFit)
        ensures
            f == reprojected_fit(preset@),
    {
        if same_text(preset, "EPSG:4326") {
            ViewFit::Centered { half_x: 18000, half_y: 8500 }
        } else if same_text(preset, "EPSG:3857") {
            ViewFit::Centered { half_x: 2003750834, half_y: 2003750834 }
        } else if same_text(preset, "EPSG:3395") {
            ViewFit::Centered { half_x: 2003750834, half_y: 2000000000 }
        } else if same_text(preset, "Miller") {
            ViewFit::Centered { half_x: 2003750834, half_y: 1550000000 }
        } else if same_text(preset, "Sinusoidal") {
            ViewFit::Centered { half_x: 2003750834, half_y: 1050000000 }
        } else {
            ViewFit::Centered { half_x: 1850000000, half_y: 950000000 }
        }
    }

    /// The view opened by the geographic setup sample for `preset`.
    pub fn for_geographic_setup(preset: &str) -> (f: ViewFit)
        ensures
            f == geographic_setup_fit(preset@),
    {
        if same_text(preset, "EPSG:4326") {
            ViewFit::Centered { half_x: 18000, half_y: 8500 }
        } else if same_text(preset, "EPSG:3857") {
            ViewFit::Centered { half_x: 2003750834, half_y: 2003750834 }
        } else {
            ViewFit::Layer
        }
    }
}

/// Every view the reprojection sample opens is a proper rectangle around the
/// origin, and the two world frames agree between the two samples.
pub proof fn lemma_views_are_proper(preset: Seq<char>)
    ensures
        reprojected_fit(preset) matches ViewFit::Centered { half_x, half_y } && half_x > 0 && half_y > 0,
        geographic_setup_fit(preset) != ViewFit::Layer ==> geographic_setup_fit(preset) == reprojected_fit(preset),
{
}

/// The status line shown once the display projection is `preset`.
pub fn crs_status(preset: &str) -> (r: String)
    ensures
        r@ == "Viewer CRS: "@ + preset@ + "; source layer remains EPSG:4326"@,
{
    let mut out = "Viewer CRS: ".to_owned();
    out.append(preset);
    out.append("; source layer remains EPSG:4326");
    out
}

/// The error given when the viewer does not know the projection `preset`.
pub fn unknown_crs(preset: &str) -> (r: String)
    ensures
        r@ == "Unknown CRS: "@ + preset@,
{
    let mut out = "Unknown CRS: ".to_owned();
    out.append(preset);
    out
}

/// The definition looked up for an authority and a code: `AUTHORITY:code`.
pub fn crs_definition(authority: &str, code: i32) -> (r: String)
    ensures
        r@ == authority@ + seq![':'] + signed_decimal(code as int),
{
    let mut out = authority.to_owned();
    push_char(&mut out, ':');
    push_signed(&mut out, code as i64);
    out
}

/// The authority as looked up: the typed text trimmed and in upper case.
pub fn normalize_authority(text: &str) -> (r: String)
    ensures
        r@ == uppercased(trimmed(text@)),
{
    upper_text(trim_text(text))
}

/// Whether a resolved definition can be shown: the service's own error
/// wins, then a definition without a name is refused.
pub fn check_crs_info(error: Option<&str>, name: Option<&str>) -> (r: Result<(), String>)
    ensures
        error matches Some(e) ==> (r matches Err(m) && m@ == e@),
        error is None ==> ((r is Ok) <==> (name matches Some(n) && n@.len() > 0)),
        error is None ==> (r matches Err(m) ==> m@ == "CRS name missing"@),
{
    match error {
        Some(e) => Err(e.to_owned()),
        None => match name {
            Some(n) => {
                if n.is_empty() {
                    Err("CRS name missing".to_owned())
                } else {
                    Ok(())
                }
            },
            None => Err("CRS name missing".to_owned()),
        },
    }
}

/// The first projection diagnostic that the viewer expects and silences.
pub open spec fn outside_domain_message() -> Seq<u8> {
    "Point outside of projection domain".spec_bytes()
}

/// The second one: the transform gave up and will say no more.
pub open spec fn suppressed_failure_message() -> Seq<u8> {
    "Reprojection failed, err = 2050, further errors will be suppressed on the transform object.".spec_bytes()
}

/// The diagnostic level of a failure.
pub open spec fn failure_level() -> i32 {
    3
}

fn same_bytes(a: &[u8], b: &[u8]) -> (r: bool)
    ensures
        r == (a@ == b@),
{
    if a.len() != b.len() {
        return false;
    }
    let mut i: usize = 0;
    while i < a.len()
        invariant
            i <= a.len(),
            a.len() == b.len(),
            forall|k: int| 0 <= k < i ==> a@[k] == b@[k],
        decreases a.len() - i,
    {
        if a[i] != b[i] {
            return false;
        }
        i = i + 1;
    }
    assert(a@ =~= b@);
    true
}

/// Whether a diagnostic is one of the two expected, harmless projection
/// failures: a point outside the projection's domain, or the transform
/// announcing that it suppresses further errors.
pub fn is_domain_error(level: i32, message: &[u8]) -> (r: bool)
    ensures
        r == (level == failure_level() && (message@ == outside_domain_message()
            || message@ == suppressed_failure_message())),
{
    if level != 3 {
        return false;
    }
    let outside = "Point outside of projection domain".as_bytes();
    if same_bytes(message, outside) {
        return true;
    }
    let suppressed =
        "Reprojection failed, err = 2050, further errors will be suppressed on the transform object.".as_bytes();
    same_bytes(message, suppressed)
}

} // verus!
