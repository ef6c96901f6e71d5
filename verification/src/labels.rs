//! Label styling samples: which sample is which, the style key each control
//! changes, the colours a sample starts with, and the two panes of the
//! collision comparison.
use vstd::prelude::*;
use crate::text::same_text;

verus! {

/// The label samples.
#[derive(Debug, Clone, Copy, PartialEq, Eq, Structural)]
pub enum LabelSample {
    Basic,
    Font,
    Halo,
    Offset,
    Rotation,
    /// Two panes: collision filtering beside overlapping labels.
    CollisionOff,
}

/// The label sample called `name`, if there is one.
pub open spec fn label_sample(name: Seq<char>) -> Option<LabelSample> {
    if name == "BasicLabel"@ {
        Some(LabelSample::Basic)
    } else if name == "LabelFont"@ {
        Some(LabelSample::Font)
    } else if name == "LabelHalo"@ {
        Some(LabelSample::Halo)
    } else if name == "LabelOffset"@ {
        Some(LabelSample::Offset)
    } else if name == "LabelRotation"@ {
        Some(LabelSample::Rotation)
    } else if name == "LabelCollisionOff"@ {
        Some(LabelSample::CollisionOff)
    } else {
        None
    }
}

/// Why a label sample refused.
#[derive(Debug, Clone, Copy, PartialEq, Eq, Structural)]
pub enum LabelError {
    /// No label sample has this name ("Unknown label example").
    UnknownSample,
    /// The sample has no such control ("Unknown label control").
    UnknownControl,
    /// No city was loaded into a collision pane ("No city features loaded").
    NoCities,
}

impl LabelError {
    /// The message shown for the refusal.
    pub fn message(self) -> (m: &'static str)
        ensures
            self == LabelError::UnknownSample ==> m@ == "Unknown label example"@,
            self == LabelError::UnknownControl ==> m@ == "Unknown label control"@,
            self == LabelError::NoCities ==> m@ == "No city features loaded"@,
    {
        match self {
            LabelError::UnknownSample => "Unknown label example",
            LabelError::UnknownControl => "Unknown label control",
            LabelError::NoCities => "No city features loaded",
        }
    }
}

impl LabelSample {
    /// The label sample called `name`.
    pub fn from_name(name: &str) -> (r: Result<LabelSample, LabelError>)
        ensures
            label_sample(name@) matches Some(s) ==> r == Ok::<LabelSample, LabelError>(s),
            label_sample(name@) is None ==> r == Err::<LabelSample, LabelError>(LabelError::UnknownSample),
    {
        if same_text(name, "BasicLabel") {
            Ok(LabelSample::Basic)
        } else if same_text(name, "LabelFont") {
            Ok(LabelSample::Font)
        } else if same_text(name, "LabelHalo") {
            Ok(LabelSample::Halo)
        } else if same_text(name, "LabelOffset") {
            Ok(LabelSample::Offset)
        } else if same_text(name, "LabelRotation") {
            Ok(LabelSample::Rotation)
        } else if same_text(name, "LabelCollisionOff") {
            Ok(LabelSample::CollisionOff)
        } else {
            Err(LabelError::UnknownSample)
        }
    }

    /// The label colour the sample starts with.
    pub fn label_color(self) -> (c: &'static str)
        ensures
            self == LabelSample::Basic ==> c@ == "#FFFF00"@,
            self == LabelSample::Font ==> c@ == "#1F2933"@,
            self != LabelSample::Basic && self != LabelSample::Font ==> c@ == "#253238"@,
    {
        match self {
            LabelSample::Basic => "#FFFF00",
            LabelSample::Font => "#1F2933",
            _ => "#253238",
        }
    }

    /// The halo colour the sample starts with.
    pub fn halo_color(self) -> (c: &'static str)
        ensures
            self == LabelSample::Basic ==> c@ == "#000000"@,
            self == LabelSample::Halo ==> c@ == "#FFF2A8"@,
            self != LabelSample::Basic && self != LabelSample::Halo ==> c@ == "#FFFFFF"@,
    {
        match self {
            LabelSample::Basic => "#000000",
            LabelSample::Halo => "#FFF2A8",
            _ => "#FFFFFF",
        }
    }

    /// Whether the sample starts with the wider halo (two and a half
    /// points rather than two).
    pub fn wide_halo(self) -> (b: bool)
        ensures
            b == (self == LabelSample::Halo),
    {
        match self {
            LabelSample::Halo => true,
            _ => false,
        }
    }
}

/// The colour a halo colour name stands for; white for any other name.
pub open spec fn halo_rgb(name: Seq<char>) -> Seq<char> {
    if name == "Black"@ {
        "#000000"@
    } else if name == "Yellow"@ {
        "#FFF2A8"@
    } else if name == "Blue"@ {
        "#BAE6FD"@
    } else {
        "#FFFFFF"@
    }
}

/// The colour of a halo colour name.
pub fn halo_color_of(name: &str) -> (c: &'static str)
    ensures
        c@ == halo_rgb(name@),
{
    if same_text(name, "Black") {
        "#000000"
    } else if same_text(name, "Yellow") {
        "#FFF2A8"
    } else if same_text(name, "Blue") {
        "#BAE6FD"
    } else {
        "#FFFFFF"
    }
}

/// The style change a label control asks for. The variants without a value
/// take the control's number as it stands.
#[derive(Debug, Clone, PartialEq, Eq)]
pub enum LabelPatch {
    ShowLabels(bool),
    LabelField(String),
    FontSize,
    FontFamily(String),
    Bold(bool),
    Italic(bool),
    HaloEnabled(bool),
    HaloColor(&'static str),
    HaloWidth,
    OffsetX,
    OffsetY,
    /// Both offsets back to zero, and their two controls with them.
    ResetOffset,
    Rotation,
    /// The rotation back to zero, and its control with it.
    ResetRotation,
}

/// The patch as values: its kind, then its flag or its text.
pub open spec fn patch_view(p: LabelPatch) -> (int, bool, Seq<char>) {
    match p {
        LabelPatch::ShowLabels(b) => (0, b, seq![]),
        LabelPatch::LabelField(t) => (1, false, t@),
        LabelPatch::FontSize => (2, false, seq![]),
        LabelPatch::FontFamily(t) => (3, false, t@),
        LabelPatch::Bold(b) => (4, b, seq![]),
        LabelPatch::Italic(b) => (5, b, seq![]),
        LabelPatch::HaloEnabled(b) => (6, b, seq![]),
        LabelPatch::HaloColor(c) => (7, false, c@),
        LabelPatch::HaloWidth => (8, false, seq![]),
        LabelPatch::OffsetX => (9, false, seq![]),
        LabelPatch::OffsetY => (10, false, seq![]),
        LabelPatch::ResetOffset => (11, false, seq![]),
        LabelPatch::Rotation => (12, false, seq![]),
        LabelPatch::ResetRotation => (13, false, seq![]),
    }
}

/// The patch control `id` of sample `s` asks for, given the control's
/// text, as `patch_view` writes it; `None` where the sample has no such
/// control.
pub open spec fn label_change(s: LabelSample, id: i32, text: Seq<char>) -> Option<(int, bool, Seq<char>)> {
    let yes = text == "Yes"@;
    match s {
        LabelSample::Basic => if id == 1 {
            Some((0, yes, seq![]))
        } else if id == 2 {
            Some((1, false, text))
        } else if id == 3 {
            Some((2, false, seq![]))
        } else {
            None
        },
        LabelSample::Font => if id == 1 {
            Some((3, false, text))
        } else if id == 2 {
            Some((4, yes, seq![]))
        } else if id == 3 {
            Some((5, yes, seq![]))
        } else {
            None
        },
        LabelSample::Halo => if id == 1 {
            Some((6, yes, seq![]))
        } else if id == 2 {
            Some((7, false, halo_rgb(text)))
        } else if id == 3 {
            Some((8, false, seq![]))
        } else {
            None
        },
        LabelSample::Offset => if id == 1 {
            Some((9, false, seq![]))
        } else if id == 2 {
            Some((10, false, seq![]))
        } else if id == 3 {
            Some((11, false, seq![]))
        } else {
            None
        },
        LabelSample::Rotation => if id == 1 {
            Some((12, false, seq![]))
        } else if id == 3 {
            Some((13, false, seq![]))
        } else {
            None
        },
        LabelSample::CollisionOff => None,
    }
}

/// The style patch for a change of control `id` in sample `s`.
pub fn label_patch(s: LabelSample, id: i32, text: &str) -> (r: Result<LabelPatch, LabelError>)
    ensures
        label_change(s, id, text@) matches Some(v) ==> (r matches Ok(p) && patch_view(p) == v),
        label_change(s, id, text@) is None ==> r == Err::<LabelPatch, LabelError>(LabelError::UnknownControl),
{
    let yes = same_text(text, "Yes");
    match s {
        LabelSample::Basic => if id == 1 {
            Ok(LabelPatch::ShowLabels(yes))
        } else if id == 2 {
            Ok(LabelPatch::LabelField(text.to_owned()))
        } else if id == 3 {
            Ok(LabelPatch::FontSize)
        } else {
            Err(LabelError::UnknownControl)
        },
        LabelSample::Font => if id == 1 {
            Ok(LabelPatch::FontFamily(text.to_owned()))
        } else if id == 2 {
            Ok(LabelPatch::Bold(yes))
        } else if id == 3 {
            Ok(LabelPatch::Italic(yes))
        } else {
            Err(LabelError::UnknownControl)
        },
        LabelSample::Halo => if id == 1 {
            Ok(LabelPatch::HaloEnabled(yes))
        } else if id == 2 {
            Ok(LabelPatch::HaloColor(halo_color_of(text)))
        } else if id == 3 {
            Ok(LabelPatch::HaloWidth)
        } else {
            Err(LabelError::UnknownControl)
        },
        LabelSample::Offset => if id == 1 {
            Ok(LabelPatch::OffsetX)
        } else if id == 2 {
            Ok(LabelPatch::OffsetY)
        } else if id == 3 {
            Ok(LabelPatch::ResetOffset)
        } else {
            Err(LabelError::UnknownControl)
        },
        LabelSample::Rotation => if id == 1 {
            Ok(LabelPatch::Rotation)
        } else if id == 3 {
            Ok(LabelPatch::ResetRotation)
        } else {
            Err(LabelError::UnknownControl)
        },
        LabelSample::CollisionOff => Err(LabelError::UnknownControl),
    }
}

/// One pane of the collision comparison.
#[derive(Debug, Clone, Copy)]
pub struct CollisionPane {
    /// Whether labels may overlap in this pane.
    pub allow_overlap: bool,
    /// The title of the city layer in this pane.
    pub title: &'static str,
}

/// The pane at `index`: the first filters colliding labels, the second
/// lets them overlap.
pub fn collision_pane(index: usize) -> (p: CollisionPane)
    ensures
        p.allow_overlap == (index == 1),
        index == 0 ==> p.title@ == "Cities - collision filtering"@,
        index != 0 ==> p.title@ == "Cities - overlap allowed"@,
{
    if index == 0 {
        CollisionPane { allow_overlap: false, title: "Cities - collision filtering" }
    } else {
        CollisionPane { allow_overlap: index == 1, title: "Cities - overlap allowed" }
    }
}

/// Whether a pane that reports `count` city features may be shown.
pub fn check_cities(count: i32) -> (r: Result<(), LabelError>)
    ensures
        r is Ok <==> count > 0,
        r is Err ==> r == Err::<(), LabelError>(LabelError::NoCities),
{
    if count <= 0 {
        Err(LabelError::NoCities)
    } else {
        Ok(())
    }
}

/// The status of the collision comparison: which pane filters and which
/// lets labels overlap.
pub fn collision_status() -> (t: &'static str)
    ensures
        t@ == "Left (Viewer A): collision filtering. Right (Viewer B): label overlap allowed."@,
{
    "Left (Viewer A): collision filtering. Right (Viewer B): label overlap allowed."
}

} // verus!
