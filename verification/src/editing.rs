//! The editing samples: which sample a window runs, the controls it shows,
//! what each control does to the edit session, and how the session state is
//! reported. Map coordinates are floating point and stay with the caller;
//! this module decides everything else.
use vstd::prelude::*;
use crate::Tool;
use crate::text::same_text;
use crate::text::contains_text;
use crate::text::occurs_in;
use crate::text::push_signed;
use crate::text::signed_decimal;

verus! {

/// The editing sample a window runs.
#[derive(Debug, Clone, Copy, PartialEq, Eq, Structural)]
pub enum EditSample {
    EditSession,
    EditDirtyState,
    EditSessionSignals,
    EditAndSave,
    AddPointInteractive,
    AddPolylineInteractive,
    AddPolygonInteractive,
    AddPointProgrammatic,
    AddPolylineProgrammatic,
    AddPolygonProgrammatic,
    AddWithAttributes,
    DeleteFeature,
    MoveFeatureTool,
    MoveFeatureProgrammatic,
    EditVerticesTool,
    InsertVertex,
    DeleteVertex,
    UndoRedo,
    SetAttributes,
    SnappingEnabled,
    MultiLayerEdit,
    CanEditCheck,
    /// Any other name: the generic edit session.
    Other,
}

/// The sample that a window name selects.
pub open spec fn sample_named(name: Seq<char>) -> EditSample {
    if name == "EditSession"@ { EditSample::EditSession }
    else if name == "EditDirtyState"@ { EditSample::EditDirtyState }
    else if name == "EditSessionSignals"@ { EditSample::EditSessionSignals }
    else if name == "EditAndSave"@ { EditSample::EditAndSave }
    else if name == "AddPointInteractive"@ { EditSample::AddPointInteractive }
    else if name == "AddPolylineInteractive"@ { EditSample::AddPolylineInteractive }
    else if name == "AddPolygonInteractive"@ { EditSample::AddPolygonInteractive }
    else if name == "AddPointProgrammatic"@ { EditSample::AddPointProgrammatic }
    else if name == "AddPolylineProgrammatic"@ { EditSample::AddPolylineProgrammatic }
    else if name == "AddPolygonProgrammatic"@ { EditSample::AddPolygonProgrammatic }
    else if name == "AddWithAttributes"@ { EditSample::AddWithAttributes }
    else if name == "DeleteFeature"@ { EditSample::DeleteFeature }
    else if name == "MoveFeatureTool"@ { EditSample::MoveFeatureTool }
    else if name == "MoveFeatureProgrammatic"@ { EditSample::MoveFeatureProgrammatic }
    else if name == "EditVerticesTool"@ { EditSample::EditVerticesTool }
    else if name == "InsertVertex"@ { EditSample::InsertVertex }
    else if name == "DeleteVertex"@ { EditSample::DeleteVertex }
    else if name == "UndoRedo"@ { EditSample::UndoRedo }
    else if name == "SetAttributes"@ { EditSample::SetAttributes }
    else if name == "SnappingEnabled"@ { EditSample::SnappingEnabled }
    else if name == "MultiLayerEdit"@ { EditSample::MultiLayerEdit }
    else if name == "CanEditCheck"@ { EditSample::CanEditCheck }
    else { EditSample::Other }
}

impl EditSample {
    /// The sample a window name selects.
    pub fn from_name(name: &str) -> (s: EditSample)
        ensures
            s == sample_named(name@),
    {
        if same_text(name, "EditSession") { EditSample::EditSession }
        else if same_text(name, "EditDirtyState") { EditSample::EditDirtyState }
        else if same_text(name, "EditSessionSignals") { EditSample::EditSessionSignals }
        else if same_text(name, "EditAndSave") { EditSample::EditAndSave }
        else if same_text(name, "AddPointInteractive") { EditSample::AddPointInteractive }
        else if same_text(name, "AddPolylineInteractive") { EditSample::AddPolylineInteractive }
        else if same_text(name, "AddPolygonInteractive") { EditSample::AddPolygonInteractive }
        else if same_text(name, "AddPointProgrammatic") { EditSample::AddPointProgrammatic }
        else if same_text(name, "AddPolylineProgrammatic") { EditSample::AddPolylineProgrammatic }
        else if same_text(name, "AddPolygonProgrammatic") { EditSample::AddPolygonProgrammatic }
        else if same_text(name, "AddWithAttributes") { EditSample::AddWithAttributes }
        else if same_text(name, "DeleteFeature") { EditSample::DeleteFeature }
        else if same_text(name, "MoveFeatureTool") { EditSample::MoveFeatureTool }
        else if same_text(name, "MoveFeatureProgrammatic") { EditSample::MoveFeatureProgrammatic }
        else if same_text(name, "EditVerticesTool") { EditSample::EditVerticesTool }
        else if same_text(name, "InsertVertex") { EditSample::InsertVertex }
        else if same_text(name, "DeleteVertex") { EditSample::DeleteVertex }
        else if same_text(name, "UndoRedo") { EditSample::UndoRedo }
        else if same_text(name, "SetAttributes") { EditSample::SetAttributes }
        else if same_text(name, "SnappingEnabled") { EditSample::SnappingEnabled }
        else if same_text(name, "MultiLayerEdit") { EditSample::MultiLayerEdit }
        else if same_text(name, "CanEditCheck") { EditSample::CanEditCheck }
        else { EditSample::Other }
    }

    /// One of the three edit-session samples.
    pub open spec fn spec_is_session(self) -> bool {
        self == EditSample::EditSession || self == EditSample::EditDirtyState || self == EditSample::EditSessionSignals
    }

    /// One of the three edit-session samples.
    #[verifier::when_used_as_spec(spec_is_session)]
    pub fn is_session(self) -> (b: bool)
        ensures
            b == self.spec_is_session(),
    {
        matches!(self, EditSample::EditSession | EditSample::EditDirtyState | EditSample::EditSessionSignals)
    }

    /// One of the three vertex-editing samples.
    pub open spec fn spec_edits_vertices(self) -> bool {
        self == EditSample::InsertVertex || self == EditSample::DeleteVertex || self == EditSample::EditVerticesTool
    }

    /// One of the three vertex-editing samples.
    #[verifier::when_used_as_spec(spec_edits_vertices)]
    pub fn edits_vertices(self) -> (b: bool)
        ensures
            b == self.spec_edits_vertices(),
    {
        matches!(self, EditSample::InsertVertex | EditSample::DeleteVertex | EditSample::EditVerticesTool)
    }

    /// The tool the sample starts with after a reset.
    pub open spec fn spec_start_tool(self) -> Tool {
        if self == EditSample::EditAndSave || self == EditSample::UndoRedo {
            Tool::AddPoint
        } else if self == EditSample::AddPolylineInteractive || self == EditSample::SnappingEnabled {
            Tool::AddPolyline
        } else if self == EditSample::AddPolygonInteractive {
            Tool::AddPolygon
        } else if self == EditSample::EditVerticesTool || self == EditSample::DeleteVertex {
            Tool::EditVertices
        } else {
            Tool::Pan
        }
    }

    /// The tool the sample starts with after a reset.
    #[verifier::when_used_as_spec(spec_start_tool)]
    pub fn start_tool(self) -> (t: Tool)
        ensures
            t == self.spec_start_tool(),
    {
        match self {
            EditSample::EditAndSave | EditSample::UndoRedo => Tool::AddPoint,
            EditSample::AddPolylineInteractive | EditSample::SnappingEnabled => Tool::AddPolyline,
            EditSample::AddPolygonInteractive => Tool::AddPolygon,
            EditSample::EditVerticesTool | EditSample::DeleteVertex => Tool::EditVertices,
            _ => Tool::Pan,
        }
    }
}

/// The geometry kind (1 point, 3 polyline, 5 polygon) a sample edits.
pub open spec fn edit_kind_of(name: Seq<char>) -> i32 {
    if occurs_in(name, "Polyline"@) || name == "SnappingEnabled"@ {
        3
    } else if occurs_in(name, "Polygon"@) || sample_named(name).spec_edits_vertices() {
        5
    } else {
        1
    }
}

/// The geometry kind (1 point, 3 polyline, 5 polygon) a sample edits.
pub fn edit_kind(name: &str) -> (k: i32)
    ensures
        k == edit_kind_of(name@),
{
    if contains_text(name, "Polyline") || same_text(name, "SnappingEnabled") {
        3
    } else if contains_text(name, "Polygon") || EditSample::from_name(name).edits_vertices() {
        5
    } else {
        1
    }
}


/// A push button of the control panel.
#[derive(Debug, Clone, PartialEq, Eq)]
pub struct Button {
    pub id: i32,
    pub text: String,
}

/// The buttons a sample offers before the shared Pan and Full Extent buttons.
pub open spec fn sample_actions(s: EditSample) -> Seq<(i32, Seq<char>)> {
    match s {
        EditSample::EditSession | EditSample::EditDirtyState | EditSample::EditSessionSignals => seq![
            (1i32, "Begin Edit"@), (2i32, "Add Feature"@), (3i32, "Commit Edit"@), (4i32, "Rollback Edit"@)],
        EditSample::EditAndSave => seq![(9i32, "Add Point"@), (31i32, "Save Shapefile"@), (5i32, "Clear Points"@)],
        EditSample::AddPointInteractive | EditSample::AddPolylineInteractive | EditSample::AddPolygonInteractive => seq![
            (9i32, "Draw Feature"@), (5i32, "Clear"@)],
        EditSample::AddPointProgrammatic | EditSample::AddPolylineProgrammatic | EditSample::AddPolygonProgrammatic
        | EditSample::AddWithAttributes => seq![(2i32, "Add Feature"@), (8i32, "Select / Inspect"@), (5i32, "Clear"@)],
        EditSample::DeleteFeature => seq![
            (8i32, "Select"@), (12i32, "Delete Feature"@), (13i32, "Delete Selected"@), (5i32, "Reset Points"@)],
        EditSample::MoveFeatureTool => seq![(8i32, "Select"@), (10i32, "Move Feature"@), (5i32, "Reset Points"@)],
        EditSample::MoveFeatureProgrammatic => seq![
            (8i32, "Select"@), (14i32, "Move West"@), (15i32, "Move East"@), (16i32, "Move North"@),
            (17i32, "Move South"@), (5i32, "Reset Points"@)],
        EditSample::EditVerticesTool => seq![
            (11i32, "Edit Vertices"@), (20i32, "Delete Selected Vertex"@), (5i32, "Reset Shapes"@)],
        EditSample::InsertVertex => seq![(8i32, "Select Polygon"@), (18i32, "Insert Vertex"@), (5i32, "Reset Shape"@)],
        EditSample::DeleteVertex => seq![
            (8i32, "Select Polygon"@), (11i32, "Edit Vertices"@), (20i32, "Delete Selected Vertex"@),
            (19i32, "Delete By Index"@), (5i32, "Reset Shape"@)],
        EditSample::UndoRedo => seq![
            (9i32, "Add Point"@), (10i32, "Move Feature"@), (21i32, "Undo"@), (22i32, "Redo"@), (23i32, "Undo 5"@),
            (24i32, "Redo 5"@), (5i32, "Reset"@)],
        EditSample::SetAttributes => seq![
            (8i32, "Select"@), (25i32, "Apply Attributes"@), (21i32, "Undo"@), (22i32, "Redo"@), (5i32, "Reset"@)],
        EditSample::SnappingEnabled => seq![(9i32, "Draw Polyline"@), (11i32, "Edit Vertices"@), (5i32, "Reset Guide"@)],
        EditSample::MultiLayerEdit => seq![
            (27i32, "Active: Red Points"@), (28i32, "Active: Blue Points"@), (2i32, "Add To Active Layer"@),
            (29i32, "Commit Both"@), (30i32, "Rollback Both"@), (5i32, "Reset"@)],
        _ => seq![
            (1i32, "Begin Edit"@), (3i32, "Commit Edit"@), (4i32, "Rollback Edit"@), (8i32, "Select"@),
            (26i32, "Clear Selection"@), (5i32, "Reset Points"@)],
    }
}

/// All buttons of a sample: its own, then Pan and Full Extent.
pub open spec fn sample_buttons(s: EditSample) -> Seq<(i32, Seq<char>)> {
    sample_actions(s) + seq![(7i32, "Pan"@), (6i32, "Full Extent"@)]
}

/// The buttons as (id, text) pairs.
pub open spec fn button_pairs(b: Seq<Button>) -> Seq<(i32, Seq<char>)> {
    b.map_values(|x: Button| (x.id, x.text@))
}

fn push_button(list: &mut Vec<Button>, id: i32, text: &str)
    ensures
        button_pairs(final(list)@) == button_pairs(old(list)@).push((id, text@)),
{
    list.push(Button { id, text: text.to_owned() });
    assert(button_pairs(list@) =~= button_pairs(old(list)@).push((id, text@)));
}

/// The buttons of a sample's control panel, in panel order.
pub fn sample_button_list(s: EditSample) -> (r: Vec<Button>)
    ensures
        button_pairs(r@) == sample_buttons(s),
{
    let mut b: Vec<Button> = Vec::new();
    match s {
        EditSample::EditSession | EditSample::EditDirtyState | EditSample::EditSessionSignals => {
            push_button(&mut b, 1, "Begin Edit");
            push_button(&mut b, 2, "Add Feature");
            push_button(&mut b, 3, "Commit Edit");
            push_button(&mut b, 4, "Rollback Edit");
        },
        EditSample::EditAndSave => {
            push_button(&mut b, 9, "Add Point");
            push_button(&mut b, 31, "Save Shapefile");
            push_button(&mut b, 5, "Clear Points");
        },
        EditSample::AddPointInteractive | EditSample::AddPolylineInteractive | EditSample::AddPolygonInteractive => {
            push_button(&mut b, 9, "Draw Feature");
            push_button(&mut b, 5, "Clear");
        },
        EditSample::AddPointProgrammatic | EditSample::AddPolylineProgrammatic | EditSample::AddPolygonProgrammatic
        | EditSample::AddWithAttributes => {
            push_button(&mut b, 2, "Add Feature");
            push_button(&mut b, 8, "Select / Inspect");
            push_button(&mut b, 5, "Clear");
        },
        EditSample::DeleteFeature => {
            push_button(&mut b, 8, "Select");
            push_button(&mut b, 12, "Delete Feature");
            push_button(&mut b, 13, "Delete Selected");
            push_button(&mut b, 5, "Reset Points");
        },
        EditSample::MoveFeatureTool => {
            push_button(&mut b, 8, "Select");
            push_button(&mut b, 10, "Move Feature");
            push_button(&mut b, 5, "Reset Points");
        },
        EditSample::MoveFeatureProgrammatic => {
            push_button(&mut b, 8, "Select");
            push_button(&mut b, 14, "Move West");
            push_button(&mut b, 15, "Move East");
            push_button(&mut b, 16, "Move North");
            push_button(&mut b, 17, "Move South");
            push_button(&mut b, 5, "Reset Points");
        },
        EditSample::EditVerticesTool => {
            push_button(&mut b, 11, "Edit Vertices");
            push_button(&mut b, 20, "Delete Selected Vertex");
            push_button(&mut b, 5, "Reset Shapes");
        },
        EditSample::InsertVertex => {
            push_button(&mut b, 8, "Select Polygon");
            push_button(&mut b, 18, "Insert Vertex");
            push_button(&mut b, 5, "Reset Shape");
        },
        EditSample::DeleteVertex => {
            push_button(&mut b, 8, "Select Polygon");
            push_button(&mut b, 11, "Edit Vertices");
            push_button(&mut b, 20, "Delete Selected Vertex");
            push_button(&mut b, 19, "Delete By Index");
            push_button(&mut b, 5, "Reset Shape");
        },
        EditSample::UndoRedo => {
            push_button(&mut b, 9, "Add Point");
            push_button(&mut b, 10, "Move Feature");
            push_button(&mut b, 21, "Undo");
            push_button(&mut b, 22, "Redo");
            push_button(&mut b, 23, "Undo 5");
            push_button(&mut b, 24, "Redo 5");
            push_button(&mut b, 5, "Reset");
        },
        EditSample::SetAttributes => {
            push_button(&mut b, 8, "Select");
            push_button(&mut b, 25, "Apply Attributes");
            push_button(&mut b, 21, "Undo");
            push_button(&mut b, 22, "Redo");
            push_button(&mut b, 5, "Reset");
        },
        EditSample::SnappingEnabled => {
            push_button(&mut b, 9, "Draw Polyline");
            push_button(&mut b, 11, "Edit Vertices");
            push_button(&mut b, 5, "Reset Guide");
        },
        EditSample::MultiLayerEdit => {
            push_button(&mut b, 27, "Active: Red Points");
            push_button(&mut b, 28, "Active: Blue Points");
            push_button(&mut b, 2, "Add To Active Layer");
            push_button(&mut b, 29, "Commit Both");
            push_button(&mut b, 30, "Rollback Both");
            push_button(&mut b, 5, "Reset");
        },
        _ => {
            push_button(&mut b, 1, "Begin Edit");
            push_button(&mut b, 3, "Commit Edit");
            push_button(&mut b, 4, "Rollback Edit");
            push_button(&mut b, 8, "Select");
            push_button(&mut b, 26, "Clear Selection");
            push_button(&mut b, 5, "Reset Points");
        },
    }
    push_button(&mut b, 7, "Pan");
    push_button(&mut b, 6, "Full Extent");
    assert(button_pairs(b@) =~= sample_buttons(s));
    b
}

/// A control besides the buttons; its values are map units or text and are
/// laid out by the caller.
#[derive(Debug, Clone, Copy, PartialEq, Eq, Structural)]
pub enum ExtraControl {
    /// 101: step in map units for programmatic moves.
    MoveStep,
    /// 102: part index of the vertex to insert or delete.
    PartIndex,
    /// 103: vertex index to insert at or delete.
    VertexIndex,
    /// 104: X of the vertex to insert.
    NewVertexX,
    /// 105: Y of the vertex to insert.
    NewVertexY,
    /// 106: new Name attribute.
    NameText,
    /// 107: new Status attribute.
    StatusChoice,
    /// 108: new Priority attribute.
    PriorityNumber,
    /// 109: snapping on or off.
    SnappingChoice,
    /// 110: snapping tolerance in pixels.
    SnapTolerance,
}

/// The controls a sample adds after its buttons.
pub open spec fn sample_extras(s: EditSample) -> Seq<ExtraControl> {
    if s == EditSample::MoveFeatureProgrammatic {
        seq![ExtraControl::MoveStep]
    } else if s == EditSample::InsertVertex {
        seq![ExtraControl::PartIndex, ExtraControl::VertexIndex, ExtraControl::NewVertexX, ExtraControl::NewVertexY]
    } else if s == EditSample::DeleteVertex {
        seq![ExtraControl::PartIndex, ExtraControl::VertexIndex]
    } else if s == EditSample::SetAttributes {
        seq![ExtraControl::NameText, ExtraControl::StatusChoice, ExtraControl::PriorityNumber]
    } else if s == EditSample::SnappingEnabled {
        seq![ExtraControl::SnappingChoice, ExtraControl::SnapTolerance]
    } else {
        Seq::empty()
    }
}

/// The controls a sample adds after its buttons.
pub fn sample_extra_list(s: EditSample) -> (r: Vec<ExtraControl>)
    ensures
        r@ == sample_extras(s),
{
    let mut r: Vec<ExtraControl> = Vec::new();
    match s {
        EditSample::MoveFeatureProgrammatic => {
            r.push(ExtraControl::MoveStep);
        },
        EditSample::InsertVertex => {
            r.push(ExtraControl::PartIndex);
            r.push(ExtraControl::VertexIndex);
            r.push(ExtraControl::NewVertexX);
            r.push(ExtraControl::NewVertexY);
        },
        EditSample::DeleteVertex => {
            r.push(ExtraControl::PartIndex);
            r.push(ExtraControl::VertexIndex);
        },
        EditSample::SetAttributes => {
            r.push(ExtraControl::NameText);
            r.push(ExtraControl::StatusChoice);
            r.push(ExtraControl::PriorityNumber);
        },
        EditSample::SnappingEnabled => {
            r.push(ExtraControl::SnappingChoice);
            r.push(ExtraControl::SnapTolerance);
        },
        _ => {},
    }
    assert(r@ =~= sample_extras(s));
    r
}


/// How an extra control is shown.
#[derive(Debug, Clone, Copy, PartialEq, Eq, Structural)]
pub enum ExtraKind {
    /// A number field: its bounds and start value in hundredths of its unit,
    /// and whether only whole numbers are typed.
    Number { minimum: i64, maximum: i64, value: i64, whole: bool },
    /// A text field.
    Text,
    /// A choice among options.
    Combo,
}

/// The id of an extra control; the buttons' ids stay below these.
pub open spec fn extra_id(c: ExtraControl) -> i32 {
    match c {
        ExtraControl::MoveStep => 101,
        ExtraControl::PartIndex => 102,
        ExtraControl::VertexIndex => 103,
        ExtraControl::NewVertexX => 104,
        ExtraControl::NewVertexY => 105,
        ExtraControl::NameText => 106,
        ExtraControl::StatusChoice => 107,
        ExtraControl::PriorityNumber => 108,
        ExtraControl::SnappingChoice => 109,
        ExtraControl::SnapTolerance => 110,
    }
}

/// How an extra control is shown.
pub open spec fn extra_kind(c: ExtraControl) -> ExtraKind {
    match c {
        ExtraControl::MoveStep => ExtraKind::Number { minimum: 10, maximum: 2000, value: 100, whole: false },
        ExtraControl::PartIndex => ExtraKind::Number { minimum: 0, maximum: 0, value: 0, whole: true },
        ExtraControl::VertexIndex => ExtraKind::Number { minimum: 0, maximum: 10000, value: 200, whole: true },
        ExtraControl::NewVertexX => ExtraKind::Number { minimum: -18000i64, maximum: 18000, value: -10066i64, whole: false },
        ExtraControl::NewVertexY => ExtraKind::Number { minimum: -9000i64, maximum: 9000, value: 4746, whole: false },
        ExtraControl::NameText => ExtraKind::Text,
        ExtraControl::StatusChoice => ExtraKind::Combo,
        ExtraControl::PriorityNumber => ExtraKind::Number { minimum: 100, maximum: 1000, value: 100, whole: true },
        ExtraControl::SnappingChoice => ExtraKind::Combo,
        ExtraControl::SnapTolerance => ExtraKind::Number { minimum: 100, maximum: 6400, value: 1400, whole: true },
    }
}

/// The label of an extra control.
pub open spec fn extra_label(c: ExtraControl) -> Seq<char> {
    match c {
        ExtraControl::MoveStep => "Step (map units)"@,
        ExtraControl::PartIndex => "Part index"@,
        ExtraControl::VertexIndex => "Vertex index"@,
        ExtraControl::NewVertexX => "New vertex X"@,
        ExtraControl::NewVertexY => "New vertex Y"@,
        ExtraControl::NameText => "Name"@,
        ExtraControl::StatusChoice => "Status"@,
        ExtraControl::PriorityNumber => "Priority"@,
        ExtraControl::SnappingChoice => "Snapping"@,
        ExtraControl::SnapTolerance => "Tolerance (pixels)"@,
    }
}

/// The start text of a text or choice control; empty for numbers.
pub open spec fn extra_text(c: ExtraControl) -> Seq<char> {
    match c {
        ExtraControl::NameText => "Updated site"@,
        ExtraControl::StatusChoice => "Active"@,
        ExtraControl::SnappingChoice => "On"@,
        _ => ""@,
    }
}

/// The options of a choice control; none for the others.
pub open spec fn extra_options(c: ExtraControl) -> Seq<Seq<char>> {
    match c {
        ExtraControl::StatusChoice => seq!["Planned"@, "Active"@, "Closed"@],
        ExtraControl::SnappingChoice => seq!["On"@, "Off"@],
        _ => Seq::empty(),
    }
}

/// An extra control as laid out in the panel.
#[derive(Debug, Clone, PartialEq, Eq)]
pub struct ExtraLayout {
    pub id: i32,
    pub kind: ExtraKind,
    pub label: &'static str,
    /// The start text of a text or choice control.
    pub text: &'static str,
    pub options: Vec<&'static str>,
}

/// The layout of an extra control: its id, how it is shown, its label, its
/// start text and its options.
pub fn extra_layout(c: ExtraControl) -> (l: ExtraLayout)
    ensures
        l.id == extra_id(c),
        l.kind == extra_kind(c),
        l.label@ == extra_label(c),
        l.text@ == extra_text(c),
        l.options@.map_values(|o: &'static str| o@) == extra_options(c),
{
    let mut options: Vec<&'static str> = Vec::new();
    let l = match c {
        ExtraControl::MoveStep => ExtraLayout { id: 101, kind: ExtraKind::Number { minimum: 10, maximum: 2000, value: 100, whole: false }, label: "Step (map units)", text: "", options },
        ExtraControl::PartIndex => ExtraLayout { id: 102, kind: ExtraKind::Number { minimum: 0, maximum: 0, value: 0, whole: true }, label: "Part index", text: "", options },
        ExtraControl::VertexIndex => ExtraLayout { id: 103, kind: ExtraKind::Number { minimum: 0, maximum: 10000, value: 200, whole: true }, label: "Vertex index", text: "", options },
        ExtraControl::NewVertexX => ExtraLayout { id: 104, kind: ExtraKind::Number { minimum: -18000, maximum: 18000, value: -10066, whole: false }, label: "New vertex X", text: "", options },
        ExtraControl::NewVertexY => ExtraLayout { id: 105, kind: ExtraKind::Number { minimum: -9000, maximum: 9000, value: 4746, whole: false }, label: "New vertex Y", text: "", options },
        ExtraControl::NameText => ExtraLayout { id: 106, kind: ExtraKind::Text, label: "Name", text: "Updated site", options },
        ExtraControl::StatusChoice => {
            options.push("Planned");
            options.push("Active");
            options.push("Closed");
            ExtraLayout { id: 107, kind: ExtraKind::Combo, label: "Status", text: "Active", options }
        },
        ExtraControl::PriorityNumber => ExtraLayout { id: 108, kind: ExtraKind::Number { minimum: 100, maximum: 1000, value: 100, whole: true }, label: "Priority", text: "", options },
        ExtraControl::SnappingChoice => {
            options.push("On");
            options.push("Off");
            ExtraLayout { id: 109, kind: ExtraKind::Combo, label: "Snapping", text: "On", options }
        },
        ExtraControl::SnapTolerance => ExtraLayout { id: 110, kind: ExtraKind::Number { minimum: 100, maximum: 6400, value: 1400, whole: true }, label: "Tolerance (pixels)", text: "", options },
    };
    assert(l.options@.map_values(|o: &'static str| o@) =~= extra_options(c));
    l
}

/// A sample's panel never repeats an id: its buttons have distinct ids
/// below 101, its extra controls distinct ids from 101 on, and the buttons
/// end with Pan and Full Extent.
pub proof fn lemma_panel_ids_distinct(s: EditSample)
    ensures
        forall|i: int, j: int| 0 <= i < j < sample_buttons(s).len() ==> sample_buttons(s)[i].0 != sample_buttons(s)[j].0,
        forall|i: int| 0 <= i < sample_buttons(s).len() ==> 1 <= #[trigger] sample_buttons(s)[i].0 < 101,
        forall|i: int, j: int| 0 <= i < j < sample_extras(s).len() ==> extra_id(sample_extras(s)[i]) != extra_id(sample_extras(s)[j]),
        forall|i: int| 0 <= i < sample_extras(s).len() ==> 101 <= #[trigger] extra_id(sample_extras(s)[i]) <= 110,
        sample_buttons(s).len() >= 2,
        sample_buttons(s)[sample_buttons(s).len() - 2] == (7i32, "Pan"@),
        sample_buttons(s)[sample_buttons(s).len() - 1] == (6i32, "Full Extent"@),
{
    let a = sample_actions(s);
    let b = sample_buttons(s);
    assert(b == a + seq![(7i32, "Pan"@), (6i32, "Full Extent"@)]);
    assert(b[b.len() - 2] == (7i32, "Pan"@));
    assert(b[b.len() - 1] == (6i32, "Full Extent"@));
}

/// The attributes that the Apply Attributes button writes.
#[derive(Debug, Clone, PartialEq, Eq)]
pub struct EditAttributes {
    pub name: String,
    pub status: String,
    pub priority: i32,
}

/// What a button asks of the viewer.
#[derive(Debug, Clone, Copy, PartialEq, Eq, Structural)]
pub enum EditCommand {
    /// Begin editing `layer` if it is not being edited, then make it active.
    Begin { layer: i32 },
    /// Add the next generated feature to the active layer.
    AddFeature,
    Commit { layer: i32 },
    Rollback { layer: i32 },
    /// Rebuild the edit layers.
    Reset,
    FullExtent,
    UseTool { tool: Tool },
    /// Begin editing `layer`, then switch to the drawing tool for the edited kind.
    Draw { layer: i32, tool: Tool },
    /// Delete the first selected feature.
    DeleteHit,
    DeleteSelected,
    /// Move the selected features by the step times (`dx`, `dy`).
    Move { dx: i32, dy: i32 },
    InsertVertex { part: i32, vertex: i32 },
    DeleteVertex { part: i32, vertex: i32 },
    DeleteSelectedVertex,
    /// Undo (or redo) up to `times` steps on `layer`, stopping at the first that fails.
    History { layer: i32, undo: bool, times: i32 },
    /// Write the edit attributes to the first selected feature.
    ApplyAttributes,
    ClearSelection,
    /// `layer` became the active layer; begin editing it.
    Activate { layer: i32 },
    /// Commit (or roll back) both layers, begin editing both again, then the active one.
    FinishAll { commit: bool, active: i32 },
    /// Save `layer` as a shapefile.
    Save { layer: i32 },
}

/// Why a control could not be acted on.
#[derive(Debug, Clone, Copy, PartialEq, Eq, Structural)]
pub enum EditError {
    /// "Unknown edit command".
    UnknownCommand,
}

impl EditError {
    /// The message shown for the refusal.
    pub fn message(self) -> (m: &'static str)
        ensures
            self == EditError::UnknownCommand ==> m@ == "Unknown edit command"@,
    {
        match self {
            EditError::UnknownCommand => "Unknown edit command",
        }
    }
}

/// Undo or redo is tried again after attempt `done` (counted from zero)
/// only while the last attempt succeeded and fewer than `times` were made:
/// at most `times` attempts, stopping at the first that fails.
pub fn history_continues(done: i32, times: i32, ok: bool) -> (more: bool)
    requires
        0 <= done < times,
    ensures
        more == (ok && done + 1 < times),
{
    ok && done + 1 < times
}

/// A save needs at least one feature ("Add points before saving").
pub fn check_save(count: i32) -> (r: Result<(), &'static str>)
    ensures
        r is Ok <==> count != 0,
        r matches Err(m) ==> m@ == "Add points before saving"@,
{
    if count == 0 {
        Err("Add points before saving")
    } else {
        Ok(())
    }
}

/// The command a button id asks for, given the active layer, the edited
/// kind and the chosen part and vertex indices.
pub open spec fn command_for(id: i32, active: i32, kind: i32, part: i32, vertex: i32) -> Option<EditCommand> {
    if id == 1 { Some(EditCommand::Begin { layer: active }) }
    else if id == 2 { Some(EditCommand::AddFeature) }
    else if id == 3 { Some(EditCommand::Commit { layer: active }) }
    else if id == 4 { Some(EditCommand::Rollback { layer: active }) }
    else if id == 5 { Some(EditCommand::Reset) }
    else if id == 6 { Some(EditCommand::FullExtent) }
    else if id == 7 { Some(EditCommand::UseTool { tool: Tool::Pan }) }
    else if id == 8 { Some(EditCommand::UseTool { tool: Tool::Select }) }
    else if id == 9 {
        Some(EditCommand::Draw {
            layer: active,
            tool: if kind == 3 { Tool::AddPolyline } else if kind == 5 { Tool::AddPolygon } else { Tool::AddPoint },
        })
    }
    else if id == 10 { Some(EditCommand::UseTool { tool: Tool::MoveFeature }) }
    else if id == 11 { Some(EditCommand::UseTool { tool: Tool::EditVertices }) }
    else if id == 12 { Some(EditCommand::DeleteHit) }
    else if id == 13 { Some(EditCommand::DeleteSelected) }
    else if id == 14 { Some(EditCommand::Move { dx: -1i32, dy: 0 }) }
    else if id == 15 { Some(EditCommand::Move { dx: 1, dy: 0 }) }
    else if id == 16 { Some(EditCommand::Move { dx: 0, dy: 1 }) }
    else if id == 17 { Some(EditCommand::Move { dx: 0, dy: -1i32 }) }
    else if id == 18 { Some(EditCommand::InsertVertex { part, vertex }) }
    else if id == 19 { Some(EditCommand::DeleteVertex { part, vertex }) }
    else if id == 20 { Some(EditCommand::DeleteSelectedVertex) }
    else if 21 <= id <= 24 {
        Some(EditCommand::History { layer: active, undo: id % 2 == 1, times: if id >= 23 { 5 } else { 1 } })
    }
    else if id == 25 { Some(EditCommand::ApplyAttributes) }
    else if id == 26 { Some(EditCommand::ClearSelection) }
    else if id == 27 { Some(EditCommand::Activate { layer: 1 }) }
    else if id == 28 { Some(EditCommand::Activate { layer: 0 }) }
    else if id == 29 { Some(EditCommand::FinishAll { commit: true, active }) }
    else if id == 30 { Some(EditCommand::FinishAll { commit: false, active }) }
    else if id == 31 { Some(EditCommand::Save { layer: active }) }
    else { None }
}

/// The message shown when the viewer refuses a command.
pub open spec fn failure_text(c: EditCommand) -> Seq<char> {
    match c {
        EditCommand::Begin { .. } | EditCommand::Draw { .. } | EditCommand::Activate { .. } => "Cannot activate edit layer"@,
        EditCommand::AddFeature => "Cannot add geometry"@,
        EditCommand::Commit { .. } => "Cannot commit edit"@,
        EditCommand::Rollback { .. } => "Cannot roll back edit"@,
        EditCommand::DeleteHit => "Cannot delete feature"@,
        EditCommand::DeleteSelected => "Select editable features to delete"@,
        EditCommand::Move { .. } => "Select editable features to move"@,
        EditCommand::InsertVertex { .. } => "Select a polygon and a valid insertion index"@,
        EditCommand::DeleteVertex { .. } => "Select a polygon and a removable vertex index"@,
        EditCommand::DeleteSelectedVertex => "Select a vertex with Edit Vertices"@,
        EditCommand::ApplyAttributes => "Cannot update attributes"@,
        EditCommand::FinishAll { .. } => "Cannot finish layer edit"@,
        EditCommand::Save { .. } => "Shapefile save failed"@,
        _ => "Command failed"@,
    }
}

impl EditCommand {
    /// The message shown when the viewer refuses this command.
    pub fn failure_message(&self) -> (m: &'static str)
        ensures
            m@ == failure_text(*self),
    {
        match self {
            EditCommand::Begin { .. } | EditCommand::Draw { .. } | EditCommand::Activate { .. } => "Cannot activate edit layer",
            EditCommand::AddFeature => "Cannot add geometry",
            EditCommand::Commit { .. } => "Cannot commit edit",
            EditCommand::Rollback { .. } => "Cannot roll back edit",
            EditCommand::DeleteHit => "Cannot delete feature",
            EditCommand::DeleteSelected => "Select editable features to delete",
            EditCommand::Move { .. } => "Select editable features to move",
            EditCommand::InsertVertex { .. } => "Select a polygon and a valid insertion index",
            EditCommand::DeleteVertex { .. } => "Select a polygon and a removable vertex index",
            EditCommand::DeleteSelectedVertex => "Select a vertex with Edit Vertices",
            EditCommand::ApplyAttributes => "Cannot update attributes",
            EditCommand::FinishAll { .. } => "Cannot finish layer edit",
            EditCommand::Save { .. } => "Shapefile save failed",
            _ => "Command failed",
        }
    }
}

/// The state of an editing sample between control events.
pub struct EditState {
    sample: EditSample,
    kind: i32,
    active: i32,
    serial: i32,
    part: i32,
    vertex: i32,
    attributes: EditAttributes,
    message: String,
    last_status: String,
    signals: std::collections::BTreeSet<i32>,
}

impl EditState {
    pub closed spec fn spec_sample(self) -> EditSample { self.sample }
    pub closed spec fn spec_kind(self) -> i32 { self.kind }
    pub closed spec fn spec_active(self) -> i32 { self.active }
    pub closed spec fn spec_serial(self) -> i32 { self.serial }
    pub closed spec fn spec_part(self) -> i32 { self.part }
    pub closed spec fn spec_vertex(self) -> i32 { self.vertex }
    pub closed spec fn spec_attributes(self) -> EditAttributes { self.attributes }
    pub closed spec fn spec_message(self) -> Seq<char> { self.message@ }
    pub closed spec fn spec_last_status(self) -> Seq<char> { self.last_status@ }
    pub closed spec fn spec_signals(self) -> Set<i32> { self.signals@ }

    /// The state of sample `name` when its window opens.
    pub fn new(name: &str) -> (s: EditState)
        ensures
            s.spec_sample() == sample_named(name@),
            s.spec_kind() == edit_kind_of(name@),
            s.spec_active() == 0,
            s.spec_serial() == 0,
            s.spec_part() == 0,
            s.spec_vertex() == 2,
            s.spec_attributes().name@ == "Updated site"@,
            s.spec_attributes().status@ == "Active"@,
            s.spec_attributes().priority == 1,
            s.spec_message() == Seq::<char>::empty(),
            s.spec_last_status() == Seq::<char>::empty(),
            s.spec_signals() == Set::<i32>::empty(),
    {
        EditState {
            sample: EditSample::from_name(name),
            kind: edit_kind(name),
            active: 0,
            serial: 0,
            part: 0,
            vertex: 2,
            attributes: EditAttributes { name: "Updated site".to_owned(), status: "Active".to_owned(), priority: 1 },
            message: String::new(),
            last_status: String::new(),
            signals: std::collections::BTreeSet::new(),
        }
    }

    pub fn sample(&self) -> (s: EditSample)
        ensures
            s == self.spec_sample(),
    {
        self.sample
    }

    pub fn kind(&self) -> (k: i32)
        ensures
            k == self.spec_kind(),
    {
        self.kind
    }

    pub fn active(&self) -> (a: i32)
        ensures
            a == self.spec_active(),
    {
        self.active
    }

    pub fn serial(&self) -> (n: i32)
        ensures
            n == self.spec_serial(),
    {
        self.serial
    }

    pub fn attributes(&self) -> (a: &EditAttributes)
        ensures
            *a == self.spec_attributes(),
    {
        &self.attributes
    }

    pub fn message(&self) -> (m: &str)
        ensures
            m@ == self.spec_message(),
    {
        self.message.as_str()
    }

    /// Records the outcome of the last step to show in the status line.
    pub fn set_message(&mut self, message: &str)
        ensures
            final(self).spec_message() == message@,
            final(self).spec_sample() == old(self).spec_sample(),
            final(self).spec_kind() == old(self).spec_kind(),
            final(self).spec_active() == old(self).spec_active(),
            final(self).spec_serial() == old(self).spec_serial(),
            final(self).spec_part() == old(self).spec_part(),
            final(self).spec_vertex() == old(self).spec_vertex(),
            final(self).spec_attributes() == old(self).spec_attributes(),
            final(self).spec_last_status() == old(self).spec_last_status(),
            final(self).spec_signals() == old(self).spec_signals(),
    {
        self.message = message.to_owned();
    }

    /// What button `id` asks for; the Active buttons also switch the active layer.
    pub fn command(&mut self, id: i32) -> (r: Result<EditCommand, EditError>)
        ensures
            command_for(id, old(self).spec_active(), old(self).spec_kind(), old(self).spec_part(), old(self).spec_vertex()) matches Some(c) ==> r == Ok::<EditCommand, EditError>(c),
            command_for(id, old(self).spec_active(), old(self).spec_kind(), old(self).spec_part(), old(self).spec_vertex()) is None ==> r == Err::<EditCommand, EditError>(EditError::UnknownCommand),
            final(self).spec_active() == (if id == 27 { 1 } else if id == 28 { 0 } else { old(self).spec_active() }),
            final(self).spec_sample() == old(self).spec_sample(),
            final(self).spec_kind() == old(self).spec_kind(),
            final(self).spec_serial() == old(self).spec_serial(),
            final(self).spec_part() == old(self).spec_part(),
            final(self).spec_vertex() == old(self).spec_vertex(),
            final(self).spec_attributes() == old(self).spec_attributes(),
            final(self).spec_message() == old(self).spec_message(),
            final(self).spec_last_status() == old(self).spec_last_status(),
            final(self).spec_signals() == old(self).spec_signals(),
    {
        let i = self.active;
        let c = if id == 1 { EditCommand::Begin { layer: i } }
        else if id == 2 { EditCommand::AddFeature }
        else if id == 3 { EditCommand::Commit { layer: i } }
        else if id == 4 { EditCommand::Rollback { layer: i } }
        else if id == 5 { EditCommand::Reset }
        else if id == 6 { EditCommand::FullExtent }
        else if id == 7 { EditCommand::UseTool { tool: Tool::Pan } }
        else if id == 8 { EditCommand::UseTool { tool: Tool::Select } }
        else if id == 9 {
            let tool = if self.kind == 3 { Tool::AddPolyline } else if self.kind == 5 { Tool::AddPolygon } else { Tool::AddPoint };
            EditCommand::Draw { layer: i, tool }
        }
        else if id == 10 { EditCommand::UseTool { tool: Tool::MoveFeature } }
        else if id == 11 { EditCommand::UseTool { tool: Tool::EditVertices } }
        else if id == 12 { EditCommand::DeleteHit }
        else if id == 13 { EditCommand::DeleteSelected }
        else if id == 14 { EditCommand::Move { dx: -1, dy: 0 } }
        else if id == 15 { EditCommand::Move { dx: 1, dy: 0 } }
        else if id == 16 { EditCommand::Move { dx: 0, dy: 1 } }
        else if id == 17 { EditCommand::Move { dx: 0, dy: -1 } }
        else if id == 18 { EditCommand::InsertVertex { part: self.part, vertex: self.vertex } }
        else if id == 19 { EditCommand::DeleteVertex { part: self.part, vertex: self.vertex } }
        else if id == 20 { EditCommand::DeleteSelectedVertex }
        else if 21 <= id && id <= 24 { EditCommand::History { layer: i, undo: id % 2 == 1, times: if id >= 23 { 5 } else { 1 } } }
        else if id == 25 { EditCommand::ApplyAttributes }
        else if id == 26 { EditCommand::ClearSelection }
        else if id == 27 {
            self.active = 1;
            EditCommand::Activate { layer: 1 }
        }
        else if id == 28 {
            self.active = 0;
            EditCommand::Activate { layer: 0 }
        }
        else if id == 29 { EditCommand::FinishAll { commit: true, active: i } }
        else if id == 30 { EditCommand::FinishAll { commit: false, active: i } }
        else if id == 31 { EditCommand::Save { layer: i } }
        else { return Err(EditError::UnknownCommand); };
        Ok(c)
    }
}


/// Where the next generated feature goes, as grid cells of the sample's
/// layout; the caller turns cells into map coordinates.
#[derive(Debug, Clone, Copy, PartialEq, Eq, Structural)]
pub enum Placement {
    /// A polyline anchored at column `col`, row `row`.
    Line { col: i32, row: i32 },
    /// A polygon anchored at column `col`, row `row`.
    Polygon { col: i32, row: i32 },
    /// A session point at column `col`, row `row`, nudged `shift` times.
    SessionPoint { col: i32, row: i32, shift: i32 },
    /// A point of the 29 by 13 sample grid.
    GridPoint { col: i32, row: i32 },
}

/// The grid cell of the `n`-th generated point (29 columns, 13 rows).
pub open spec fn grid_cell(n: int) -> (int, int) {
    let cell = n % 377;
    ((cell * 7) % 29, (cell / 29 + cell * 11) % 13)
}

/// Where the `n`-th generated feature of a sample goes.
pub open spec fn placement_of(s: EditSample, kind: i32, n: int) -> Placement {
    if kind == 3 {
        Placement::Line { col: (n % 7) as i32, row: (n / 7) as i32 }
    } else if kind == 5 {
        Placement::Polygon { col: (n % 7) as i32, row: (n / 7) as i32 }
    } else if s.spec_is_session() {
        Placement::SessionPoint { col: (n % 11) as i32, row: ((n / 11) % 6) as i32, shift: (n / 66) as i32 }
    } else {
        Placement::GridPoint { col: grid_cell(n).0 as i32, row: grid_cell(n).1 as i32 }
    }
}

/// The attributes of a generated site point.
#[derive(Debug, Clone, PartialEq, Eq)]
pub struct SiteAttributes {
    pub name: String,
    pub category: String,
    pub score: i64,
    pub priority: i64,
}

/// "Site " followed by the number `k`.
pub open spec fn site_name(k: int) -> Seq<char> {
    "Site "@ + signed_decimal(k)
}

/// "Site " followed by the number `k`.
pub fn site_name_text(k: i64) -> (r: String)
    ensures
        r@ == site_name(k as int),
{
    let mut out = "Site ".to_owned();
    push_signed(&mut out, k);
    out
}

/// How the edit layers are rebuilt.
#[derive(Debug, Clone, Copy, PartialEq, Eq, Structural)]
pub enum Seed {
    /// No seed geometry.
    Nothing,
    /// The three session points.
    SessionPoints,
    /// The five site points with Name, Status and Priority.
    SitePoints,
    /// The sample polygon; a second one for the vertices tool.
    Polygons { count: i32 },
    /// The snapping guide line.
    Guide,
}

/// What a reset rebuilds.
#[derive(Debug, Clone, Copy, PartialEq, Eq, Structural)]
pub struct ResetPlan {
    /// Two point layers (Red Points, Blue Points) in place of one layer.
    pub two_layers: bool,
    /// First a committed layer of two seed lines.
    pub seed_lines: bool,
    /// The seed geometry of the edit layer.
    pub seed: Seed,
    /// Begin editing again after the seed is committed.
    pub begin_after_commit: bool,
    /// The tool to switch to.
    pub tool: Tool,
}

/// What a reset of sample `s` rebuilds.
pub open spec fn reset_plan_of(s: EditSample) -> ResetPlan {
    ResetPlan {
        two_layers: s == EditSample::MultiLayerEdit,
        seed_lines: s == EditSample::EditVerticesTool,
        seed: if s == EditSample::MultiLayerEdit {
            Seed::Nothing
        } else if s.spec_is_session() {
            Seed::SessionPoints
        } else if s == EditSample::DeleteFeature || s == EditSample::MoveFeatureTool
            || s == EditSample::MoveFeatureProgrammatic || s == EditSample::SetAttributes || s == EditSample::CanEditCheck {
            Seed::SitePoints
        } else if s.spec_edits_vertices() {
            Seed::Polygons { count: if s == EditSample::EditVerticesTool { 2 } else { 1 } }
        } else if s == EditSample::SnappingEnabled {
            Seed::Guide
        } else {
            Seed::Nothing
        },
        begin_after_commit: !(s.spec_is_session() || s == EditSample::CanEditCheck),
        tool: s.spec_start_tool(),
    }
}

/// What a control event asks for.
#[derive(Debug, Clone, Copy, PartialEq, Eq, Structural)]
pub enum ControlChange {
    /// 101: the caller sets the move step.
    Step,
    /// 102: the part index was set.
    Part,
    /// 103: the vertex index was set.
    Vertex,
    /// 104: the caller sets the new vertex X.
    VertexX,
    /// 105: the caller sets the new vertex Y.
    VertexY,
    /// 106: the Name attribute was set.
    Name,
    /// 107: the Status attribute was set.
    Status,
    /// 108: the Priority attribute was set.
    Priority,
    /// 109: turn snapping on or off.
    Snapping { on: bool },
    /// 110: the caller sets the snapping tolerance.
    Tolerance,
    /// Any other id: a button.
    Command { command: EditCommand },
}

/// The label of an edit-session signal (event types 6 to 9).
pub open spec fn signal_label(event_type: i32) -> Seq<char> {
    if event_type == 7 { "layerEditSessionStarted"@ }
    else if event_type == 8 { "layerEditSessionCommitted"@ }
    else if event_type == 9 { "layerEditSessionRolledBack"@ }
    else { "layerEditStateChanged"@ }
}

/// What the viewer reported about the active layer, for the status line.
#[derive(Debug, Clone, PartialEq, Eq)]
pub struct StatusFacts {
    pub editing: bool,
    pub dirty: bool,
    pub count: i32,
    pub selection: i32,
    pub undo: bool,
    pub redo: bool,
    /// Used by the can-edit sample only.
    pub can_edit_layer: bool,
    pub can_edit_selected: bool,
    pub can_move_selected: bool,
    /// Used by the multi-layer sample only: features of layer 1 and layer 0.
    pub red_count: i32,
    pub blue_count: i32,
    /// The attributes of the first selected feature, as text.
    pub attributes: String,
}

/// "true" or "false".
pub open spec fn bool_text(b: bool) -> Seq<char> {
    if b { "true"@ } else { "false"@ }
}

/// The first part of the status line: layer, session and history state.
pub open spec fn status_head(active: i32, f: StatusFacts) -> Seq<char> {
    "Layer "@ + signed_decimal(active as int) + " | Editing: "@ + bool_text(f.editing) + " | Dirty: "@ + bool_text(f.dirty)
        + " | Features: "@ + signed_decimal(f.count as int) + " | Selected: "@ + signed_decimal(f.selection as int)
        + " | Undo: "@ + bool_text(f.undo) + " | Redo: "@ + bool_text(f.redo)
}

/// The can-edit checks, for the sample that shows them.
pub open spec fn status_checks(s: EditSample, f: StatusFacts) -> Seq<char> {
    if s == EditSample::CanEditCheck {
        " | CanEditLayer: "@ + bool_text(f.can_edit_layer) + " | CanEditSelected: "@ + bool_text(f.can_edit_selected)
            + " | CanMoveSelected: "@ + bool_text(f.can_move_selected)
    } else {
        Seq::empty()
    }
}

/// The per-layer counts, for the two-layer sample.
pub open spec fn status_layers(s: EditSample, f: StatusFacts) -> Seq<char> {
    if s == EditSample::MultiLayerEdit {
        " | Red: "@ + signed_decimal(f.red_count as int) + " | Blue: "@ + signed_decimal(f.blue_count as int)
    } else {
        Seq::empty()
    }
}

/// " | " and `text`, when `shown`.
pub open spec fn status_part(shown: bool, text: Seq<char>) -> Seq<char> {
    if shown { " | "@ + text } else { Seq::empty() }
}

/// The status line of the active layer.
pub open spec fn status_line(s: EditSample, active: i32, f: StatusFacts, message: Seq<char>) -> Seq<char> {
    status_head(active, f) + status_checks(s, f) + status_layers(s, f) + status_part(f.selection > 0, f.attributes@)
        + status_part(message.len() > 0, message)
}

fn push_text(out: &mut String, text: &str)
    ensures
        final(out)@ == old(out)@ + text@,
{
    out.append(text);
}

fn push_bool(out: &mut String, b: bool)
    ensures
        final(out)@ == old(out)@ + bool_text(b),
{
    if b {
        out.append("true");
    } else {
        out.append("false");
    }
}

fn status_head_text(active: i32, f: &StatusFacts) -> (r: String)
    ensures
        r@ == status_head(active, *f),
{
    let mut out = "Layer ".to_owned();
    push_signed(&mut out, active as i64);
    push_text(&mut out, " | Editing: ");
    push_bool(&mut out, f.editing);
    push_text(&mut out, " | Dirty: ");
    push_bool(&mut out, f.dirty);
    push_text(&mut out, " | Features: ");
    push_signed(&mut out, f.count as i64);
    push_text(&mut out, " | Selected: ");
    push_signed(&mut out, f.selection as i64);
    push_text(&mut out, " | Undo: ");
    push_bool(&mut out, f.undo);
    push_text(&mut out, " | Redo: ");
    push_bool(&mut out, f.redo);
    assert(out@ =~= status_head(active, *f));
    out
}

fn push_checks(out: &mut String, s: EditSample, f: &StatusFacts)
    ensures
        final(out)@ == old(out)@ + status_checks(s, *f),
{
    if matches!(s, EditSample::CanEditCheck) {
        push_text(out, " | CanEditLayer: ");
        push_bool(out, f.can_edit_layer);
        push_text(out, " | CanEditSelected: ");
        push_bool(out, f.can_edit_selected);
        push_text(out, " | CanMoveSelected: ");
        push_bool(out, f.can_move_selected);
    }
    assert(final(out)@ =~= old(out)@ + status_checks(s, *f));
}

fn push_layers(out: &mut String, s: EditSample, f: &StatusFacts)
    ensures
        final(out)@ == old(out)@ + status_layers(s, *f),
{
    if matches!(s, EditSample::MultiLayerEdit) {
        push_text(out, " | Red: ");
        push_signed(out, f.red_count as i64);
        push_text(out, " | Blue: ");
        push_signed(out, f.blue_count as i64);
    }
    assert(final(out)@ =~= old(out)@ + status_layers(s, *f));
}

fn push_part(out: &mut String, shown: bool, text: &str)
    ensures
        final(out)@ == old(out)@ + status_part(shown, text@),
{
    if shown {
        push_text(out, " | ");
        push_text(out, text);
    }
    assert(final(out)@ =~= old(out)@ + status_part(shown, text@));
}

/// Whether a sample offers a control with id `id`.
pub open spec fn offers(s: EditSample, id: i32) -> bool {
    exists|i: int| 0 <= i < sample_buttons(s).len() && #[trigger] sample_buttons(s)[i].0 == id
}

/// The (id, enabled) pairs the sample offers, among `pairs`.
pub open spec fn offered(s: EditSample, pairs: Seq<(i32, bool)>) -> Seq<(i32, bool)>
    decreases pairs.len(),
{
    if pairs.len() == 0 {
        Seq::empty()
    } else if offers(s, pairs.last().0) {
        offered(s, pairs.drop_last()).push(pairs.last())
    } else {
        offered(s, pairs.drop_last())
    }
}

/// The enabled state of the session and history buttons.
pub open spec fn session_controls(editing: bool, undo: bool, redo: bool) -> Seq<(i32, bool)> {
    seq![(1i32, !editing), (2i32, editing), (3i32, editing), (4i32, editing), (21i32, undo), (22i32, redo), (23i32, undo), (24i32, redo)]
}

/// How the sample's map view starts.
#[derive(Debug, Clone, Copy, PartialEq, Eq, Structural)]
pub enum EditView {
    /// The full extent of the data.
    FullExtent,
    /// The view around the sample polygons.
    Vertices,
    /// The wider view of the undo, attribute and snapping samples.
    Wide,
    /// The default view; `tall` views reach further north.
    Standard { tall: bool },
}

/// How the map view of sample `s` starts.
pub open spec fn start_view_of(s: EditSample) -> EditView {
    if s == EditSample::AddPointInteractive {
        EditView::FullExtent
    } else if s.spec_edits_vertices() {
        EditView::Vertices
    } else if s == EditSample::UndoRedo || s == EditSample::SetAttributes || s == EditSample::SnappingEnabled {
        EditView::Wide
    } else {
        EditView::Standard {
            tall: s == EditSample::AddWithAttributes || s == EditSample::DeleteFeature || s == EditSample::MoveFeatureTool
                || s == EditSample::MoveFeatureProgrammatic || s == EditSample::MultiLayerEdit || s == EditSample::CanEditCheck,
        }
    }
}

/// The title of the sample's log panel, if it has one.
pub open spec fn log_title_of(s: EditSample) -> Option<Seq<char>> {
    if s == EditSample::EditSessionSignals {
        Some("Edit session events"@)
    } else if s == EditSample::AddWithAttributes || s == EditSample::SetAttributes || s == EditSample::CanEditCheck {
        Some("State and selected attributes"@)
    } else {
        None
    }
}

impl EditSample {
    /// What a reset of this sample rebuilds.
    pub fn reset_plan(self) -> (p: ResetPlan)
        ensures
            p == reset_plan_of(self),
    {
        let seed = match self {
            EditSample::MultiLayerEdit => Seed::Nothing,
            EditSample::EditSession | EditSample::EditDirtyState | EditSample::EditSessionSignals => Seed::SessionPoints,
            EditSample::DeleteFeature | EditSample::MoveFeatureTool | EditSample::MoveFeatureProgrammatic
            | EditSample::SetAttributes | EditSample::CanEditCheck => Seed::SitePoints,
            EditSample::EditVerticesTool => Seed::Polygons { count: 2 },
            EditSample::InsertVertex | EditSample::DeleteVertex => Seed::Polygons { count: 1 },
            EditSample::SnappingEnabled => Seed::Guide,
            _ => Seed::Nothing,
        };
        ResetPlan {
            two_layers: matches!(self, EditSample::MultiLayerEdit),
            seed_lines: matches!(self, EditSample::EditVerticesTool),
            seed,
            begin_after_commit: !(self.is_session() || matches!(self, EditSample::CanEditCheck)),
            tool: self.start_tool(),
        }
    }

    /// Whether the status line is also written to the log.
    pub fn logs_status(self) -> (b: bool)
        ensures
            b == (self == EditSample::AddWithAttributes || self == EditSample::SetAttributes || self == EditSample::CanEditCheck),
    {
        matches!(self, EditSample::AddWithAttributes | EditSample::SetAttributes | EditSample::CanEditCheck)
    }

    /// How the map view starts.
    pub fn start_view(self) -> (v: EditView)
        ensures
            v == start_view_of(self),
    {
        match self {
            EditSample::AddPointInteractive => EditView::FullExtent,
            EditSample::InsertVertex | EditSample::DeleteVertex | EditSample::EditVerticesTool => EditView::Vertices,
            EditSample::UndoRedo | EditSample::SetAttributes | EditSample::SnappingEnabled => EditView::Wide,
            _ => EditView::Standard {
                tall: matches!(
                    self,
                    EditSample::AddWithAttributes | EditSample::DeleteFeature | EditSample::MoveFeatureTool
                    | EditSample::MoveFeatureProgrammatic | EditSample::MultiLayerEdit | EditSample::CanEditCheck
                ),
            },
        }
    }

    /// The title of the log panel, if the sample has one.
    pub fn log_title(self) -> (t: Option<&'static str>)
        ensures
            t matches Some(x) ==> log_title_of(self) == Some(x@),
            t is None <==> log_title_of(self) is None,
    {
        match self {
            EditSample::EditSessionSignals => Some("Edit session events"),
            EditSample::AddWithAttributes | EditSample::SetAttributes | EditSample::CanEditCheck => Some("State and selected attributes"),
            _ => None,
        }
    }

    /// The (id, enabled) state of the session and history buttons the sample offers.
    pub fn control_states(self, editing: bool, undo: bool, redo: bool) -> (r: Vec<(i32, bool)>)
        ensures
            r@ == offered(self, session_controls(editing, undo, redo)),
    {
        let buttons = sample_button_list(self);
        let pairs: [(i32, bool); 8] = [(1, !editing), (2, editing), (3, editing), (4, editing), (21, undo), (22, redo), (23, undo), (24, redo)];
        let ghost all = session_controls(editing, undo, redo);
        assert(pairs@ =~= all);
        let mut r: Vec<(i32, bool)> = Vec::new();
        let mut k: usize = 0;
        while k < 8
            invariant
                k <= 8,
                pairs@ == all,
                button_pairs(buttons@) == sample_buttons(self),
                r@ == offered(self, all.take(k as int)),
            decreases 8 - k,
        {
            let (id, enabled) = pairs[k];
            let mut found = false;
            let mut j: usize = 0;
            while j < buttons.len()
                invariant
                    j <= buttons.len(),
                    button_pairs(buttons@) == sample_buttons(self),
                    found == exists|i: int| 0 <= i < j && #[trigger] sample_buttons(self)[i].0 == id,
                decreases buttons.len() - j,
            {
                assert(sample_buttons(self)[j as int].0 == buttons@[j as int].id);
                if buttons[j].id == id {
                    found = true;
                }
                j = j + 1;
            }
            assert(found == offers(self, id));
            assert(all.take(k + 1).drop_last() =~= all.take(k as int));
            if found {
                r.push((id, enabled));
            }
            k = k + 1;
        }
        assert(all.take(8) =~= all);
        r
    }
}


/// The attributes of the `n`-th generated site: "Site n+1", Odd for even
/// `n` and Even for odd `n`, score (n+1)*10, priority n+1.
pub fn site_attributes(n: i32) -> (a: SiteAttributes)
    ensures
        a.name@ == site_name(n + 1),
        a.category@ == (if n % 2 == 0 { "Odd"@ } else { "Even"@ }),
        a.score == (n + 1) * 10,
        a.priority == n + 1,
{
    let k = n as i64 + 1;
    SiteAttributes {
        name: site_name_text(k),
        category: if n % 2 == 0 { "Odd".to_owned() } else { "Even".to_owned() },
        score: k * 10,
        priority: k,
    }
}

/// The Name, Status and Priority of the `i`-th seeded site point, and of a
/// new feature drawn after `i` features: "Site i+1", Planned for even `i`
/// and Active for odd `i`, priority i+1.
pub fn seeded_site(i: i32, alternate: bool) -> (r: (String, &'static str, i64))
    ensures
        r.0@ == site_name(i + 1),
        r.1@ == (if !alternate || i % 2 == 0 { "Planned"@ } else { "Active"@ }),
        r.2 == i + 1,
{
    let k = i as i64 + 1;
    (site_name_text(k), if !alternate || i % 2 == 0 { "Planned" } else { "Active" }, k)
}

impl EditState {
    /// Where the next generated feature goes.
    pub fn placement(&self) -> (p: Placement)
        requires
            self.spec_serial() >= 0,
        ensures
            p == placement_of(self.spec_sample(), self.spec_kind(), self.spec_serial() as int),
    {
        let n = self.serial;
        if self.kind == 3 {
            Placement::Line { col: n % 7, row: n / 7 }
        } else if self.kind == 5 {
            Placement::Polygon { col: n % 7, row: n / 7 }
        } else if self.sample.is_session() {
            Placement::SessionPoint { col: n % 11, row: (n / 11) % 6, shift: n / 66 }
        } else {
            let cell = n % 377;
            Placement::GridPoint { col: (cell * 7) % 29, row: (cell / 29 + cell * 11) % 13 }
        }
    }

    /// Where the next generated feature goes, when the active layer is being
    /// edited; otherwise the refusal "Choose Begin Edit first".
    pub fn add_placement(&self, editing: bool) -> (r: Result<Placement, &'static str>)
        requires
            self.spec_serial() >= 0,
        ensures
            editing ==> r == Ok::<Placement, &'static str>(placement_of(self.spec_sample(), self.spec_kind(), self.spec_serial() as int)),
            !editing ==> (r matches Err(m) && m@ == "Choose Begin Edit first"@),
    {
        if !editing {
            return Err("Choose Begin Edit first");
        }
        Ok(self.placement())
    }

    /// Counts a generated feature that the viewer accepted.
    pub fn record_added(&mut self)
        requires
            0 <= old(self).spec_serial() < i32::MAX,
        ensures
            final(self).spec_serial() == old(self).spec_serial() + 1,
            final(self).spec_sample() == old(self).spec_sample(),
            final(self).spec_kind() == old(self).spec_kind(),
            final(self).spec_active() == old(self).spec_active(),
            final(self).spec_part() == old(self).spec_part(),
            final(self).spec_vertex() == old(self).spec_vertex(),
            final(self).spec_attributes() == old(self).spec_attributes(),
            final(self).spec_message() == old(self).spec_message(),
            final(self).spec_last_status() == old(self).spec_last_status(),
            final(self).spec_signals() == old(self).spec_signals(),
    {
        self.serial = self.serial + 1;
    }

    /// Starts over: the plan to rebuild the layers; the active layer is the
    /// blue one with two layers and the only one otherwise, and generation
    /// starts again at the first feature.
    pub fn reset(&mut self) -> (p: ResetPlan)
        ensures
            p == reset_plan_of(old(self).spec_sample()),
            final(self).spec_active() == (if old(self).spec_sample() == EditSample::MultiLayerEdit { 1i32 } else { 0i32 }),
            final(self).spec_serial() == 0,
            final(self).spec_sample() == old(self).spec_sample(),
            final(self).spec_kind() == old(self).spec_kind(),
            final(self).spec_part() == old(self).spec_part(),
            final(self).spec_vertex() == old(self).spec_vertex(),
            final(self).spec_attributes() == old(self).spec_attributes(),
            final(self).spec_message() == old(self).spec_message(),
            final(self).spec_last_status() == old(self).spec_last_status(),
            final(self).spec_signals() == old(self).spec_signals(),
    {
        let plan = self.sample.reset_plan();
        self.active = if plan.two_layers { 1 } else { 0 };
        self.serial = 0;
        plan
    }

    /// Applies a control event: `number` is the control's value as a whole
    /// number, `text` its text.
    pub fn control(&mut self, id: i32, number: i32, text: &str) -> (r: Result<ControlChange, EditError>)
        ensures
            id == 101 ==> r == Ok::<ControlChange, EditError>(ControlChange::Step),
            id == 102 ==> r == Ok::<ControlChange, EditError>(ControlChange::Part) && final(self).spec_part() == number,
            id == 103 ==> r == Ok::<ControlChange, EditError>(ControlChange::Vertex) && final(self).spec_vertex() == number,
            id == 104 ==> r == Ok::<ControlChange, EditError>(ControlChange::VertexX),
            id == 105 ==> r == Ok::<ControlChange, EditError>(ControlChange::VertexY),
            id == 106 ==> r == Ok::<ControlChange, EditError>(ControlChange::Name) && final(self).spec_attributes().name@ == text@,
            id == 107 ==> r == Ok::<ControlChange, EditError>(ControlChange::Status) && final(self).spec_attributes().status@ == text@,
            id == 108 ==> r == Ok::<ControlChange, EditError>(ControlChange::Priority) && final(self).spec_attributes().priority == number,
            id == 109 ==> r == Ok::<ControlChange, EditError>(ControlChange::Snapping { on: text@ == "On"@ }),
            id == 110 ==> r == Ok::<ControlChange, EditError>(ControlChange::Tolerance),
            !(101 <= id <= 110) ==> match command_for(id, old(self).spec_active(), old(self).spec_kind(), old(self).spec_part(), old(self).spec_vertex()) {
                Some(c) => r == Ok::<ControlChange, EditError>(ControlChange::Command { command: c }),
                None => r == Err::<ControlChange, EditError>(EditError::UnknownCommand),
            },
            !(101 <= id <= 110) ==> final(self).spec_active() == (if id == 27 { 1 } else if id == 28 { 0 } else { old(self).spec_active() }),
            101 <= id <= 110 ==> final(self).spec_active() == old(self).spec_active(),
            id != 102 ==> final(self).spec_part() == old(self).spec_part(),
            id != 103 ==> final(self).spec_vertex() == old(self).spec_vertex(),
            id != 106 ==> final(self).spec_attributes().name == old(self).spec_attributes().name,
            id != 107 ==> final(self).spec_attributes().status == old(self).spec_attributes().status,
            id != 108 ==> final(self).spec_attributes().priority == old(self).spec_attributes().priority,
            final(self).spec_sample() == old(self).spec_sample(),
            final(self).spec_kind() == old(self).spec_kind(),
            final(self).spec_serial() == old(self).spec_serial(),
            final(self).spec_message() == old(self).spec_message(),
            final(self).spec_last_status() == old(self).spec_last_status(),
            final(self).spec_signals() == old(self).spec_signals(),
    {
        if id == 101 {
            Ok(ControlChange::Step)
        } else if id == 102 {
            self.part = number;
            Ok(ControlChange::Part)
        } else if id == 103 {
            self.vertex = number;
            Ok(ControlChange::Vertex)
        } else if id == 104 {
            Ok(ControlChange::VertexX)
        } else if id == 105 {
            Ok(ControlChange::VertexY)
        } else if id == 106 {
            self.attributes.name = text.to_owned();
            Ok(ControlChange::Name)
        } else if id == 107 {
            self.attributes.status = text.to_owned();
            Ok(ControlChange::Status)
        } else if id == 108 {
            self.attributes.priority = number;
            Ok(ControlChange::Priority)
        } else if id == 109 {
            Ok(ControlChange::Snapping { on: same_text(text, "On") })
        } else if id == 110 {
            Ok(ControlChange::Tolerance)
        } else {
            match self.command(id) {
                Ok(c) => Ok(ControlChange::Command { command: c }),
                Err(e) => Err(e),
            }
        }
    }

    /// Notes a viewer event: edit-session signals (types 6 to 9) are
    /// remembered, and the signals sample gets a log line for each.
    pub fn signal(&mut self, event_type: i32, layer: i32) -> (line: Option<String>)
        ensures
            6 <= event_type <= 9 ==> final(self).spec_signals() == old(self).spec_signals().insert(event_type),
            !(6 <= event_type <= 9) ==> final(self).spec_signals() == old(self).spec_signals(),
            (6 <= event_type <= 9 && old(self).spec_sample() == EditSample::EditSessionSignals) <==> line is Some,
            line matches Some(l) ==> l@ == signal_label(event_type) + " | layer "@ + signed_decimal(layer as int),
            final(self).spec_sample() == old(self).spec_sample(),
            final(self).spec_kind() == old(self).spec_kind(),
            final(self).spec_active() == old(self).spec_active(),
            final(self).spec_serial() == old(self).spec_serial(),
            final(self).spec_part() == old(self).spec_part(),
            final(self).spec_vertex() == old(self).spec_vertex(),
            final(self).spec_attributes() == old(self).spec_attributes(),
            final(self).spec_message() == old(self).spec_message(),
            final(self).spec_last_status() == old(self).spec_last_status(),
    {
        if !(6 <= event_type && event_type <= 9) {
            return None;
        }
        self.signals.insert(event_type);
        if !matches!(self.sample, EditSample::EditSessionSignals) {
            return None;
        }
        let mut line = if event_type == 7 {
            "layerEditSessionStarted".to_owned()
        } else if event_type == 8 {
            "layerEditSessionCommitted".to_owned()
        } else if event_type == 9 {
            "layerEditSessionRolledBack".to_owned()
        } else {
            "layerEditStateChanged".to_owned()
        };
        line.append(" | layer ");
        push_signed(&mut line, layer as i64);
        Some(line)
    }

    /// Forgets the remembered edit-session signals.
    pub fn clear_signals(&mut self)
        ensures
            final(self).spec_signals() == Set::<i32>::empty(),
            final(self).spec_sample() == old(self).spec_sample(),
            final(self).spec_kind() == old(self).spec_kind(),
            final(self).spec_active() == old(self).spec_active(),
            final(self).spec_serial() == old(self).spec_serial(),
            final(self).spec_part() == old(self).spec_part(),
            final(self).spec_vertex() == old(self).spec_vertex(),
            final(self).spec_attributes() == old(self).spec_attributes(),
            final(self).spec_message() == old(self).spec_message(),
            final(self).spec_last_status() == old(self).spec_last_status(),
    {
        self.signals.clear();
    }

    /// The status line of the active layer.
    pub fn status(&self, f: &StatusFacts) -> (r: String)
        ensures
            r@ == status_line(self.spec_sample(), self.spec_active(), *f, self.spec_message()),
    {
        let mut out = status_head_text(self.active, f);
        push_checks(&mut out, self.sample, f);
        push_layers(&mut out, self.sample, f);
        push_part(&mut out, f.selection > 0, f.attributes.as_str());
        push_part(&mut out, self.message.as_str().unicode_len() > 0, self.message.as_str());
        out
    }

    /// Takes `status` as the shown status line; false when it is the line
    /// already shown, so nothing needs updating.
    pub fn accept_status(&mut self, status: &str) -> (changed: bool)
        ensures
            changed == (status@ != old(self).spec_last_status()),
            final(self).spec_last_status() == status@,
            final(self).spec_sample() == old(self).spec_sample(),
            final(self).spec_kind() == old(self).spec_kind(),
            final(self).spec_active() == old(self).spec_active(),
            final(self).spec_serial() == old(self).spec_serial(),
            final(self).spec_part() == old(self).spec_part(),
            final(self).spec_vertex() == old(self).spec_vertex(),
            final(self).spec_attributes() == old(self).spec_attributes(),
            final(self).spec_message() == old(self).spec_message(),
            final(self).spec_signals() == old(self).spec_signals(),
    {
        if same_text(status, self.last_status.as_str()) {
            return false;
        }
        self.last_status = status.to_owned();
        true
    }
}

} // verus!
