//! Layer classification: the settings of a categorized or graduated
//! renderer, how each control changes them, which controls are offered and
//! enabled, and the texts that report the outcome.
use vstd::prelude::*;
use crate::text::same_text;

verus! {

/// The classification methods, in the order the renderer numbers them.
pub open spec fn method_name(i: int) -> Seq<char> {
    if i == 0 {
        "Manual"@
    } else if i == 1 {
        "Defined Interval"@
    } else if i == 2 {
        "Equal Interval"@
    } else if i == 3 {
        "Quantile"@
    } else if i == 4 {
        "Natural Breaks"@
    } else if i == 5 {
        "Quartile"@
    } else if i == 6 {
        "Standard Deviation"@
    } else if i == 7 {
        "Standard Deviation with Central"@
    } else if i == 8 {
        "Geometrical Interval"@
    } else if i == 9 {
        "K-Means"@
    } else {
        "K-Means Spatial"@
    }
}

/// How many classification methods there are.
pub open spec fn method_count() -> int {
    11
}

/// The first method called `text`, if any.
pub open spec fn method_of(text: Seq<char>) -> Option<int> {
    if exists|i: int| 0 <= i < method_count() && method_name(i) == text {
        Some(choose|i: int| 0 <= i < method_count() && method_name(i) == text && forall|j: int|
            0 <= j < i ==> method_name(j) != text)
    } else {
        None
    }
}

/// What a classification can style, in the renderer's numbering.
pub open spec fn target_name(i: int) -> Seq<char> {
    if i == 0 {
        "Color"@
    } else if i == 1 {
        "Size / Width"@
    } else if i == 2 {
        "Outline color"@
    } else {
        "Outline width"@
    }
}

/// The first style target called `text`, if any.
pub open spec fn target_of(text: Seq<char>) -> Option<int> {
    if exists|i: int| 0 <= i < 4 && target_name(i) == text {
        Some(choose|i: int| 0 <= i < 4 && target_name(i) == text && forall|j: int|
            0 <= j < i ==> target_name(j) != text)
    } else {
        None
    }
}

/// The name of method `i` as static text.
pub fn method_text(i: i32) -> (t: &'static str)
    requires
        0 <= i < method_count(),
    ensures
        t@ == method_name(i as int),
{
    if i == 0 {
        "Manual"
    } else if i == 1 {
        "Defined Interval"
    } else if i == 2 {
        "Equal Interval"
    } else if i == 3 {
        "Quantile"
    } else if i == 4 {
        "Natural Breaks"
    } else if i == 5 {
        "Quartile"
    } else if i == 6 {
        "Standard Deviation"
    } else if i == 7 {
        "Standard Deviation with Central"
    } else if i == 8 {
        "Geometrical Interval"
    } else if i == 9 {
        "K-Means"
    } else {
        "K-Means Spatial"
    }
}

/// The index of the first method called `text`.
pub fn method_index(text: &str) -> (r: Option<i32>)
    ensures
        r is Some <==> method_of(text@) is Some,
        r matches Some(i) ==> method_of(text@) == Some(i as int),
{
    let mut i: i32 = 0;
    while i < 11
        invariant
            0 <= i <= 11,
            forall|j: int| 0 <= j < i ==> method_name(j) != text@,
        decreases 11 - i,
    {
        if same_text(text, method_text(i)) {
            assert(method_name(i as int) == text@);
            return Some(i);
        }
        i = i + 1;
    }
    None
}

fn target_text(i: i32) -> (t: &'static str)
    requires
        0 <= i < 4,
    ensures
        t@ == target_name(i as int),
{
    if i == 0 {
        "Color"
    } else if i == 1 {
        "Size / Width"
    } else if i == 2 {
        "Outline color"
    } else {
        "Outline width"
    }
}

/// The index of the first style target called `text`.
pub fn target_index(text: &str) -> (r: Option<i32>)
    ensures
        r is Some <==> target_of(text@) is Some,
        r matches Some(i) ==> target_of(text@) == Some(i as int),
{
    let mut i: i32 = 0;
    while i < 4
        invariant
            0 <= i <= 4,
            forall|j: int| 0 <= j < i ==> target_name(j) != text@,
        decreases 4 - i,
    {
        if same_text(text, target_text(i)) {
            assert(target_name(i as int) == text@);
            return Some(i);
        }
        i = i + 1;
    }
    None
}

/// The renderer settings of the classification samples. The interval is
/// kept in ten-thousandths, rounded up, so that it is above ten exactly when
/// the typed value is; the typed value itself and the manual breaks, real
/// numbers, are kept by the caller.
#[derive(Debug, Clone)]
pub struct ClassSettings {
    pub categorized: bool,
    pub field: String,
    pub method: i32,
    pub classes: i32,
    pub ramp: String,
    pub interval: i64,
    pub ramp_mode: i32,
    pub reverse: bool,
    pub target: i32,
}

/// Whether the sample called `name` starts with a categorized renderer.
pub open spec fn starts_categorized(name: Seq<char>) -> bool {
    name == "CategorizedRenderer"@ || name == "ClearRenderer"@
}

/// The name of the sample with the full control panel.
pub open spec fn full_panel(name: Seq<char>) -> bool {
    name == "Classification"@
}

impl ClassSettings {
    /// The settings hold a method, a style target and a ramp mode that the
    /// renderer knows.
    pub open spec fn wf(&self) -> bool {
        &&& 0 <= self.method < method_count()
        &&& 0 <= self.target < 4
        &&& 0 <= self.ramp_mode <= 1
    }

    /// The settings the sample called `name` starts with.
    pub fn new(name: &str) -> (s: ClassSettings)
        ensures
            s.wf(),
            s.categorized == starts_categorized(name@),
            s.field@ == (if starts_categorized(name@) { "STATE"@ } else { "POPULATION"@ }),
            s.method == (if name@ == "ClassificationMethods"@ { 2i32 } else { 4i32 }),
            s.classes == (if starts_categorized(name@) {
                64i32
            } else if full_panel(name@) {
                15i32
            } else {
                5i32
            }),
            s.ramp@ == (if starts_categorized(name@) { "Unique"@ } else { "GreenBlue"@ }),
            s.interval == 1_000_000_000,
            s.ramp_mode == 0,
            !s.reverse,
            s.target == 0,
    {
        let categorized = same_text(name, "CategorizedRenderer") || same_text(name, "ClearRenderer");
        ClassSettings {
            categorized,
            field: if categorized { "STATE".to_owned() } else { "POPULATION".to_owned() },
            method: if same_text(name, "ClassificationMethods") { 2 } else { 4 },
            classes: if categorized {
                64
            } else if same_text(name, "Classification") {
                15
            } else {
                5
            },
            ramp: if categorized { "Unique".to_owned() } else { "GreenBlue".to_owned() },
            interval: 1_000_000_000,
            ramp_mode: 0,
            reverse: false,
            target: 0,
        }
    }
}

/// What follows a control change.
#[derive(Debug, Clone, Copy, PartialEq, Eq, Structural)]
pub enum ClassAction {
    /// The settings changed. `fields_reset`: the renderer kind changed, so
    /// the field list, the field and the ramp controls are refilled;
    /// `interval_reset`: the interval control is set back to one. Then the
    /// settings are applied (`then_apply`) or the controls are enabled to
    /// match them.
    Changed { fields_reset: bool, interval_reset: bool, then_apply: bool },
    /// The manual breaks text is read into numbers first; then as above.
    ReadBreaks { then_apply: bool },
    /// Apply the settings now.
    Apply,
    /// Clear the layer's renderer back to its plain style.
    Clear,
    /// Zoom to the classified layer.
    ZoomToLayer,
}

/// Why a control change was refused.
#[derive(Debug, Clone, Copy, PartialEq, Eq, Structural)]
pub enum ClassError {
    InvalidMethod,
    InvalidTarget,
    UnknownControl,
}

impl ClassError {
    /// The message shown for the refusal.
    pub fn message(self) -> (m: &'static str)
        ensures
            self == ClassError::InvalidMethod ==> m@ == "Invalid method"@,
            self == ClassError::InvalidTarget ==> m@ == "Invalid style target"@,
            self == ClassError::UnknownControl ==> m@ == "Unknown classification control"@,
    {
        match self {
            ClassError::InvalidMethod => "Invalid method",
            ClassError::InvalidTarget => "Invalid style target",
            ClassError::UnknownControl => "Unknown classification control",
        }
    }
}

/// The standard deviation methods, whose step is small.
pub open spec fn is_deviation(method: i32) -> bool {
    method == 6 || method == 7
}

/// The settings as values.
pub struct ClassView {
    pub categorized: bool,
    pub field: Seq<char>,
    pub method: i32,
    pub classes: i32,
    pub ramp: Seq<char>,
    pub interval: i64,
    pub ramp_mode: i32,
    pub reverse: bool,
    pub target: i32,
}

impl View for ClassSettings {
    type V = ClassView;

    open spec fn view(&self) -> ClassView {
        ClassView {
            categorized: self.categorized,
            field: self.field@,
            method: self.method,
            classes: self.classes,
            ramp: self.ramp@,
            interval: self.interval,
            ramp_mode: self.ramp_mode,
            reverse: self.reverse,
            target: self.target,
        }
    }
}

/// The interval a deviation method falls back to when the current one is
/// more than ten: one, in ten-thousandths.
pub open spec fn unit_interval() -> i64 {
    10000
}

/// What a change of control `id` does to settings `s`: the new settings and
/// what follows, or the refusal (settings unchanged). `whole` is the number
/// the control holds cut to an integer, `scaled` the same number in
/// ten-thousandths, `text` its text; `name` is the sample's.
pub open spec fn class_change(
    s: ClassView,
    id: i32,
    whole: i32,
    scaled: i64,
    text: Seq<char>,
    name: Seq<char>,
) -> (ClassView, Result<ClassAction, ClassError>) {
    let then_apply = !full_panel(name);
    let changed = Ok(ClassAction::Changed { fields_reset: false, interval_reset: false, then_apply });
    if id == 1 {
        let cat = text == "Categorized"@;
        (
            ClassView {
                categorized: cat,
                field: if cat { "STATEFP"@ } else { "POPULATION"@ },
                ramp: if cat { "Unique"@ } else { "GreenBlue"@ },
                ..s
            },
            Ok(ClassAction::Changed { fields_reset: true, interval_reset: false, then_apply }),
        )
    } else if id == 2 {
        (ClassView { field: text, ..s }, changed)
    } else if id == 3 {
        match method_of(text) {
            None => (s, Err(ClassError::InvalidMethod)),
            Some(m) => {
                let reset = is_deviation(m as i32) && s.interval > 100000;
                (
                    ClassView {
                        method: m as i32,
                        interval: if reset { unit_interval() } else { s.interval },
                        ..s
                    },
                    Ok(ClassAction::Changed {
                        fields_reset: false,
                        interval_reset: reset && full_panel(name),
                        then_apply,
                    }),
                )
            },
        }
    } else if id == 4 {
        (ClassView { classes: whole, ..s }, changed)
    } else if id == 5 {
        (ClassView { interval: scaled, ..s }, changed)
    } else if id == 6 {
        (s, Ok(ClassAction::ReadBreaks { then_apply }))
    } else if id == 7 {
        match target_of(text) {
            None => (s, Err(ClassError::InvalidTarget)),
            Some(t) => (ClassView { target: t as i32, ..s }, changed),
        }
    } else if id == 8 {
        (ClassView { ramp: text, ..s }, changed)
    } else if id == 9 {
        (ClassView { ramp_mode: if text == "Discrete"@ { 1 } else { 0 }, ..s }, changed)
    } else if id == 10 {
        (ClassView { reverse: text == "Yes"@, ..s }, changed)
    } else if id == 11 {
        (s, Ok(ClassAction::Apply))
    } else if id == 12 {
        (s, Ok(ClassAction::Clear))
    } else if id == 13 {
        (s, Ok(ClassAction::ZoomToLayer))
    } else {
        (s, Err(ClassError::UnknownControl))
    }
}

impl ClassSettings {
    /// Applies a change of control `id` of the sample called `name`, as
    /// `class_change` says.
    pub fn change(&mut self, id: i32, whole: i32, scaled: i64, text: &str, name: &str) -> (r: Result<
        ClassAction,
        ClassError,
    >)
        requires
            old(self).wf(),
        ensures
            final(self).wf(),
            (final(self)@, r) == class_change(old(self)@, id, whole, scaled, text@, name@),
            id == 1 ==> final(self).categorized == (text@ == "Categorized"@),
            id == 1 && text@ == "Categorized"@ ==> final(self).field@ == "STATEFP"@ && final(self).ramp@ == "Unique"@,
            id == 1 && text@ != "Categorized"@ ==> final(self).field@ == "POPULATION"@ && final(self).ramp@ == "GreenBlue"@,
    {
        let then_apply = !same_text(name, "Classification");
        let changed = Ok(ClassAction::Changed { fields_reset: false, interval_reset: false, then_apply });
        if id == 1 {
            let cat = same_text(text, "Categorized");
            self.categorized = cat;
            self.field = if cat { "STATEFP".to_owned() } else { "POPULATION".to_owned() };
            self.ramp = if cat { "Unique".to_owned() } else { "GreenBlue".to_owned() };
            Ok(ClassAction::Changed { fields_reset: true, interval_reset: false, then_apply })
        } else if id == 2 {
            self.field = text.to_owned();
            changed
        } else if id == 3 {
            match method_index(text) {
                None => Err(ClassError::InvalidMethod),
                Some(m) => {
                    let reset = (m == 6 || m == 7) && self.interval > 100000;
                    self.method = m;
                    if reset {
                        self.interval = 10000;
                    }
                    Ok(ClassAction::Changed { fields_reset: false, interval_reset: reset && !then_apply, then_apply })
                },
            }
        } else if id == 4 {
            self.classes = whole;
            changed
        } else if id == 5 {
            self.interval = scaled;
            changed
        } else if id == 6 {
            Ok(ClassAction::ReadBreaks { then_apply })
        } else if id == 7 {
            match target_index(text) {
                None => Err(ClassError::InvalidTarget),
                Some(t) => {
                    self.target = t;
                    changed
                },
            }
        } else if id == 8 {
            self.ramp = text.to_owned();
            changed
        } else if id == 9 {
            self.ramp_mode = if same_text(text, "Discrete") { 1 } else { 0 };
            changed
        } else if id == 10 {
            self.reverse = same_text(text, "Yes");
            changed
        } else if id == 11 {
            Ok(ClassAction::Apply)
        } else if id == 12 {
            Ok(ClassAction::Clear)
        } else if id == 13 {
            Ok(ClassAction::ZoomToLayer)
        } else {
            Err(ClassError::UnknownControl)
        }
    }

    /// Which controls of the full panel are enabled for these settings, as
    /// (control, enabled) pairs: the method only for graduated renderers,
    /// the class count unless the method fixes it, the interval only for the
    /// methods that step by it, the manual breaks only for the manual
    /// method, and the ramp mode only for graduated renderers.
    pub fn control_states(&self) -> (r: Vec<(i32, bool)>)
        ensures
            r@ == seq![
                (3i32, !self.categorized),
                (4i32, self.categorized || !(self.method == 0 || self.method == 1 || self.method == 5
                    || self.method == 6 || self.method == 7)),
                (5i32, !self.categorized && (self.method == 1 || self.method == 6 || self.method == 7)),
                (6i32, !self.categorized && self.method == 0),
                (9i32, !self.categorized),
            ],
    {
        let m = self.method;
        let cat = self.categorized;
        let mut r: Vec<(i32, bool)> = Vec::new();
        r.push((3, !cat));
        r.push((4, cat || !(m == 0 || m == 1 || m == 5 || m == 6 || m == 7)));
        r.push((5, !cat && (m == 1 || m == 6 || m == 7)));
        r.push((6, !cat && m == 0));
        r.push((9, !cat));
        r
    }

    /// The status line once the settings are applied: the field, then
    /// `Categorized` or the method's name.
    pub fn applied_status(&self) -> (r: String)
        requires
            self.wf(),
        ensures
            r@ == "Classification applied: "@ + self.field@ + " / "@ + (if self.categorized {
                "Categorized"@
            } else {
                method_name(self.method as int)
            }),
    {
        let mut out = "Classification applied: ".to_owned();
        out.append(self.field.as_str());
        out.append(" / ");
        if self.categorized {
            out.append("Categorized");
        } else {
            out.append(method_text(self.method));
        }
        out
    }

    /// The error given when the renderer refuses the settings.
    pub fn failure(&self) -> (r: String)
        ensures
            r@ == "Classification failed for "@ + self.field@,
    {
        let mut out = "Classification failed for ".to_owned();
        out.append(self.field.as_str());
        out
    }
}

/// Whether a field of attribute type `kind` is offered: every field for a
/// categorized renderer, only integer and real fields (types one and two)
/// for a graduated one.
pub fn field_offered(categorized: bool, kind: Option<i64>) -> (b: bool)
    ensures
        b == (categorized || kind == Some(1i64) || kind == Some(2i64)),
{
    categorized || match kind {
        Some(k) => k == 1 || k == 2,
        None => false,
    }
}

/// The controls the sample called `name` offers, in panel order: the full
/// panel has them all; the method sample the method; the ramp sample the
/// ramp; the clearing sample its three buttons; any other sample only the
/// full-extent button.
pub open spec fn panel_controls(name: Seq<char>) -> Seq<i32> {
    let full = full_panel(name);
    let first: Seq<i32> = if full { seq![1i32, 2, 4, 5, 6, 7, 9, 10] } else { seq![] };
    let method: Seq<i32> = if full || name == "ClassificationMethods"@ { seq![3i32] } else { seq![] };
    let ramp: Seq<i32> = if full || name == "GraduatedRenderer"@ { seq![8i32] } else { seq![] };
    let buttons: Seq<i32> = if full || name == "ClearRenderer"@ { seq![11i32, 12, 13] } else { seq![] };
    let all = first + method + ramp + buttons;
    if all.len() == 0 {
        seq![13i32]
    } else {
        all
    }
}

/// The controls offered by the sample called `name`.
pub fn panel_control_ids(name: &str) -> (r: Vec<i32>)
    ensures
        r@ == panel_controls(name@),
{
    let full = same_text(name, "Classification");
    let mut r: Vec<i32> = Vec::new();
    if full {
        r.push(1);
        r.push(2);
        r.push(4);
        r.push(5);
        r.push(6);
        r.push(7);
        r.push(9);
        r.push(10);
    }
    let ghost first = r@;
    if full || same_text(name, "ClassificationMethods") {
        r.push(3);
    }
    let ghost method = r@;
    if full || same_text(name, "GraduatedRenderer") {
        r.push(8);
    }
    let ghost ramp = r@;
    if full || same_text(name, "ClearRenderer") {
        r.push(11);
        r.push(12);
        r.push(13);
    }
    proof {
        let f: Seq<i32> = if full { seq![1i32, 2, 4, 5, 6, 7, 9, 10] } else { seq![] };
        assert(first =~= f);
    }
    if r.len() == 0 {
        r.push(13);
    }
    assert(r@ =~= panel_controls(name@));
    r
}

/// The method names offered by the sample called `name`: three for the
/// method sample, all of them otherwise.
pub fn offered_methods(name: &str) -> (r: Vec<&'static str>)
    ensures
        name@ == "ClassificationMethods"@ ==> r@.map_values(|t: &'static str| t@) == seq![
            method_name(2),
            method_name(3),
            method_name(6),
        ],
        name@ != "ClassificationMethods"@ ==> r@.map_values(|t: &'static str| t@) == Seq::new(
            11,
            |i: int| method_name(i),
        ),
{
    let mut r: Vec<&'static str> = Vec::new();
    if same_text(name, "ClassificationMethods") {
        r.push(method_text(2));
        r.push(method_text(3));
        r.push(method_text(6));
        assert(r@.map_values(|t: &'static str| t@) =~= seq![method_name(2), method_name(3), method_name(6)]);
    } else {
        let mut i: i32 = 0;
        while i < 11
            invariant
                0 <= i <= 11,
                r.len() == i,
                forall|k: int| 0 <= k < i ==> (#[trigger] r@[k])@ == method_name(k),
            decreases 11 - i,
        {
            r.push(method_text(i));
            i = i + 1;
        }
        assert(r@.map_values(|t: &'static str| t@) =~= Seq::new(11, |i: int| method_name(i)));
    }
    r
}

/// The text of the apply button: the clearing sample names the renderer it
/// applies.
pub fn apply_button_text(name: &str) -> (t: &'static str)
    ensures
        name@ == "ClearRenderer"@ ==> t@ == "Apply Categorized Renderer"@,
        name@ != "ClearRenderer"@ ==> t@ == "Apply"@,
{
    if same_text(name, "ClearRenderer") {
        "Apply Categorized Renderer"
    } else {
        "Apply"
    }
}

/// Switching the renderer resets the field and the ramp to the chosen
/// kind's defaults, whatever they were: categorized takes STATEFP with the
/// Unique ramp, any other choice the graduated POPULATION with GreenBlue.
pub proof fn lemma_renderer_switch_resets_field(s: ClassView, whole: i32, scaled: i64, text: Seq<char>, name: Seq<char>)
    ensures
        ({
            let (t, r) = class_change(s, 1, whole, scaled, text, name);
            &&& r is Ok
            &&& t.categorized == (text == "Categorized"@)
            &&& text == "Categorized"@ ==> t.field == "STATEFP"@ && t.ramp == "Unique"@
            &&& text != "Categorized"@ ==> t.field == "POPULATION"@ && t.ramp == "GreenBlue"@
            &&& t.method == s.method && t.classes == s.classes && t.interval == s.interval
        }),
{
}

/// A change keeps the settings well formed, and a refused change leaves
/// them as they were.
pub proof fn lemma_change_keeps_settings(s: ClassView, id: i32, whole: i32, scaled: i64, text: Seq<
    char,
>, name: Seq<char>)
    requires
        0 <= s.method < method_count(),
        0 <= s.target < 4,
        0 <= s.ramp_mode <= 1,
    ensures
        ({
            let (t, r) = class_change(s, id, whole, scaled, text, name);
            &&& 0 <= t.method < method_count()
            &&& 0 <= t.target < 4
            &&& 0 <= t.ramp_mode <= 1
            &&& (r is Err ==> t == s)
        }),
{
    if let Some(m) = method_of(text) {
        let w = choose|i: int| 0 <= i < method_count() && method_name(i) == text;
        assert(0 <= w < method_count() && method_name(w) == text);
    }
    if let Some(t) = target_of(text) {
        let w = choose|i: int| 0 <= i < 4 && target_name(i) == text;
        assert(0 <= w < 4 && target_name(w) == text);
    }
}

} // verus!
