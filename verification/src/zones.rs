//! Styling features by a zone attribute: the zones, the zone each county
//! starts with, the feature list, and the editor that changes one county's
//! zone.
use vstd::prelude::*;
use crate::text::push_decimal;
use crate::text::push_signed;
use crate::text::decimal;
use crate::text::signed_decimal;
use crate::text::same_text;

verus! {

/// The zones, in the order of their rules.
pub open spec fn zone_name(i: int) -> Seq<char> {
    if i == 0 {
        "Residential"@
    } else if i == 1 {
        "Commercial"@
    } else if i == 2 {
        "Industrial"@
    } else if i == 3 {
        "Park"@
    } else {
        "Mixed"@
    }
}

/// Zone `i` as static text.
pub fn zone_text(i: usize) -> (t: &'static str)
    requires
        i < 5,
    ensures
        t@ == zone_name(i as int),
{
    if i == 0 {
        "Residential"
    } else if i == 1 {
        "Commercial"
    } else if i == 2 {
        "Industrial"
    } else if i == 3 {
        "Park"
    } else {
        "Mixed"
    }
}

/// The fill and outline colours of zone `i`'s rule.
pub open spec fn zone_colors(i: int) -> (Seq<char>, Seq<char>) {
    if i == 0 {
        ("#AAF5DFA1"@, "#EBA16207"@)
    } else if i == 1 {
        ("#AA9DD7F5"@, "#EB0369A1"@)
    } else if i == 2 {
        ("#AAC4B5FD"@, "#EB6D28D9"@)
    } else if i == 3 {
        ("#AA9AD9A8"@, "#EB15803D"@)
    } else {
        ("#AAFDBA9A"@, "#EBC2410C"@)
    }
}

/// The colours of zone `i`'s rule.
pub fn zone_color_pair(i: usize) -> (r: (&'static str, &'static str))
    requires
        i < 5,
    ensures
        (r.0@, r.1@) == zone_colors(i as int),
{
    if i == 0 {
        ("#AAF5DFA1", "#EBA16207")
    } else if i == 1 {
        ("#AA9DD7F5", "#EB0369A1")
    } else if i == 2 {
        ("#AAC4B5FD", "#EB6D28D9")
    } else if i == 3 {
        ("#AA9AD9A8", "#EB15803D")
    } else {
        ("#AAFDBA9A", "#EBC2410C")
    }
}

/// The zones the counties start with: the five zones in turn.
pub fn initial_zones(n: usize) -> (r: Vec<String>)
    ensures
        r.len() == n,
        forall|i: int| 0 <= i < n ==> (#[trigger] r@[i])@ == zone_name(i % 5),
{
    let mut r: Vec<String> = Vec::new();
    let mut i: usize = 0;
    while i < n
        invariant
            i <= n,
            r.len() == i,
            forall|k: int| 0 <= k < i ==> (#[trigger] r@[k])@ == zone_name(k % 5),
        decreases n - i,
    {
        r.push(zone_text(i % 5).to_owned());
        i = i + 1;
    }
    r
}

/// The name of a county without a `NAME` attribute: `Feature` and its row
/// counted from one.
pub fn default_feature_name(row: i32) -> (r: String)
    requires
        row < i32::MAX,
    ensures
        r@ == "Feature "@ + signed_decimal(row + 1),
{
    let mut out = "Feature ".to_owned();
    push_signed(&mut out, row as i64 + 1);
    out
}

/// The entry of county `i` in the feature list.
pub open spec fn feature_label(i: int, name: Seq<char>) -> Seq<char> {
    decimal((i + 1) as nat) + ": "@ + name
}

/// The feature list: each county numbered from one.
pub fn feature_labels(names: &Vec<String>) -> (r: Vec<String>)
    ensures
        r.len() == names.len(),
        forall|i: int| 0 <= i < names.len() ==> (#[trigger] r@[i])@ == feature_label(i, names@[i]@),
{
    let mut r: Vec<String> = Vec::new();
    let mut i: usize = 0;
    while i < names.len()
        invariant
            i <= names.len(),
            r.len() == i,
            forall|k: int| 0 <= k < i ==> (#[trigger] r@[k])@ == feature_label(k, names@[k]@),
        decreases names.len() - i,
    {
        let mut label = String::new();
        push_decimal(&mut label, i as u64 + 1);
        label.append(": ");
        label.append(names[i].as_str());
        r.push(label);
        i = i + 1;
    }
    r
}

/// The status line after county `name` got `zone`.
pub fn zone_status(name: &str, zone: &str) -> (r: String)
    ensures
        r@ == name@ + " - zone="@ + zone@,
{
    let mut out = name.to_owned();
    out.append(" - zone=");
    out.append(zone);
    out
}

/// The zone editor: the county chosen, the zone typed for it, and every
/// county's zone.
#[derive(Debug, Clone)]
pub struct ZoneEditor {
    pub selected: usize,
    pub zone: String,
    pub zones: Vec<String>,
}

/// What a change in the zone editor asks for.
#[derive(Debug, Clone, Copy, PartialEq, Eq, Structural)]
pub enum ZoneAction {
    /// Nothing beyond the editor's own state.
    Nothing,
    /// Another county was chosen: show its zone in the zone control.
    ShowZone,
    /// Give the chosen county the typed zone; once that succeeded, call
    /// `applied`.
    Apply,
}

impl ZoneEditor {
    /// The editor is on one of the counties.
    pub open spec fn wf(&self) -> bool {
        self.selected < self.zones.len()
    }

    /// The editor over `zones`, on the first county.
    pub fn new(zones: Vec<String>) -> (e: ZoneEditor)
        requires
            zones.len() > 0,
        ensures
            e.wf(),
            e.selected == 0,
            e.zone@ == zones@[0]@,
            e.zones@ == zones@,
    {
        let zone = zones[0].clone();
        ZoneEditor { selected: 0, zone, zones }
    }

    /// A control changed: the county chosen by its entry in `labels` (an
    /// entry that is not there is refused with "Invalid feature"), the zone
    /// typed, or the apply button.
    pub fn control(&mut self, id: i32, text: &str, labels: &Vec<String>) -> (r: Result<ZoneAction, &'static str>)
        requires
            old(self).wf(),
            labels.len() == old(self).zones.len(),
        ensures
            final(self).wf(),
            final(self).zones@ == old(self).zones@,
            id == 1 ==> match r {
                Ok(a) => a == ZoneAction::ShowZone && labels@[final(self).selected as int]@ == text@ && (forall|j: int|
                    0 <= j < final(self).selected ==> labels@[j]@ != text@) && final(self).zone@ == final(self).zones@[final(self).selected as int]@,
                Err(m) => m@ == "Invalid feature"@ && (forall|j: int| 0 <= j < labels.len() ==> labels@[j]@ != text@)
                    && final(self).selected == old(self).selected && final(self).zone@ == old(self).zone@,
            },
            id == 2 ==> r == Ok::<ZoneAction, &'static str>(ZoneAction::Nothing) && final(self).zone@ == text@
                && final(self).selected == old(self).selected,
            id == 3 ==> r == Ok::<ZoneAction, &'static str>(ZoneAction::Apply) && final(self).zone@ == old(self).zone@
                && final(self).selected == old(self).selected,
            !(1 <= id <= 3) ==> r == Ok::<ZoneAction, &'static str>(ZoneAction::Nothing) && final(self).zone@
                == old(self).zone@ && final(self).selected == old(self).selected,
    {
        if id == 1 {
            let mut i: usize = 0;
            while i < labels.len()
                invariant
                    i <= labels.len(),
                    id == 1,
                    labels.len() == self.zones.len(),
                    self.zones@ == old(self).zones@,
                    self.selected == old(self).selected,
                    self.zone@ == old(self).zone@,
                    forall|j: int| 0 <= j < i ==> labels@[j]@ != text@,
                decreases labels.len() - i,
            {
                if same_text(labels[i].as_str(), text) {
                    self.selected = i;
                    self.zone = self.zones[i].clone();
                    return Ok(ZoneAction::ShowZone);
                }
                i = i + 1;
            }
            Err("Invalid feature")
        } else if id == 2 {
            self.zone = text.to_owned();
            Ok(ZoneAction::Nothing)
        } else if id == 3 {
            Ok(ZoneAction::Apply)
        } else {
            Ok(ZoneAction::Nothing)
        }
    }

    /// The chosen county now has the typed zone.
    pub fn applied(&mut self)
        requires
            old(self).wf(),
        ensures
            final(self).wf(),
            final(self).selected == old(self).selected,
            final(self).zone@ == old(self).zone@,
            final(self).zones@.len() == old(self).zones@.len(),
            final(self).zones@[old(self).selected as int]@ == old(self).zone@,
            forall|j: int| 0 <= j < old(self).zones.len() && j != old(self).selected ==> final(self).zones@[j]
                == old(self).zones@[j],
    {
        let zone = self.zone.clone();
        let i = self.selected;
        self.zones.set(i, zone);
    }
}

} // verus!
