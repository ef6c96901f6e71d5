//! The layer event log: which viewer signals are logged and under what
//! name, the time-of-day stamp of a log line, and the commands of the
//! layer toolbar.
use vstd::prelude::*;
use crate::text::escape_markup;
use crate::text::escape_markup_text;
use crate::text::push_padded;
use crate::text::push_signed;
use crate::text::push_char;
use crate::text::zero_padded;
use crate::text::signed_decimal;

verus! {

/// The name under which a viewer signal of type `kind` is logged; the
/// other signals are not logged.
pub open spec fn signal_name_of(kind: i32) -> Option<Seq<char>> {
    if kind == 2 {
        Some("layersChanged"@)
    } else if kind == 3 {
        Some("layerAdded"@)
    } else if kind == 4 {
        Some("layerRemoved"@)
    } else if kind == 5 {
        Some("layerVisibilityChanged"@)
    } else if kind == 6 {
        Some("layerEditStateChanged"@)
    } else if kind == 7 {
        Some("layerEditSessionStarted"@)
    } else if kind == 8 {
        Some("layerEditSessionCommitted"@)
    } else if kind == 9 {
        Some("layerEditSessionRolledBack"@)
    } else if kind == 10 {
        Some("layerOrderChanged"@)
    } else if kind == 23 {
        Some("layerAdding"@)
    } else if kind == 24 {
        Some("layerRemoving"@)
    } else if kind == 25 {
        Some("indexCreating"@)
    } else if kind == 26 {
        Some("indexCreated"@)
    } else if kind == 27 {
        Some("indexLoaded"@)
    } else if kind == 28 {
        Some("renderBackendChanged"@)
    } else {
        None
    }
}

/// The logged name of a signal, if it is logged.
pub fn signal_name(kind: i32) -> (r: Option<&'static str>)
    ensures
        r is Some <==> signal_name_of(kind) is Some,
        r matches Some(n) ==> signal_name_of(kind) == Some(n@),
{
    if kind == 2 {
        Some("layersChanged")
    } else if kind == 3 {
        Some("layerAdded")
    } else if kind == 4 {
        Some("layerRemoved")
    } else if kind == 5 {
        Some("layerVisibilityChanged")
    } else if kind == 6 {
        Some("layerEditStateChanged")
    } else if kind == 7 {
        Some("layerEditSessionStarted")
    } else if kind == 8 {
        Some("layerEditSessionCommitted")
    } else if kind == 9 {
        Some("layerEditSessionRolledBack")
    } else if kind == 10 {
        Some("layerOrderChanged")
    } else if kind == 23 {
        Some("layerAdding")
    } else if kind == 24 {
        Some("layerRemoving")
    } else if kind == 25 {
        Some("indexCreating")
    } else if kind == 26 {
        Some("indexCreated")
    } else if kind == 27 {
        Some("indexLoaded")
    } else if kind == 28 {
        Some("renderBackendChanged")
    } else {
        None
    }
}

/// Milliseconds in a day.
pub open spec fn day_millis() -> int {
    86400000
}

/// The time of day of a moment `ms` milliseconds after the epoch, as
/// `hh:mm:ss.mmm`.
pub open spec fn clock_text(ms: nat) -> Seq<char> {
    let t = ms % 86400000;
    zero_padded(t / 3600000, 2) + seq![':'] + zero_padded(t / 60000 % 60, 2) + seq![':'] + zero_padded(
        t / 1000 % 60,
        2,
    ) + seq!['.'] + zero_padded(t % 1000, 3)
}

/// The log line of a signal called `name` that came `ms` milliseconds after
/// the epoch, with its text (escaped for the rich-text log) and its two
/// numbers.
pub open spec fn signal_line_text(ms: nat, name: Seq<char>, text: Seq<char>, a: int, b: int) -> Seq<char> {
    clock_text(ms) + " Signal: "@ + name + seq!['('] + escape_markup(text) + ") ["@ + signed_decimal(a)
        + " / "@ + signed_decimal(b) + seq![']']
}

/// Writes the log line of a signal.
pub fn signal_line(ms: u64, name: &str, text: &str, a: i32, b: i32) -> (r: String)
    ensures
        r@ == signal_line_text(ms as nat, name@, text@, a as int, b as int),
{
    let t = ms % 86400000;
    let mut out = String::new();
    push_padded(&mut out, t / 3600000, 2);
    push_char(&mut out, ':');
    push_padded(&mut out, t / 60000 % 60, 2);
    push_char(&mut out, ':');
    push_padded(&mut out, t / 1000 % 60, 2);
    push_char(&mut out, '.');
    push_padded(&mut out, t % 1000, 3);
    out.append(" Signal: ");
    out.append(name);
    push_char(&mut out, '(');
    let escaped = escape_markup_text(text);
    out.append(escaped.as_str());
    out.append(") [");
    push_signed(&mut out, a as i64);
    out.append(" / ");
    push_signed(&mut out, b as i64);
    push_char(&mut out, ']');
    out
}

/// A command of the layer toolbar.
#[derive(Debug, Clone, Copy, PartialEq, Eq, Structural)]
pub enum LayerCommand {
    /// Add the layer with this index (world, states, cities) unless a layer
    /// of its name is there already.
    Add(usize),
    /// Remove the selected layer, if one is selected.
    Remove(Option<i32>),
    ClearLayers,
    /// Show or hide the selected layer, if one is selected.
    ToggleVisibility(Option<i32>),
    Refresh,
    ClearLog,
}

/// The command for toolbar button `id` while layer `selected` is selected
/// (negative: none is); `None` for a button the toolbar does not have.
pub open spec fn command_of(id: i32, selected: i32) -> Option<LayerCommand> {
    let chosen = if selected >= 0 { Some(selected) } else { None };
    if 1 <= id <= 3 {
        Some(LayerCommand::Add((id - 1) as usize))
    } else if id == 4 {
        Some(LayerCommand::Remove(chosen))
    } else if id == 5 {
        Some(LayerCommand::ClearLayers)
    } else if id == 6 {
        Some(LayerCommand::ToggleVisibility(chosen))
    } else if id == 9 {
        Some(LayerCommand::Refresh)
    } else if id == 10 {
        Some(LayerCommand::ClearLog)
    } else {
        None
    }
}

/// The command for toolbar button `id`, or the refusal
/// ("Unknown event command").
pub fn layer_command(id: i32, selected: i32) -> (r: Result<LayerCommand, &'static str>)
    ensures
        command_of(id, selected) matches Some(c) ==> r == Ok::<LayerCommand, &'static str>(c),
        command_of(id, selected) is None ==> (r matches Err(m) && m@ == "Unknown event command"@),
{
    let chosen = if selected >= 0 { Some(selected) } else { None };
    if 1 <= id && id <= 3 {
        Ok(LayerCommand::Add((id - 1) as usize))
    } else if id == 4 {
        Ok(LayerCommand::Remove(chosen))
    } else if id == 5 {
        Ok(LayerCommand::ClearLayers)
    } else if id == 6 {
        Ok(LayerCommand::ToggleVisibility(chosen))
    } else if id == 9 {
        Ok(LayerCommand::Refresh)
    } else if id == 10 {
        Ok(LayerCommand::ClearLog)
    } else {
        Err("Unknown event command")
    }
}

/// The log line that records toolbar button `id`.
pub fn action_line(id: i32) -> (r: String)
    ensures
        r@ == "Action: command "@ + signed_decimal(id as int),
{
    let mut out = "Action: command ".to_owned();
    push_signed(&mut out, id as i64);
    out
}

/// The names of the three layers the toolbar adds.
pub open spec fn layer_name_of(which: int) -> Seq<char> {
    if which == 0 {
        "World"@
    } else if which == 1 {
        "States"@
    } else {
        "Cities"@
    }
}

/// The name of the layer the toolbar adds as `which`.
pub fn layer_name(which: usize) -> (n: &'static str)
    ensures
        n@ == layer_name_of(which as int),
{
    if which == 0 {
        "World"
    } else if which == 1 {
        "States"
    } else {
        "Cities"
    }
}

/// The data file of an added layer, inside the data directory: `None` for
/// the world, which is the sample's own file.
pub fn layer_file(which: usize) -> (f: Option<&'static str>)
    ensures
        which == 0 ==> f is None,
        which == 1 ==> (f matches Some(t) && t@ == "usa_states/usa_states.shp"@),
        which > 1 ==> (f matches Some(t) && t@ == "usa_cities/usa_cities.shp"@),
{
    if which == 0 {
        None
    } else if which == 1 {
        Some("usa_states/usa_states.shp")
    } else {
        Some("usa_cities/usa_cities.shp")
    }
}

/// The error given when a layer cannot be loaded.
pub fn load_failure(name: &str) -> (r: String)
    ensures
        r@ == "Could not load "@ + name@,
{
    let mut out = "Could not load ".to_owned();
    out.append(name);
    out
}

/// Whether a viewer event is one the busy-state log records: layers added
/// and being added, busy changes, index creation and loading, and load
/// progress.
pub fn is_busy_event(kind: i32) -> (b: bool)
    ensures
        b == (kind == 3 || kind == 15 || kind == 23 || kind == 25 || kind == 26 || kind == 27 || kind == 29),
{
    kind == 3 || kind == 15 || kind == 23 || kind == 25 || kind == 26 || kind == 27 || kind == 29
}

/// Every signal line starts with the clock of the time of day, and the same
/// moment a day later gives the same clock.
pub proof fn lemma_signal_clock(ms: nat, name: Seq<char>, text: Seq<char>, a: int, b: int)
    ensures
        clock_text(ms) == clock_text((ms + day_millis()) as nat),
        signal_line_text(ms, name, text, a, b).subrange(0, clock_text(ms).len() as int) == clock_text(ms),
{
    assert((ms + 86400000) % 86400000 == ms % 86400000) by (nonlinear_arith);
    let line = signal_line_text(ms, name, text, a, b);
    assert(line.subrange(0, clock_text(ms).len() as int) =~= clock_text(ms));
}

} // verus!
