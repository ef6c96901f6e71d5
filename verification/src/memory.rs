//! In-memory layers: the three editable layers, where the next added shape
//! goes, and the status line of their feature counts.
use vstd::prelude::*;
use crate::text::push_signed;
use crate::text::signed_decimal;

verus! {

/// How many shapes of each kind were added since the last reset; the next
/// point, route and region are placed from these.
#[derive(Debug, Clone, Copy, PartialEq, Eq, Structural)]
pub struct MemoryCursors {
    pub points: i32,
    pub routes: i32,
    pub regions: i32,
}

/// What a memory command does.
#[derive(Debug, Clone, Copy, PartialEq, Eq, Structural)]
pub enum MemoryCommand {
    /// Add a city in this cell of the twelve-column grid.
    AddPoint { column: i32, row: i32 },
    /// Add the route shifted east by this many steps.
    AddRoute { steps: i32 },
    /// Add the region shifted east by this many steps.
    AddRegion { steps: i32 },
    /// Recreate the three layers with their first shapes.
    Reset,
    FullExtent,
}

/// The cursors after a reset: one route and one region are already there.
pub open spec fn reset_cursors() -> MemoryCursors {
    MemoryCursors { points: 0, routes: 1, regions: 1 }
}

impl MemoryCursors {
    /// No cursor is below zero: they only count shapes added.
    pub open spec fn wf(&self) -> bool {
        self.points >= 0 && self.routes >= 0 && self.regions >= 0
    }

    /// The cursors of freshly reset layers.
    pub fn new() -> (c: MemoryCursors)
        ensures
            c == reset_cursors(),
    {
        MemoryCursors { points: 0, routes: 1, regions: 1 }
    }

    /// What memory command `id` asks for: the shape to add at the cursors,
    /// a reset, the full extent, or the refusal ("Unknown command"). The
    /// cursors move only once the viewer has done the work: see
    /// `record_done`.
    pub fn command(&self, id: i32) -> (r: Result<MemoryCommand, &'static str>)
        requires
            self.wf(),
        ensures
            id == 1 ==> r == Ok::<MemoryCommand, &'static str>(MemoryCommand::AddPoint {
                column: (self.points % 12) as i32,
                row: (self.points / 12) as i32,
            }),
            id == 2 ==> r == Ok::<MemoryCommand, &'static str>(MemoryCommand::AddRoute { steps: self.routes }),
            id == 3 ==> r == Ok::<MemoryCommand, &'static str>(MemoryCommand::AddRegion { steps: self.regions }),
            id == 4 ==> r == Ok::<MemoryCommand, &'static str>(MemoryCommand::Reset),
            id == 5 ==> r == Ok::<MemoryCommand, &'static str>(MemoryCommand::FullExtent),
            !(1 <= id <= 5) ==> (r matches Err(m) && m@ == "Unknown command"@),
    {
        if id == 1 {
            Ok(MemoryCommand::AddPoint { column: self.points % 12, row: self.points / 12 })
        } else if id == 2 {
            Ok(MemoryCommand::AddRoute { steps: self.routes })
        } else if id == 3 {
            Ok(MemoryCommand::AddRegion { steps: self.regions })
        } else if id == 4 {
            Ok(MemoryCommand::Reset)
        } else if id == 5 {
            Ok(MemoryCommand::FullExtent)
        } else {
            Err("Unknown command")
        }
    }

    /// The viewer carried out `c`: the cursor of the added shape moves on,
    /// a reset starts the cursors again, and the full extent leaves them.
    pub fn record_done(&mut self, c: MemoryCommand)
        requires
            c is AddPoint ==> 0 <= old(self).points < i32::MAX,
            c is AddRoute ==> 0 <= old(self).routes < i32::MAX,
            c is AddRegion ==> 0 <= old(self).regions < i32::MAX,
            old(self).wf(),
        ensures
            final(self).wf(),
            c is AddPoint ==> *final(self) == (MemoryCursors { points: (old(self).points + 1) as i32, ..*old(self) }),
            c is AddRoute ==> *final(self) == (MemoryCursors { routes: (old(self).routes + 1) as i32, ..*old(self) }),
            c is AddRegion ==> *final(self) == (MemoryCursors { regions: (old(self).regions + 1) as i32, ..*old(self) }),
            c is Reset ==> *final(self) == reset_cursors(),
            c is FullExtent ==> *final(self) == *old(self),
    {
        match c {
            MemoryCommand::AddPoint { .. } => self.points = self.points + 1,
            MemoryCommand::AddRoute { .. } => self.routes = self.routes + 1,
            MemoryCommand::AddRegion { .. } => self.regions = self.regions + 1,
            MemoryCommand::Reset => *self = MemoryCursors { points: 0, routes: 1, regions: 1 },
            MemoryCommand::FullExtent => {},
        }
    }
}

/// The memory layers, in the order they are created, with their shape
/// types (polygon five, polyline three, point one).
pub open spec fn memory_layer(i: int) -> (Seq<char>, i32) {
    if i == 0 {
        ("Memory Regions"@, 5)
    } else if i == 1 {
        ("Memory Routes"@, 3)
    } else {
        ("Memory Cities"@, 1)
    }
}

/// The memory layer created `i`-th.
pub fn memory_layer_entry(i: usize) -> (r: (&'static str, i32))
    requires
        i < 3,
    ensures
        (r.0@, r.1) == memory_layer(i as int),
{
    if i == 0 {
        ("Memory Regions", 5)
    } else if i == 1 {
        ("Memory Routes", 3)
    } else {
        ("Memory Cities", 1)
    }
}

/// The kind of shape appended to the memory layer at `index`: a point, a
/// line or a polygon; no other layer takes shapes.
#[derive(Debug, Clone, Copy, PartialEq, Eq, Structural)]
pub enum AppendKind {
    Point,
    Polyline,
    Polygon,
}

/// The kind of shape the layer at `index` takes.
pub fn append_kind(index: i32) -> (r: Option<AppendKind>)
    ensures
        index == 0 ==> r == Some(AppendKind::Point),
        index == 1 ==> r == Some(AppendKind::Polyline),
        index == 2 ==> r == Some(AppendKind::Polygon),
        !(0 <= index <= 2) ==> r is None,
{
    if index == 0 {
        Some(AppendKind::Point)
    } else if index == 1 {
        Some(AppendKind::Polyline)
    } else if index == 2 {
        Some(AppendKind::Polygon)
    } else {
        None
    }
}

/// The status line of the three layers' feature counts.
pub fn memory_status(points: i32, lines: i32, polygons: i32) -> (r: String)
    ensures
        r@ == "Memory features - points: "@ + signed_decimal(points as int) + " | lines: "@ + signed_decimal(
            lines as int,
        ) + " | polygons: "@ + signed_decimal(polygons as int),
{
    let mut out = "Memory features - points: ".to_owned();
    push_signed(&mut out, points as i64);
    out.append(" | lines: ");
    push_signed(&mut out, lines as i64);
    out.append(" | polygons: ");
    push_signed(&mut out, polygons as i64);
    out
}

/// Points fill the grid row by row: consecutive points take consecutive
/// cells, and a reset starts again at the first cell.
pub proof fn lemma_grid_cells(n: i32)
    requires
        0 <= n < i32::MAX,
    ensures
        (n + 1) / 12 * 12 + (n + 1) % 12 == n + 1,
        n % 12 < 11 ==> (n + 1) % 12 == n % 12 + 1 && (n + 1) / 12 == n / 12,
        n % 12 == 11 ==> (n + 1) % 12 == 0 && (n + 1) / 12 == n / 12 + 1,
        reset_cursors().points == 0,
{
}

} // verus!
