//! Topology samples: the shape-fixing operations offered, how their results
//! are drawn and summarised, and which relation results are accepted.
use vstd::prelude::*;
use crate::text::same_text;
use crate::text::push_decimal;
use crate::text::decimal;

verus! {

/// The operation code of a shape fix chosen by name.
pub open spec fn operation_code(name: Seq<char>) -> Option<i32> {
    if name == "FixShape"@ {
        Some(0)
    } else if name == "FixShapeEx"@ {
        Some(1)
    } else if name == "ClearShape"@ {
        Some(2)
    } else {
        None
    }
}

/// The operation code for a fix name; `None` shows the source alone.
pub fn operation_id(name: &str) -> (r: Option<i32>)
    ensures
        r == operation_code(name@),
{
    if same_text(name, "FixShape") {
        Some(0)
    } else if same_text(name, "FixShapeEx") {
        Some(1)
    } else if same_text(name, "ClearShape") {
        Some(2)
    } else {
        None
    }
}

/// How a fixed result is drawn and what is said of it.
#[derive(Debug, Clone, Copy)]
pub struct FixStyle {
    pub color: &'static str,
    pub note: &'static str,
}

/// Which of the three notes a fix result carries: the extended fix keeps
/// short parts, clearing is said to follow the plain fix, and any other code
/// is described as the plain fix.
pub open spec fn fix_note_index(id: i32) -> int {
    if id == 1 {
        1
    } else if id == 2 {
        2
    } else {
        0
    }
}

/// The colour and note of the result of fix `id`.
pub fn fix_style(id: i32) -> (s: FixStyle)
    ensures
        fix_note_index(id) == 1 ==> s.color@ == "#7B2CBF"@ && s.note@
            == "FixShapeEx(preserveEmptyParts=true) keeps short/empty parts for diagnostics."@,
        fix_note_index(id) == 2 ==> s.color@ == "#D95D39"@ && s.note@
            == "ClearShape currently performs the same cleanup path as FixShape."@,
        fix_note_index(id) == 0 ==> s.color@ == "#2A9D8F"@ && s.note@
            == "FixShape removes duplicate vertices and drops invalid short parts."@,
{
    if id == 1 {
        FixStyle {
            color: "#7B2CBF",
            note: "FixShapeEx(preserveEmptyParts=true) keeps short/empty parts for diagnostics.",
        }
    } else if id == 2 {
        FixStyle { color: "#D95D39", note: "ClearShape currently performs the same cleanup path as FixShape." }
    } else {
        FixStyle { color: "#2A9D8F", note: "FixShape removes duplicate vertices and drops invalid short parts." }
    }
}

/// The number of vertices in all parts together.
pub open spec fn total_vertices(lens: Seq<u64>) -> int
    decreases lens.len(),
{
    if lens.len() == 0 {
        0
    } else {
        total_vertices(lens.drop_last()) + lens.last()
    }
}

proof fn lemma_total_prefix(lens: Seq<u64>, k: int)
    requires
        0 <= k <= lens.len(),
    ensures
        0 <= total_vertices(lens.subrange(0, k)) <= total_vertices(lens),
    decreases lens.len(),
{
    if lens.len() > 0 {
        if k == lens.len() {
            assert(lens.subrange(0, k) =~= lens);
            lemma_total_prefix(lens.drop_last(), k - 1);
            assert(lens.drop_last().subrange(0, k - 1) =~= lens.drop_last());
        } else {
            lemma_total_prefix(lens.drop_last(), k);
            assert(lens.drop_last().subrange(0, k) =~= lens.subrange(0, k));
        }
    }
}

/// The one line that lists part `i` (counted from one) with `n` vertices.
pub open spec fn part_line(i: nat, n: nat) -> Seq<char> {
    "part "@ + decimal(i) + ": "@ + decimal(n) + " vertices\n"@
}

/// The lines that list the parts, in order.
pub open spec fn part_lines(lens: Seq<u64>) -> Seq<char>
    decreases lens.len(),
{
    if lens.len() == 0 {
        Seq::empty()
    } else {
        part_lines(lens.drop_last()) + part_line(lens.len(), lens.last() as nat)
    }
}

/// The extent line of a summary: "(empty)" when there is no vertex, the
/// bounds otherwise.
pub open spec fn extent_line(total: nat, bounds: Seq<char>) -> Seq<char> {
    if total == 0 {
        "Extent: (empty)\n"@
    } else {
        "Extent: "@ + bounds + "\n"@
    }
}

/// The summary of a multipart line whose parts have `lens` vertices: the
/// part and vertex counts, the extent line (`bounds`, which the caller
/// writes from the coordinates, is shown only when there is a vertex), and
/// one line for each part.
pub fn parts_summary(lens: &Vec<u64>, bounds: &str) -> (r: String)
    requires
        total_vertices(lens@) <= u64::MAX,
    ensures
        r@ == "Parts: "@ + decimal(lens.len() as nat) + "\nVertices: "@ + decimal(
            total_vertices(lens@) as nat,
        ) + "\n"@ + extent_line(total_vertices(lens@) as nat, bounds@) + part_lines(lens@),
{
    let mut total: u64 = 0;
    let mut i: usize = 0;
    while i < lens.len()
        invariant
            i <= lens.len(),
            total == total_vertices(lens@.subrange(0, i as int)),
            total_vertices(lens@) <= u64::MAX,
        decreases lens.len() - i,
    {
        proof {
            lemma_total_prefix(lens@, i as int + 1);
            assert(lens@.subrange(0, i as int + 1).drop_last() =~= lens@.subrange(0, i as int));
        }
        total = total + lens[i];
        i = i + 1;
    }
    assert(lens@.subrange(0, lens.len() as int) =~= lens@);
    let mut out = "Parts: ".to_owned();
    push_decimal(&mut out, lens.len() as u64);
    out.append("\nVertices: ");
    push_decimal(&mut out, total);
    out.append("\n");
    if total == 0 {
        out.append("Extent: (empty)\n");
    } else {
        out.append("Extent: ");
        out.append(bounds);
        out.append("\n");
    }
    let ghost head = out@;
    let mut j: usize = 0;
    while j < lens.len()
        invariant
            j <= lens.len(),
            out@ == head + part_lines(lens@.subrange(0, j as int)),
        decreases lens.len() - j,
    {
        proof {
            assert(lens@.subrange(0, j as int + 1).drop_last() =~= lens@.subrange(0, j as int));
        }
        out.append("part ");
        push_decimal(&mut out, j as u64 + 1);
        out.append(": ");
        push_decimal(&mut out, lens[j]);
        out.append(" vertices\n");
        j = j + 1;
    }
    assert(lens@.subrange(0, lens.len() as int) =~= lens@);
    out
}

/// Whether a spatial relation result can be shown: the service's own error
/// wins, then a relation whose DE-9IM matrix is not nine characters long is
/// refused.
pub fn check_relation(error: Option<&str>, matrix: Option<&str>) -> (r: Result<(), String>)
    ensures
        error matches Some(e) ==> (r matches Err(m) && m@ == e@),
        error is None ==> ((r is Ok) <==> (matrix matches Some(m) && m.len() == 9)),
        error is None ==> (r matches Err(m) ==> m@ == "Invalid DE-9IM matrix"@),
{
    match error {
        Some(e) => Err(e.to_owned()),
        None => match matrix {
            Some(m) => {
                if m.len() == 9 {
                    Ok(())
                } else {
                    Err("Invalid DE-9IM matrix".to_owned())
                }
            },
            None => Err("Invalid DE-9IM matrix".to_owned()),
        },
    }
}

/// The colour a checked ring is drawn in: green when valid, red when not.
pub fn ring_color(valid: bool) -> (c: &'static str)
    ensures
        valid ==> c@ == "#2A9D8F"@,
        !valid ==> c@ == "#D95D39"@,
{
    if valid {
        "#2A9D8F"
    } else {
        "#D95D39"
    }
}

/// The status after a fix: the operation applied, or, with none chosen,
/// the prompt to choose one.
pub fn fix_status(operation: Option<&str>) -> (r: String)
    ensures
        operation matches Some(op) ==> r@ == op@ + " applied."@,
        operation is None ==> r@ == "Source geometry is shown. Choose a fix operation."@,
{
    match operation {
        Some(op) => {
            let mut out = op.to_owned();
            out.append(" applied.");
            out
        },
        None => "Source geometry is shown. Choose a fix operation.".to_owned(),
    }
}

} // verus!
