//! Ordering file names: texts compared character by character, names
//! keyed by a number first, and sorting by that order.
use vstd::prelude::*;
use vstd::relations::total_ordering;
use vstd::relations::sorted_by;
use crate::text::text_chars;

verus! {

/// Whether `a` comes before `b` or equals it, comparing characters by
/// their code points and a prefix before the longer text.
pub open spec fn text_le(a: Seq<char>, b: Seq<char>) -> bool
    decreases a.len(),
{
    if a.len() == 0 {
        true
    } else if b.len() == 0 {
        false
    } else if a[0] != b[0] {
        (a[0] as int) < (b[0] as int)
    } else {
        text_le(a.drop_first(), b.drop_first())
    }
}

proof fn lemma_text_le_reflexive(a: Seq<char>)
    ensures
        text_le(a, a),
    decreases a.len(),
{
    if a.len() > 0 {
        lemma_text_le_reflexive(a.drop_first());
    }
}

proof fn lemma_text_le_antisymmetric(a: Seq<char>, b: Seq<char>)
    requires
        text_le(a, b),
        text_le(b, a),
    ensures
        a == b,
    decreases a.len(),
{
    if a.len() > 0 && b.len() > 0 {
        if a[0] == b[0] {
            lemma_text_le_antisymmetric(a.drop_first(), b.drop_first());
            assert(a =~= seq![a[0]] + a.drop_first());
            assert(b =~= seq![b[0]] + b.drop_first());
        }
    }
}

proof fn lemma_text_le_transitive(a: Seq<char>, b: Seq<char>, c: Seq<char>)
    requires
        text_le(a, b),
        text_le(b, c),
    ensures
        text_le(a, c),
    decreases a.len(),
{
    if a.len() > 0 && b.len() > 0 && c.len() > 0 {
        if a[0] == b[0] && b[0] == c[0] {
            lemma_text_le_transitive(a.drop_first(), b.drop_first(), c.drop_first());
        }
    }
}

proof fn lemma_text_le_total(a: Seq<char>, b: Seq<char>)
    ensures
        text_le(a, b) || text_le(b, a),
    decreases a.len(),
{
    if a.len() > 0 && b.len() > 0 && a[0] == b[0] {
        lemma_text_le_total(a.drop_first(), b.drop_first());
    }
}

/// A name keyed by a number: the number orders first, the name breaks ties.
pub open spec fn keyed_le(a: (u32, Seq<char>), b: (u32, Seq<char>)) -> bool {
    a.0 < b.0 || (a.0 == b.0 && text_le(a.1, b.1))
}

/// The order of keyed names, as a relation.
pub open spec fn keyed_order() -> spec_fn((u32, Seq<char>), (u32, Seq<char>)) -> bool {
    |a: (u32, Seq<char>), b: (u32, Seq<char>)| keyed_le(a, b)
}

/// Keyed names are totally ordered.
pub proof fn lemma_keyed_total()
    ensures
        total_ordering(keyed_order()),
{
    assert forall|x: (u32, Seq<char>)| #[trigger] keyed_order()(x, x) by {
        lemma_text_le_reflexive(x.1);
    }
    assert forall|x: (u32, Seq<char>), y: (u32, Seq<char>)|
        #[trigger] keyed_order()(x, y) && #[trigger] keyed_order()(y, x) implies x == y by {
        if x.0 == y.0 {
            lemma_text_le_antisymmetric(x.1, y.1);
        }
    }
    assert forall|x: (u32, Seq<char>), y: (u32, Seq<char>), z: (u32, Seq<char>)|
        #[trigger] keyed_order()(x, y) && #[trigger] keyed_order()(y, z) implies keyed_order()(x, z) by {
        if x.0 == y.0 && y.0 == z.0 {
            lemma_text_le_transitive(x.1, y.1, z.1);
        }
    }
    assert forall|x: (u32, Seq<char>), y: (u32, Seq<char>)|
        #[trigger] keyed_order()(x, y) || #[trigger] keyed_order()(y, x) by {
        lemma_text_le_total(x.1, y.1);
    }
}

/// Whether `a` comes before `b` or equals it.
pub fn text_le_exec(a: &str, b: &str) -> (r: bool)
    ensures
        r == text_le(a@, b@),
{
    let x = text_chars(a);
    let y = text_chars(b);
    let mut i: usize = 0;
    assert(a@.subrange(0, a@.len() as int) =~= a@);
    assert(b@.subrange(0, b@.len() as int) =~= b@);
    while i < x.len() && i < y.len()
        invariant
            i <= x.len(),
            i <= y.len(),
            x@ == a@,
            y@ == b@,
            x@.subrange(0, i as int) == y@.subrange(0, i as int),
            text_le(a@, b@) == text_le(a@.subrange(i as int, a@.len() as int), b@.subrange(i as int, b@.len() as int)),
        decreases x.len() - i,
    {
        let p = x[i];
        let q = y[i];
        let ghost ra = a@.subrange(i as int, a@.len() as int);
        let ghost rb = b@.subrange(i as int, b@.len() as int);
        assert(ra[0] == p && rb[0] == q);
        if p != q {
            return p < q;
        }
        assert(ra.drop_first() =~= a@.subrange(i as int + 1, a@.len() as int));
        assert(rb.drop_first() =~= b@.subrange(i as int + 1, b@.len() as int));
        assert(x@.subrange(0, i as int + 1) =~= x@.subrange(0, i as int).push(p));
        assert(y@.subrange(0, i as int + 1) =~= y@.subrange(0, i as int).push(q));
        i = i + 1;
    }
    i == x.len()
}

/// The keyed names by their views.
pub open spec fn keyed_views(v: Seq<(u32, String)>) -> Seq<(u32, Seq<char>)> {
    v.map_values(|e: (u32, String)| (e.0, e.1@))
}

/// Whether keyed name `a` comes before `b` or equals it.
pub fn keyed_le_exec(a: &(u32, String), b: &(u32, String)) -> (r: bool)
    ensures
        r == keyed_le((a.0, a.1@), (b.0, b.1@)),
{
    a.0 < b.0 || (a.0 == b.0 && text_le_exec(a.1.as_str(), b.1.as_str()))
}

/// Keyed names in order: by number, then by name.
pub fn sort_keyed(items: Vec<(u32, String)>) -> (r: Vec<(u32, String)>)
    ensures
        keyed_views(r@) == keyed_views(items@).sort_by(keyed_order()),
{
    broadcast use vstd::seq_lib::to_multiset_insert;
    let ghost input = keyed_views(items@);
    let mut out: Vec<(u32, String)> = Vec::new();
    let mut i: usize = 0;
    proof {
        lemma_keyed_total();
        assert(keyed_views(out@) =~= Seq::<(u32, Seq<char>)>::empty());
        assert(input.subrange(0, 0) =~= Seq::<(u32, Seq<char>)>::empty());
    }
    while i < items.len()
        invariant
            i <= items.len(),
            input == keyed_views(items@),
            total_ordering(keyed_order()),
            sorted_by(keyed_views(out@), keyed_order()),
            keyed_views(out@).to_multiset() == input.subrange(0, i as int).to_multiset(),
        decreases items.len() - i,
    {
        let item = (items[i].0, items[i].1.clone());
        assert(item.1@ == items@[i as int].1@);
        let ghost before = keyed_views(out@);
        let ghost x = (item.0, item.1@);
        let mut p: usize = 0;
        while p < out.len() && keyed_le_exec(&out[p], &item)
            invariant
                p <= out.len(),
                before == keyed_views(out@),
                x == (item.0, item.1@),
                forall|k: int| 0 <= k < p ==> keyed_le(#[trigger] before[k], x),
            decreases out.len() - p,
        {
            p = p + 1;
        }
        proof {
            assert(forall|k: int| p <= k < before.len() ==> keyed_le(x, #[trigger] before[k])) by {
                assert forall|k: int| p <= k < before.len() implies keyed_le(x, #[trigger] before[k]) by {
                    assert(keyed_order()(before[p as int], before[k]));
                    assert(!keyed_le(before[p as int], x));
                    assert(keyed_order()(x, before[p as int]) || keyed_order()(before[p as int], x));
                }
            }
        }
        out.insert(p, item);
        proof {
            let after = keyed_views(out@);
            assert(after =~= before.insert(p as int, x));
            assert(input.subrange(0, i as int + 1) =~= input.subrange(0, i as int).push(x));
            assert(input.subrange(0, i as int).push(x) =~= input.subrange(0, i as int).insert(
                i as int,
                x,
            ));
            vstd::seq_lib::to_multiset_insert(before, p as int, x);
            vstd::seq_lib::to_multiset_insert(input.subrange(0, i as int), i as int, x);
            assert forall|a: int, b: int| 0 <= a < b < after.len() implies #[trigger] keyed_order()(
                after[a],
                after[b],
            ) by {
                if b < p {
                } else if b == p {
                } else if a < p {
                    assert(keyed_order()(after[a], x));
                    assert(keyed_order()(x, after[b]));
                } else if a == p {
                } else {
                    assert(keyed_order()(before[a - 1], before[b - 1]));
                }
            }
        }
        i = i + 1;
    }
    proof {
        assert(input.subrange(0, items.len() as int) =~= input);
        input.lemma_sort_by_ensures(keyed_order());
        vstd::seq_lib::lemma_sorted_unique(keyed_views(out@), input.sort_by(keyed_order()), keyed_order());
    }
    out
}

/// The value of a run of decimal digits.
pub open spec fn digits_value(d: Seq<char>) -> int
    decreases d.len(),
{
    if d.len() == 0 {
        0
    } else {
        digits_value(d.drop_last()) * 10 + (d.last() as int - '0' as int)
    }
}

/// An ASCII decimal digit.
pub open spec fn is_digit(c: char) -> bool {
    '0' <= c && c <= '9'
}

/// The digits of a number text: the text without a leading `+`.
pub open spec fn digits_part(s: Seq<char>) -> Seq<char> {
    if s.len() > 0 && s[0] == '+' {
        s.drop_first()
    } else {
        s
    }
}

/// Whether every character is a decimal digit.
pub open spec fn all_digits(d: Seq<char>) -> bool {
    forall|i: int| 0 <= i < d.len() ==> is_digit(#[trigger] d[i])
}

/// What `str::parse::<u32>` makes of a text: an optional `+`, then one or
/// more decimal digits whose value fits 32 bits.
pub open spec fn parsed_u32(s: Seq<char>) -> Option<u32> {
    let d = digits_part(s);
    if d.len() > 0 && all_digits(d) && digits_value(d) <= u32::MAX {
        Some(digits_value(d) as u32)
    } else {
        None
    }
}

proof fn lemma_digits_value_grows(d: Seq<char>, k: int)
    requires
        0 <= k <= d.len(),
        forall|i: int| 0 <= i < d.len() ==> is_digit(#[trigger] d[i]),
    ensures
        0 <= digits_value(d.subrange(0, k)) <= digits_value(d),
    decreases d.len() - k,
{
    if k < d.len() {
        lemma_digits_value_grows(d, k + 1);
        assert(d.subrange(0, k + 1).drop_last() =~= d.subrange(0, k));
        assert(d.subrange(0, k + 1).last() == d[k]);
    } else {
        assert(d.subrange(0, k) =~= d);
    }
    lemma_digits_nonneg(d.subrange(0, k));
}

proof fn lemma_digits_nonneg(d: Seq<char>)
    requires
        forall|i: int| 0 <= i < d.len() ==> is_digit(#[trigger] d[i]),
    ensures
        digits_value(d) >= 0,
    decreases d.len(),
{
    if d.len() > 0 {
        lemma_digits_nonneg(d.drop_last());
        assert(is_digit(d[d.len() - 1]));
    }
}

fn digit_value(c: char) -> (v: u64)
    requires
        is_digit(c),
    ensures
        v == c as int - '0' as int,
        v < 10,
{
    if c == '0' {
        0
    } else if c == '1' {
        1
    } else if c == '2' {
        2
    } else if c == '3' {
        3
    } else if c == '4' {
        4
    } else if c == '5' {
        5
    } else if c == '6' {
        6
    } else if c == '7' {
        7
    } else if c == '8' {
        8
    } else {
        9
    }
}

/// Reads a text as an unsigned 32-bit number, as `str::parse::<u32>` does.
pub fn parse_u32(text: &str) -> (r: Option<u32>)
    ensures
        r == parsed_u32(text@),
{
    let chars = text_chars(text);
    let start: usize = if chars.len() > 0 && chars[0] == '+' { 1 } else { 0 };
    let ghost d = digits_part(text@);
    assert(d =~= text@.subrange(start as int, text@.len() as int));
    if start == chars.len() {
        return None;
    }
    let mut value: u64 = 0;
    let mut i: usize = start;
    while i < chars.len()
        invariant
            start <= i <= chars.len(),
            chars@ == text@,
            d == text@.subrange(start as int, text@.len() as int),
            d == digits_part(text@),
            forall|k: int| 0 <= k < i - start ==> is_digit(#[trigger] d[k]),
            value == digits_value(d.subrange(0, i - start)),
            value <= u32::MAX,
        decreases chars.len() - i,
    {
        let c = chars[i];
        assert(d[i - start] == c);
        if !('0' <= c && c <= '9') {
            assert(!is_digit(d[i - start]));
            assert(!all_digits(d));
            return None;
        }
        let digit = digit_value(c);
        assert(d.subrange(0, i - start + 1).drop_last() =~= d.subrange(0, i - start));
        assert(d.subrange(0, i - start + 1).last() == c);
        value = value * 10 + digit;
        i = i + 1;
        if value > 4294967295 {
            proof {
                if all_digits(d) {
                    lemma_digits_value_grows(d, i - start);
                }
            }
            return None;
        }
    }
    assert(d.subrange(0, d.len() as int) =~= d);
    Some(value as u32)
}

} // verus!
