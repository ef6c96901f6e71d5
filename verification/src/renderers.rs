//! Point renderers by population class and the selection style panel: the
//! population classes, how a class label is matched, the colours of the
//! class rules, and which style value each control sets.
use vstd::prelude::*;
use vstd::string::StringSliceAdditionalSpecFns;
use vstd::utf8::is_char_boundary;
use vstd::utf8::encode_utf8;
use vstd::utf8::is_ascii_chars;
use vstd::string::StrSliceExecFns;
use crate::text::trimmed;
use crate::text::trim_text;
use crate::text::push_char;

verus! {

/// The population classes, smallest first.
pub open spec fn pop_label(i: int) -> Seq<char> {
    if i == 0 {
        "Less than 50,000"@
    } else if i == 1 {
        "50,000 to 100,000"@
    } else if i == 2 {
        "100,000 to 250,000"@
    } else if i == 3 {
        "250,000 to 500,000"@
    } else if i == 4 {
        "500,000 to 1,000,000"@
    } else {
        "1,000,000 to 5,000,000"@
    }
}

/// Population class `i` as static text.
pub fn pop_label_text(i: usize) -> (t: &'static str)
    requires
        i < 6,
    ensures
        t@ == pop_label(i as int),
{
    if i == 0 {
        "Less than 50,000"
    } else if i == 1 {
        "50,000 to 100,000"
    } else if i == 2 {
        "100,000 to 250,000"
    } else if i == 3 {
        "250,000 to 500,000"
    } else if i == 4 {
        "500,000 to 1,000,000"
    } else {
        "1,000,000 to 5,000,000"
    }
}

/// A byte with ASCII upper case letters made lower case.
pub open spec fn ascii_lower(b: u8) -> u8 {
    if 65 <= b <= 90 {
        (b + 32) as u8
    } else {
        b
    }
}

/// Whether two byte strings are equal but for the case of ASCII letters
/// (`eq_ignore_ascii_case`).
pub open spec fn same_ignoring_ascii_case(a: Seq<u8>, b: Seq<u8>) -> bool {
    a.len() == b.len() && forall|i: int| 0 <= i < a.len() ==> ascii_lower(#[trigger] a[i]) == ascii_lower(b[i])
}

/// Whether two texts are equal but for the case of ASCII letters.
pub fn eq_ignore_case(a: &str, b: &str) -> (r: bool)
    ensures
        r == same_ignoring_ascii_case(a.spec_bytes(), b.spec_bytes()),
{
    let x = a.as_bytes();
    let y = b.as_bytes();
    if x.len() != y.len() {
        return false;
    }
    let mut i: usize = 0;
    while i < x.len()
        invariant
            i <= x.len(),
            x.len() == y.len(),
            x@ == a.spec_bytes(),
            y@ == b.spec_bytes(),
            forall|k: int| 0 <= k < i ==> ascii_lower(#[trigger] x@[k]) == ascii_lower(y@[k]),
        decreases x.len() - i,
    {
        let p = x[i];
        let q = y[i];
        let lp = if 65 <= p && p <= 90 { p + 32 } else { p };
        let lq = if 65 <= q && q <= 90 { q + 32 } else { q };
        if lp != lq {
            return false;
        }
        i = i + 1;
    }
    true
}

/// The class value of a label: one more than the first class it names
/// (ignoring surrounding whitespace and ASCII case), or zero.
pub open spec fn pop_value(label: Seq<char>) -> int {
    let t = encode_utf8(trimmed(label));
    if exists|i: int| 0 <= i < 6 && same_ignoring_ascii_case(encode_utf8(pop_label(i)), t) {
        1 + choose|i: int| 0 <= i < 6 && same_ignoring_ascii_case(encode_utf8(pop_label(i)), t) && forall|j: int|
            0 <= j < i ==> !same_ignoring_ascii_case(encode_utf8(pop_label(j)), t)
    } else {
        0
    }
}

/// The class value of a city's population class label.
pub fn pop_class_value(label: &str) -> (v: usize)
    ensures
        v == pop_value(label@),
{
    let t = trim_text(label);
    let mut i: usize = 0;
    while i < 6
        invariant
            i <= 6,
            t@ == trimmed(label@),
            forall|j: int| 0 <= j < i ==> !same_ignoring_ascii_case(encode_utf8(pop_label(j)), t.spec_bytes()),
        decreases 6 - i,
    {
        let l = pop_label_text(i);
        if eq_ignore_case(l, t) {
            return i + 1;
        }
        i = i + 1;
    }
    0
}

/// The legend label of range `i` of the size renderer: its class, or
/// `Other` past the six classes.
pub fn range_label(i: usize) -> (t: &'static str)
    ensures
        i < 6 ==> t@ == pop_label(i as int),
        i >= 6 ==> t@ == "Other"@,
{
    if i < 6 {
        pop_label_text(i)
    } else {
        "Other"
    }
}

/// The fill and outline colours of class `i`'s rule.
pub open spec fn rule_colors(i: int) -> (Seq<char>, Seq<char>) {
    if i == 0 {
        ("#917B8794"@, "#D24B5563"@)
    } else if i == 1 {
        ("#914FA3C4"@, "#D21D6D83"@)
    } else if i == 2 {
        ("#9155B889"@, "#D22E7D59"@)
    } else if i == 3 {
        ("#91F2B84B"@, "#D29B6B18"@)
    } else if i == 4 {
        ("#91E56B5D"@, "#D29A3E32"@)
    } else {
        ("#91A9423A"@, "#D261201C"@)
    }
}

/// The colours of class `i`'s rule.
pub fn rule_color_pair(i: usize) -> (r: (&'static str, &'static str))
    requires
        i < 6,
    ensures
        (r.0@, r.1@) == rule_colors(i as int),
{
    if i == 0 {
        ("#917B8794", "#D24B5563")
    } else if i == 1 {
        ("#914FA3C4", "#D21D6D83")
    } else if i == 2 {
        ("#9155B889", "#D22E7D59")
    } else if i == 3 {
        ("#91F2B84B", "#D29B6B18")
    } else if i == 4 {
        ("#91E56B5D", "#D29A3E32")
    } else {
        ("#91A9423A", "#D261201C")
    }
}

/// A colour given a new alpha: `#`, the alpha, then the colour's last six
/// characters, or a default orange when the colour is too short to have
/// them. The colour's last six bytes are taken, so they must start on a
/// character.
pub fn recolor(color: &str, alpha: &str) -> (r: String)
    requires
        color.len() >= 7 ==> is_char_boundary(color.spec_bytes(), color.len() - 6),
    ensures
        is_ascii_chars(color@) ==> r@ == seq!['#'] + alpha@ + (if color@.len() >= 7 {
            color@.subrange(color@.len() - 6, color@.len() as int)
        } else {
            "D95F35"@
        }),
{
    proof {
        vstd::string::is_ascii_spec_bytes(color);
        if is_ascii_chars(color@) {
            assert(color.spec_bytes().len() == color@.len());
        }
    }
    let mut out = String::new();
    push_char(&mut out, '#');
    out.append(alpha);
    let n = color.len();
    let m = color.unicode_len();
    proof {
        if is_ascii_chars(color@) {
            assert(n == m);
        }
    }
    if n >= 7 {
        if color.is_ascii() {
            let tail = color.substring_ascii(m - 6, m);
            out.append(tail);
        } else {
            let (_, tail) = color.split_at(n - 6);
            out.append(tail);
        }
    } else {
        out.append("D95F35");
    }
    out
}

/// The status line once a point renderer is applied.
pub fn renderer_status(size: bool) -> (r: &'static str)
    ensures
        size ==> r@ == "GraduatedRendererSize applied: POP_CLASS"@,
        !size ==> r@ == "RuleBasedRenderer applied: POP_CLASS"@,
{
    if size {
        "GraduatedRendererSize applied: POP_CLASS"
    } else {
        "RuleBasedRenderer applied: POP_CLASS"
    }
}

/// The style value a control of the style panel sets.
#[derive(Debug, Clone, Copy, PartialEq, Eq, Structural)]
pub enum StyleControl {
    /// The selection colour (selection panel) or the fill colour.
    MainColor,
    LineColor,
    Width,
    Size,
    /// Back to the panel's defaults.
    Reset,
    ClearSelection,
}

/// The style value control `id` sets, or the refusal
/// ("Unknown style control").
pub fn style_control(id: i32) -> (r: Result<StyleControl, &'static str>)
    ensures
        id == 1 ==> r == Ok::<StyleControl, &'static str>(StyleControl::MainColor),
        id == 2 ==> r == Ok::<StyleControl, &'static str>(StyleControl::LineColor),
        id == 3 ==> r == Ok::<StyleControl, &'static str>(StyleControl::Width),
        id == 4 ==> r == Ok::<StyleControl, &'static str>(StyleControl::Size),
        id == 5 ==> r == Ok::<StyleControl, &'static str>(StyleControl::Reset),
        id == 6 ==> r == Ok::<StyleControl, &'static str>(StyleControl::ClearSelection),
        !(1 <= id <= 6) ==> (r matches Err(m) && m@ == "Unknown style control"@),
{
    if id == 1 {
        Ok(StyleControl::MainColor)
    } else if id == 2 {
        Ok(StyleControl::LineColor)
    } else if id == 3 {
        Ok(StyleControl::Width)
    } else if id == 4 {
        Ok(StyleControl::Size)
    } else if id == 5 {
        Ok(StyleControl::Reset)
    } else if id == 6 {
        Ok(StyleControl::ClearSelection)
    } else {
        Err("Unknown style control")
    }
}

} // verus!
