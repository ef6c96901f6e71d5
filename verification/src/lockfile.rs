//! The SDK version a sample is built against, read from the lock file: the
//! lock file's package entries, the entry of the SDK package, and its
//! version line.
use vstd::prelude::*;
use crate::text::occurs_at;
use crate::text::text_chars;
use crate::text::push_char;

verus! {

/// The text that starts each package entry of a lock file.
pub open spec fn entry_marker() -> Seq<char> {
    "[[package]]"@
}

/// The line that names the SDK package.
pub open spec fn sdk_name_line() -> Seq<char> {
    "name = \"geokernel\""@
}

/// What a version line starts with.
pub open spec fn version_prefix() -> Seq<char> {
    "version = "@
}

/// Where the next `sep` starts at or after `i`, or the end of `s` when
/// there is none.
pub open spec fn next_match(s: Seq<char>, sep: Seq<char>, i: int) -> int
    decreases s.len() - i,
{
    if i < 0 || i + sep.len() > s.len() {
        s.len() as int
    } else if sep.len() == 0 || occurs_at(s, sep, i) {
        i
    } else {
        next_match(s, sep, i + 1)
    }
}

/// Where the line that starts at `j` ends within `s[..b]`: the next line
/// feed, or `b`.
pub open spec fn line_end(s: Seq<char>, j: int, b: int) -> int
    decreases b - j,
{
    if j < 0 || j >= b {
        b
    } else if s[j] == '\n' {
        j
    } else {
        line_end(s, j + 1, b)
    }
}

/// The line of `s[..b]` that starts at `j` and ends at `e`: a line ended by
/// a line feed loses a carriage return before it.
pub open spec fn line_at(s: Seq<char>, j: int, e: int, b: int) -> Seq<char> {
    let raw = s.subrange(j, e);
    if e < b && raw.len() > 0 && raw.last() == '\r' {
        raw.drop_last()
    } else {
        raw
    }
}

/// Whether one of the lines of `s[j..b]` is `line`.
pub open spec fn has_line(s: Seq<char>, j: int, b: int, line: Seq<char>) -> bool
    decreases b - j,
{
    if j < 0 || j >= b || b > s.len() {
        false
    } else {
        let e = line_end(s, j, b);
        if line_at(s, j, e, b) == line {
            true
        } else if e >= b || e < j {
            false
        } else {
            has_line(s, e + 1, b, line)
        }
    }
}

/// The text without the quotes at its start and at its end.
pub open spec fn trim_quotes(v: Seq<char>) -> Seq<char>
    decreases v.len(),
{
    if v.len() > 0 && v[0] == '"' {
        trim_quotes(v.drop_first())
    } else if v.len() > 0 && v.last() == '"' {
        trim_quotes(v.drop_last())
    } else {
        v
    }
}

/// The value of the first line of `s[j..b]` that starts with `prefix`:
/// the rest of the line without surrounding quotes.
pub open spec fn value_from(s: Seq<char>, j: int, b: int, prefix: Seq<char>) -> Option<Seq<char>>
    decreases b - j,
{
    if j < 0 || j >= b || b > s.len() {
        None
    } else {
        let e = line_end(s, j, b);
        let l = line_at(s, j, e, b);
        if prefix.is_prefix_of(l) {
            Some(trim_quotes(l.subrange(prefix.len() as int, l.len() as int)))
        } else if e >= b || e < j {
            None
        } else {
            value_from(s, e + 1, b, prefix)
        }
    }
}

/// The first entry of `s`, from the entry that starts at `i` on, that has a
/// line `name`: where it starts and ends. Entries are separated by `sep`.
pub open spec fn entry_with(s: Seq<char>, sep: Seq<char>, i: int, name: Seq<char>) -> Option<(int, int)>
    decreases s.len() + 1 - i,
{
    if i < 0 || i > s.len() || sep.len() == 0 {
        None
    } else {
        let e = next_match(s, sep, i);
        if has_line(s, i, e, name) {
            Some((i, e))
        } else if e >= s.len() || e < i || e + sep.len() > s.len() {
            None
        } else {
            entry_with(s, sep, e + sep.len(), name)
        }
    }
}

/// Why the SDK version could not be read from the lock file.
#[derive(Debug, Clone, Copy, PartialEq, Eq, Structural)]
pub enum LockError {
    /// No entry names the SDK ("geokernel is missing from Cargo.lock").
    MissingPackage,
    /// The SDK's entry has no version line ("geokernel version is missing
    /// from Cargo.lock").
    MissingVersion,
}

impl LockError {
    /// The message shown for the failure.
    pub fn message(self) -> (m: &'static str)
        ensures
            self == LockError::MissingPackage ==> m@ == "geokernel is missing from Cargo.lock"@,
            self == LockError::MissingVersion ==> m@ == "geokernel version is missing from Cargo.lock"@,
    {
        match self {
            LockError::MissingPackage => "geokernel is missing from Cargo.lock",
            LockError::MissingVersion => "geokernel version is missing from Cargo.lock",
        }
    }
}

/// The SDK version of a lock file, as the lock file says it.
pub open spec fn locked_version(lock: Seq<char>) -> Result<Seq<char>, LockError> {
    match entry_with(lock, entry_marker(), 0, sdk_name_line()) {
        None => Err(LockError::MissingPackage),
        Some((a, b)) => match value_from(lock, a, b, version_prefix()) {
            None => Err(LockError::MissingVersion),
            Some(v) => Ok(v),
        },
    }
}

fn matches_at(s: &Vec<char>, t: &Vec<char>, k: usize) -> (r: bool)
    requires
        k + t.len() <= s.len(),
    ensures
        r == occurs_at(s@, t@, k as int),
{
    let mut q: usize = 0;
    while q < t.len()
        invariant
            q <= t.len(),
            k + t.len() <= s.len(),
            forall|m: int| 0 <= m < q ==> s@[k + m] == t@[m],
        decreases t.len() - q,
    {
        if s[k + q] != t[q] {
            assert(s@.subrange(k as int, k + t.len())[q as int] != t@[q as int]);
            return false;
        }
        q = q + 1;
    }
    assert(s@.subrange(k as int, k + t.len()) =~= t@);
    true
}

fn find_next(s: &Vec<char>, t: &Vec<char>, i: usize) -> (e: usize)
    requires
        i <= s.len(),
    ensures
        e == next_match(s@, t@, i as int),
        i <= e <= s.len(),
        e < s.len() ==> e + t.len() <= s.len(),
{
    if t.len() == 0 {
        return i;
    }
    let mut k = i;
    while k < s.len() && t.len() <= s.len() - k
        invariant
            i <= k <= s.len(),
            t.len() > 0,
            next_match(s@, t@, i as int) == next_match(s@, t@, k as int),
        decreases s.len() - k,
    {
        if matches_at(s, t, k) {
            return k;
        }
        k = k + 1;
    }
    s.len()
}

fn find_line_end(s: &Vec<char>, j: usize, b: usize) -> (e: usize)
    requires
        j <= b <= s.len(),
    ensures
        e == line_end(s@, j as int, b as int),
        j <= e <= b,
{
    let mut k = j;
    while k < b && s[k] != '\n'
        invariant
            j <= k <= b,
            b <= s.len(),
            line_end(s@, j as int, b as int) == line_end(s@, k as int, b as int),
        decreases b - k,
    {
        k = k + 1;
    }
    k
}

fn line_is(s: &Vec<char>, j: usize, e: usize, b: usize, line: &Vec<char>) -> (r: bool)
    requires
        j <= e <= b <= s.len(),
    ensures
        r == (line_at(s@, j as int, e as int, b as int) == line@),
{
    let stop = if e < b && e > j && s[e - 1] == '\r' { e - 1 } else { e };
    assert(line_at(s@, j as int, e as int, b as int) =~= s@.subrange(j as int, stop as int));
    if stop - j != line.len() {
        return false;
    }
    let mut q: usize = 0;
    while q < line.len()
        invariant
            q <= line.len(),
            stop - j == line.len(),
            j <= stop <= s.len(),
            line_at(s@, j as int, e as int, b as int) == s@.subrange(j as int, stop as int),
            forall|m: int| 0 <= m < q ==> s@[j + m] == line@[m],
        decreases line.len() - q,
    {
        if s[j + q] != line[q] {
            assert(s@.subrange(j as int, stop as int)[q as int] != line@[q as int]);
            return false;
        }
        q = q + 1;
    }
    assert(s@.subrange(j as int, stop as int) =~= line@);
    true
}

fn entry_has_line(s: &Vec<char>, a: usize, b: usize, line: &Vec<char>) -> (r: bool)
    requires
        a <= b <= s.len(),
    ensures
        r == has_line(s@, a as int, b as int, line@),
{
    let mut j = a;
    while j < b
        invariant
            a <= j,
            j <= b + 1,
            b <= s.len(),
            has_line(s@, a as int, b as int, line@) == has_line(s@, j as int, b as int, line@),
        decreases b + 1 - j,
    {
        let e = find_line_end(s, j, b);
        if line_is(s, j, e, b, line) {
            return true;
        }
        if e >= b {
            return false;
        }
        j = e + 1;
    }
    false
}

fn trimmed_quotes(s: &Vec<char>, from: usize, to: usize) -> (r: String)
    requires
        from <= to <= s.len(),
    ensures
        r@ == trim_quotes(s@.subrange(from as int, to as int)),
{
    let mut a = from;
    let mut b = to;
    while a < b && s[a] == '"'
        invariant
            from <= a <= b <= to,
            to <= s.len(),
            trim_quotes(s@.subrange(from as int, to as int)) == trim_quotes(s@.subrange(a as int, b as int)),
        decreases b - a,
    {
        assert(s@.subrange(a as int, b as int).drop_first() =~= s@.subrange(a + 1, b as int));
        a = a + 1;
    }
    while a < b && s[b - 1] == '"'
        invariant
            from <= a <= b <= to,
            to <= s.len(),
            a < b ==> s@[a as int] != '"',
            trim_quotes(s@.subrange(from as int, to as int)) == trim_quotes(s@.subrange(a as int, b as int)),
        decreases b - a,
    {
        assert(s@.subrange(a as int, b as int).drop_last() =~= s@.subrange(a as int, b - 1));
        b = b - 1;
    }
    let mut out = String::new();
    let mut k = a;
    while k < b
        invariant
            a <= k <= b,
            b <= s.len(),
            out@ == s@.subrange(a as int, k as int),
        decreases b - k,
    {
        push_char(&mut out, s[k]);
        k = k + 1;
        assert(out@ =~= s@.subrange(a as int, k as int));
    }
    out
}

fn entry_value(s: &Vec<char>, a: usize, b: usize, prefix: &Vec<char>) -> (r: Option<String>)
    requires
        a <= b <= s.len(),
    ensures
        match value_from(s@, a as int, b as int, prefix@) {
            None => r is None,
            Some(v) => r matches Some(t) && t@ == v,
        },
{
    let mut j = a;
    while j < b
        invariant
            a <= j,
            j <= b + 1,
            b <= s.len(),
            value_from(s@, a as int, b as int, prefix@) == value_from(s@, j as int, b as int, prefix@),
        decreases b + 1 - j,
    {
        let e = find_line_end(s, j, b);
        let stop = if e < b && e > j && s[e - 1] == '\r' { e - 1 } else { e };
        let ghost l = line_at(s@, j as int, e as int, b as int);
        assert(l =~= s@.subrange(j as int, stop as int));
        let mut starts = stop - j >= prefix.len();
        let mut q: usize = 0;
        while starts && q < prefix.len()
            invariant
                q <= prefix.len(),
                j <= stop <= s.len(),
                starts ==> stop - j >= prefix.len(),
                starts ==> forall|m: int| 0 <= m < q ==> s@[j + m] == prefix@[m],
                !starts ==> !prefix@.is_prefix_of(l),
                l == s@.subrange(j as int, stop as int),
            decreases prefix.len() - q,
        {
            if s[j + q] != prefix[q] {
                assert(l[q as int] != prefix@[q as int]);
                starts = false;
            }
            q = q + 1;
        }
        if starts {
            assert(prefix@.is_prefix_of(l)) by {
                assert(l.subrange(0, prefix@.len() as int) =~= prefix@);
            }
            let v = trimmed_quotes(s, j + prefix.len(), stop);
            assert(l.subrange(prefix@.len() as int, l.len() as int) =~= s@.subrange(
                j + prefix.len(),
                stop as int,
            ));
            return Some(v);
        }
        if e >= b {
            return None;
        }
        j = e + 1;
    }
    None
}

/// Reads the SDK version from the text of a lock file: the version line of
/// the first package entry that names the SDK, without its quotes.
pub fn sdk_version(lock: &str) -> (r: Result<String, LockError>)
    ensures
        match locked_version(lock@) {
            Ok(v) => r matches Ok(t) && t@ == v,
            Err(e) => r == Err::<String, LockError>(e),
        },
{
    let s = text_chars(lock);
    let sep = text_chars("[[package]]");
    let name = text_chars("name = \"geokernel\"");
    let prefix = text_chars("version = ");
    proof {
        reveal_strlit("[[package]]");
    }
    assert(sep@.len() == 11);
    let mut i: usize = 0;
    while i <= s.len()
        invariant
            i <= s.len() + 1,
            s@ == lock@,
            sep@ == entry_marker(),
            name@ == sdk_name_line(),
            prefix@ == version_prefix(),
            sep@.len() == 11,
            i <= s.len() ==> entry_with(s@, sep@, 0, name@) == entry_with(s@, sep@, i as int, name@),
            i > s.len() ==> entry_with(s@, sep@, 0, name@) is None,
        decreases s.len() + 1 - i,
    {
        let e = find_next(&s, &sep, i);
        if entry_has_line(&s, i, e, &name) {
            return match entry_value(&s, i, e, &prefix) {
                Some(v) => Ok(v),
                None => Err(LockError::MissingVersion),
            };
        }
        if e >= s.len() {
            return Err(LockError::MissingPackage);
        }
        i = e + sep.len();
    }
    Err(LockError::MissingPackage)
}

/// The environment a sample sets before the SDK loads: each variable and
/// the folder of the SDK it points to (empty: the SDK folder itself).
pub open spec fn sdk_variable(i: int) -> (Seq<char>, Seq<char>) {
    if i == 0 {
        ("GEOKERNEL_BIN"@, ""@)
    } else if i == 1 {
        ("QT_PLUGIN_PATH"@, "plugins"@)
    } else if i == 2 {
        ("QT_QPA_PLATFORM_PLUGIN_PATH"@, "plugins/platforms"@)
    } else if i == 3 {
        ("GDAL_DRIVER_PATH"@, "gdalplugins"@)
    } else if i == 4 {
        ("GDAL_DATA"@, "gdal-data"@)
    } else {
        ("PROJ_DATA"@, "proj-data"@)
    }
}

/// Variable `i` of the SDK environment.
pub fn sdk_variable_entry(i: usize) -> (r: (&'static str, &'static str))
    requires
        i < 6,
    ensures
        (r.0@, r.1@) == sdk_variable(i as int),
{
    if i == 0 {
        ("GEOKERNEL_BIN", "")
    } else if i == 1 {
        ("QT_PLUGIN_PATH", "plugins")
    } else if i == 2 {
        ("QT_QPA_PLATFORM_PLUGIN_PATH", "plugins/platforms")
    } else if i == 3 {
        ("GDAL_DRIVER_PATH", "gdalplugins")
    } else if i == 4 {
        ("GDAL_DATA", "gdal-data")
    } else {
        ("PROJ_DATA", "proj-data")
    }
}

} // verus!
