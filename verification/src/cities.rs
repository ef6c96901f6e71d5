//! The city layers of the zoom-to sample: which files are layers, the order
//! they are added in, the title made of a file's name, and its colour.
use vstd::prelude::*;
use crate::ordering::keyed_views;
use crate::ordering::keyed_order;
use crate::ordering::sort_keyed;
use crate::ordering::lemma_keyed_total;
use crate::renderers::eq_ignore_case;
use crate::renderers::same_ignoring_ascii_case;
use crate::text::push_char;
use crate::text::text_chars;
use vstd::string::StringSliceAdditionalSpecFns;

verus! {

/// What `char::to_uppercase` makes of a character: one or more characters,
/// by Unicode's case mapping.
pub uninterp spec fn char_uppercase(c: char) -> Seq<char>;

/// `c` in upper case (`char::to_uppercase`, written out as text). The
/// mapping is Unicode's and is named, not spelled out.
#[verifier::external_body]
fn upper_char(c: char) -> (r: String)
    ensures
        r@ == char_uppercase(c),
{
    c.to_uppercase().to_string()
}

/// Whether a file's extension makes it a shapefile (`shp`, in any ASCII
/// case).
pub fn is_shapefile_extension(ext: &str) -> (b: bool)
    ensures
        b == same_ignoring_ascii_case(ext.spec_bytes(), "shp".spec_bytes()),
{
    eq_ignore_case(ext, "shp")
}

/// The stem of a file name, as `Path::file_stem` gives it: the name before
/// its last dot, unless that dot starts the name or there is none.
pub open spec fn stem_of(name: Seq<char>) -> Seq<char> {
    if exists|k: int| 0 < k < name.len() && name[k] == '.' {
        let k = choose|k: int|
            0 < k < name.len() && name[k] == '.' && forall|j: int| k < j < name.len() ==> name[j] != '.';
        name.subrange(0, k)
    } else {
        name
    }
}

/// The stem of a file name.
pub fn file_stem(name: &str) -> (r: String)
    ensures
        r@ == stem_of(name@),
{
    let chars = text_chars(name);
    let mut k = chars.len();
    while k > 0 && chars[k - 1] != '.'
        invariant
            k <= chars.len(),
            chars@ == name@,
            forall|j: int| k <= j < chars.len() ==> chars@[j] != '.',
        decreases k,
    {
        k = k - 1;
    }
    if k <= 1 {
        proof {
            assert forall|q: int| 0 < q < name@.len() implies name@[q] != '.' by {
                assert(q >= k);
            }
        }
        return name.to_owned();
    }
    let dot = k - 1;
    proof {
        assert(chars@[dot as int] == '.');
        let w = choose|q: int|
            0 < q < name@.len() && name@[q] == '.' && forall|j: int| q < j < name@.len() ==> name@[j] != '.';
        assert(0 < dot < name@.len() && name@[dot as int] == '.' && forall|j: int|
            dot < j < name@.len() ==> name@[j] != '.');
        if w < dot {
            assert(name@[dot as int] != '.');
        }
        if w > dot {
            assert(w >= k);
        }
    }
    let mut out = String::new();
    let mut i: usize = 0;
    while i < dot
        invariant
            i <= dot,
            dot < chars.len(),
            chars@ == name@,
            out@ == name@.subrange(0, i as int),
        decreases dot - i,
    {
        push_char(&mut out, chars[i]);
        i = i + 1;
        assert(out@ =~= name@.subrange(0, i as int));
    }
    out
}

/// Reading a name from left to right: what is written so far, whether a
/// word is open, and whether any word was written.
pub struct TitleScan {
    pub out: Seq<char>,
    pub in_word: bool,
    pub any: bool,
}

/// One character read: an underscore closes the word; the first character
/// of a word is written in upper case, after a space when a word came
/// before; the others are written as they are.
pub open spec fn title_step(st: TitleScan, c: char) -> TitleScan {
    if c == '_' {
        TitleScan { in_word: false, ..st }
    } else if !st.in_word {
        TitleScan {
            out: st.out + (if st.any { seq![' '] } else { Seq::empty() }) + char_uppercase(c),
            in_word: true,
            any: true,
        }
    } else {
        TitleScan { out: st.out.push(c), ..st }
    }
}

/// The scan after reading all of `s`.
pub open spec fn title_scan(s: Seq<char>) -> TitleScan
    decreases s.len(),
{
    if s.len() == 0 {
        TitleScan { out: Seq::empty(), in_word: false, any: false }
    } else {
        title_step(title_scan(s.drop_last()), s.last())
    }
}

/// The title of a file stem: its words between underscores, each with its
/// first character in upper case, joined by single spaces.
pub open spec fn title_of(s: Seq<char>) -> Seq<char> {
    title_scan(s).out
}

/// The title of a file stem.
pub fn layer_title(stem: &str) -> (r: String)
    ensures
        r@ == title_of(stem@),
{
    broadcast use vstd::string::group_string_axioms;
    let mut out = String::new();
    let mut in_word = false;
    let mut any = false;
    for c in it: stem.chars()
        invariant
            it.seq() == stem@,
            title_scan(stem@.take(it.index() as int)) == (TitleScan { out: out@, in_word, any }),
    {
        assert(stem@.take(it.index() + 1).drop_last() =~= stem@.take(it.index() as int));
        let ghost before = out@;
        if c == '_' {
            in_word = false;
        } else if !in_word {
            if any {
                push_char(&mut out, ' ');
            }
            let upper = upper_char(c);
            out.append(upper.as_str());
            assert(out@ =~= before + (if any { seq![' '] } else { Seq::<char>::empty() }) + char_uppercase(c));
            in_word = true;
            any = true;
        } else {
            push_char(&mut out, c);
        }
    }
    assert(stem@.take(stem@.len() as int) =~= stem@);
    out
}

/// The fill colour of the city layer added `index`-th: six colours in turn.
pub open spec fn city_fill(index: int) -> Seq<char> {
    let i = index % 6;
    if i == 0 {
        "#BFD6E5"@
    } else if i == 1 {
        "#C9D5C9"@
    } else if i == 2 {
        "#D8CDA7"@
    } else if i == 3 {
        "#D7B79B"@
    } else if i == 4 {
        "#D6C6E3"@
    } else {
        "#B9D8C5"@
    }
}

/// The fill colour of the city layer added `index`-th.
pub fn city_fill_text(index: usize) -> (t: &'static str)
    ensures
        t@ == city_fill(index as int),
{
    let i = index % 6;
    if i == 0 {
        "#BFD6E5"
    } else if i == 1 {
        "#C9D5C9"
    } else if i == 2 {
        "#D8CDA7"
    } else if i == 3 {
        "#D7B79B"
    } else if i == 4 {
        "#D6C6E3"
    } else {
        "#B9D8C5"
    }
}

/// A city layer to add: its file, its title and its fill colour.
#[derive(Debug, Clone)]
pub struct CityLayer {
    pub file: String,
    pub title: String,
    pub fill: &'static str,
}

/// The city layers from the shapefiles' names: in name order, each titled
/// after its stem and coloured by its place; refused when there is none.
pub fn city_layers(files: Vec<String>) -> (r: Result<Vec<CityLayer>, &'static str>)
    ensures
        files.len() == 0 ==> (r matches Err(m) && m@
            == "No city Shapefiles found. Run ./run.ps1 -Example LayerZoomTo first."@),
        files.len() > 0 ==> (r matches Ok(v) && v.len() == files.len() && forall|i: int|
            #![trigger v@[i]]
            0 <= i < v.len() ==> {
                let sorted = keyed_views(files@.map_values(|f: String| (0u32, f))).sort_by(keyed_order());
                &&& v@[i].file@ == sorted[i].1
                &&& v@[i].title@ == title_of(stem_of(sorted[i].1))
                &&& v@[i].fill@ == city_fill(i)
            }),
{
    if files.len() == 0 {
        return Err("No city Shapefiles found. Run ./run.ps1 -Example LayerZoomTo first.");
    }
    let ghost n = files.len();
    let mut keyed: Vec<(u32, String)> = Vec::new();
    let mut i: usize = 0;
    while i < files.len()
        invariant
            i <= files.len(),
            keyed.len() == i,
            forall|k: int| 0 <= k < i ==> (#[trigger] keyed@[k]).0 == 0 && keyed@[k].1@ == files@[k]@,
        decreases files.len() - i,
    {
        keyed.push((0, files[i].clone()));
        i = i + 1;
    }
    assert(keyed_views(keyed@) =~= keyed_views(files@.map_values(|f: String| (0u32, f))));
    let sorted = sort_keyed(keyed);
    let ghost sv = keyed_views(sorted@);
    proof {
        let input = keyed_views(files@.map_values(|f: String| (0u32, f)));
        lemma_keyed_total();
        input.lemma_sort_by_ensures(keyed_order());
        vstd::seq_lib::to_multiset_len(input);
        vstd::seq_lib::to_multiset_len(sv);
        assert(sv.len() == n);
    }
    let mut layers: Vec<CityLayer> = Vec::new();
    let mut j: usize = 0;
    while j < sorted.len()
        invariant
            j <= sorted.len(),
            sv == keyed_views(sorted@),
            layers.len() == j,
            forall|k: int|
                #![trigger layers@[k]]
                0 <= k < j ==> {
                    &&& layers@[k].file@ == sv[k].1
                    &&& layers@[k].title@ == title_of(stem_of(sv[k].1))
                    &&& layers@[k].fill@ == city_fill(k)
                },
        decreases sorted.len() - j,
    {
        let file = sorted[j].1.clone();
        let stem = file_stem(file.as_str());
        let title = layer_title(stem.as_str());
        layers.push(CityLayer { file, title, fill: city_fill_text(j) });
        j = j + 1;
    }
    Ok(layers)
}

} // verus!
