//! Transport of well-known-binary geometry: the analysis and inference
//! services hand geometries back as hex text, two digits a byte, and the
//! query service as base64 text.
use vstd::prelude::*;
use vstd::string::StringSliceAdditionalSpecFns;
use vstd::utf8::is_char_boundary;
use base64::Engine;

verus! {

/// Why hex text could not be read as bytes.
#[derive(Debug, Clone, Copy, PartialEq, Eq, Structural)]
pub enum HexError {
    /// The text has an odd number of bytes ("Invalid WKB hex length").
    OddLength,
    /// A pair is not a hexadecimal number.
    InvalidDigit,
}

/// The value of one hexadecimal digit (either case).
pub open spec fn digit_value(b: u8) -> Option<u8> {
    if 48 <= b <= 57 {
        Some((b - 48) as u8)
    } else if 97 <= b <= 102 {
        Some((b - 87) as u8)
    } else if 65 <= b <= 70 {
        Some((b - 55) as u8)
    } else {
        None
    }
}

/// The byte a two-character pair reads as in base 16: two digits, or a
/// `+` sign followed by one digit.
pub open spec fn pair_value(a: u8, b: u8) -> Option<u8> {
    if a == 43 {
        digit_value(b)
    } else {
        match (digit_value(a), digit_value(b)) {
            (Some(x), Some(y)) => Some((x * 16 + y) as u8),
            _ => None,
        }
    }
}

/// The bytes that the pairs of `text` read as, if every pair reads.
pub open spec fn pairs_value(text: Seq<u8>) -> Option<Seq<u8>>
    decreases text.len(),
{
    if text.len() < 2 {
        Some(Seq::empty())
    } else {
        match (pairs_value(text.subrange(0, text.len() - 2)), pair_value(text[text.len() - 2], text[text.len() - 1])) {
            (Some(head), Some(last)) => Some(head.push(last)),
            _ => None,
        }
    }
}

/// What hex text reads as: its bytes, or why it cannot be read.
pub open spec fn hex_decoded(text: Seq<u8>) -> Result<Seq<u8>, HexError> {
    if text.len() % 2 != 0 {
        Err(HexError::OddLength)
    } else {
        match pairs_value(text) {
            Some(bytes) => Ok(bytes),
            None => Err(HexError::InvalidDigit),
        }
    }
}

/// The ASCII codes of the hexadecimal digits `0`-`9` and `a`-`f`, by value.
pub open spec fn lower_hex_digits() -> Seq<u8> {
    seq![48u8, 49u8, 50u8, 51u8, 52u8, 53u8, 54u8, 55u8, 56u8, 57u8, 97u8, 98u8, 99u8, 100u8, 101u8, 102u8]
}

/// The ASCII codes of the hexadecimal digits `0`-`9` and `A`-`F`, by value.
pub open spec fn upper_hex_digits() -> Seq<u8> {
    seq![48u8, 49u8, 50u8, 51u8, 52u8, 53u8, 54u8, 55u8, 56u8, 57u8, 65u8, 66u8, 67u8, 68u8, 69u8, 70u8]
}

proof fn lemma_digit_values(d: int)
    requires
        0 <= d < 16,
    ensures
        digit_value(lower_hex_digits()[d]) == Some(d as u8),
        digit_value(upper_hex_digits()[d]) == Some(d as u8),
        lower_hex_digits()[d] != 43,
        upper_hex_digits()[d] != 43,
{
}

/// Every byte is read back from its two hexadecimal digits, in lower case
/// or in upper case: the high digit first, then the low one.
pub proof fn lemma_hex_reads_every_byte(v: u8)
    ensures
        hex_decoded(seq![lower_hex_digits()[v as int / 16], lower_hex_digits()[v as int % 16]]) == Ok::<Seq<u8>, HexError>(seq![v]),
        hex_decoded(seq![upper_hex_digits()[v as int / 16], upper_hex_digits()[v as int % 16]]) == Ok::<Seq<u8>, HexError>(seq![v]),
{
    let hi = v as int / 16;
    let lo = v as int % 16;
    lemma_digit_values(hi);
    lemma_digit_values(lo);
    assert(hi * 16 + lo == v) by (nonlinear_arith)
        requires hi == v as int / 16, lo == v as int % 16;
    let a = seq![lower_hex_digits()[hi], lower_hex_digits()[lo]];
    let b = seq![upper_hex_digits()[hi], upper_hex_digits()[lo]];
    assert(a.subrange(0, 0) =~= Seq::<u8>::empty());
    assert(b.subrange(0, 0) =~= Seq::<u8>::empty());
    assert(pairs_value(a.subrange(0, 0)) == Some(Seq::<u8>::empty()));
    assert(pairs_value(b.subrange(0, 0)) == Some(Seq::<u8>::empty()));
    assert(Seq::<u8>::empty().push(v) =~= seq![v]);
}

/// Every pair of `bytes` starts and ends on a character boundary.
pub open spec fn pairs_on_boundaries(bytes: Seq<u8>) -> bool {
    forall|i: int| 0 <= i <= bytes.len() && i % 2 == 0 ==> #[trigger] is_char_boundary(bytes, i)
}

fn digit(b: u8) -> (r: Option<u8>)
    ensures
        r == digit_value(b),
{
    if 48 <= b && b <= 57 {
        Some(b - 48)
    } else if 97 <= b && b <= 102 {
        Some(b - 87)
    } else if 65 <= b && b <= 70 {
        Some(b - 55)
    } else {
        None
    }
}

proof fn lemma_pairs_prefix(text: Seq<u8>, k: int)
    requires
        0 <= k,
        2 * k + 2 <= text.len(),
    ensures
        pairs_value(text.subrange(0, 2 * k + 2)) == match (
            pairs_value(text.subrange(0, 2 * k)),
            pair_value(text[2 * k], text[2 * k + 1]),
        ) {
            (Some(head), Some(last)) => Some(head.push(last)),
            _ => None,
        },
{
    let t = text.subrange(0, 2 * k + 2);
    assert(t.subrange(0, t.len() - 2) =~= text.subrange(0, 2 * k));
    assert(t[t.len() - 2] == text[2 * k]);
    assert(t[t.len() - 1] == text[2 * k + 1]);
}

/// Reads hex text as bytes, two characters a byte.
pub fn decode_hex(text: &str) -> (r: Result<Vec<u8>, HexError>)
    requires
        text.spec_bytes().len() % 2 == 0 ==> pairs_on_boundaries(text.spec_bytes()),
    ensures
        match r {
            Ok(bytes) => hex_decoded(text.spec_bytes()) == Ok::<Seq<u8>, HexError>(bytes@),
            Err(e) => hex_decoded(text.spec_bytes()) == Err::<Seq<u8>, HexError>(e),
        },
{
    let b = text.as_bytes();
    if b.len() % 2 != 0 {
        return Err(HexError::OddLength);
    }
    let mut out: Vec<u8> = Vec::new();
    let mut k: usize = 0;
    while k < b.len() / 2
        invariant
            b@ == text.spec_bytes(),
            b.len() % 2 == 0,
            k <= b.len() / 2,
            pairs_value(b@.subrange(0, 2 * k as int)) == Some(out@),
        decreases b.len() / 2 - k,
    {
        proof {
            lemma_pairs_prefix(b@, k as int);
        }
        let hi = b[2 * k];
        let lo = b[2 * k + 1];
        let value = if hi == 43 {
            digit(lo)
        } else {
            match (digit(hi), digit(lo)) {
                (Some(x), Some(y)) => Some(x * 16 + y),
                _ => None,
            }
        };
        match value {
            Some(v) => out.push(v),
            None => {
                proof {
                    lemma_pairs_none_extends(b@, k as int + 1);
                    assert(b@.subrange(0, b.len() as int) =~= b@);
                }
                return Err(HexError::InvalidDigit);
            },
        }
        k = k + 1;
    }
    assert(b@.subrange(0, b.len() as int) =~= b@);
    assert(2 * k == b.len());
    Ok(out)
}

proof fn lemma_pairs_none_extends(text: Seq<u8>, k: int)
    requires
        text.len() % 2 == 0,
        0 < k,
        2 * k <= text.len(),
        pairs_value(text.subrange(0, 2 * k)) is None,
    ensures
        pairs_value(text.subrange(0, text.len() as int)) is None,
    decreases text.len() - 2 * k,
{
    if 2 * k < text.len() {
        lemma_pairs_prefix(text, k);
        lemma_pairs_none_extends(text, k + 1);
    }
}


#[verifier::external_type_specification]
#[verifier::external_body]
pub struct ExDecodeError(base64::DecodeError);

/// What the standard base64 engine (RFC 4648 alphabet, canonical padding)
/// decodes `text` to, if it accepts it.
pub uninterp spec fn base64_standard(text: Seq<char>) -> Option<Seq<u8>>;

/// Decodes `text` with `base64::engine::general_purpose::STANDARD`. The
/// contract names the outcome and says nothing of which texts are accepted.
#[verifier::external_body]
fn base64_decode(text: &str) -> (r: Result<Vec<u8>, base64::DecodeError>)
    ensures
        r is Ok <==> base64_standard(text@) is Some,
        r matches Ok(v) ==> v@ == base64_standard(text@)->0,
{
    base64::engine::general_purpose::STANDARD.decode(text)
}

/// Why the binary geometry column could not be read.
#[derive(Debug, Clone, Copy, PartialEq, Eq, Structural)]
pub enum BinaryError {
    /// A row has no binary geometry ("Missing WKB binary").
    Missing,
    /// A row's geometry is not base64.
    NotBase64,
}

/// Why the binary geometry column could not be read, with the decoder's
/// own error where a row is not base64.
#[derive(Debug, PartialEq, Eq)]
pub enum RowsError {
    /// A row has no binary geometry ("Missing WKB binary").
    Missing,
    /// A row's geometry is not base64; the decoder says why.
    NotBase64(base64::DecodeError),
}

/// Which failure a rows error is.
pub open spec fn rows_error_kind(e: RowsError) -> BinaryError {
    match e {
        RowsError::Missing => BinaryError::Missing,
        RowsError::NotBase64(_) => BinaryError::NotBase64,
    }
}

/// The geometries of the first `k` rows, or the first reason one fails.
pub open spec fn rows_decoded(rows: Seq<Option<Seq<char>>>, k: int) -> Result<Seq<Seq<u8>>, BinaryError>
    decreases k,
{
    if k <= 0 {
        Ok(Seq::empty())
    } else {
        match rows_decoded(rows, k - 1) {
            Err(e) => Err(e),
            Ok(done) => match rows[k - 1] {
                None => Err(BinaryError::Missing),
                Some(text) => match base64_standard(text) {
                    None => Err(BinaryError::NotBase64),
                    Some(bytes) => Ok(done.push(bytes)),
                },
            },
        }
    }
}

/// The rows' texts, by their views.
pub open spec fn row_texts(rows: Seq<Option<String>>) -> Seq<Option<Seq<char>>> {
    rows.map_values(|r: Option<String>| match r { Some(s) => Some(s@), None => None })
}

/// Reads the base64 geometry of each query row, in row order; stops at the
/// first row that has none or whose text is not base64, and then carries
/// the decoder's error.
pub fn decode_binary_rows(rows: &Vec<Option<String>>) -> (r: Result<Vec<Vec<u8>>, RowsError>)
    ensures
        match r {
            Ok(g) => rows_decoded(row_texts(rows@), rows.len() as int) == Ok::<Seq<Seq<u8>>, BinaryError>(
                g@.map_values(|v: Vec<u8>| v@),
            ),
            Err(e) => rows_decoded(row_texts(rows@), rows.len() as int) == Err::<Seq<Seq<u8>>, BinaryError>(rows_error_kind(e)),
        },
{
    let ghost texts = row_texts(rows@);
    let mut out: Vec<Vec<u8>> = Vec::new();
    let mut i: usize = 0;
    assert(out@.map_values(|v: Vec<u8>| v@) =~= Seq::<Seq<u8>>::empty());
    while i < rows.len()
        invariant
            i <= rows.len(),
            texts == row_texts(rows@),
            rows_decoded(texts, i as int) == Ok::<Seq<Seq<u8>>, BinaryError>(out@.map_values(|v: Vec<u8>| v@)),
        decreases rows.len() - i,
    {
        let ghost done = out@.map_values(|v: Vec<u8>| v@);
        match &rows[i] {
            None => {
                proof { lemma_rows_error_stays(texts, i as int + 1, rows.len() as int); }
                return Err(RowsError::Missing);
            },
            Some(text) => {
                match base64_decode(text.as_str()) {
                    Err(error) => {
                        proof { lemma_rows_error_stays(texts, i as int + 1, rows.len() as int); }
                        return Err(RowsError::NotBase64(error));
                    },
                    Ok(bytes) => {
                        out.push(bytes);
                        assert(out@.map_values(|v: Vec<u8>| v@) =~= done.push(bytes@));
                    },
                }
            },
        }
        i = i + 1;
    }
    Ok(out)
}

proof fn lemma_rows_error_stays(rows: Seq<Option<Seq<char>>>, k: int, n: int)
    requires
        0 < k <= n,
        rows_decoded(rows, k) is Err,
    ensures
        rows_decoded(rows, n) == rows_decoded(rows, k),
    decreases n - k,
{
    if k < n {
        lemma_rows_error_stays(rows, k + 1, n);
    }
}

} // verus!
