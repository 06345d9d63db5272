//! Text utilities: verified decimal formatting, and the few text
//! transformations the engine takes from outside code — joining,
//! lowercasing, base64 — behind trusted wrappers with stated contracts.

use vstd::prelude::*;
use vstd::string::StrSliceExecFns;
use vstd::string::StringExecFns;
use base64::Engine;
use itertools::Itertools;

verus! {

/// The character standing for one decimal digit.
pub open spec fn digit_char(d: nat) -> char {
    if d == 0 {
        '0'
    } else if d == 1 {
        '1'
    } else if d == 2 {
        '2'
    } else if d == 3 {
        '3'
    } else if d == 4 {
        '4'
    } else if d == 5 {
        '5'
    } else if d == 6 {
        '6'
    } else if d == 7 {
        '7'
    } else if d == 8 {
        '8'
    } else {
        '9'
    }
}

/// The decimal digits of `n`, most significant first, without leading
/// zeros (`0` itself is the single digit `0`).
pub open spec fn dec_digits(n: nat) -> Seq<char>
    decreases n,
{
    if n < 10 {
        seq![digit_char(n)]
    } else {
        dec_digits(n / 10) + seq![digit_char(n % 10)]
    }
}

/// The single-character string for one decimal digit.
fn digit_str(d: u64) -> (r: &'static str)
    requires
        d < 10,
    ensures
        r@ =~= seq![digit_char(d as nat)],
{
    proof {
        reveal_strlit("0");
        reveal_strlit("1");
        reveal_strlit("2");
        reveal_strlit("3");
        reveal_strlit("4");
        reveal_strlit("5");
        reveal_strlit("6");
        reveal_strlit("7");
        reveal_strlit("8");
        reveal_strlit("9");
    }
    if d == 0 {
        "0"
    } else if d == 1 {
        "1"
    } else if d == 2 {
        "2"
    } else if d == 3 {
        "3"
    } else if d == 4 {
        "4"
    } else if d == 5 {
        "5"
    } else if d == 6 {
        "6"
    } else if d == 7 {
        "7"
    } else if d == 8 {
        "8"
    } else {
        "9"
    }
}

/// Formats `n` in decimal.
pub fn u64_to_string(n: u64) -> (s: String)
    ensures
        s@ == dec_digits(n as nat),
{
    let mut s = String::new();
    let mut m: u64 = n;
    loop
        invariant_except_break
            (s@.len() == 0 && m == n) || (1 <= m && dec_digits(n as nat) == dec_digits(
                m as nat,
            ) + s@),
        ensures
            s@ == dec_digits(n as nat),
        decreases m,
    {
        let ghost prev_m = m as nat;
        let ghost prev_s = s@;
        let d = m % 10;
        let piece = digit_str(d);
        s = String::from_str(piece).concat(s.as_str());
        m = m / 10;
        proof {
            if prev_m >= 10 {
                assert(dec_digits(prev_m) == dec_digits(prev_m / 10) + seq![
                    digit_char(prev_m % 10),
                ]);
            }
            if prev_s.len() == 0 {
                assert(dec_digits(prev_m) + prev_s =~= dec_digits(prev_m));
            }
            assert((dec_digits(prev_m / 10) + seq![digit_char(prev_m % 10)]) + prev_s
                =~= dec_digits(prev_m / 10) + (seq![digit_char(prev_m % 10)] + prev_s));
        }
        if m == 0 {
            break;
        }
    }
    s
}

/// `parts` joined with `sep` between consecutive elements.
pub open spec fn join_seq(parts: Seq<Seq<char>>, sep: Seq<char>) -> Seq<char>
    decreases parts.len(),
{
    if parts.len() == 0 {
        Seq::empty()
    } else if parts.len() == 1 {
        parts[0]
    } else {
        join_seq(parts.drop_last(), sep) + sep + parts.last()
    }
}

/// Relies on itertools' `Itertools::join`: the elements, written
/// verbatim, with the separator between consecutive elements and nothing
/// before the first or after the last.
#[verifier::external_body]
pub(crate) fn join_with(parts: &Vec<String>, sep: &str) -> (r: String)
    ensures
        r@ == join_seq(parts@.map_values(|p: String| p@), sep@),
{
    parts.iter().join(sep)
}

/// What `str::to_lowercase` returns for a given character sequence: the
/// result depends on the characters alone.
pub uninterp spec fn lower_of(s: Seq<char>) -> Seq<char>;

/// Relies on `str::to_lowercase`: Unicode lowercasing of the whole
/// string.  An empty string stays empty.
#[verifier::external_body]
pub(crate) fn lowercase(s: &str) -> (r: String)
    ensures
        r@ == lower_of(s@),
        s@.len() == 0 ==> r@.len() == 0,
{
    s.to_lowercase()
}

/// What the standard base64 encoding (standard alphabet, padded) of a
/// string's UTF-8 bytes is: the result depends on the input text alone.
pub uninterp spec fn base64_of_text(s: Seq<char>) -> Seq<char>;

/// Relies on base64's `Engine::encode` over the `STANDARD` engine.  The
/// input-length bound keeps the encoder's output-size computation within
/// `usize`, so the call cannot panic.  An empty input encodes to the
/// empty string.  The output-length bound follows from the encoder's
/// documented output size, four characters for every started three
/// input bytes, with at most four UTF-8 bytes per input character.
#[verifier::external_body]
pub(crate) fn encode_base64_str(s: &str) -> (r: String)
    requires
        s@.len() <= 0x1000_0000,
    ensures
        r@ == base64_of_text(s@),
        s@.len() == 0 ==> r@.len() == 0,
        r@.len() <= 6 * s@.len() + 8,
{
    base64::engine::general_purpose::STANDARD.encode(s.as_bytes())
}

} // verus!
