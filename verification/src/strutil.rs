//! Small verified string utilities: appending, equality, decimal
//! rendering of unsigned integers and decimal parsing.
//!
//! SQL text is assembled exclusively through these helpers, so every
//! caller can reason about the exact character sequence it produces.

use vstd::prelude::*;
use vstd::string::StringSliceAdditionalSpecFns;

verus! {

/// Relies on `String::push_str`: appends the given string slice onto the
/// end of the string, leaving the earlier contents in place.
#[verifier::external_body]
pub fn push_str(out: &mut String, part: &str)
    ensures
        final(out)@ == old(out)@ + part@,
{
    out.push_str(part)
}

/// Relies on `String::push`: appends the given character to the end of
/// the string.
#[verifier::external_body]
pub fn push_char(out: &mut String, c: char)
    ensures
        final(out)@ == old(out)@.push(c),
{
    out.push(c)
}

/// Character-for-character equality of two string slices.
pub fn str_eq(a: &str, b: &str) -> (r: bool)
    ensures
        r == (a@ == b@),
{
    let owned_a = a.to_owned();
    let owned_b = b.to_owned();
    owned_a == owned_b
}

/// The characters of a string slice, in order.
pub fn str_to_chars(s: &str) -> (r: Vec<char>)
    ensures
        r@ == s@,
{
    broadcast use vstd::string::axiom_spec_iter;
    broadcast use vstd::string::next_postcondition;

    let mut out: Vec<char> = Vec::new();
    let mut it = s.chars();
    loop
        invariant
            vstd::std_specs::iter::IteratorSpec::remaining(&it) == s@.skip(out@.len() as int),
            out@.len() <= s@.len(),
            out@ == s@.take(out@.len() as int),
        ensures
            out@.len() == s@.len(),
            out@ == s@.take(out@.len() as int),
        decreases s@.len() - out@.len(),
    {
        let ghost pre_len = out@.len();
        match it.next() {
            Some(c) => {
                out.push(c);
                proof {
                    assert(s@.skip(pre_len as int).drop_first() =~= s@.skip(pre_len as int + 1));
                    assert(out@ =~= s@.take(pre_len as int + 1));
                }
            },
            None => {
                proof {
                    assert(s@.skip(pre_len as int).len() == 0);
                }
                break;
            },
        }
    }
    proof {
        assert(out@ =~= s@);
    }
    out
}

/// A fresh string holding exactly the given characters.
pub fn chars_to_string(v: &Vec<char>) -> (r: String)
    ensures
        r@ == v@,
{
    let mut out = String::new();
    let n = v.len();
    let mut k: usize = 0;
    proof {
        assert(out@ =~= v@.take(0));
    }
    while k < n
        invariant
            n == v@.len(),
            k <= n,
            out@ == v@.take(k as int),
        decreases n - k,
    {
        push_char(&mut out, v[k]);
        proof {
            assert(out@ =~= v@.take(k as int + 1));
        }
        k = k + 1;
    }
    proof {
        assert(out@ =~= v@);
    }
    out
}

/// Whether `s` occurs among `items`, compared character for character.
pub fn contains_str(items: &Vec<String>, s: &str) -> (r: bool)
    ensures
        r == items@.map_values(|x: String| x@).contains(s@),
{
    let n = items.len();
    let mut k: usize = 0;
    while k < n
        invariant
            n == items@.len(),
            k <= n,
            forall|m: int| 0 <= m < k ==> items@[m]@ != s@,
        decreases n - k,
    {
        if str_eq(items[k].as_str(), s) {
            proof {
                assert(items@.map_values(|x: String| x@)[k as int] == s@);
            }
            return true;
        }
        k = k + 1;
    }
    proof {
        let mapped = items@.map_values(|x: String| x@);
        assert forall|m: int| 0 <= m < mapped.len() implies #[trigger] mapped[m] != s@ by {
            assert(mapped[m] == items@[m]@);
        }
    }
    false
}

/// The decimal digit character for a value below ten.
pub open spec fn digit_char(d: nat) -> char {
    if d == 0 {
        '0'
    } else if d == 1 {
        '1'
    } else if d == 2 {
        '2'
    } else if d == 3 {
        '3'
    } else if d == 4 {
        '4'
    } else if d == 5 {
        '5'
    } else if d == 6 {
        '6'
    } else if d == 7 {
        '7'
    } else if d == 8 {
        '8'
    } else {
        '9'
    }
}

/// The decimal rendering of a natural number, most significant digit first.
pub open spec fn spec_digits(n: nat) -> Seq<char>
    decreases n,
{
    if n < 10 {
        seq![digit_char(n)]
    } else {
        spec_digits(n / 10).push(digit_char(n % 10))
    }
}

fn digit_to_char(d: u64) -> (c: char)
    requires
        d < 10,
    ensures
        c == digit_char(d as nat),
{
    if d == 0 {
        '0'
    } else if d == 1 {
        '1'
    } else if d == 2 {
        '2'
    } else if d == 3 {
        '3'
    } else if d == 4 {
        '4'
    } else if d == 5 {
        '5'
    } else if d == 6 {
        '6'
    } else if d == 7 {
        '7'
    } else if d == 8 {
        '8'
    } else {
        '9'
    }
}

/// Appends the decimal rendering of `n` to `out`.
pub fn push_u64(out: &mut String, n: u64)
    ensures
        final(out)@ == old(out)@ + spec_digits(n as nat),
    decreases n,
{
    if n < 10 {
        push_char(out, digit_to_char(n));
        assert(old(out)@.push(digit_char(n as nat)) =~= old(out)@ + spec_digits(n as nat));
    } else {
        push_u64(out, n / 10);
        push_char(out, digit_to_char(n % 10));
        assert((old(out)@ + spec_digits((n / 10) as nat)).push(digit_char((n % 10) as nat))
            =~= old(out)@ + spec_digits(n as nat));
    }
}

/// The decimal rendering of `n` as a fresh string.
pub fn u64_to_string(n: u64) -> (r: String)
    ensures
        r@ == spec_digits(n as nat),
{
    let mut out = String::new();
    push_u64(&mut out, n);
    assert(out@ =~= spec_digits(n as nat));
    out
}

/// Whether every byte is an ASCII decimal digit.
pub open spec fn all_digit_bytes(bs: Seq<u8>) -> bool {
    forall|i: int| 0 <= i < bs.len() ==> 48 <= #[trigger] bs[i] <= 57
}

/// The value of a run of decimal digit bytes, most significant first.
pub open spec fn digits_val(bs: Seq<u8>) -> nat
    decreases bs,
{
    if bs.len() == 0 {
        0
    } else {
        digits_val(bs.drop_last()) * 10 + (if bs.last() >= 48 { (bs.last() - 48) as nat } else { 0 })
    }
}

/// A digit-run prefix never exceeds the whole run's value.
proof fn lemma_digits_val_mono(bs: Seq<u8>, m: int)
    requires
        0 <= m <= bs.len(),
    ensures
        digits_val(bs.take(m)) <= digits_val(bs),
    decreases bs.len() - m,
{
    if m < bs.len() {
        lemma_digits_val_mono(bs, m + 1);
        assert(bs.take(m + 1).drop_last() =~= bs.take(m));

        assert(digits_val(bs.take(m)) <= digits_val(bs.take(m)) * 10) by (nonlinear_arith);
    } else {
        assert(bs.take(m) =~= bs);
    }
}

/// What parsing an unsigned decimal yields: an optional leading `+`,
/// then at least one digit, with a value that fits; anything else is
/// nothing.
pub open spec fn spec_parse_u64(bs: Seq<u8>) -> Option<u64> {
    let ds = if bs.len() > 0 && bs[0] == 43 {
        bs.drop_first()
    } else {
        bs
    };
    if ds.len() == 0 || !all_digit_bytes(ds) || digits_val(ds) > u64::MAX {
        None
    } else {
        Some(digits_val(ds) as u64)
    }
}

/// Parses an unsigned decimal from the string's bytes: an optional
/// leading `+`, then at least one digit; an empty run, a stray byte or
/// an overflowing value all yield nothing.
pub fn parse_u64(s: &str) -> (r: Option<u64>)
    ensures
        r == spec_parse_u64(s.spec_bytes()),
{
    let bytes = s.as_bytes();
    let n = bytes.len();
    let start: usize = if n > 0 && bytes[0] == 43 {
        1
    } else {
        0
    };
    let ghost ds = if s.spec_bytes().len() > 0 && s.spec_bytes()[0] == 43 {
        s.spec_bytes().drop_first()
    } else {
        s.spec_bytes()
    };
    proof {
        assert(ds =~= bytes@.skip(start as int));
    }
    if start >= n {
        return None;
    }
    let mut acc: u64 = 0;
    let mut k: usize = start;
    proof {
        assert(ds.take(0) =~= Seq::<u8>::empty());
    }
    while k < n
        invariant
            n == bytes@.len(),
            bytes@ == s.spec_bytes(),
            ds == (if s.spec_bytes().len() > 0 && s.spec_bytes()[0] == 43 {
                s.spec_bytes().drop_first()
            } else {
                s.spec_bytes()
            }),
            ds == bytes@.skip(start as int),
            ds.len() > 0,
            start <= k <= n,
            acc == digits_val(ds.take(k - start)),
            all_digit_bytes(ds.take(k - start)),
        decreases n - k,
    {
        let b = bytes[k];
        proof {
            assert(ds[k - start] == bytes@[k as int]);
        }
        if b < 48 || b > 57 {
            proof {
                assert(!all_digit_bytes(ds));
            }
            return None;
        }
        let d = (b - 48) as u64;
        if acc > (u64::MAX - d) / 10 {
            proof {
                assert(acc * 10 + d > u64::MAX) by (nonlinear_arith)
                    requires
                        acc > (u64::MAX - d) / 10,
                        d <= 9,
                ;
                assert(ds.take(k - start + 1).drop_last() =~= ds.take(k - start));
                assert(ds.take(k - start + 1).last() == ds[k - start]);
                assert(digits_val(ds.take(k - start + 1)) > u64::MAX);
                lemma_digits_val_mono(ds, k - start + 1);
            }
            return None;
        }
        proof {
            assert(acc * 10 + d <= u64::MAX) by (nonlinear_arith)
                requires
                    acc <= (u64::MAX - d) / 10,
                    d <= 9,
            ;
            assert(ds.take(k - start + 1).drop_last() =~= ds.take(k - start));
            assert(ds.take(k - start + 1).last() == ds[k - start]);
        }
        acc = acc * 10 + d;
        k = k + 1;
        proof {
            assert(all_digit_bytes(ds.take(k - start)));
        }
    }
    proof {
        assert(ds.take(n - start) =~= ds);
        lemma_digits_val_mono(ds, ds.len() as int);
    }
    Some(acc)
}

/// Parsing with a fallback: the parsed value when it exists and fits
/// `u16`, the default otherwise.
pub open spec fn spec_parsed_u16(bs: Seq<u8>, d: u16) -> u16 {
    match spec_parse_u64(bs) {
        Some(v) => if v <= u16::MAX {
            v as u16
        } else {
            d
        },
        None => d,
    }
}

/// Parses a `u16`, falling back to `d` on any malformed or overflowing
/// input.
pub fn parse_u16_or(s: &str, d: u16) -> (r: u16)
    ensures
        r == spec_parsed_u16(s.spec_bytes(), d),
{
    match parse_u64(s) {
        Some(v) => if v <= 65535 {
            v as u16
        } else {
            d
        },
        None => d,
    }
}

/// Parsing with a fallback: the parsed value when it exists and fits
/// `u32`, the default otherwise.
pub open spec fn spec_parsed_u32(bs: Seq<u8>, d: u32) -> u32 {
    match spec_parse_u64(bs) {
        Some(v) => if v <= u32::MAX {
            v as u32
        } else {
            d
        },
        None => d,
    }
}

/// Parses a `u32`, falling back to `d` on any malformed or overflowing
/// input.
pub fn parse_u32_or(s: &str, d: u32) -> (r: u32)
    ensures
        r == spec_parsed_u32(s.spec_bytes(), d),
{
    match parse_u64(s) {
        Some(v) => if v <= 4294967295 {
            v as u32
        } else {
            d
        },
        None => d,
    }
}

/// Parsing with a fallback: the parsed value when it exists, the
/// default otherwise.
pub open spec fn spec_parsed_u64(bs: Seq<u8>, d: u64) -> u64 {
    match spec_parse_u64(bs) {
        Some(v) => v,
        None => d,
    }
}

/// Parses a `u64`, falling back to `d` on any malformed or overflowing
/// input.
pub fn parse_u64_or(s: &str, d: u64) -> (r: u64)
    ensures
        r == spec_parsed_u64(s.spec_bytes(), d),
{
    match parse_u64(s) {
        Some(v) => v,
        None => d,
    }
}

/// The rendering of a sequence of strings separated by `sep`, starting
/// at element `i`.
pub open spec fn spec_join_from(items: Seq<Seq<char>>, sep: Seq<char>, i: int) -> Seq<char>
    decreases items.len() - i,
{
    if i < 0 || i >= items.len() {
        Seq::empty()
    } else if i == items.len() - 1 {
        items[i]
    } else {
        items[i] + sep + spec_join_from(items, sep, i + 1)
    }
}

/// The rendering of a sequence of strings separated by `sep`.
pub open spec fn spec_join(items: Seq<Seq<char>>, sep: Seq<char>) -> Seq<char> {
    spec_join_from(items, sep, 0)
}

/// Appends the elements of `items` from index `i` on, separated by `sep`.
pub fn push_joined_from(out: &mut String, items: &Vec<String>, sep: &str, i: usize)
    requires
        i <= items.len(),
    ensures
        final(out)@ == old(out)@ + spec_join_from(items@.map_values(|s: String| s@), sep@, i as int),
    decreases items.len() - i,
{
    let ghost views = items@.map_values(|s: String| s@);
    if i >= items.len() {
        assert(out@ =~= old(out)@ + spec_join_from(views, sep@, i as int));
    } else if i == items.len() - 1 {
        push_str(out, items[i].as_str());
        assert(out@ =~= old(out)@ + spec_join_from(views, sep@, i as int));
    } else {
        push_str(out, items[i].as_str());
        push_str(out, sep);
        push_joined_from(out, items, sep, i + 1);
        assert(out@ =~= old(out)@ + spec_join_from(views, sep@, i as int));
    }
}

} // verus!
