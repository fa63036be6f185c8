//! Small verified text utilities: decimal rendering for synthesized column
//! names, character-exact string comparison, and decimal parsing of axis
//! indices.
use vstd::prelude::*;
use vstd::string::StringExecFns;
use vstd::string::StrSliceExecFns;

verus! {

/// The decimal digits of `n`, most significant first, as ASCII bytes.
pub open spec fn dec_bytes(n: nat) -> Seq<u8>
    decreases n,
{
    if n < 10 {
        seq![(48 + n) as u8]
    } else {
        dec_bytes(n / 10).push((48 + n % 10) as u8)
    }
}

/// The decimal digits of `n`, most significant first, as characters.
pub open spec fn dec_chars(n: nat) -> Seq<char> {
    dec_bytes(n).map_values(|b: u8| b as char)
}

pub proof fn lemma_dec_bytes_ascii(n: nat)
    ensures
        forall|i: int| 0 <= i < dec_bytes(n).len() ==> dec_bytes(n)[i] < 128,
    decreases n,
{
    if n < 10 {
        assert(dec_bytes(n)[0] == (48 + n) as u8);
    } else {
        lemma_dec_bytes_ascii(n / 10);
        assert forall|i: int| 0 <= i < dec_bytes(n).len() implies dec_bytes(n)[i] < 128 by {
            if i < dec_bytes(n / 10).len() {
                assert(dec_bytes(n)[i] == dec_bytes(n / 10)[i]);
            } else {
                assert(dec_bytes(n)[i] == (48 + n % 10) as u8);
            }
        }
    }
}

/// Appends the decimal digits of `n` to `out`.
pub fn push_dec(out: &mut Vec<u8>, n: usize)
    ensures
        final(out)@ == old(out)@ + dec_bytes(n as nat),
    decreases n,
{
    if n < 10 {
        out.push(48 + (n as u8));
        proof {
            assert(final(out)@ =~= old(out)@ + dec_bytes(n as nat));
        }
    } else {
        push_dec(out, n / 10);
        out.push(48 + ((n % 10) as u8));
        proof {
            assert(final(out)@ =~= old(out)@ + dec_bytes(n as nat));
        }
    }
}

/// Relies on `String::from_utf8`: ASCII bytes decode to exactly those
/// characters, and cannot fail to decode.
#[verifier::external_body]
fn ascii_string(bytes: &Vec<u8>) -> (r: String)
    requires
        forall|i: int| 0 <= i < bytes@.len() ==> bytes@[i] < 128,
    ensures
        r@ == bytes@.map_values(|b: u8| b as char),
{
    String::from_utf8(bytes.clone()).unwrap()
}

/// The synthesized column name built from a number: `column_` followed by the
/// decimal digits of `n`.
pub open spec fn spec_column_name(n: nat) -> Seq<char> {
    "column_"@ + dec_chars(n)
}

/// Builds the synthesized column name `column_<n>`.
pub fn column_name(n: usize) -> (r: String)
    ensures
        r@ == spec_column_name(n as nat),
{
    let mut digits: Vec<u8> = Vec::new();
    push_dec(&mut digits, n);
    proof {
        lemma_dec_bytes_ascii(n as nat);
    }
    let tail = ascii_string(&digits);
    let head = String::from_str("column_");
    head.concat(tail.as_str())
}

/// Character-exact equality of two string slices.
pub fn str_eq(a: &str, b: &str) -> (r: bool)
    ensures
        r == (a@ == b@),
{
    let la = a.unicode_len();
    let lb = b.unicode_len();
    if la != lb {
        return false;
    }
    let mut i: usize = 0;
    while i < la
        invariant
            la == a@.len(),
            la == b@.len(),
            i <= la,
            forall|j: int| 0 <= j < i ==> a@[j] == b@[j],
        decreases la - i,
    {
        if a.get_char(i) != b.get_char(i) {
            return false;
        }
        i += 1;
    }
    proof {
        assert(a@ =~= b@);
    }
    true
}

pub open spec fn is_dec_digit(c: char) -> bool {
    48 <= c as u32 <= 57
}

pub open spec fn digit_of(c: char) -> nat {
    (c as u32 - 48) as nat
}

/// The value of a sequence of decimal digit characters, most significant
/// first.
pub open spec fn digits_value(s: Seq<char>) -> nat
    decreases s.len(),
{
    if s.len() == 0 {
        0
    } else {
        digits_value(s.drop_last()) * 10 + digit_of(s.last())
    }
}

pub open spec fn all_dec_digits(s: Seq<char>) -> bool {
    forall|i: int| 0 <= i < s.len() ==> is_dec_digit(s[i])
}

/// The digit portion of an axis index string: everything after an optional
/// leading `+`.
pub open spec fn axis_digits(s: Seq<char>) -> Seq<char> {
    if s.len() > 0 && s[0] == '+' {
        s.subrange(1, s.len() as int)
    } else {
        s
    }
}

/// What `str::parse::<usize>` accepts: an optional leading `+`, then one or
/// more decimal digits whose value fits in `usize`.
pub open spec fn spec_parse_usize(s: Seq<char>) -> Option<usize> {
    let t = axis_digits(s);
    if t.len() > 0 && all_dec_digits(t) && digits_value(t) <= usize::MAX {
        Some(digits_value(t) as usize)
    } else {
        None
    }
}

/// An axis index string resolves to its parsed value, or to the given
/// default when it does not parse.
pub open spec fn spec_axis_index(s: Seq<char>, default: usize) -> usize {
    match spec_parse_usize(s) {
        Some(v) => v,
        None => default,
    }
}

proof fn lemma_digits_value_take_step(t: Seq<char>, k: int)
    requires
        0 <= k < t.len(),
    ensures
        digits_value(t.take(k + 1)) == digits_value(t.take(k)) * 10 + digit_of(t[k]),
{
    assert(t.take(k + 1).drop_last() =~= t.take(k));
    assert(t.take(k + 1).last() == t[k]);
}

proof fn lemma_digits_value_prefix(t: Seq<char>, k: int)
    requires
        0 <= k <= t.len(),
    ensures
        digits_value(t) >= digits_value(t.take(k)),
    decreases t.len() - k,
{
    if k == t.len() {
        assert(t.take(k) =~= t);
    } else {
        lemma_digits_value_take_step(t, k);
        lemma_digits_value_prefix(t, k + 1);
    }
}

/// Parses an axis index as an unsigned decimal number, falling back to
/// `default` when the string does not parse.
pub fn parse_axis_index(s: &str, default: usize) -> (r: usize)
    ensures
        r == spec_axis_index(s@, default),
{
    let len = s.unicode_len();
    let start: usize = if len > 0 && s.get_char(0) == '+' {
        1
    } else {
        0
    };
    let ghost t = axis_digits(s@);
    proof {
        assert(t =~= s@.subrange(start as int, s@.len() as int));
    }
    if len == start {
        return default;
    }
    let mut acc: usize = 0;
    let mut i: usize = start;
    while i < len
        invariant
            start <= i <= len,
            len == s@.len(),
            start <= 1,
            t == axis_digits(s@),
            t == s@.subrange(start as int, s@.len() as int),
            acc == digits_value(t.take(i - start)),
            forall|j: int| 0 <= j < i - start ==> is_dec_digit(t[j]),
        decreases len - i,
    {
        let c = s.get_char(i);
        let u = c as u32;
        if u < 48 || u > 57 {
            proof {
                assert(t[i - start] == s@[i as int]);
                assert(!is_dec_digit(t[i - start]));
                assert(!all_dec_digits(t));
                assert(spec_parse_usize(s@) is None);
            }
            return default;
        }
        let d = (u - 48) as usize;
        if acc > (usize::MAX - d) / 10 {
            proof {
                assert(acc * 10 + d > usize::MAX) by (nonlinear_arith)
                    requires
                        acc > (usize::MAX - d) / 10,
                        d <= usize::MAX,
                ;
                lemma_digits_value_take_step(t, i - start);
                lemma_digits_value_prefix(t, i - start + 1);
                assert(digits_value(t) > usize::MAX);
            }
            return default;
        }
        proof {
            assert(acc * 10 + d <= usize::MAX) by (nonlinear_arith)
                requires
                    acc <= (usize::MAX - d) / 10,
                    d <= usize::MAX,
            ;
            lemma_digits_value_take_step(t, i - start);
        }
        acc = acc * 10 + d;
        i += 1;
    }
    proof {
        assert(t.take(i - start) =~= t);
        assert(all_dec_digits(t));
    }
    acc
}

} // verus!
