//! Verified text utilities behind the command surface: substring
//! containment, decimal integer parsing, argument joining, and the
//! package-id prefix of an intent string.

use vstd::prelude::*;
use vstd::string::StrSliceExecFns;
use vstd::string::StringExecFns;

verus! {

/// `needle` occurs contiguously somewhere in `hay`.
pub open spec fn spec_contains(hay: Seq<char>, needle: Seq<char>) -> bool {
    exists|i: int|
        0 <= i <= hay.len() - needle.len() && #[trigger] hay.subrange(i, i + needle.len() as int)
            == needle
}

/// Whether `needle` starts at position `i` of `hay`.
fn match_at(hay: &str, needle: &str, i: usize) -> (r: bool)
    requires
        i + needle@.len() <= hay@.len(),
    ensures
        r == (hay@.subrange(i as int, i + needle@.len() as int) == needle@),
{
    let hlen = hay.unicode_len();
    let nlen = needle.unicode_len();
    let mut j: usize = 0;
    while j < nlen
        invariant
            hlen == hay@.len(),
            nlen == needle@.len(),
            i + nlen <= hay@.len(),
            j <= nlen,
            forall|k: int| 0 <= k < j ==> hay@[i + k] == needle@[k],
        decreases nlen - j,
    {
        if hay.get_char(i + j) != needle.get_char(j) {
            proof {
                assert(hay@.subrange(i as int, i + nlen as int)[j as int] != needle@[j as int]);
            }
            return false;
        }
        j = j + 1;
    }
    proof {
        assert(hay@.subrange(i as int, i + nlen as int) =~= needle@);
    }
    true
}

/// Substring containment, the relation the command surface is built on.
pub fn contains_sub(hay: &str, needle: &str) -> (r: bool)
    ensures
        r == spec_contains(hay@, needle@),
{
    let hlen = hay.unicode_len();
    let nlen = needle.unicode_len();
    if nlen > hlen {
        return false;
    }
    if nlen == 0 {
        proof {
            assert(hay@.subrange(0, 0 + needle@.len() as int) =~= needle@);
        }
        return true;
    }
    let mut i: usize = 0;
    while i <= hlen - nlen
        invariant
            hlen == hay@.len(),
            nlen == needle@.len(),
            0 < nlen <= hlen,
            i <= hlen - nlen + 1,
            forall|k: int|
                0 <= k < i ==> #[trigger] hay@.subrange(k, k + nlen as int) != needle@,
        decreases hlen - nlen - i + 1,
    {
        if match_at(hay, needle, i) {
            proof {
                assert(0 <= i as int <= hay@.len() - needle@.len() && hay@.subrange(
                    i as int,
                    i + needle@.len() as int,
                ) == needle@);
            }
            return true;
        }
        i = i + 1;
    }
    false
}

/// An ASCII decimal digit.
pub open spec fn is_digit(c: char) -> bool {
    48 <= c as u32 <= 57
}

pub open spec fn all_digits(s: Seq<char>) -> bool {
    forall|k: int| 0 <= k < s.len() ==> is_digit(#[trigger] s[k])
}

/// Value of a sequence of decimal digits, most significant first.
pub open spec fn digits_val(s: Seq<char>) -> int
    decreases s.len(),
{
    if s.len() == 0 {
        0
    } else {
        digits_val(s.drop_last()) * 10 + (s.last() as u32 - 48)
    }
}

/// The value of a digit string is nonnegative, and no shorter prefix of it
/// exceeds it.
proof fn lemma_digits_val_take(s: Seq<char>, k: int)
    requires
        all_digits(s),
        0 <= k <= s.len(),
    ensures
        0 <= digits_val(s.take(k)) <= digits_val(s),
    decreases s.len() - k,
{
    if k == s.len() {
        assert(s.take(k) =~= s);
        lemma_digits_val_nonneg(s);
    } else {
        assert(s.take(k + 1).drop_last() =~= s.take(k));
        assert(all_digits(s.take(k + 1)));
        lemma_digits_val_nonneg(s.take(k + 1));
        lemma_digits_val_nonneg(s.take(k));
        lemma_digits_val_take(s, k + 1);
    }
}

proof fn lemma_digits_val_nonneg(s: Seq<char>)
    requires
        all_digits(s),
    ensures
        digits_val(s) >= 0,
    decreases s.len(),
{
    if s.len() > 0 {
        assert(all_digits(s.drop_last()));
        lemma_digits_val_nonneg(s.drop_last());
    }
}

/// The signed 32-bit integer a string denotes: an optional sign, then at
/// least one decimal digit, within the type's range; anything else denotes
/// nothing.
pub open spec fn spec_parse_i32(s: Seq<char>) -> Option<i32> {
    if s.len() > 0 && s[0] == '-' {
        spec_parse_magnitude(s.skip(1), true)
    } else if s.len() > 0 && s[0] == '+' {
        spec_parse_magnitude(s.skip(1), false)
    } else {
        spec_parse_magnitude(s, false)
    }
}

pub open spec fn spec_parse_magnitude(digits: Seq<char>, neg: bool) -> Option<i32> {
    if digits.len() == 0 || !all_digits(digits) {
        None
    } else if neg && digits_val(digits) <= 0x80000000 {
        Some((-digits_val(digits)) as i32)
    } else if !neg && digits_val(digits) <= 0x7FFFFFFF {
        Some(digits_val(digits) as i32)
    } else {
        None
    }
}

/// Parses a signed decimal integer, exactly the strings and values that
/// `spec_parse_i32` accepts.
pub fn parse_i32(s: &str) -> (r: Option<i32>)
    ensures
        r == spec_parse_i32(s@),
{
    let len = s.unicode_len();
    if len == 0 {
        return None;
    }
    let first = s.get_char(0);
    let neg = first == '-';
    let start: usize = if first == '-' || first == '+' {
        1
    } else {
        0
    };
    let ghost digits = s@.subrange(start as int, len as int);
    proof {
        if start == 1 {
            assert(s@.skip(1) =~= digits);
        } else {
            assert(s@ =~= digits);
        }
    }
    if start >= len {
        return None;
    }
    let mut acc: u64 = 0;
    let mut idx: usize = start;
    while idx < len
        invariant
            len == s@.len(),
            start <= idx <= len,
            start < len,
            start <= 1,
            digits == s@.subrange(start as int, len as int),
            spec_parse_i32(s@) == spec_parse_magnitude(digits, neg),
            acc == digits_val(digits.take(idx - start)),
            acc <= 0x80000000,
            all_digits(digits.take(idx - start)),
        decreases len - idx,
    {
        let c = s.get_char(idx);
        let v = c as u32;
        if v < 48 || v > 57 {
            proof {
                assert(!is_digit(digits[idx - start]));
            }
            return None;
        }
        let new_acc: u64 = acc * 10 + ((v - 48) as u64);
        proof {
            assert(digits.take(idx - start + 1).drop_last() =~= digits.take(idx - start));
            assert(digits.take(idx - start + 1).last() == c);
        }
        if new_acc > 0x80000000 {
            proof {
                if all_digits(digits) {
                    lemma_digits_val_take(digits, idx - start + 1);
                }
            }
            return None;
        }
        acc = new_acc;
        idx = idx + 1;
    }
    proof {
        assert(digits.take(len - start) =~= digits);
    }
    if neg {
        let val: i64 = -(acc as i64);
        Some(val as i32)
    } else {
        if acc > 0x7FFFFFFF {
            return None;
        }
        Some(acc as i32)
    }
}

/// The arguments joined into one command line, one space between each pair.
pub open spec fn spec_join(parts: Seq<Seq<char>>) -> Seq<char>
    decreases parts.len(),
{
    if parts.len() == 0 {
        Seq::empty()
    } else if parts.len() == 1 {
        parts[0]
    } else {
        spec_join(parts.drop_last()) + seq![' '] + parts.last()
    }
}

/// Joins the argument vector into the command line that the surface is
/// matched against.
pub fn join_args(args: &Vec<String>) -> (r: String)
    ensures
        r@ == spec_join(args@.map_values(|s: String| s@)),
{
    let ghost js = args@.map_values(|s: String| s@);
    let mut out = String::new();
    let mut i: usize = 0;
    while i < args.len()
        invariant
            js == args@.map_values(|s: String| s@),
            i <= args@.len(),
            out@ == spec_join(js.take(i as int)),
        decreases args@.len() - i,
    {
        if i > 0 {
            out.append(" ");
            proof {
                reveal_strlit(" ");
                assert(" "@ =~= seq![' ']);
            }
        }
        out.append(args[i].as_str());
        proof {
            assert(js.take(i + 1).drop_last() =~= js.take(i as int));
            if i == 0 {
                assert(out@ =~= js.take(1)[0]);
            }
        }
        i = i + 1;
    }
    proof {
        assert(js.take(args@.len() as int) =~= js);
    }
    out
}

/// Index of the first '/' in `s`, or the length of `s` if there is none.
pub open spec fn spec_slash_index(s: Seq<char>) -> int
    decreases s.len(),
{
    if s.len() == 0 {
        0
    } else if s[0] == '/' {
        0
    } else {
        1 + spec_slash_index(s.skip(1))
    }
}

/// The first-slash index is the unique position with no slash before it
/// that either sits on a slash or ends the string.
proof fn lemma_slash_index_unique(s: Seq<char>, i: int)
    requires
        0 <= i <= s.len(),
        forall|k: int| 0 <= k < i ==> s[k] != '/',
        i < s.len() ==> s[i] == '/',
    ensures
        spec_slash_index(s) == i,
    decreases s.len(),
{
    if s.len() == 0 {
    } else if s[0] == '/' {
        assert(i == 0);
    } else {
        assert(i >= 1);
        lemma_slash_index_unique(s.skip(1), i - 1);
    }
}

/// The package id of an intent string: everything before the first '/',
/// or the whole string if it has none.
pub fn package_of(intent: &str) -> (r: String)
    ensures
        r@ == intent@.take(spec_slash_index(intent@)),
{
    let len = intent.unicode_len();
    let mut i: usize = 0;
    while i < len
        invariant
            len == intent@.len(),
            i <= len,
            forall|k: int| 0 <= k < i ==> intent@[k] != '/',
        decreases len - i,
    {
        if intent.get_char(i) == '/' {
            proof {
                lemma_slash_index_unique(intent@, i as int);
                assert(intent@.take(i as int) =~= intent@.subrange(0, i as int));
            }
            return intent.substring_char(0, i).to_owned();
        }
        i = i + 1;
    }
    proof {
        lemma_slash_index_unique(intent@, len as int);
        assert(intent@.take(len as int) =~= intent@);
    }
    intent.to_owned()
}

} // verus!
