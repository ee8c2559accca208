//! Small text helpers: decimal rendering for warning messages, and the
//! case-insensitive label matching used to pick the CPU temperature.

use vstd::prelude::*;
use vstd::string::StringExecFns;

verus! {

/// The character for one decimal digit.
pub open spec fn digit_char(d: int) -> char {
    if d == 0 {
        '0'
    } else if d == 1 {
        '1'
    } else if d == 2 {
        '2'
    } else if d == 3 {
        '3'
    } else if d == 4 {
        '4'
    } else if d == 5 {
        '5'
    } else if d == 6 {
        '6'
    } else if d == 7 {
        '7'
    } else if d == 8 {
        '8'
    } else {
        '9'
    }
}

/// The decimal rendering of a natural number, most significant digit first.
pub open spec fn spec_decimal(n: nat) -> Seq<char>
    decreases n,
{
    if n < 10 {
        seq![digit_char(n as int)]
    } else {
        spec_decimal(n / 10).push(digit_char((n % 10) as int))
    }
}

/// A one-character string slice for a decimal digit.
fn digit_str(d: u32) -> (r: &'static str)
    requires
        d < 10,
    ensures
        r@ =~= seq![digit_char(d as int)],
{
    proof {
        reveal_strlit("0");
        reveal_strlit("1");
        reveal_strlit("2");
        reveal_strlit("3");
        reveal_strlit("4");
        reveal_strlit("5");
        reveal_strlit("6");
        reveal_strlit("7");
        reveal_strlit("8");
        reveal_strlit("9");
    }
    if d == 0 {
        "0"
    } else if d == 1 {
        "1"
    } else if d == 2 {
        "2"
    } else if d == 3 {
        "3"
    } else if d == 4 {
        "4"
    } else if d == 5 {
        "5"
    } else if d == 6 {
        "6"
    } else if d == 7 {
        "7"
    } else if d == 8 {
        "8"
    } else {
        "9"
    }
}

/// Append the decimal rendering of `n` to `out`.
pub fn push_decimal(out: &mut String, n: u32)
    ensures
        final(out)@ == old(out)@ + spec_decimal(n as nat),
    decreases n,
{
    if n >= 10 {
        push_decimal(out, n / 10);
    }
    let d = digit_str(n % 10);
    out.append(d);
    proof {
        assert(final(out)@ =~= old(out)@ + spec_decimal(n as nat));
    }
}

/// What `str::to_lowercase` returns for a given character sequence; the
/// result depends on the characters alone.
pub uninterp spec fn lower_of(s: Seq<char>) -> Seq<char>;

/// Relies on `str::to_lowercase` of std: the lower-cased text of `s`,
/// a function of the characters of `s` alone.
#[verifier::external_body]
pub(crate) fn lowercase(s: &str) -> (r: String)
    ensures
        r@ == lower_of(s@),
{
    s.to_lowercase()
}

/// `needle` occurs in `hay` starting at position `i`.
pub open spec fn seq_contains_at(hay: Seq<char>, needle: Seq<char>, i: int) -> bool {
    &&& 0 <= i
    &&& i + needle.len() <= hay.len()
    &&& hay.subrange(i, i + needle.len()) == needle
}

/// `needle` occurs somewhere in `hay`.
pub open spec fn seq_contains(hay: Seq<char>, needle: Seq<char>) -> bool {
    exists|i: int| seq_contains_at(hay, needle, i)
}

/// Whether `needle` occurs in `hay`, comparing character by character.
pub fn str_contains(hay: &str, needle: &str) -> (r: bool)
    ensures
        r == seq_contains(hay@, needle@),
{
    let hay_len = hay.unicode_len();
    let needle_len = needle.unicode_len();
    if needle_len == 0 {
        proof {
            assert(hay@.subrange(0, 0) =~= needle@);
            assert(seq_contains_at(hay@, needle@, 0));
        }
        return true;
    }
    if needle_len > hay_len {
        proof {
            assert(forall|i: int| !seq_contains_at(hay@, needle@, i));
        }
        return false;
    }
    let mut i: usize = 0;
    while i <= hay_len - needle_len
        invariant
            hay_len == hay@.len(),
            needle_len == needle@.len(),
            0 < needle_len <= hay_len,
            i <= hay_len - needle_len + 1,
            forall|j: int| 0 <= j < i ==> !seq_contains_at(hay@, needle@, j),
        decreases hay_len - needle_len + 1 - i,
    {
        let mut k: usize = 0;
        let mut same = true;
        while same && k < needle_len
            invariant
                hay_len == hay@.len(),
                needle_len == needle@.len(),
                0 < needle_len <= hay_len,
                i + needle_len <= hay_len,
                k <= needle_len,
                same ==> forall|t: int| 0 <= t < k ==> hay@[i + t] == needle@[t],
                !same ==> !seq_contains_at(hay@, needle@, i as int),
            decreases needle_len - k + (if same { 1int } else { 0int }),
        {
            let hc = hay.get_char(i + k);
            let nc = needle.get_char(k);
            if hc != nc {
                proof {
                    let sub = hay@.subrange(i as int, i + needle@.len());
                    assert(sub[k as int] == hay@[i + k]);
                    assert(!seq_contains_at(hay@, needle@, i as int));
                }
                same = false;
            } else {
                k = k + 1;
            }
        }
        if same {
            proof {
                assert(hay@.subrange(i as int, i + needle@.len()) =~= needle@);
                assert(seq_contains_at(hay@, needle@, i as int));
            }
            return true;
        }
        i = i + 1;
    }
    proof {
        assert forall|j: int| !seq_contains_at(hay@, needle@, j) by {
            if 0 <= j < i {
                assert(!seq_contains_at(hay@, needle@, j));
            }
        }
    }
    false
}

} // verus!
