//! Character-exact text utilities: equality, substring search,
//! colon-to-underscore normalisation and decimal rendering.

use vstd::prelude::*;
use vstd::string::*;

verus! {

/// `needle` occurs in `hay` starting at position `k`.
pub open spec fn matches_at(hay: Seq<char>, needle: Seq<char>, k: int) -> bool {
    0 <= k && k + needle.len() <= hay.len() && hay.subrange(k, k + needle.len() as int)
        == needle
}

/// `needle` occurs somewhere in `hay`.
pub open spec fn contains_sub(hay: Seq<char>, needle: Seq<char>) -> bool {
    exists|k: int| matches_at(hay, needle, k)
}

/// Character-exact string equality.
pub fn str_eq(a: &str, b: &str) -> (r: bool)
    ensures
        r == (a@ == b@),
{
    let alen = a.unicode_len();
    let blen = b.unicode_len();
    if alen != blen {
        return false;
    }
    let mut i: usize = 0;
    while i < alen
        invariant
            i <= alen,
            alen == a@.len(),
            alen == b@.len(),
            forall|j: int| 0 <= j < i ==> a@[j] == b@[j],
        decreases alen - i,
    {
        if a.get_char(i) != b.get_char(i) {
            return false;
        }
        i += 1;
    }
    proof {
        assert(a@ =~= b@);
    }
    true
}

/// Whether `needle` occurs in `hay` at the given offset.
fn eq_at(hay: &str, needle: &str, k: usize) -> (r: bool)
    requires
        k + needle@.len() <= hay@.len(),
        hay@.len() <= usize::MAX,
    ensures
        r == matches_at(hay@, needle@, k as int),
{
    let nlen = needle.unicode_len();
    let mut i: usize = 0;
    while i < nlen
        invariant
            i <= nlen,
            nlen == needle@.len(),
            k + nlen <= hay@.len() <= usize::MAX,
            forall|j: int| 0 <= j < i ==> hay@[k + j] == needle@[j],
        decreases nlen - i,
    {
        if hay.get_char(k + i) != needle.get_char(i) {
            proof {
                assert(hay@.subrange(k as int, k + nlen as int)[i as int] == hay@[k + i]);
            }
            return false;
        }
        i += 1;
    }
    proof {
        assert(hay@.subrange(k as int, k + nlen as int) =~= needle@);
    }
    true
}

/// Whether `needle` occurs anywhere in `hay`.
pub fn str_contains(hay: &str, needle: &str) -> (r: bool)
    ensures
        r == contains_sub(hay@, needle@),
{
    let hlen = hay.unicode_len();
    let nlen = needle.unicode_len();
    if nlen > hlen {
        return false;
    }
    if nlen == 0 {
        proof {
            assert(hay@.subrange(0, 0) =~= needle@);
            assert(matches_at(hay@, needle@, 0));
        }
        return true;
    }
    let mut k: usize = 0;
    while k <= hlen - nlen
        invariant
            hlen == hay@.len(),
            nlen == needle@.len(),
            1 <= nlen <= hlen,
            k <= hlen - nlen + 1,
            forall|j: int| 0 <= j < k ==> !matches_at(hay@, needle@, j),
        decreases hlen - k,
    {
        if eq_at(hay, needle, k) {
            return true;
        }
        k += 1;
    }
    false
}

/// View of a string with every colon replaced by an underscore.
pub open spec fn underscored(s: Seq<char>) -> Seq<char> {
    Seq::new(s.len(), |i: int| if s[i] == ':' { '_' } else { s[i] })
}

/// Replaces every colon with an underscore, keeping all other characters.
pub fn replace_colons(s: &str) -> (r: String)
    ensures
        r@ == underscored(s@),
{
    let len = s.unicode_len();
    let mut out = String::new();
    let mut i: usize = 0;
    while i < len
        invariant
            i <= len,
            len == s@.len(),
            out@ == underscored(s@).subrange(0, i as int),
        decreases len - i,
    {
        let c = s.get_char(i);
        if c == ':' {
            out.append("_");
            proof {
                reveal_strlit("_");
                assert(out@ =~= underscored(s@).subrange(0, i + 1));
            }
        } else {
            let piece = s.substring_char(i, i + 1);
            out.append(piece);
            proof {
                assert(out@ =~= underscored(s@).subrange(0, i + 1));
            }
        }
        i += 1;
    }
    proof {
        assert(underscored(s@).subrange(0, len as int) =~= underscored(s@));
    }
    out
}

/// The character for a single decimal digit.
pub open spec fn digit_char(d: nat) -> char {
    if d == 0 {
        '0'
    } else if d == 1 {
        '1'
    } else if d == 2 {
        '2'
    } else if d == 3 {
        '3'
    } else if d == 4 {
        '4'
    } else if d == 5 {
        '5'
    } else if d == 6 {
        '6'
    } else if d == 7 {
        '7'
    } else if d == 8 {
        '8'
    } else {
        '9'
    }
}

/// Decimal rendering of a natural number, most significant digit first,
/// without leading zeros.
pub open spec fn dec_seq(n: nat) -> Seq<char>
    decreases n,
{
    if n < 10 {
        seq![digit_char(n)]
    } else {
        dec_seq(n / 10).push(digit_char(n % 10))
    }
}

/// A decimal rendering never contains a colon.
pub proof fn lemma_dec_seq_no_colon(n: nat)
    ensures
        forall|i: int| 0 <= i < dec_seq(n).len() ==> dec_seq(n)[i] != ':',
    decreases n,
{
    if n < 10 {
        assert(dec_seq(n) =~= seq![digit_char(n)]);
    } else {
        lemma_dec_seq_no_colon(n / 10);
        assert(dec_seq(n) == dec_seq(n / 10).push(digit_char(n % 10)));
    }
}

/// The string for a single decimal digit.
fn digit_str(d: u8) -> (r: &'static str)
    requires
        d < 10,
    ensures
        r@ == seq![digit_char(d as nat)],
{
    match d {
        0 => {
            proof {
                reveal_strlit("0");
                assert("0"@ =~= seq![digit_char(0)]);
            }
            "0"
        },
        1 => {
            proof {
                reveal_strlit("1");
                assert("1"@ =~= seq![digit_char(1)]);
            }
            "1"
        },
        2 => {
            proof {
                reveal_strlit("2");
                assert("2"@ =~= seq![digit_char(2)]);
            }
            "2"
        },
        3 => {
            proof {
                reveal_strlit("3");
                assert("3"@ =~= seq![digit_char(3)]);
            }
            "3"
        },
        4 => {
            proof {
                reveal_strlit("4");
                assert("4"@ =~= seq![digit_char(4)]);
            }
            "4"
        },
        5 => {
            proof {
                reveal_strlit("5");
                assert("5"@ =~= seq![digit_char(5)]);
            }
            "5"
        },
        6 => {
            proof {
                reveal_strlit("6");
                assert("6"@ =~= seq![digit_char(6)]);
            }
            "6"
        },
        7 => {
            proof {
                reveal_strlit("7");
                assert("7"@ =~= seq![digit_char(7)]);
            }
            "7"
        },
        8 => {
            proof {
                reveal_strlit("8");
                assert("8"@ =~= seq![digit_char(8)]);
            }
            "8"
        },
        _ => {
            proof {
                reveal_strlit("9");
                assert("9"@ =~= seq![digit_char(9)]);
            }
            "9"
        },
    }
}

/// Decimal rendering of a byte-sized number.
pub fn u8_decimal(n: u8) -> (r: String)
    ensures
        r@ == dec_seq(n as nat),
{
    if n < 10 {
        let r = String::from_str(digit_str(n));
        proof {
            assert(r@ =~= dec_seq(n as nat));
        }
        r
    } else if n < 100 {
        let hi = digit_str(n / 10);
        let lo = digit_str(n % 10);
        let r = String::from_str(hi).concat(lo);
        proof {
            assert(dec_seq(n as nat) == dec_seq((n / 10) as nat).push(
                digit_char((n % 10) as nat),
            ));
            assert(r@ =~= dec_seq(n as nat));
        }
        r
    } else {
        let a = digit_str(n / 100);
        let b = digit_str((n / 10) % 10);
        let c = digit_str(n % 10);
        let r = String::from_str(a).concat(b).concat(c);
        proof {
            assert(dec_seq(n as nat) == dec_seq((n / 10) as nat).push(
                digit_char((n % 10) as nat),
            ));
            assert(dec_seq((n / 10) as nat) == dec_seq((n / 100) as nat).push(
                digit_char(((n / 10) % 10) as nat),
            ));
            assert(r@ =~= dec_seq(n as nat));
        }
        r
    }
}

} // verus!
