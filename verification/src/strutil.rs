//! Verified helpers on strings: decimal rendering of integers, zero-padding,
//! and stripping of leading slashes from endpoint paths.

use vstd::prelude::*;

verus! {

/// The character for one decimal digit.
pub open spec fn spec_digit(d: nat) -> char {
    if d == 0 {
        '0'
    } else if d == 1 {
        '1'
    } else if d == 2 {
        '2'
    } else if d == 3 {
        '3'
    } else if d == 4 {
        '4'
    } else if d == 5 {
        '5'
    } else if d == 6 {
        '6'
    } else if d == 7 {
        '7'
    } else if d == 8 {
        '8'
    } else {
        '9'
    }
}

/// Decimal rendering of a natural number, most significant digit first,
/// without leading zeros.
pub open spec fn spec_dec(n: nat) -> Seq<char>
    decreases n,
{
    if n < 10 {
        seq![spec_digit(n)]
    } else {
        spec_dec(n / 10) + seq![spec_digit(n % 10)]
    }
}

/// Left-pad a string with '0' until it is at least four characters long.
pub open spec fn spec_pad4(s: Seq<char>) -> Seq<char> {
    if s.len() >= 4 {
        s
    } else {
        Seq::new((4 - s.len()) as nat, |i: int| '0') + s
    }
}

/// Drop every leading '/' character.
pub open spec fn spec_strip_slashes(s: Seq<char>) -> Seq<char>
    decreases s.len(),
{
    if s.len() > 0 && s[0] == '/' {
        spec_strip_slashes(s.drop_first())
    } else {
        s
    }
}

/// A decimal rendering is never empty.
pub proof fn lemma_dec_len(n: nat)
    ensures
        spec_dec(n).len() >= 1,
    decreases n,
{
    if n >= 10 {
        lemma_dec_len(n / 10);
    }
}

fn digit_str(d: u32) -> (r: &'static str)
    requires
        d < 10,
    ensures
        r@ == seq![spec_digit(d as nat)],
{
    if d == 0 {
        proof {
            reveal_strlit("0");
            assert("0"@ =~= seq![spec_digit(d as nat)]);
        }
        "0"
    } else if d == 1 {
        proof {
            reveal_strlit("1");
            assert("1"@ =~= seq![spec_digit(d as nat)]);
        }
        "1"
    } else if d == 2 {
        proof {
            reveal_strlit("2");
            assert("2"@ =~= seq![spec_digit(d as nat)]);
        }
        "2"
    } else if d == 3 {
        proof {
            reveal_strlit("3");
            assert("3"@ =~= seq![spec_digit(d as nat)]);
        }
        "3"
    } else if d == 4 {
        proof {
            reveal_strlit("4");
            assert("4"@ =~= seq![spec_digit(d as nat)]);
        }
        "4"
    } else if d == 5 {
        proof {
            reveal_strlit("5");
            assert("5"@ =~= seq![spec_digit(d as nat)]);
        }
        "5"
    } else if d == 6 {
        proof {
            reveal_strlit("6");
            assert("6"@ =~= seq![spec_digit(d as nat)]);
        }
        "6"
    } else if d == 7 {
        proof {
            reveal_strlit("7");
            assert("7"@ =~= seq![spec_digit(d as nat)]);
        }
        "7"
    } else if d == 8 {
        proof {
            reveal_strlit("8");
            assert("8"@ =~= seq![spec_digit(d as nat)]);
        }
        "8"
    } else {
        proof {
            reveal_strlit("9");
            assert("9"@ =~= seq![spec_digit(d as nat)]);
        }
        "9"
    }
}

/// Render an integer in decimal, without leading zeros.
pub fn u32_to_dec(n: u32) -> (r: String)
    ensures
        r@ == spec_dec(n as nat),
    decreases n,
{
    if n < 10 {
        String::from_str(digit_str(n))
    } else {
        let mut r = u32_to_dec(n / 10);
        r.append(digit_str(n % 10));
        r
    }
}

/// Render an integer in decimal, left-padded with '0' to at least four
/// characters.
pub fn u32_to_dec_pad4(n: u32) -> (r: String)
    ensures
        r@ == spec_pad4(spec_dec(n as nat)),
{
    let d = u32_to_dec(n);
    proof {
        lemma_dec_len(n as nat);
    }
    let len = d.as_str().unicode_len();
    let mut r = if len == 1 {
        proof {
            reveal_strlit("000");
            assert("000"@ =~= Seq::new(3, |i: int| '0'));
        }
        String::from_str("000")
    } else if len == 2 {
        proof {
            reveal_strlit("00");
            assert("00"@ =~= Seq::new(2, |i: int| '0'));
        }
        String::from_str("00")
    } else if len == 3 {
        proof {
            reveal_strlit("0");
            assert("0"@ =~= Seq::new(1, |i: int| '0'));
        }
        String::from_str("0")
    } else {
        String::new()
    };
    r.append(d.as_str());
    r
}

/// Drop every leading '/' character from a path fragment.
pub fn strip_leading_slashes(s: &str) -> (r: &str)
    ensures
        r@ == spec_strip_slashes(s@),
{
    let len = s.unicode_len();
    let mut i: usize = 0;
    loop
        invariant
            i <= len,
            len == s@.len(),
            forall|j: int| 0 <= j < i ==> s@[j] == '/',
        ensures
            i <= len,
            len == s@.len(),
            i == len || s@[i as int] != '/',
            forall|j: int| 0 <= j < i ==> s@[j] == '/',
        decreases len - i,
    {
        if i >= len {
            break ;
        }
        if s.get_char(i) != '/' {
            break ;
        }
        i = i + 1;
    }
    let r = s.substring_char(i, len);
    proof {
        lemma_strip_prefix(s@, i as int);
    }
    r
}

/// Stripping leading slashes yields the suffix that begins at the first
/// character that is not a slash.
proof fn lemma_strip_prefix(s: Seq<char>, i: int)
    requires
        0 <= i <= s.len(),
        forall|j: int| 0 <= j < i ==> s[j] == '/',
        i == s.len() || s[i] != '/',
    ensures
        spec_strip_slashes(s) == s.subrange(i, s.len() as int),
    decreases i,
{
    if i == 0 {
        assert(s.subrange(0, s.len() as int) =~= s);
    } else {
        assert(s[0] == '/');
        assert(forall|j: int| 0 <= j < i - 1 ==> s.drop_first()[j] == s[j + 1]);
        lemma_strip_prefix(s.drop_first(), i - 1);
        assert(s.drop_first().subrange(i - 1, s.drop_first().len() as int) =~= s.subrange(
            i,
            s.len() as int,
        ));
    }
}

} // verus!
