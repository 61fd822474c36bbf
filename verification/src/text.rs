//! Text helpers the engine needs: decimal rendering of counters and ports,
//! and whitespace splitting of the pod-phase listing the cluster returns.

use vstd::prelude::*;

verus! {

/// The decimal digit character of `d`.
pub open spec fn digit_char(d: int) -> char {
    if d == 0 {
        '0'
    } else if d == 1 {
        '1'
    } else if d == 2 {
        '2'
    } else if d == 3 {
        '3'
    } else if d == 4 {
        '4'
    } else if d == 5 {
        '5'
    } else if d == 6 {
        '6'
    } else if d == 7 {
        '7'
    } else if d == 8 {
        '8'
    } else {
        '9'
    }
}

/// The decimal rendering of `n`, most significant digit first, no leading
/// zeros (except for `n == 0` itself).
pub open spec fn dec_digits(n: nat) -> Seq<char>
    decreases n,
{
    if n < 10 {
        seq![digit_char(n as int)]
    } else {
        dec_digits(n / 10).push(digit_char((n % 10) as int))
    }
}

/// A one-character string holding the digit of `d`.
fn digit_string(d: u32) -> (r: String)
    requires
        d < 10,
    ensures
        r@ == seq![digit_char(d as int)],
{
    let r = if d == 0 {
        proof {
            reveal_strlit("0");
        }
        String::from_str("0")
    } else if d == 1 {
        proof {
            reveal_strlit("1");
        }
        String::from_str("1")
    } else if d == 2 {
        proof {
            reveal_strlit("2");
        }
        String::from_str("2")
    } else if d == 3 {
        proof {
            reveal_strlit("3");
        }
        String::from_str("3")
    } else if d == 4 {
        proof {
            reveal_strlit("4");
        }
        String::from_str("4")
    } else if d == 5 {
        proof {
            reveal_strlit("5");
        }
        String::from_str("5")
    } else if d == 6 {
        proof {
            reveal_strlit("6");
        }
        String::from_str("6")
    } else if d == 7 {
        proof {
            reveal_strlit("7");
        }
        String::from_str("7")
    } else if d == 8 {
        proof {
            reveal_strlit("8");
        }
        String::from_str("8")
    } else {
        proof {
            reveal_strlit("9");
        }
        String::from_str("9")
    };
    proof {
        assert(r@ =~= seq![digit_char(d as int)]);
    }
    r
}

/// Renders `n` in decimal.
pub fn u32_to_string(n: u32) -> (r: String)
    ensures
        r@ == dec_digits(n as nat),
    decreases n,
{
    if n < 10 {
        digit_string(n)
    } else {
        let mut s = u32_to_string(n / 10);
        let d = digit_string(n % 10);
        s.append(d.as_str());
        proof {
            assert(s@ =~= dec_digits((n / 10) as nat).push(digit_char((n % 10) as int)));
        }
        s
    }
}

/// Renders `n` in decimal.
pub fn u64_to_string(n: u64) -> (r: String)
    ensures
        r@ == dec_digits(n as nat),
    decreases n,
{
    if n < 10 {
        digit_string(n as u32)
    } else {
        let mut s = u64_to_string(n / 10);
        let d = digit_string((n % 10) as u32);
        s.append(d.as_str());
        proof {
            assert(s@ =~= dec_digits((n / 10) as nat).push(digit_char((n % 10) as int)));
        }
        s
    }
}

/// Renders a port number in decimal.
pub fn u16_to_string(n: u16) -> (r: String)
    ensures
        r@ == dec_digits(n as nat),
{
    u32_to_string(n as u32)
}

/// A decimal digit character.
pub open spec fn dec_char(c: char) -> bool {
    c == '0' || c == '1' || c == '2' || c == '3' || c == '4' || c == '5' || c == '6' || c == '7'
        || c == '8' || c == '9'
}

/// A decimal rendering is nonempty, holds digit characters only, and has
/// no leading zero (except the rendering of zero itself).
pub proof fn lemma_dec_digits_shape(n: nat)
    ensures
        dec_digits(n).len() >= 1,
        forall|i: int| 0 <= i < dec_digits(n).len() ==> dec_char(#[trigger] dec_digits(n)[i]),
        n >= 1 ==> dec_digits(n)[0] != '0',
    decreases n,
{
    if n >= 10 {
        lemma_dec_digits_shape(n / 10);
        assert(dec_digits(n) == dec_digits(n / 10).push(digit_char((n % 10) as int)));
        assert forall|i: int| 0 <= i < dec_digits(n).len() implies dec_char(
            #[trigger] dec_digits(n)[i],
        ) by {
            if i < dec_digits(n / 10).len() {
                assert(dec_digits(n)[i] == dec_digits(n / 10)[i]);
            }
        }
        assert(dec_digits(n)[0] == dec_digits(n / 10)[0]);
    }
}

/// Two equal decimal renderings come from the same number.
pub proof fn lemma_dec_digits_injective(a: nat, b: nat)
    requires
        dec_digits(a) == dec_digits(b),
    ensures
        a == b,
    decreases a,
{
    lemma_dec_digits_shape(a);
    lemma_dec_digits_shape(b);
    if a < 10 && b < 10 {
        assert(dec_digits(a)[0] == digit_char(a as int));
        assert(dec_digits(b)[0] == digit_char(b as int));
    } else if a < 10 {
        assert(dec_digits(b).len() == dec_digits(b / 10).len() + 1);
        lemma_dec_digits_shape(b / 10);
    } else if b < 10 {
        assert(dec_digits(a).len() == dec_digits(a / 10).len() + 1);
        lemma_dec_digits_shape(a / 10);
    } else {
        assert(dec_digits(a).last() == digit_char((a % 10) as int));
        assert(dec_digits(b).last() == digit_char((b % 10) as int));
        assert(a % 10 == b % 10);
        assert(dec_digits(a).drop_last() =~= dec_digits(a / 10));
        assert(dec_digits(b).drop_last() =~= dec_digits(b / 10));
        lemma_dec_digits_injective(a / 10, b / 10);
    }
}

/// A decimal rendering that is a prefix of another renders a number no
/// larger than the other's.
pub proof fn lemma_dec_digits_prefix_le(u: nat, v: nat)
    requires
        dec_digits(u).len() <= dec_digits(v).len(),
        dec_digits(u) == dec_digits(v).subrange(0, dec_digits(u).len() as int),
    ensures
        u <= v,
    decreases v,
{
    lemma_dec_digits_shape(u);
    lemma_dec_digits_shape(v);
    if dec_digits(u).len() == dec_digits(v).len() {
        assert(dec_digits(u) =~= dec_digits(v));
        lemma_dec_digits_injective(u, v);
    } else {
        assert(v >= 10) by {
            if v < 10 {
                assert(dec_digits(v).len() == 1);
            }
        }
        assert(dec_digits(v).len() == dec_digits(v / 10).len() + 1);
        assert(dec_digits(v).drop_last() =~= dec_digits(v / 10));
        assert(dec_digits(u) =~= dec_digits(v / 10).subrange(0, dec_digits(u).len() as int));
        lemma_dec_digits_prefix_le(u, v / 10);
    }
}

/// An ASCII whitespace character, as the cluster's pod listing separates
/// phases with blanks and newlines.
pub open spec fn ws_char(c: char) -> bool {
    c == ' ' || c == '\n' || c == '\t' || c == '\r'
}

/// The end of the whitespace-free token starting at `i`: the first position
/// at or after `i` that is past the end or holds whitespace.
pub open spec fn token_end(s: Seq<char>, i: int) -> int
    decreases s.len() - i,
{
    if i >= s.len() || ws_char(s[i]) {
        i
    } else {
        token_end(s, i + 1)
    }
}

/// `token_end` stays within the string and does not move backward.
pub proof fn lemma_token_end_bounds(s: Seq<char>, i: int)
    requires
        0 <= i <= s.len(),
    ensures
        i <= token_end(s, i) <= s.len(),
    decreases s.len() - i,
{
    if !(i >= s.len() || ws_char(s[i])) {
        lemma_token_end_bounds(s, i + 1);
    }
}

/// The whitespace-separated tokens of `s` from position `i` on, in order.
pub open spec fn split_from(s: Seq<char>, i: int) -> Seq<Seq<char>>
    decreases s.len() - i,
        when 0 <= i
        via split_from_decreases
{
    if i >= s.len() {
        Seq::empty()
    } else if ws_char(s[i]) {
        split_from(s, i + 1)
    } else {
        seq![s.subrange(i, token_end(s, i))] + split_from(s, token_end(s, i))
    }
}

#[via_fn]
proof fn split_from_decreases(s: Seq<char>, i: int) {
    if i < s.len() && !ws_char(s[i]) {
        lemma_token_end_bounds(s, i + 1);
        assert(token_end(s, i) == token_end(s, i + 1));
    }
}

/// The whitespace-separated tokens of `s`.
pub open spec fn split_ws(s: Seq<char>) -> Seq<Seq<char>> {
    split_from(s, 0)
}

/// Walks to the end of the token starting at `i`.
fn find_token_end(s: &str, i: usize) -> (j: usize)
    requires
        s.is_ascii(),
        i <= s@.len(),
    ensures
        j as int == token_end(s@, i as int),
        i <= j <= s@.len(),
{
    let n = s.unicode_len();
    let mut j = i;
    while j < n
        invariant
            s.is_ascii(),
            n == s@.len(),
            i <= j <= n,
            token_end(s@, i as int) == token_end(s@, j as int),
            forall|k: int| i <= k < j ==> !ws_char(#[trigger] s@[k]),
        decreases n - j,
    {
        let c = s.get_char(j);
        if c == ' ' || c == '\n' || c == '\t' || c == '\r' {
            proof {
                assert(token_end(s@, j as int) == j);
            }
            return j;
        }
        j = j + 1;
    }
    proof {
        assert(token_end(s@, j as int) == j);
    }
    j
}

/// Splits an ASCII pod-phase listing into its whitespace-separated phase
/// words, in order.  A listing that is not ASCII yields no phases.
pub fn parse_pod_phases(s: &str) -> (r: Vec<String>)
    ensures
        s.is_ascii() ==> r.deep_view() == split_ws(s@),
        !s.is_ascii() ==> r.deep_view() == Seq::<Seq<char>>::empty(),
{
    let mut r: Vec<String> = Vec::new();
    if !s.is_ascii() {
        proof {
            assert(r.deep_view() =~= Seq::<Seq<char>>::empty());
        }
        return r;
    }
    let n = s.unicode_len();
    let mut i: usize = 0;
    proof {
        assert(r.deep_view() + split_from(s@, 0) =~= split_ws(s@));
    }
    while i < n
        invariant
            s.is_ascii(),
            n == s@.len(),
            0 <= i <= n,
            r.deep_view() + split_from(s@, i as int) == split_ws(s@),
        decreases n - i,
    {
        let c = s.get_char(i);
        if c == ' ' || c == '\n' || c == '\t' || c == '\r' {
            proof {
                assert(split_from(s@, i as int) == split_from(s@, i + 1));
            }
            i = i + 1;
        } else {
            let ghost prev = r.deep_view();
            let start = i;
            let j = find_token_end(s, i);
            proof {
                assert(!ws_char(s@[start as int]));
                lemma_token_end_bounds(s@, start as int + 1);
                assert(token_end(s@, start as int) == token_end(s@, start as int + 1));
            }
            let tok = s.substring_ascii(start, j);
            r.push(tok.to_owned());
            proof {
                assert(r.deep_view() =~= prev + seq![s@.subrange(start as int, j as int)]);
                assert(split_from(s@, start as int) == seq![
                    s@.subrange(start as int, token_end(s@, start as int)),
                ] + split_from(s@, token_end(s@, start as int)));
                assert(r.deep_view() + split_from(s@, j as int) =~= prev + split_from(
                    s@,
                    start as int,
                ));
            }
            i = j;
        }
    }
    proof {
        assert(split_from(s@, n as int) =~= Seq::<Seq<char>>::empty());
        assert(r.deep_view() =~= r.deep_view() + split_from(s@, n as int));
    }
    r
}

} // verus!
