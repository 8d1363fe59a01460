//! Character-level helpers shared by the token codec and the cookie parser:
//! splitting a character sequence at the first occurrence of a separator,
//! and canonical decimal rendering and parsing of `u64` values.

use vstd::prelude::*;

verus! {

/// `c` occurs nowhere in `s`.
pub open spec fn no_char(s: Seq<char>, c: char) -> bool {
    forall|i: int| 0 <= i < s.len() ==> s[i] != c
}

/// Split `s` at the first occurrence of `c`: the part before (which is free
/// of `c`) and the part after. `None` when `c` does not occur.
pub open spec fn split_once_at(s: Seq<char>, c: char) -> Option<(Seq<char>, Seq<char>)>
    decreases s.len(),
{
    if s.len() == 0 {
        None
    } else if s[0] == c {
        Some((Seq::empty(), s.skip(1)))
    } else {
        match split_once_at(s.skip(1), c) {
            None => None,
            Some(p) => Some((seq![s[0]] + p.0, p.1)),
        }
    }
}

/// A split succeeds exactly when the separator occurs.
pub proof fn lemma_split_none(s: Seq<char>, c: char)
    ensures
        split_once_at(s, c) is None <==> no_char(s, c),
    decreases s.len(),
{
    if s.len() == 0 {
    } else if s[0] == c {
    } else {
        lemma_split_none(s.skip(1), c);
        if no_char(s, c) {
            assert forall|i: int| 0 <= i < s.skip(1).len() implies s.skip(1)[i] != c by {
                assert(s.skip(1)[i] == s[i + 1]);
            }
        } else {
            if split_once_at(s.skip(1), c) is None {
                assert forall|i: int| 0 <= i < s.len() implies s[i] != c by {
                    if i > 0 {
                        assert(s[i] == s.skip(1)[i - 1]);
                    }
                }
            }
        }
    }
}

/// Splitting recovers the parts of a separated concatenation.
pub proof fn lemma_split_concat(a: Seq<char>, b: Seq<char>, c: char)
    requires
        no_char(a, c),
    ensures
        split_once_at(a + seq![c] + b, c) == Some((a, b)),
    decreases a.len(),
{
    let t = a + seq![c] + b;
    if a.len() == 0 {
        assert(t[0] == c);
        assert(t.skip(1) =~= b);
        assert(a =~= Seq::<char>::empty());
    } else {
        assert(t[0] == a[0]);
        assert(t[0] != c);
        let a1 = a.skip(1);
        assert forall|i: int| 0 <= i < a1.len() implies a1[i] != c by {
            assert(a1[i] == a[i + 1]);
        }
        lemma_split_concat(a1, b, c);
        assert(t.skip(1) =~= a1 + seq![c] + b);
        assert(seq![t[0]] + a1 =~= a);
    }
}

/// A successful split is sound: the parts reassemble to `s`, and the head
/// part is free of the separator.
pub proof fn lemma_split_sound(s: Seq<char>, c: char)
    requires
        split_once_at(s, c) is Some,
    ensures
        s =~= (split_once_at(s, c)->0).0 + seq![c] + (split_once_at(s, c)->0).1,
        no_char((split_once_at(s, c)->0).0, c),
    decreases s.len(),
{
    if s[0] == c {
        assert(s =~= Seq::empty() + seq![c] + s.skip(1));
    } else {
        lemma_split_sound(s.skip(1), c);
        let p = split_once_at(s.skip(1), c)->0;
        assert(s =~= seq![s[0]] + s.skip(1));
        assert(s =~= (seq![s[0]] + p.0) + seq![c] + p.1);
        let h = seq![s[0]] + p.0;
        assert forall|i: int| 0 <= i < h.len() implies h[i] != c by {
            if i > 0 {
                assert(h[i] == p.0[i - 1]);
            }
        }
    }
}

/// Split a string at the first occurrence of `c`, as `split_once_at` does.
pub fn split_first(s: &str, c: char) -> (r: Option<(String, String)>)
    ensures
        match r {
            None => split_once_at(s@, c) is None,
            Some(p) => split_once_at(s@, c) == Some((p.0@, p.1@)),
        },
{
    let n = s.unicode_len();
    let mut i: usize = 0;
    while i < n
        invariant
            0 <= i <= n,
            n == s@.len(),
            forall|j: int| 0 <= j < i ==> s@[j] != c,
        decreases n - i,
    {
        if s.get_char(i) == c {
            let head = s.substring_char(0, i).to_owned();
            let tail = s.substring_char(i + 1, n).to_owned();
            proof {
                let a = s@.subrange(0, i as int);
                let b = s@.subrange(i + 1, n as int);
                lemma_split_concat(a, b, c);
                assert(s@ =~= a + seq![c] + b);
            }
            return Some((head, tail));
        }
        i += 1;
    }
    proof {
        lemma_split_none(s@, c);
    }
    None
}

/// Decimal digits.
pub open spec fn is_digit_char(c: char) -> bool {
    48 <= (c as int) <= 57
}

pub open spec fn digit_of(c: char) -> nat {
    ((c as int) - 48) as nat
}

pub open spec fn all_digits(s: Seq<char>) -> bool {
    forall|i: int| 0 <= i < s.len() ==> is_digit_char(s[i])
}

/// The numeric value of a digit sequence, most significant digit first.
pub open spec fn dec_value(s: Seq<char>) -> nat
    decreases s.len(),
{
    if s.len() == 0 {
        0
    } else {
        dec_value(s.drop_last()) * 10 + digit_of(s.last())
    }
}

pub open spec fn char_of_digit(d: nat) -> char {
    if d == 0 { '0' }
    else if d == 1 { '1' }
    else if d == 2 { '2' }
    else if d == 3 { '3' }
    else if d == 4 { '4' }
    else if d == 5 { '5' }
    else if d == 6 { '6' }
    else if d == 7 { '7' }
    else if d == 8 { '8' }
    else { '9' }
}

/// The canonical decimal rendering of a number: no leading zeros.
pub open spec fn render_dec(n: nat) -> Seq<char>
    decreases n,
{
    if n < 10 {
        seq![char_of_digit(n)]
    } else {
        render_dec(n / 10).push(char_of_digit(n % 10))
    }
}

proof fn lemma_char_of_digit_val(d: nat)
    requires
        d < 10,
    ensures
        is_digit_char(char_of_digit(d)),
        digit_of(char_of_digit(d)) == d,
{
}

/// A rendering is a nonempty digit string that starts with a nonzero digit
/// unless it is exactly "0".
pub proof fn lemma_render_digits(n: nat)
    ensures
        render_dec(n).len() >= 1,
        all_digits(render_dec(n)),
    decreases n,
{
    if n < 10 {
        lemma_char_of_digit_val(n);
    } else {
        lemma_render_digits(n / 10);
        lemma_char_of_digit_val(n % 10);
        let r = render_dec(n / 10);
        let w = r.push(char_of_digit(n % 10));
        assert forall|i: int| 0 <= i < w.len() implies is_digit_char(w[i]) by {
            if i < r.len() {
                assert(w[i] == r[i]);
            }
        }
    }
}

/// Rendering and evaluation are inverse: the value of the rendering of `n`
/// is `n`.
pub proof fn lemma_render_value(n: nat)
    ensures
        dec_value(render_dec(n)) == n,
    decreases n,
{
    if n < 10 {
        let s = render_dec(n);
        assert(s.len() == 1);
        assert(s.drop_last() =~= Seq::<char>::empty());
        lemma_char_of_digit_val(n);
        assert(dec_value(s) == dec_value(s.drop_last()) * 10 + digit_of(s.last()));
        assert(dec_value(s.drop_last()) == 0);
        assert(s.last() == char_of_digit(n));
    } else {
        lemma_render_value(n / 10);
        let r = render_dec(n / 10);
        let w = r.push(char_of_digit(n % 10));
        assert(w.drop_last() =~= r);
        lemma_char_of_digit_val(n % 10);
        assert(dec_value(w) == (n / 10) * 10 + (n % 10));
        assert(n == (n / 10) * 10 + (n % 10)) by {
            vstd::arithmetic::div_mod::lemma_fundamental_div_mod(n as int, 10);
        }
    }
}

/// The value of a digit string only grows as digits are appended: every
/// prefix evaluates to at most the whole.
pub proof fn lemma_dec_value_prefix(s: Seq<char>, i: int)
    requires
        0 <= i <= s.len(),
    ensures
        dec_value(s.subrange(0, i)) <= dec_value(s),
    decreases s.len() - i,
{
    if i == s.len() {
        assert(s.subrange(0, i) =~= s);
    } else {
        lemma_dec_value_prefix(s, i + 1);
        let p = s.subrange(0, i + 1);
        assert(p.drop_last() =~= s.subrange(0, i));
        assert(dec_value(p) == dec_value(s.subrange(0, i)) * 10 + digit_of(s[i]));
    }
}

/// Parse a canonical decimal: accepts exactly the strings `render_dec`
/// produces for a `u64`.
pub open spec fn parse_canon_u64(s: Seq<char>) -> Option<u64> {
    if s.len() > 0 && all_digits(s) && dec_value(s) <= u64::MAX && s
        == render_dec(dec_value(s)) {
        Some(dec_value(s) as u64)
    } else {
        None
    }
}

/// Renderings parse back to themselves.
pub proof fn lemma_parse_canon_of_render(n: u64)
    ensures
        parse_canon_u64(render_dec(n as nat)) == Some(n),
{
    lemma_render_digits(n as nat);
    lemma_render_value(n as nat);
}

pub fn digit_str(d: u64) -> (r: &'static str)
    requires
        d < 10,
    ensures
        r@ =~= seq![char_of_digit(d as nat)],
{
    proof {
        reveal_strlit("0");
        reveal_strlit("1");
        reveal_strlit("2");
        reveal_strlit("3");
        reveal_strlit("4");
        reveal_strlit("5");
        reveal_strlit("6");
        reveal_strlit("7");
        reveal_strlit("8");
        reveal_strlit("9");
    }
    match d {
        0 => "0",
        1 => "1",
        2 => "2",
        3 => "3",
        4 => "4",
        5 => "5",
        6 => "6",
        7 => "7",
        8 => "8",
        _ => "9",
    }
}

/// Render `n` in decimal.
pub fn u64_to_dec_string(n: u64) -> (r: String)
    ensures
        r@ == render_dec(n as nat),
    decreases n,
{
    if n < 10 {
        let r = String::from_str(digit_str(n));
        assert(r@ =~= render_dec(n as nat));
        r
    } else {
        let mut s = u64_to_dec_string(n / 10);
        s.append(digit_str(n % 10));
        assert(s@ =~= render_dec(n as nat));
        s
    }
}

/// Parse a decimal string; `Some` exactly for nonempty all-digit strings
/// whose value fits in a `u64`.
pub fn parse_dec_u64(s: &str) -> (r: Option<u64>)
    ensures
        match r {
            Some(v) => s@.len() > 0 && all_digits(s@) && dec_value(s@) == v,
            None => !(s@.len() > 0 && all_digits(s@) && dec_value(s@) <= u64::MAX),
        },
{
    let n = s.unicode_len();
    if n == 0 {
        return None;
    }
    let mut acc: u64 = 0;
    let mut i: usize = 0;
    while i < n
        invariant
            0 <= i <= n,
            n == s@.len(),
            forall|j: int| 0 <= j < i ==> is_digit_char(s@[j]),
            acc == dec_value(s@.subrange(0, i as int)),
        decreases n - i,
    {
        let c = s.get_char(i);
        let cv = c as u32;
        if cv < 48 || cv > 57 {
            assert(!is_digit_char(s@[i as int]));
            return None;
        }
        let d = (cv - 48) as u64;
        proof {
            let p = s@.subrange(0, i + 1);
            assert(p.drop_last() =~= s@.subrange(0, i as int));
            assert(dec_value(p) == acc * 10 + digit_of(s@[i as int]));
        }
        let step = match acc.checked_mul(10) {
            Some(m) => m.checked_add(d),
            None => None,
        };
        match step {
            Some(v) => {
                acc = v;
            },
            None => {
                proof {
                    if all_digits(s@) && dec_value(s@) <= u64::MAX {
                        lemma_dec_value_prefix(s@, i + 1);
                    }
                }
                return None;
            },
        }
        i += 1;
    }
    proof {
        assert(s@.subrange(0, n as int) =~= s@);
    }
    Some(acc)
}

/// Parse a canonical decimal: the digits must be exactly how the library
/// renders the value.
pub fn parse_canon_dec_u64(s: &str) -> (r: Option<u64>)
    ensures
        r == parse_canon_u64(s@),
{
    match parse_dec_u64(s) {
        None => None,
        Some(v) => {
            let canon = u64_to_dec_string(v);
            let owned = s.to_owned();
            if owned == canon {
                Some(v)
            } else {
                None
            }
        },
    }
}

} // verus!
