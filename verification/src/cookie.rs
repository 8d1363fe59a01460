//! Session transport: the access and refresh tokens travel in the `act` and
//! `rft` cookies. This module parses a `Cookie` request header (items
//! separated by `"; "`, each `name=value`, names and values trimmed of
//! spaces) and renders `Set-Cookie` values with the session attributes.

use vstd::prelude::*;
use crate::issuer::Passport;
use crate::text::{split_once_at, split_first};

verus! {

/// A `"; "` item separator starts at position `i`.
pub open spec fn sep_at(s: Seq<char>, i: int) -> bool {
    s[i] == ';' && s[i + 1] == ' '
}

/// No item separator occurs anywhere in `s`.
pub open spec fn sep_free(s: Seq<char>) -> bool {
    forall|i: int| 0 <= i < s.len() - 1 ==> !sep_at(s, i)
}

/// Split at the first `"; "`: the part before (free of separators) and the
/// part after, or `None` when no separator occurs.
pub open spec fn split_sep(s: Seq<char>) -> Option<(Seq<char>, Seq<char>)>
    decreases s.len(),
{
    if s.len() < 2 {
        None
    } else if sep_at(s, 0) {
        Some((Seq::empty(), s.skip(2)))
    } else {
        match split_sep(s.skip(1)) {
            None => None,
            Some(p) => Some((seq![s[0]] + p.0, p.1)),
        }
    }
}

proof fn lemma_split_sep_none(s: Seq<char>)
    ensures
        split_sep(s) is None <==> sep_free(s),
    decreases s.len(),
{
    if s.len() < 2 {
    } else if sep_at(s, 0) {
    } else {
        lemma_split_sep_none(s.skip(1));
        assert forall|i: int| 0 <= i < s.skip(1).len() - 1 implies sep_at(s.skip(1), i) == sep_at(
            s,
            i + 1,
        ) by {
            assert(s.skip(1)[i] == s[i + 1]);
            assert(s.skip(1)[i + 1] == s[i + 2]);
        }
        if sep_free(s) {
            assert(split_sep(s.skip(1)) is None);
        } else {
            if split_sep(s.skip(1)) is None {
                assert forall|i: int| 0 <= i < s.len() - 1 implies !sep_at(s, i) by {
                    if i > 0 {
                        assert(sep_at(s, i) == sep_at(s.skip(1), i - 1));
                    }
                }
            }
        }
    }
}

proof fn lemma_split_sep_concat(a: Seq<char>, b: Seq<char>)
    requires
        sep_free(a),
    ensures
        split_sep(a + seq![';', ' '] + b) == Some((a, b)),
    decreases a.len(),
{
    let t = a + seq![';', ' '] + b;
    if a.len() == 0 {
        assert(t[0] == ';' && t[1] == ' ');
        assert(t.skip(2) =~= b);
        assert(a =~= Seq::<char>::empty());
    } else {
        assert(t[0] == a[0]);
        if a.len() == 1 {
            assert(t[1] == ';');
            assert(!sep_at(t, 0));
        } else {
            assert(t[1] == a[1]);
            assert(!sep_at(a, 0));
            assert(!sep_at(t, 0));
        }
        let a1 = a.skip(1);
        assert forall|i: int| 0 <= i < a1.len() - 1 implies !sep_at(a1, i) by {
            assert(a1[i] == a[i + 1]);
            assert(a1[i + 1] == a[i + 2]);
            assert(!sep_at(a, i + 1));
        }
        lemma_split_sep_concat(a1, b);
        assert(t.skip(1) =~= a1 + seq![';', ' '] + b);
        assert(seq![t[0]] + a1 =~= a);
    }
}

/// Strip leading spaces.
pub open spec fn trim_front(s: Seq<char>) -> Seq<char>
    decreases s.len(),
{
    if s.len() > 0 && s[0] == ' ' {
        trim_front(s.skip(1))
    } else {
        s
    }
}

/// Strip trailing spaces.
pub open spec fn trim_back(s: Seq<char>) -> Seq<char>
    decreases s.len(),
{
    if s.len() > 0 && s.last() == ' ' {
        trim_back(s.drop_last())
    } else {
        s
    }
}

/// Strip spaces from both ends.
pub open spec fn trim_spaces(s: Seq<char>) -> Seq<char> {
    trim_back(trim_front(s))
}

proof fn lemma_trim_front_skip(s: Seq<char>, i: int)
    requires
        0 <= i <= s.len(),
        forall|j: int| 0 <= j < i ==> s[j] == ' ',
        i == s.len() || s[i] != ' ',
    ensures
        trim_front(s) == s.skip(i),
    decreases i,
{
    if i == 0 {
        assert(s.skip(0) =~= s);
    } else {
        assert(s[0] == ' ');
        let s1 = s.skip(1);
        assert forall|j: int| 0 <= j < i - 1 implies s1[j] == ' ' by {
            assert(s1[j] == s[j + 1]);
        }
        assert(i - 1 == s1.len() || s1[i - 1] != ' ');
        lemma_trim_front_skip(s1, i - 1);
        assert(s1.skip(i - 1) =~= s.skip(i));
    }
}

proof fn lemma_trim_back_take(s: Seq<char>, j: int)
    requires
        0 <= j <= s.len(),
        forall|k: int| j <= k < s.len() ==> s[k] == ' ',
        j == 0 || s[j - 1] != ' ',
    ensures
        trim_back(s) == s.subrange(0, j),
    decreases s.len() - j,
{
    if j == s.len() {
        assert(s.subrange(0, j) =~= s);
    } else {
        assert(s.last() == ' ');
        let s1 = s.drop_last();
        assert(s1 =~= s.subrange(0, s.len() - 1));
        assert forall|k: int| j <= k < s1.len() implies s1[k] == ' ' by {
            assert(s1[k] == s[k]);
        }
        lemma_trim_back_take(s1, j);
        assert(s1.subrange(0, j) =~= s.subrange(0, j));
    }
}

/// Trim spaces from both ends of a string.
pub fn trim_spaces_str(s: &str) -> (r: String)
    ensures
        r@ == trim_spaces(s@),
{
    let n = s.unicode_len();
    let mut a: usize = 0;
    while a < n && s.get_char(a) == ' '
        invariant
            0 <= a <= n,
            n == s@.len(),
            forall|j: int| 0 <= j < a ==> s@[j] == ' ',
        decreases n - a,
    {
        a += 1;
    }
    let mut b: usize = n;
    while b > a && s.get_char(b - 1) == ' '
        invariant
            a <= b <= n,
            n == s@.len(),
            forall|k: int| b <= k < n ==> s@[k] == ' ',
        decreases b,
    {
        b -= 1;
    }
    proof {
        lemma_trim_front_skip(s@, a as int);
        let f = s@.skip(a as int);
        assert forall|k: int| b - a <= k < f.len() implies f[k] == ' ' by {
            assert(f[k] == s@[k + a]);
        }
        if b > a {
            assert(f[b - a - 1] == s@[b - 1]);
        }
        lemma_trim_back_take(f, b - a);
        assert(f.subrange(0, b - a) =~= s@.subrange(a as int, b as int));
    }
    s.substring_char(a, b).to_owned()
}

/// The value of the first cookie named `key` (after trimming), if any.
pub open spec fn item_value(item: Seq<char>, key: Seq<char>) -> Option<Seq<char>> {
    match split_once_at(item, '=') {
        None => None,
        Some((n, v)) => if trim_spaces(n) == key {
            Some(trim_spaces(v))
        } else {
            None
        },
    }
}

/// Look `key` up in a `Cookie` header: items split on `"; "`, the first
/// item whose trimmed name equals `key` yields its trimmed value.
pub open spec fn cookie_lookup(h: Seq<char>, key: Seq<char>) -> Option<Seq<char>>
    decreases h.len(),
    via cookie_lookup_decreases
{
    match split_sep(h) {
        None => item_value(h, key),
        Some(p) => match item_value(p.0, key) {
            Some(v) => Some(v),
            None => cookie_lookup(p.1, key),
        },
    }
}

#[via_fn]
proof fn cookie_lookup_decreases(h: Seq<char>, key: Seq<char>) {
    match split_sep(h) {
        None => {},
        Some(p) => {
            lemma_split_sep_sound(h);
        },
    }
}

proof fn lemma_split_sep_sound(s: Seq<char>)
    requires
        split_sep(s) is Some,
    ensures
        s =~= (split_sep(s)->0).0 + seq![';', ' '] + (split_sep(s)->0).1,
    decreases s.len(),
{
    if sep_at(s, 0) {
        assert(s =~= Seq::empty() + seq![';', ' '] + s.skip(2));
    } else {
        lemma_split_sep_sound(s.skip(1));
        let p = split_sep(s.skip(1))->0;
        assert(s =~= seq![s[0]] + s.skip(1));
        assert(s =~= (seq![s[0]] + p.0) + seq![';', ' '] + p.1);
    }
}

fn find_sep_str(s: &str) -> (r: Option<usize>)
    ensures
        match r {
            Some(i) => i + 1 < s@.len() && sep_at(s@, i as int) && forall|j: int|
                0 <= j < i ==> !sep_at(s@, j),
            None => sep_free(s@),
        },
{
    let n = s.unicode_len();
    if n < 2 {
        return None;
    }
    let mut i: usize = 0;
    while i + 1 < n
        invariant
            0 <= i < n,
            n == s@.len(),
            forall|j: int| 0 <= j < i ==> !sep_at(s@, j),
        decreases n - i,
    {
        if s.get_char(i) == ';' && s.get_char(i + 1) == ' ' {
            return Some(i);
        }
        i += 1;
    }
    None
}

fn check_item(item: &str, key: &str) -> (r: Option<String>)
    ensures
        match r {
            None => item_value(item@, key@) is None,
            Some(v) => item_value(item@, key@) == Some(v@),
        },
{
    match split_first(item, '=') {
        None => None,
        Some(p) => {
            let trimmed = trim_spaces_str(p.0.as_str());
            if trimmed.eq(&key.to_owned()) {
                Some(trim_spaces_str(p.1.as_str()))
            } else {
                None
            }
        },
    }
}

/// The value of the cookie named `key` in a `Cookie` request header.
pub fn get_cookie_value(cookie_header: &str, key: &str) -> (r: Option<String>)
    ensures
        match r {
            None => cookie_lookup(cookie_header@, key@) is None,
            Some(v) => cookie_lookup(cookie_header@, key@) == Some(v@),
        },
    decreases cookie_header@.len(),
{
    let n = cookie_header.unicode_len();
    match find_sep_str(cookie_header) {
        None => {
            proof {
                lemma_split_sep_none(cookie_header@);
            }
            check_item(cookie_header, key)
        },
        Some(i) => {
            let item = cookie_header.substring_char(0, i);
            let rest = cookie_header.substring_char(i + 2, n);
            proof {
                let a = cookie_header@.subrange(0, i as int);
                let b = cookie_header@.subrange(i + 2, n as int);
                assert forall|j: int| 0 <= j < a.len() - 1 implies !sep_at(a, j) by {
                    assert(a[j] == cookie_header@[j]);
                    assert(a[j + 1] == cookie_header@[j + 1]);
                    assert(!sep_at(cookie_header@, j));
                }
                lemma_split_sep_concat(a, b);
                assert(cookie_header@ =~= a + seq![';', ' '] + b);
            }
            match check_item(item, key) {
                Some(v) => Some(v),
                None => get_cookie_value(rest, key),
            }
        },
    }
}

/// Fourteen days, the fixed cookie lifetime. Deliberately independent of
/// the token's own expiry: a stale cookie yields a rejected token rather
/// than a missing one.
pub open spec fn cookie_attrs_chars(production: bool) -> Seq<char> {
    "; Path=/; SameSite=Lax; HttpOnly; Max-Age=1209600"@ + if production {
        "; Secure"@
    } else {
        Seq::<char>::empty()
    }
}

/// A full `Set-Cookie` value for `name` and `value` with the session
/// attributes; `Secure` exactly in production.
pub open spec fn set_cookie_chars(name: Seq<char>, value: Seq<char>, production: bool) -> Seq<
    char,
> {
    name + "="@ + value + cookie_attrs_chars(production)
}

pub fn build_set_cookie(name: &str, value: &str, production: bool) -> (r: String)
    ensures
        r@ == set_cookie_chars(name@, value@, production),
{
    let mut out = name.to_owned();
    out.append("=");
    out.append(value);
    out.append("; Path=/; SameSite=Lax; HttpOnly; Max-Age=1209600");
    if production {
        out.append("; Secure");
    }
    proof {
        assert(out@ =~= set_cookie_chars(name@, value@, production));
    }
    out
}

/// The two `Set-Cookie` values (`act`, then `rft`) carrying a passport.
pub fn attach_cookies(p: &Passport, production: bool) -> (r: (String, String))
    ensures
        r.0@ == set_cookie_chars("act"@, p.access_token@, production),
        r.1@ == set_cookie_chars("rft"@, p.refresh_token@, production),
{
    (
        build_set_cookie("act", p.access_token.as_str(), production),
        build_set_cookie("rft", p.refresh_token.as_str(), production),
    )
}

/// The access token carried by a request's `Cookie` header, if any.
pub fn extract_access(cookie_header: &str) -> (r: Option<String>)
    ensures
        match r {
            None => cookie_lookup(cookie_header@, "act"@) is None,
            Some(v) => cookie_lookup(cookie_header@, "act"@) == Some(v@),
        },
{
    get_cookie_value(cookie_header, "act")
}

/// The refresh token carried by a request's `Cookie` header, if any.
/// Absence is a normal outcome: there is no session to refresh.
pub fn extract_refresh(cookie_header: &str) -> (r: Option<String>)
    ensures
        match r {
            None => cookie_lookup(cookie_header@, "rft"@) is None,
            Some(v) => cookie_lookup(cookie_header@, "rft"@) == Some(v@),
        },
{
    get_cookie_value(cookie_header, "rft")
}

} // verus!
