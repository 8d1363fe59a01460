//! The token codec: claims are rendered as a dot-separated payload
//! (`subject.role.issued_at.expires_at`) followed by a keyed signature tag,
//! and decoding verifies the structure, the signature, and the expiry.

use vstd::prelude::*;
use crate::Role;
use crate::mac::{signature_tag, compute_signature_tag};
use crate::text::{
    no_char, split_once_at, split_first, lemma_split_concat, lemma_split_sound,
    all_digits, is_digit_char, render_dec, parse_canon_u64, lemma_render_digits,
    lemma_parse_canon_of_render, u64_to_dec_string, parse_canon_dec_u64,
};

verus! {

/// The payload of a signed token.
#[derive(Debug)]
pub struct Claims {
    /// Opaque identity identifier (a UUID string in practice).
    pub subject: String,
    pub role: Role,
    /// Seconds since the epoch.
    pub issued_at: u64,
    /// Seconds since the epoch; the token is valid strictly before this.
    pub expires_at: u64,
}

/// The mathematical value of a `Claims`.
#[verifier::ext_equal]
pub struct ClaimsView {
    pub subject: Seq<char>,
    pub role: Role,
    pub issued_at: u64,
    pub expires_at: u64,
}

impl View for Claims {
    type V = ClaimsView;

    open spec fn view(&self) -> ClaimsView {
        ClaimsView {
            subject: self.subject@,
            role: self.role,
            issued_at: self.issued_at,
            expires_at: self.expires_at,
        }
    }
}

impl ClaimsView {
    /// The subject can be embedded in a dot-separated token: nonempty and
    /// free of dots. UUID strings satisfy this.
    pub open spec fn subject_ok(self) -> bool {
        self.subject.len() > 0 && no_char(self.subject, '.')
    }

    /// Claims as issued: a valid subject and a nonempty validity window.
    pub open spec fn wf(self) -> bool {
        self.subject_ok() && self.issued_at < self.expires_at
    }
}

/// Why a token failed to decode.
#[derive(Debug, Clone, Copy, PartialEq, Eq, Structural)]
pub enum TokenError {
    /// The token was not produced with the given secret.
    InvalidSignature,
    /// The token's expiry is not in the future.
    Expired,
    /// The string is not a well-formed token.
    Malformed,
}

/// The textual tag of a role inside a token.
pub open spec fn role_tag(r: Role) -> Seq<char> {
    match r {
        Role::User => "User"@,
        Role::UserAndCompany => "UserAndCompany"@,
        Role::Admin => "Admin"@,
    }
}

pub open spec fn role_of_tag(s: Seq<char>) -> Option<Role> {
    if s == role_tag(Role::User) {
        Some(Role::User)
    } else if s == role_tag(Role::UserAndCompany) {
        Some(Role::UserAndCompany)
    } else if s == role_tag(Role::Admin) {
        Some(Role::Admin)
    } else {
        None
    }
}

proof fn lemma_role_tags_distinct()
    ensures
        role_tag(Role::User) != role_tag(Role::UserAndCompany),
        role_tag(Role::User) != role_tag(Role::Admin),
        role_tag(Role::UserAndCompany) != role_tag(Role::Admin),
        forall|r: Role| role_of_tag(#[trigger] role_tag(r)) == Some(r),
        forall|r: Role| no_char(#[trigger] role_tag(r), '.'),
{
    reveal_strlit("User");
    reveal_strlit("UserAndCompany");
    reveal_strlit("Admin");
    assert(role_tag(Role::User).len() == 4);
    assert(role_tag(Role::UserAndCompany).len() == 14);
    assert(role_tag(Role::Admin).len() == 5);
    assert forall|r: Role| no_char(#[trigger] role_tag(r), '.') by {
        let t = role_tag(r);
        assert forall|i: int| 0 <= i < t.len() implies t[i] != '.' by {
            match r {
                Role::User => { assert(t =~= "User"@); },
                Role::UserAndCompany => { assert(t =~= "UserAndCompany"@); },
                Role::Admin => { assert(t =~= "Admin"@); },
            }
        }
    }
}

fn role_tag_str(r: Role) -> (t: &'static str)
    ensures
        t@ == role_tag(r),
{
    match r {
        Role::User => "User",
        Role::UserAndCompany => "UserAndCompany",
        Role::Admin => "Admin",
    }
}

fn role_from_tag(s: &String) -> (r: Option<Role>)
    ensures
        r == role_of_tag(s@),
{
    proof {
        lemma_role_tags_distinct();
    }
    if s.eq(&String::from_str("User")) {
        Some(Role::User)
    } else if s.eq(&String::from_str("UserAndCompany")) {
        Some(Role::UserAndCompany)
    } else if s.eq(&String::from_str("Admin")) {
        Some(Role::Admin)
    } else {
        None
    }
}

/// The unsigned payload of a token.
pub open spec fn payload_chars(c: ClaimsView) -> Seq<char> {
    c.subject + seq!['.'] + role_tag(c.role) + seq!['.'] + render_dec(c.issued_at as nat)
        + seq!['.'] + render_dec(c.expires_at as nat)
}

/// The full token: payload, a dot, and the signature tag under `secret`.
pub open spec fn signed_chars(c: ClaimsView, secret: Seq<char>) -> Seq<char> {
    payload_chars(c) + seq!['.'] + signature_tag(secret, payload_chars(c))
}

/// Structural parse of a token: the claims and the trailing tag text, or
/// `None` when the string is not `subject.role.issued.expires.tag` with a
/// nonempty subject, a known role, and canonical decimals.
pub open spec fn parse_fields(t: Seq<char>) -> Option<(ClaimsView, Seq<char>)> {
    match split_once_at(t, '.') {
        None => None,
        Some((sub, r1)) => if sub.len() == 0 {
            None
        } else {
            match split_once_at(r1, '.') {
                None => None,
                Some((rt, r2)) => match role_of_tag(rt) {
                    None => None,
                    Some(role) => match split_once_at(r2, '.') {
                        None => None,
                        Some((ia, r3)) => match parse_canon_u64(ia) {
                            None => None,
                            Some(iat) => match split_once_at(r3, '.') {
                                None => None,
                                Some((ex, g)) => match parse_canon_u64(ex) {
                                    None => None,
                                    Some(exp) => Some(
                                        (ClaimsView {
                                            subject: sub,
                                            role: role,
                                            issued_at: iat,
                                            expires_at: exp,
                                        }, g),
                                    ),
                                },
                            },
                        },
                    },
                },
            }
        },
    }
}

/// What decoding returns, as a function of the token text, the secret, and
/// the current time.
pub open spec fn spec_decode(t: Seq<char>, secret: Seq<char>, now: u64) -> Result<
    ClaimsView,
    TokenError,
> {
    match parse_fields(t) {
        None => Err(TokenError::Malformed),
        Some((c, g)) => if g != signature_tag(secret, payload_chars(c)) {
            Err(TokenError::InvalidSignature)
        } else if now >= c.expires_at {
            Err(TokenError::Expired)
        } else {
            Ok(c)
        },
    }
}

proof fn lemma_digits_no_dot(s: Seq<char>)
    requires
        all_digits(s),
    ensures
        no_char(s, '.'),
{
    assert forall|i: int| 0 <= i < s.len() implies s[i] != '.' by {
        assert(is_digit_char(s[i]));
    }
}

/// Parsing recovers the claims and tag from any token built from them: the
/// structural encoding is injective and parse inverts it.
pub proof fn lemma_parse_of_shaped(c: ClaimsView, g: Seq<char>)
    requires
        c.subject_ok(),
    ensures
        parse_fields(payload_chars(c) + seq!['.'] + g) == Some((c, g)),
{
    let d = seq!['.'];
    let t = payload_chars(c) + d + g;
    let rt = role_tag(c.role);
    let ia = render_dec(c.issued_at as nat);
    let ex = render_dec(c.expires_at as nat);
    lemma_role_tags_distinct();
    lemma_render_digits(c.issued_at as nat);
    lemma_render_digits(c.expires_at as nat);
    lemma_digits_no_dot(ia);
    lemma_digits_no_dot(ex);
    lemma_parse_canon_of_render(c.issued_at);
    lemma_parse_canon_of_render(c.expires_at);

    let r1 = rt + d + ia + d + ex + d + g;
    let r2 = ia + d + ex + d + g;
    let r3 = ex + d + g;
    assert(t =~= c.subject + d + r1);
    lemma_split_concat(c.subject, r1, '.');
    assert(r1 =~= rt + d + r2);
    lemma_split_concat(rt, r2, '.');
    assert(r2 =~= ia + d + r3);
    lemma_split_concat(ia, r3, '.');
    lemma_split_concat(ex, g, '.');
    assert(parse_fields(t) == Some((c, g)));
}

/// Any successfully parsed claims carry a nonempty, dot-free subject.
pub proof fn lemma_parse_subject_ok(t: Seq<char>)
    requires
        parse_fields(t) is Some,
    ensures
        (parse_fields(t)->0).0.subject_ok(),
{
    lemma_split_sound(t, '.');
}

/// Round trip: a token decoded, before its expiry, with the secret that
/// signed it yields exactly the claims that were encoded.
pub proof fn lemma_decode_round_trip(c: ClaimsView, secret: Seq<char>, now: u64)
    requires
        c.subject_ok(),
        now < c.expires_at,
    ensures
        spec_decode(signed_chars(c, secret), secret, now) == Ok::<ClaimsView, TokenError>(c),
{
    lemma_parse_of_shaped(c, signature_tag(secret, payload_chars(c)));
}

/// Expiry dominates: once `now` reaches `expires_at`, decoding fails with
/// `Expired` even though the signature is valid.
pub proof fn lemma_decode_expired(c: ClaimsView, secret: Seq<char>, now: u64)
    requires
        c.subject_ok(),
        now >= c.expires_at,
    ensures
        spec_decode(signed_chars(c, secret), secret, now) == Err::<ClaimsView, TokenError>(
            TokenError::Expired,
        ),
{
    lemma_parse_of_shaped(c, signature_tag(secret, payload_chars(c)));
}

/// Tier isolation: a token signed under one secret fails with
/// `InvalidSignature` under any secret whose tag for this payload differs
/// (distinct secrets whose MACs collide on this payload are excluded).
pub proof fn lemma_tier_isolation(c: ClaimsView, signing: Seq<char>, other: Seq<char>, now: u64)
    requires
        c.subject_ok(),
        signature_tag(other, payload_chars(c)) != signature_tag(signing, payload_chars(c)),
    ensures
        spec_decode(signed_chars(c, signing), other, now) == Err::<ClaimsView, TokenError>(
            TokenError::InvalidSignature,
        ),
{
    lemma_parse_of_shaped(c, signature_tag(signing, payload_chars(c)));
}

/// Distinct claims never produce the same token, whatever the secrets: the
/// token text determines its claims.
pub proof fn lemma_signed_injective(
    c1: ClaimsView,
    s1: Seq<char>,
    c2: ClaimsView,
    s2: Seq<char>,
)
    requires
        c1.subject_ok(),
        c2.subject_ok(),
        signed_chars(c1, s1) == signed_chars(c2, s2),
    ensures
        c1 == c2,
{
    lemma_parse_of_shaped(c1, signature_tag(s1, payload_chars(c1)));
    lemma_parse_of_shaped(c2, signature_tag(s2, payload_chars(c2)));
}

/// Serialize and sign claims under `secret`.
pub fn encode_token(claims: &Claims, secret: &str) -> (r: String)
    requires
        claims@.subject_ok(),
    ensures
        r@ == signed_chars(claims@, secret@),
{
    proof {
        reveal_strlit(".");
    }
    let mut payload = claims.subject.clone();
    payload.append(".");
    payload.append(role_tag_str(claims.role));
    payload.append(".");
    let ia = u64_to_dec_string(claims.issued_at);
    payload.append(ia.as_str());
    payload.append(".");
    let ex = u64_to_dec_string(claims.expires_at);
    payload.append(ex.as_str());
    proof {
        assert(payload@ =~= payload_chars(claims@));
    }
    let tag = compute_signature_tag(secret, payload.as_str());
    let mut out = payload;
    out.append(".");
    out.append(tag.as_str());
    proof {
        assert(out@ =~= signed_chars(claims@, secret@));
    }
    out
}

/// Verify and deserialize a token: `Malformed` when the structure is wrong,
/// `InvalidSignature` when the tag was not produced with `secret`, `Expired`
/// when `now` has reached the expiry, and the claims otherwise.
pub fn decode_token(token: &str, secret: &str, now: u64) -> (r: Result<Claims, TokenError>)
    ensures
        match r {
            Ok(c) => spec_decode(token@, secret@, now) == Ok::<ClaimsView, TokenError>(c@),
            Err(e) => spec_decode(token@, secret@, now) == Err::<ClaimsView, TokenError>(e),
        },
{
    proof {
        reveal_strlit(".");
    }
    let (sub, r1) = match split_first(token, '.') {
        None => {
            return Err(TokenError::Malformed);
        },
        Some(p) => p,
    };
    if sub.as_str().is_empty() {
        return Err(TokenError::Malformed);
    }
    let (rt, r2) = match split_first(r1.as_str(), '.') {
        None => {
            return Err(TokenError::Malformed);
        },
        Some(p) => p,
    };
    let role = match role_from_tag(&rt) {
        None => {
            return Err(TokenError::Malformed);
        },
        Some(x) => x,
    };
    let (ia, r3) = match split_first(r2.as_str(), '.') {
        None => {
            return Err(TokenError::Malformed);
        },
        Some(p) => p,
    };
    let iat = match parse_canon_dec_u64(ia.as_str()) {
        None => {
            return Err(TokenError::Malformed);
        },
        Some(v) => v,
    };
    let (ex, g) = match split_first(r3.as_str(), '.') {
        None => {
            return Err(TokenError::Malformed);
        },
        Some(p) => p,
    };
    let exp = match parse_canon_dec_u64(ex.as_str()) {
        None => {
            return Err(TokenError::Malformed);
        },
        Some(v) => v,
    };
    let claims = Claims { subject: sub, role, issued_at: iat, expires_at: exp };
    let mut payload = claims.subject.clone();
    payload.append(".");
    payload.append(rt.as_str());
    payload.append(".");
    payload.append(ia.as_str());
    payload.append(".");
    payload.append(ex.as_str());
    proof {
        assert(payload@ =~= payload_chars(claims@));
    }
    let expected = compute_signature_tag(secret, payload.as_str());
    if !g.eq(&expected) {
        return Err(TokenError::InvalidSignature);
    }
    if now >= exp {
        return Err(TokenError::Expired);
    }
    Ok(claims)
}

} // verus!
