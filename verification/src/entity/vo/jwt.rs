use vstd::prelude::*;
use crate::claims::{claims_json, claims_text, parse_claims, chars_of, string_of, lemma_claims_text_determines};
use crate::error::Error;
use jsonwebtoken::errors::ErrorKind;
use jsonwebtoken::{decode, encode, Algorithm, DecodingKey, EncodingKey, Header, Validation};
use serde_json::value::RawValue;

verus! {

/// The claims of a session token.
#[derive(Clone, Debug)]
pub struct JWTToken {
    /// The account name.
    pub account: String,
    /// The user's name.
    pub name: String,
    /// The organization.
    pub organize: u64,
    /// The address the user signed in from.
    pub ip: String,
    /// The city the user signed in from.
    pub city: String,
    /// When the token expires, in seconds since the epoch.
    pub exp: usize,
}

/// The claims of a session token as values.
pub struct JWTTokenView {
    pub account: Seq<char>,
    pub name: Seq<char>,
    pub organize: u64,
    pub ip: Seq<char>,
    pub city: Seq<char>,
    pub exp: usize,
}

impl View for JWTToken {
    type V = JWTTokenView;

    open spec fn view(&self) -> JWTTokenView {
        JWTTokenView {
            account: self.account@,
            name: self.name@,
            organize: self.organize,
            ip: self.ip@,
            city: self.city@,
            exp: self.exp,
        }
    }
}

/// Why jsonwebtoken refused a token.
#[derive(Clone, Copy, Debug, PartialEq, Eq)]
pub enum JwtFailure {
    /// The token has no valid JWT shape.
    InvalidToken,
    /// The issuer claim does not match.
    InvalidIssuer,
    /// Any other refusal (signature, algorithm, encoding).
    Other,
}

/// A decoding that gave back the claims text `text`.
pub open spec fn decoded_text(text: Seq<char>) -> Result<Seq<char>, JwtFailure> {
    Ok(text)
}

/// A decoding that was refused for `why`.
pub open spec fn decode_refused(why: JwtFailure) -> Result<Seq<char>, JwtFailure> {
    Err(why)
}

/// A check that accepted a token with claims `c`.
pub open spec fn accepted(c: JWTTokenView) -> Result<JWTTokenView, Seq<char>> {
    Ok(c)
}

/// A check that refused a token with message `m`.
pub open spec fn refused(m: Seq<char>) -> Result<JWTTokenView, Seq<char>> {
    Err(m)
}

/// Whether `c` is a character of the URL-safe base64 alphabet.
pub open spec fn is_b64url_char(c: char) -> bool {
    ('A' <= c && c <= 'Z') || ('a' <= c && c <= 'z') || ('0' <= c && c <= '9') || c == '-' || c == '_'
}

/// Whether `s` is a non-empty text of URL-safe base64 characters.
pub open spec fn is_b64url(s: Seq<char>) -> bool {
    s.len() > 0 && forall|i: int| 0 <= i < s.len() ==> is_b64url_char(#[trigger] s[i])
}

/// Whether `t` has the compact shape of a signed token: three non-empty
/// URL-safe base64 parts (header, claims, signature) joined by dots.
pub open spec fn is_compact_jws(t: Seq<char>) -> bool {
    exists|h: Seq<char>, c: Seq<char>, sig: Seq<char>|
        is_b64url(h) && is_b64url(c) && is_b64url(sig) && t == h + seq!['.'] + c + seq!['.'] + sig
}

/// The token that `jsonwebtoken::encode` makes with the default header
/// (HS256) for the claims whose JSON text is `claims`, signed with `secret`.
pub uninterp spec fn hs256_token(claims: Seq<char>, secret: Seq<char>) -> Seq<char>;

/// What `jsonwebtoken::decode` gives back for `token` under HS256 with
/// `secret`, expiry left unchecked: the JSON text of the claims, or why the
/// token was refused.
pub uninterp spec fn hs256_claims(token: Seq<char>, secret: Seq<char>) -> Result<Seq<char>, JwtFailure>;

/// Signs claims given as JSON text: `jsonwebtoken::encode` with the default
/// header and an HMAC key made from `secret`, the claims handed over as raw
/// JSON. The token is a function of the text and the secret; for the
/// canonical text of some claims the call succeeds, and decoding the token
/// with the same secret gives the text back (the signature checks, the parts
/// round-trip through base64). The token is the header's and the claims'
/// JSON, each in URL-safe base64 without padding, and the HMAC-SHA256 of
/// those two joined by a dot, likewise encoded, all three joined by dots.
#[verifier::external_body]
fn jwt_encode(claims: &String, secret: &str) -> (r: Result<String, JwtFailure>)
    ensures
        r matches Ok(t) ==> t@ == hs256_token(claims@, secret@),
        r matches Ok(t) ==> is_compact_jws(t@),
        is_claims_text(claims@) ==> r is Ok,
        r matches Ok(t) ==> (is_claims_text(claims@) ==> hs256_claims(t@, secret@) == decoded_text(claims@)),
{
    match RawValue::from_string(claims.clone()) {
        Ok(raw) => match encode(&Header::default(), &raw, &EncodingKey::from_secret(secret.as_bytes())) {
            Ok(t) => Ok(t),
            Err(_) => Err(JwtFailure::Other),
        },
        Err(_) => Err(JwtFailure::Other),
    }
}

/// Checks a token: `jsonwebtoken::decode` under HS256 with an HMAC key made
/// from `secret`, expiry not checked, the claims taken as raw JSON text. The
/// outcome is a function of the token and the secret.
#[verifier::external_body]
fn jwt_decode(token: &str, secret: &str) -> (r: Result<String, JwtFailure>)
    ensures
        r matches Ok(c) ==> hs256_claims(token@, secret@) == decoded_text(c@),
        r matches Err(e) ==> hs256_claims(token@, secret@) == decode_refused(e),
{
    let mut validation = Validation::new(Algorithm::HS256);
    validation.validate_exp = false;
    match decode::<Box<RawValue>>(token, &DecodingKey::from_secret(secret.as_bytes()), &validation) {
        Ok(data) => Ok(data.claims.get().to_string()),
        Err(err) => match err.kind() {
            ErrorKind::InvalidToken => Err(JwtFailure::InvalidToken),
            ErrorKind::InvalidIssuer => Err(JwtFailure::InvalidIssuer),
            _ => Err(JwtFailure::Other),
        },
    }
}

/// The claims that serde_json reads from a JSON text in any layout: an
/// object whose `account`, `name`, `ip` and `city` are strings and whose
/// `organize` and `exp` are non-negative integers (other keys ignored, a
/// repeated key taken at its last value), or `None` where the text is no
/// such object.
pub uninterp spec fn serde_claims(text: Seq<char>) -> Option<JWTTokenView>;

/// Reads claims from JSON text in any layout: `serde_json::from_str` into a
/// `serde_json::Value`, then its fields picked by name. Claims only that the
/// outcome is the named reading of the text.
#[verifier::external_body]
fn read_json_claims(text: &str) -> (r: Option<JWTToken>)
    ensures
        match r {
            Some(t) => serde_claims(text@) == Some(t@),
            None => serde_claims(text@) is None,
        },
{
    let v: serde_json::Value = serde_json::from_str(text).ok()?;
    let s = |k: &str| v.get(k).and_then(|x| x.as_str()).map(|x| x.to_string());
    let n = |k: &str| v.get(k).and_then(|x| x.as_u64());
    let exp = usize::try_from(n("exp")?).ok()?;
    Some(JWTToken { account: s("account")?, name: s("name")?, organize: n("organize")?, ip: s("ip")?, city: s("city")?, exp })
}

/// The current time in seconds since the epoch (`chrono::Utc::now`).
#[verifier::external_body]
fn unix_now() -> (t: i64) {
    chrono::Utc::now().timestamp()
}

/// How long after its expiry a token is still accepted, in seconds.
pub const LEEWAY_SECONDS: i64 = 1800;

/// Whether a token that expires at `exp` is refused at time `now`.
pub open spec fn expired(exp: usize, now: i64) -> bool {
    (exp as int) < now - LEEWAY_SECONDS
}

/// Whether `text` is the canonical JSON text of some claims.
pub open spec fn is_claims_text(text: Seq<char>) -> bool {
    exists|c: JWTTokenView| claims_text(c) == text
}

/// What checking `token` with `secret` at time `now` gives: the claims, or
/// the message of the refusal.
pub open spec fn verify_outcome(secret: Seq<char>, token: Seq<char>, now: i64) -> Result<JWTTokenView, Seq<char>> {
    match hs256_claims(token, secret) {
        Err(JwtFailure::InvalidToken) => Err("InvalidToken"@),
        Err(JwtFailure::InvalidIssuer) => Err("InvalidIssuer"@),
        Err(JwtFailure::Other) => Err("InvalidToken other errors"@),
        Ok(text) => match claims_of_text(text) {
            Some(c) => if expired(c.exp, now) {
                Err("InvalidToken other errors"@)
            } else {
                Ok(c)
            },
            None => Err("InvalidToken other errors"@),
        },
    }
}

/// The claims a decoded JSON text holds: those it is the canonical text of,
/// or else what serde_json reads from it in another layout.
pub open spec fn claims_of_text(text: Seq<char>) -> Option<JWTTokenView> {
    if is_claims_text(text) {
        Some(choose|c: JWTTokenView| claims_text(c) == text)
    } else {
        serde_claims(text)
    }
}

/// A check accepts a token only while it has not expired more than the
/// leeway ago: at any time more than the leeway after the expiry of the
/// claims it carries, checking the token refuses it with
/// "InvalidToken other errors".
pub proof fn lemma_expired_token_refused(secret: Seq<char>, token: Seq<char>, now: i64)
    ensures
        verify_outcome(secret, token, now) matches Ok(c) ==> !expired(c.exp, now),
        hs256_claims(token, secret) matches Ok(text) ==> (claims_of_text(text) matches Some(c) ==> (expired(
            c.exp,
            now,
        ) ==> verify_outcome(secret, token, now) == refused("InvalidToken other errors"@))),
{
}

proof fn lemma_claims_text_injective(a: JWTTokenView, b: JWTTokenView)
    requires
        claims_text(a) == claims_text(b),
    ensures
        a == b,
{
    let s = claims_text(a);
    lemma_claims_text_determines(s, a, b);
}

impl JWTToken {
    /// Signs the claims with `secret` into a token. The token is the HS256
    /// token of the canonical JSON text of the claims, and checking it with
    /// the same secret at any time before it expires gives the claims back.
    pub fn create_token(&self, secret: &str) -> (r: Result<String, Error>)
        ensures
            r matches Ok(t) && t@ == hs256_token(claims_text(self@), secret@),
            r matches Ok(t) && is_compact_jws(t@),
            r matches Ok(t) && forall|now: i64| !expired(self.exp, now) ==> #[trigger] verify_outcome(secret@, t@, now)
                == accepted(self@),
    {
        let text = string_of(&claims_json(self));
        match jwt_encode(&text, secret) {
            Ok(t) => {
                proof {
                    assert forall|now: i64| !expired(self.exp, now) implies #[trigger] verify_outcome(secret@, t@, now)
                        == accepted(self@) by {
                        let c = choose|c: JWTTokenView| claims_text(c) == text@;
                        lemma_claims_text_injective(c, self@);
                    }
                }
                Ok(t)
            },
            Err(_) => Err(Error::from_message("JWTToken encode fail!")),
        }
    }

    /// Checks a token with `secret` at time `now`: the signature must hold,
    /// the claims must be a JSON object of the claims' fields and the token
    /// must not have expired more than the leeway ago.
    pub fn verify_at(secret: &str, token: &str, now: i64) -> (r: Result<JWTToken, Error>)
        ensures
            r matches Ok(t) ==> verify_outcome(secret@, token@, now) == accepted(t@),
            r matches Ok(t) ==> !expired(t.exp, now),
            r matches Err(e) ==> verify_outcome(secret@, token@, now) == refused(e.message()) && e.code()
                == crate::util::CODE_FAIL,
    {
        match jwt_decode(token, secret) {
            Ok(text) => {
                let cs = chars_of(text.as_str());
                match parse_claims(&cs) {
                    Some(t) => {
                        proof {
                            let c = choose|c: JWTTokenView| claims_text(c) == text@;
                            lemma_claims_text_injective(c, t@);
                        }
                        if (t.exp as i128) < (now as i128) - (LEEWAY_SECONDS as i128) {
                            Err(Error::from_message("InvalidToken other errors"))
                        } else {
                            Ok(t)
                        }
                    },
                    None => match read_json_claims(text.as_str()) {
                        Some(t) => if (t.exp as i128) < (now as i128) - (LEEWAY_SECONDS as i128) {
                            Err(Error::from_message("InvalidToken other errors"))
                        } else {
                            Ok(t)
                        },
                        None => Err(Error::from_message("InvalidToken other errors")),
                    },
                }
            },
            Err(JwtFailure::InvalidToken) => Err(Error::from_message("InvalidToken")),
            Err(JwtFailure::InvalidIssuer) => Err(Error::from_message("InvalidIssuer")),
            Err(JwtFailure::Other) => Err(Error::from_message("InvalidToken other errors")),
        }
    }

    /// Checks a token with `secret` at the current time.
    pub fn verify(secret: &str, token: &str) -> (r: Result<JWTToken, Error>)
        ensures
            r matches Ok(t) ==> exists|now: i64| verify_outcome(secret@, token@, now) == accepted(t@),
            r matches Err(e) ==> exists|now: i64| verify_outcome(secret@, token@, now) == refused(e.message()),
            r matches Err(e) ==> e.code() == crate::util::CODE_FAIL,
    {
        let now = unix_now();
        JWTToken::verify_at(secret, token, now)
    }

    /// Reads the claims of a session token at time `now`; any refusal becomes
    /// one error for the client.
    pub fn extract_token_at(secret: &str, token: &String, now: i64) -> (r: Result<JWTToken, Error>)
        ensures
            r matches Ok(t) ==> verify_outcome(secret@, token@, now) == accepted(t@),
            r is Err ==> verify_outcome(secret@, token@, now) is Err,
            r matches Err(e) ==> e.message() == "access_token is invalid!"@ && e.code() == crate::util::CODE_FAIL,
    {
        match JWTToken::verify_at(secret, token.as_str(), now) {
            Ok(t) => Ok(t),
            Err(_) => Err(Error::from_message("access_token is invalid!")),
        }
    }

    /// Reads the claims of a session token at the current time.
    pub fn extract_token(secret: &str, token: &String) -> (r: Result<JWTToken, Error>)
        ensures
            r matches Ok(t) ==> exists|now: i64| verify_outcome(secret@, token@, now) == accepted(t@),
            r matches Err(e) ==> e.message() == "access_token is invalid!"@ && e.code() == crate::util::CODE_FAIL
                && exists|now: i64| verify_outcome(
                secret@,
                token@,
                now,
            ) is Err,
    {
        let now = unix_now();
        JWTToken::extract_token_at(secret, token, now)
    }

    /// Reads the claims of the token that a request header carries; a header
    /// that is missing is refused, one that is no visible ASCII reads as the
    /// empty token.
    pub fn extract_token_by_header(secret: &str, token: Option<&str>) -> (r: Result<JWTToken, Error>)
        ensures
            token is None ==> (r matches Err(e) && e.message() == "access_token is empty!"@ && e.code()
                == crate::util::CODE_FAIL),
            token is Some ==> (r is Ok ==> exists|now: i64| verify_outcome(secret@, token.unwrap()@, now)
                == accepted(r.unwrap()@)),
            token is Some ==> (r is Err ==> exists|now: i64| verify_outcome(secret@, token.unwrap()@, now) is Err),
            token is Some ==> (r matches Err(e) ==> e.message() == "access_token is invalid!"@ && e.code()
                == crate::util::CODE_FAIL),
    {
        match token {
            Some(h) => JWTToken::extract_token(secret, &h.to_string()),
            None => Err(Error::from_message("access_token is empty!")),
        }
    }
}

} // verus!
