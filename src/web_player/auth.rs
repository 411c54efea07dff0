use vstd::prelude::*;

use crate::decimal::{all_digits, decimal, decimal_string};
use crate::http_success;
use crate::json::{field, Json};
use crate::web_player::WebPlayerError;

verus! {

/// What the lyrics provider answers to an authentication request.
#[allow(non_snake_case)]
#[derive(Debug)]
pub struct AuthData {
    pub clientId: String,
    pub accessToken: String,
    pub accessTokenExpirationTimestampMs: i64,
    pub isAnonymous: bool,
}

/// The code that an HMAC-SHA1 time-based one-time password generator, seeded with
/// `secret`, gives at `time` (in seconds) with the given number of digits and period.
pub uninterp spec fn totp_sha1(secret: Seq<u8>, digits: nat, step: nat, time: nat) -> Seq<char>;

/// Relies on `totp_rs::TOTP::new_unchecked` and `TOTP::generate`: with SHA-1, the code for
/// `time` is the truncated HMAC of `time / step`, reduced modulo `10^digits` and zero-padded
/// to `digits` decimal digits. `step == 0` would divide by zero, and more than nine digits
/// would overflow `10_u32.pow`.
#[verifier::external_body]
fn generate_totp(secret: Vec<u8>, digits: usize, skew: u8, step: u64, time: u64) -> (r: String)
    requires
        1 <= digits <= 9,
        step > 0,
    ensures
        r@ == totp_sha1(secret@, digits as nat, step as nat, time as nat),
        r@.len() == digits,
        all_digits(r@),
{
    totp_rs::TOTP::new_unchecked(totp_rs::Algorithm::SHA1, digits, skew, step, secret).generate(
        time,
    )
}

/// The digits of `n` as ASCII bytes.
pub open spec fn decimal_bytes(n: nat) -> Seq<u8>
    decreases n,
{
    if n < 10 {
        seq![(48 + n) as u8]
    } else {
        decimal_bytes(n / 10).push((48 + n % 10) as u8)
    }
}

/// The mask of the byte at `position`.
pub open spec fn mask(position: nat) -> u8 {
    (position % 33 + 9) as u8
}

/// The secret behind `cipher`: each byte XOR its mask, written in decimal, all concatenated.
pub open spec fn secret_of(cipher: Seq<u8>) -> Seq<u8>
    decreases cipher.len(),
{
    if cipher.len() == 0 {
        Seq::empty()
    } else {
        let i = (cipher.len() - 1) as nat;
        secret_of(cipher.drop_last()) + decimal_bytes((cipher.last() ^ mask(i)) as nat)
    }
}

/// The six-digit code, with a period of 30 seconds, that the secret behind `cipher` gives at `ts`.
pub open spec fn lyrics_code(cipher: Seq<u8>, ts: u64) -> Seq<char> {
    totp_sha1(secret_of(cipher), 6, 30, ts as nat)
}

/// The stored form of the one-time password secret.
pub open spec fn cipher_bytes() -> Seq<u8> {
    seq![12u8, 56, 76, 33, 88, 44, 88, 33, 78, 78, 11, 66, 22, 22, 55, 69, 54]
}

/// The stored form of the one-time password secret.
pub fn secret_cipher() -> (r: Vec<u8>)
    ensures
        r@ == cipher_bytes(),
{
    let r = vec![12u8, 56, 76, 33, 88, 44, 88, 33, 78, 78, 11, 66, 22, 22, 55, 69, 54];
    assert(r@ =~= cipher_bytes());
    r
}

fn push_decimal_bytes(out: &mut Vec<u8>, n: u8)
    ensures
        final(out)@ == old(out)@ + decimal_bytes(n as nat),
    decreases n,
{
    if n >= 10 {
        push_decimal_bytes(out, n / 10);
    }
    out.push(48 + n % 10);
    assert(final(out)@ =~= old(out)@ + decimal_bytes(n as nat));
}

/// Reconstructs the secret from its stored form.
pub fn decrypt_secret(cipher: &[u8]) -> (r: Vec<u8>)
    ensures
        r@ == secret_of(cipher@),
{
    let mut out: Vec<u8> = Vec::new();
    let mut i: usize = 0;
    while i < cipher.len()
        invariant
            i <= cipher@.len(),
            out@ == secret_of(cipher@.subrange(0, i as int)),
        decreases cipher.len() - i,
    {
        let m: u8 = (i % 33 + 9) as u8;
        let b: u8 = cipher[i] ^ m;
        push_decimal_bytes(&mut out, b);
        proof {
            let next = cipher@.subrange(0, i + 1);
            assert(next.drop_last() =~= cipher@.subrange(0, i as int));
            assert(next.last() == cipher@[i as int]);
            assert(mask(i as nat) == m);
        }
        i = i + 1;
    }
    assert(cipher@.subrange(0, i as int) =~= cipher@);
    out
}

/// The one-time code for `ts` (seconds since the epoch) and `ts` in decimal: the two
/// query parameters that an authentication request carries besides the fixed ones.
pub fn totp_query(cipher: &[u8], ts: u64) -> (r: (String, String))
    ensures
        r.0@ == lyrics_code(cipher@, ts),
        r.0@.len() == 6,
        all_digits(r.0@),
        r.1@ == decimal(ts as nat),
{
    let secret = decrypt_secret(cipher);
    let code = generate_totp(secret, 6, 1, 30, ts);
    (code, decimal_string(ts))
}

/// The one-time code depends on the stored secret and the timestamp alone: the same two
/// give the same code, in every call.
pub proof fn lemma_code_deterministic(c1: Seq<u8>, t1: u64, c2: Seq<u8>, t2: u64)
    requires
        c1 == c2,
        t1 == t2,
    ensures
        lyrics_code(c1, t1) == lyrics_code(c2, t2),
        secret_of(c1) == secret_of(c2),
{
}

/// The fields of an authentication answer, where the JSON has all four with the right types.
pub open spec fn auth_fields(j: Json) -> Option<(Seq<char>, Seq<char>, i64, bool)> {
    match (
        field(Some(j), "clientId"@),
        field(Some(j), "accessToken"@),
        field(Some(j), "accessTokenExpirationTimestampMs"@),
        field(Some(j), "isAnonymous"@),
    ) {
        (Some(Json::Str(c)), Some(Json::Str(t)), Some(Json::Int(e)), Some(Json::Bool(a))) => Some(
            (c@, t@, e, a),
        ),
        _ => None,
    }
}

impl AuthData {
    pub open spec fn spec_fields(&self) -> (Seq<char>, Seq<char>, i64, bool) {
        (
            self.clientId@,
            self.accessToken@,
            self.accessTokenExpirationTimestampMs,
            self.isAnonymous,
        )
    }

    /// Reads an authentication answer from its JSON form.
    pub fn from_json(json: &Json) -> (r: Option<AuthData>)
        ensures
            r matches Some(a) ==> auth_fields(*json) == Some(a.spec_fields()),
            r is None ==> auth_fields(*json) is None,
    {
        let client_id = match json.get("clientId") {
            Some(Json::Str(s)) => s.clone(),
            _ => return None,
        };
        let token = match json.get("accessToken") {
            Some(Json::Str(s)) => s.clone(),
            _ => return None,
        };
        let expiry = match json.get("accessTokenExpirationTimestampMs") {
            Some(Json::Int(v)) => *v,
            _ => return None,
        };
        let anonymous = match json.get("isAnonymous") {
            Some(Json::Bool(b)) => *b,
            _ => return None,
        };
        Some(
            AuthData {
                clientId: client_id,
                accessToken: token,
                accessTokenExpirationTimestampMs: expiry,
                isAnonymous: anonymous,
            },
        )
    }
}

/// Decides an authentication answer: a status outside 200..=299 means the cookie was
/// refused; a body that is not the expected JSON is reported with its text; an anonymous
/// session is refused like a bad cookie; anything else is the session.
pub fn auth_outcome(status: u16, body: String, json: Option<Json>) -> (r: Result<
    AuthData,
    WebPlayerError,
>)
    ensures
        !http_success(status) ==> r matches Err(WebPlayerError::InvalidToken),
        http_success(status) ==> match json {
            None => r matches Err(WebPlayerError::JsonParseError(b)) && b@ == body@,
            Some(j) => match auth_fields(j) {
                None => r matches Err(WebPlayerError::JsonParseError(b)) && b@ == body@,
                Some(f) => if f.3 {
                    r matches Err(WebPlayerError::InvalidToken)
                } else {
                    r matches Ok(a) && a.spec_fields() == f
                },
            },
        },
{
    if !(200 <= status && status <= 299) {
        return Err(WebPlayerError::InvalidToken);
    }
    let auth = match json {
        Some(j) => match AuthData::from_json(&j) {
            Some(a) => a,
            None => return Err(WebPlayerError::JsonParseError(body)),
        },
        None => return Err(WebPlayerError::JsonParseError(body)),
    };
    if auth.isAnonymous {
        return Err(WebPlayerError::InvalidToken);
    }
    Ok(auth)
}

} // verus!
