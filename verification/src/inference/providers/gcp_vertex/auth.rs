//! Authentication with a service account: the credentials, the claims that
//! they sign, and the signed token that is presented as a bearer.

use crate::clock::unix_time_now;
use crate::error::{prefixed, Error};
use crate::json::{json_object_members, member_views, parse_object_members, JsonMember};
use vstd::prelude::*;
use vstd::string::*;

verus! {

/// A signing key of `jsonwebtoken`, carried through without looking inside.
#[verifier::external_type_specification]
#[verifier::external_body]
pub struct ExEncodingKey(jsonwebtoken::EncodingKey);

/// `Clone` of `jsonwebtoken::EncodingKey`: the copy is the same key.
pub assume_specification[ <jsonwebtoken::EncodingKey as Clone>::clone ](
    key: &jsonwebtoken::EncodingKey,
) -> (res: jsonwebtoken::EncodingKey)
    ensures
        res == *key,
;

/// The RSA key that `jsonwebtoken` reads from a PEM text, where it reads one.
pub uninterp spec fn rsa_key_of_pem(pem: Seq<char>) -> Option<jsonwebtoken::EncodingKey>;

/// What `std` writes for a text under `{:?}`: the text between double
/// quotes, with what needs it escaped.
pub uninterp spec fn debug_quoted(text: Seq<char>) -> Seq<char>;

/// Calls `jsonwebtoken::EncodingKey::from_rsa_pem` on the bytes of the text
/// and drops the error, which the caller does not report.
#[verifier::external_body]
fn rsa_key_from_pem(pem: &str) -> (key: Option<jsonwebtoken::EncodingKey>)
    ensures
        key == rsa_key_of_pem(pem@),
{
    jsonwebtoken::EncodingKey::from_rsa_pem(pem.as_bytes()).ok()
}

/// Formats a text with `{:?}`.
#[verifier::external_body]
fn debug_quote(text: &str) -> (quoted: String)
    ensures
        quoted@ == debug_quoted(text@),
{
    format!("{:?}", text)
}

/// The members of a JSON object whose values are texts, as plain values.
pub open spec fn text_members(members: Seq<(String, String)>) -> Seq<(Seq<char>, Seq<char>)> {
    members.map_values(|m: (String, String)| (m.0@, m.1@))
}

/// The members of a JSON object whose values are numbers, as plain values.
pub open spec fn number_members(members: Seq<(String, u64)>) -> Seq<(Seq<char>, u64)> {
    members.map_values(|m: (String, u64)| (m.0@, m.1))
}

/// Whether a header names no other algorithm than RS256, whose signatures
/// take nothing from a random source.
pub open spec fn only_rs256(header: Seq<(Seq<char>, Seq<char>)>) -> bool {
    forall|i: int|
        0 <= i < header.len() && (#[trigger] header[i]).0 == "alg"@ ==> header[i].1 == "RS256"@
}

/// What `jsonwebtoken` makes of a header and of claims when it signs them
/// with the key: the token, or the message of its error. The header and the
/// claims are the members of two JSON objects; the claims are those with a
/// text and those with a number as their value.
pub uninterp spec fn signed_token(
    header: Seq<(Seq<char>, Seq<char>)>,
    text_claims: Seq<(Seq<char>, Seq<char>)>,
    number_claims: Seq<(Seq<char>, u64)>,
    key: jsonwebtoken::EncodingKey,
) -> Result<Seq<char>, Seq<char>>;

/// Turns the members into a `jsonwebtoken::Header` and into a JSON object
/// of claims and calls `jsonwebtoken::encode` on them. Where the header
/// cannot be read or the token cannot be made, the error's message comes
/// back. Under RS256 the outcome is a function of the members and the key:
/// the padding takes nothing from the random source. Of other algorithms
/// nothing is claimed.
#[verifier::external_body]
fn encode_jwt(
    header: &Vec<(String, String)>,
    text_claims: &Vec<(String, String)>,
    number_claims: &Vec<(String, u64)>,
    key: &jsonwebtoken::EncodingKey,
) -> (res: Result<String, String>)
    ensures
        only_rs256(text_members(header@)) ==> match res {
            Ok(token) => signed_token(
                text_members(header@),
                text_members(text_claims@),
                number_members(number_claims@),
                *key,
            ) == Ok::<Seq<char>, Seq<char>>(token@),
            Err(detail) => signed_token(
                text_members(header@),
                text_members(text_claims@),
                number_members(number_claims@),
                *key,
            ) == Err::<Seq<char>, Seq<char>>(detail@),
        },
{
    let head: serde_json::Map<String, serde_json::Value> =
        header.iter().map(|(name, text)| (name.clone(), text.clone().into())).collect();
    let head: jsonwebtoken::Header =
        serde_json::from_value(head.into()).map_err(|e| e.to_string())?;
    let mut claims: serde_json::Map<String, serde_json::Value> =
        text_claims.iter().map(|(name, text)| (name.clone(), text.clone().into())).collect();
    claims.extend(number_claims.iter().map(|(name, number)| (name.clone(), (*number).into())));
    jsonwebtoken::encode(&head, &claims, key).map_err(|e| e.to_string())
}

/// The header of a token: it is a JWT, signed under RS256 with the key of
/// the given id.
pub open spec fn token_header(kid: Seq<char>) -> Seq<(Seq<char>, Seq<char>)> {
    seq![("typ"@, "JWT"@), ("alg"@, "RS256"@), ("kid"@, kid)]
}

/// The claims with a text as their value, under their standard names.
pub open spec fn text_claims(claims: ClaimsView) -> Seq<(Seq<char>, Seq<char>)> {
    seq![("iss"@, claims.iss), ("sub"@, claims.sub), ("aud"@, claims.aud)]
}

/// The claims with a time as their value, under their standard names.
pub open spec fn time_claims(claims: ClaimsView) -> Seq<(Seq<char>, u64)> {
    seq![("iat"@, claims.iat), ("exp"@, claims.exp)]
}

/// The token for the claims, signed with the key and naming it by its id,
/// or the message of the signing library's error.
pub open spec fn rs256_token(
    kid: Seq<char>,
    claims: ClaimsView,
    key: jsonwebtoken::EncodingKey,
) -> Result<Seq<char>, Seq<char>> {
    signed_token(token_header(kid), text_claims(claims), time_claims(claims), key)
}

/// The header of a token that is signed with the key of the given id.
pub fn header_members(kid: &str) -> (header: Vec<(String, String)>)
    ensures
        text_members(header@) == token_header(kid@),
        only_rs256(text_members(header@)),
{
    let mut header: Vec<(String, String)> = Vec::new();
    header.push(("typ".to_owned(), "JWT".to_owned()));
    header.push(("alg".to_owned(), "RS256".to_owned()));
    header.push(("kid".to_owned(), kid.to_owned()));
    proof {
        reveal_strlit("typ");
        reveal_strlit("alg");
        reveal_strlit("kid");
        assert(text_members(header@) =~= token_header(kid@));
        assert("typ"@[0] != "alg"@[0]);
        assert("kid"@[0] != "alg"@[0]);
    }
    header
}

/// For how many seconds a token is valid.
pub const TOKEN_LIFETIME_SECONDS: u64 = 3600;

/// The standard claims of a token: who issues it, whom it is about, whom it
/// is for, and from when to when it holds, in seconds since the Unix epoch.
#[derive(Clone, Copy, Debug, PartialEq, Eq)]
pub struct Claims<'a> {
    pub iss: &'a str,
    pub sub: &'a str,
    pub aud: &'a str,
    pub iat: u64,
    pub exp: u64,
}

/// What `Claims` is as a mathematical value.
pub struct ClaimsView {
    pub iss: Seq<char>,
    pub sub: Seq<char>,
    pub aud: Seq<char>,
    pub iat: u64,
    pub exp: u64,
}

impl<'a> View for Claims<'a> {
    type V = ClaimsView;

    open spec fn view(&self) -> ClaimsView {
        ClaimsView {
            iss: self.iss@,
            sub: self.sub@,
            aud: self.aud@,
            iat: self.iat,
            exp: self.exp,
        }
    }
}

/// The claims that an account signs about itself for an audience at the
/// second `now`: they expire one lifetime later.
pub open spec fn own_claims(account: Seq<char>, audience: Seq<char>, now: u64) -> ClaimsView
    recommends
        now + TOKEN_LIFETIME_SECONDS <= u64::MAX,
{
    ClaimsView {
        iss: account,
        sub: account,
        aud: audience,
        iat: now,
        exp: (now + TOKEN_LIFETIME_SECONDS) as u64,
    }
}

/// The message of the failure for a clock that gives no time to issue a
/// token at.
pub open spec fn no_time_text() -> Seq<char> {
    "Time went backwards"@
}

/// What becomes of the signing library's outcome: its token, or its message
/// behind the words that say what failed.
pub open spec fn signing_outcome(signed: Result<Seq<char>, Seq<char>>) -> Result<
    Seq<char>,
    Seq<char>,
> {
    match signed {
        Ok(token) => Ok(token),
        Err(detail) => Err("Failed to encode JWT: "@ + detail),
    }
}

/// Whether `res` is the token, or the failure to get credentials with the
/// message, that `expected` holds.
pub open spec fn token_result(expected: Result<Seq<char>, Seq<char>>, res: Result<String, Error>) -> bool {
    match expected {
        Ok(token) => res matches Ok(t) && t@ == token,
        Err(text) => res matches Err(Error::GCPCredentials { message }) && message@ == text,
    }
}

impl<'a> Claims<'a> {
    /// The claims with a text as their value: who issues the token, whom it
    /// is about and whom it is for.
    pub fn text_members(&self) -> (members: Vec<(String, String)>)
        ensures
            text_members(members@) == text_claims(self@),
    {
        let mut members: Vec<(String, String)> = Vec::new();
        members.push(("iss".to_owned(), self.iss.to_owned()));
        members.push(("sub".to_owned(), self.sub.to_owned()));
        members.push(("aud".to_owned(), self.aud.to_owned()));
        assert(text_members(members@) =~= text_claims(self@));
        members
    }

    /// The claims with a time as their value: from when to when the token
    /// holds.
    pub fn time_members(&self) -> (members: Vec<(String, u64)>)
        ensures
            number_members(members@) == time_claims(self@),
    {
        let mut members: Vec<(String, u64)> = Vec::new();
        members.push(("iat".to_owned(), self.iat));
        members.push(("exp".to_owned(), self.exp));
        assert(number_members(members@) =~= time_claims(self@));
        members
    }

    /// Whether these are the claims for the given parties that are issued at
    /// `now` and expire one lifetime later.
    pub open spec fn issued(
        &self,
        iss: Seq<char>,
        sub: Seq<char>,
        aud: Seq<char>,
        now: int,
    ) -> bool {
        &&& self.iss@ == iss
        &&& self.sub@ == sub
        &&& self.aud@ == aud
        &&& self.iat == now
        &&& self.exp == now + TOKEN_LIFETIME_SECONDS
    }

    /// The claims issued at the second `now`.
    pub fn at(iss: &'a str, sub: &'a str, aud: &'a str, now: u64) -> (claims: Self)
        requires
            now + TOKEN_LIFETIME_SECONDS <= u64::MAX,
        ensures
            claims.issued(iss@, sub@, aud@, now as int),
    {
        Claims { iss, sub, aud, iat: now, exp: now + TOKEN_LIFETIME_SECONDS }
    }

    /// The claims issued at the second `now`, where their expiry can still
    /// be counted.
    pub fn checked_at(iss: &'a str, sub: &'a str, aud: &'a str, now: u64) -> (claims: Option<Self>)
        ensures
            now + TOKEN_LIFETIME_SECONDS <= u64::MAX ==> (claims matches Some(c) && c.issued(
                iss@,
                sub@,
                aud@,
                now as int,
            )),
            now + TOKEN_LIFETIME_SECONDS > u64::MAX ==> claims is None,
    {
        if now <= u64::MAX - TOKEN_LIFETIME_SECONDS {
            Some(Claims::at(iss, sub, aud, now))
        } else {
            None
        }
    }

    /// The claims issued now, by the clock of this machine. They expire one
    /// lifetime after they were issued. There are none where the clock
    /// stands before the Unix epoch or too close to the end of time.
    pub fn new(iss: &'a str, sub: &'a str, aud: &'a str) -> (claims: Option<Self>)
        ensures
            claims matches Some(c) ==> c.issued(iss@, sub@, aud@, c.iat as int),
    {
        match unix_time_now() {
            Some(reading) => Claims::checked_at(iss, sub, aud, reading.seconds),
            None => None,
        }
    }
}

/// What is needed to sign requests in the name of a service account: the id
/// of the key, the key, and the account's address.
#[derive(Clone)]
pub struct GCPCredentials {
    pub private_key_id: String,
    pub private_key: jsonwebtoken::EncodingKey,
    pub client_email: String,
}

/// The member of the given name among the members of a JSON object: nothing
/// where there is none, else its text, where it is a string.
pub open spec fn member_named(
    members: Seq<(Seq<char>, Option<Seq<char>>)>,
    name: Seq<char>,
) -> Option<Option<Seq<char>>>
    decreases members.len(),
{
    if members.len() == 0 {
        None
    } else if members[0].0 == name {
        Some(members[0].1)
    } else {
        member_named(members.skip(1), name)
    }
}

/// The outcome of reading credentials from the members of a JSON object:
/// the id of the key, the PEM text of the key and the account's address, or
/// the message that says what is missing. The three members are looked for
/// in this order; only then is it asked whether each is a string.
pub open spec fn credential_fields(members: Seq<(Seq<char>, Option<Seq<char>>)>) -> Result<
    (Seq<char>, Seq<char>, Seq<char>),
    Seq<char>,
> {
    let id = member_named(members, "private_key_id"@);
    let key = member_named(members, "private_key"@);
    let email = member_named(members, "client_email"@);
    if id is None {
        Err("GCP Vertex Gemini: missing private_key_id"@)
    } else if key is None {
        Err("GCP Vertex Gemini: missing private_key"@)
    } else if email is None {
        Err("GCP Vertex Gemini: missing client_email"@)
    } else {
        match (id->0, key->0, email->0) {
            (Some(id), Some(key), Some(email)) => Ok((id, key, email)),
            _ => Err("GCP Vertex Gemini: missing required credentials"@),
        }
    }
}

/// The outcome of loading credentials from what reading the key file gave:
/// the credentials' texts and key, or the message of the failure.
pub open spec fn loaded_credentials(file: Result<Seq<char>, Seq<char>>) -> Result<
    (Seq<char>, jsonwebtoken::EncodingKey, Seq<char>),
    Seq<char>,
> {
    match file {
        Err(detail) => Err("Failed to read GCP Vertex Gemini credentials: "@ + detail),
        Ok(text) => match json_object_members(text) {
            Err(detail) => Err("Failed to parse GCP Vertex Gemini credentials: "@ + detail),
            Ok(members) => match credential_fields(members) {
                Err(message) => Err(message),
                Ok((id, pem, email)) => match rsa_key_of_pem(pem) {
                    None => Err("GCP Vertex Gemini: private_key failed to parse as RSA"@),
                    Some(key) => Ok((id, key, email)),
                },
            },
        },
    }
}

/// Looks a member up by its name.
fn find_member<'a>(members: &'a Vec<JsonMember>, name: &str) -> (found: Option<&'a JsonMember>)
    ensures
        match found {
            Some(m) => member_named(member_views(members@), name@) == Some(m@.1),
            None => member_named(member_views(members@), name@) is None,
        },
{
    let wanted: String = name.to_owned();
    let ghost all = member_views(members@);
    let n: usize = members.len();
    let mut i: usize = 0;
    assert(all.skip(0) =~= all);
    while i < n
        invariant
            i <= n,
            n == members@.len(),
            all == member_views(members@),
            wanted@ == name@,
            member_named(all, name@) == member_named(all.skip(i as int), name@),
        decreases n - i,
    {
        let m: &'a JsonMember = &members[i];
        proof {
            assert(all.skip(i as int)[0] == m@);
            assert(all.skip(i as int).skip(1) =~= all.skip(i + 1));
        }
        if m.name == wanted {
            return Some(m);
        }
        i = i + 1;
    }
    None
}

/// A failure to load or to use credentials.
fn credentials_error(message: &str) -> (e: Error)
    ensures
        e matches Error::GCPCredentials { message: m } && m@ == message@,
{
    Error::GCPCredentials { message: message.to_owned() }
}

impl GCPCredentials {
    /// Whether these are the credentials with the given texts and key.
    pub open spec fn holds(&self, fields: (Seq<char>, jsonwebtoken::EncodingKey, Seq<char>)) -> bool {
        &&& self.private_key_id@ == fields.0
        &&& self.private_key == fields.1
        &&& self.client_email@ == fields.2
    }

    /// Loads the credentials of a service account from its JSON key file.
    /// `file` is what reading the file gave: its text, or why it could not
    /// be read.
    pub fn from_env(file: Result<String, String>) -> (res: Result<Self, Error>)
        ensures
            match (res, loaded_credentials(
                match file {
                    Ok(text) => Ok(text@),
                    Err(detail) => Err(detail@),
                },
            )) {
                (Ok(credentials), Ok(fields)) => credentials.holds(fields),
                (Err(Error::GCPCredentials { message }), Err(expected)) => message@ == expected,
                _ => false,
            },
    {
        let credential_str: String = match file {
            Ok(text) => text,
            Err(detail) => {
                return Err(
                    Error::GCPCredentials {
                        message: prefixed("Failed to read GCP Vertex Gemini credentials: ", &detail),
                    },
                );
            },
        };
        let members: Vec<JsonMember> = match parse_object_members(credential_str.as_str()) {
            Ok(members) => members,
            Err(detail) => {
                return Err(
                    Error::GCPCredentials {
                        message: prefixed(
                            "Failed to parse GCP Vertex Gemini credentials: ",
                            &detail,
                        ),
                    },
                );
            },
        };
        let id = match find_member(&members, "private_key_id") {
            Some(m) => m,
            None => {
                return Err(credentials_error("GCP Vertex Gemini: missing private_key_id"));
            },
        };
        let key = match find_member(&members, "private_key") {
            Some(m) => m,
            None => {
                return Err(credentials_error("GCP Vertex Gemini: missing private_key"));
            },
        };
        let email = match find_member(&members, "client_email") {
            Some(m) => m,
            None => {
                return Err(credentials_error("GCP Vertex Gemini: missing client_email"));
            },
        };
        match (&id.text, &key.text, &email.text) {
            (Some(private_key_id), Some(private_key), Some(client_email)) => {
                match rsa_key_from_pem(private_key.as_str()) {
                    Some(encoding_key) => Ok(
                        GCPCredentials {
                            private_key_id: private_key_id.clone(),
                            private_key: encoding_key,
                            client_email: client_email.clone(),
                        },
                    ),
                    None => Err(
                        credentials_error("GCP Vertex Gemini: private_key failed to parse as RSA"),
                    ),
                }
            },
            _ => Err(credentials_error("GCP Vertex Gemini: missing required credentials")),
        }
    }

    /// The claims that these credentials sign for the given audience at the
    /// second `now`: the account issues the token about itself.
    pub fn claims_at<'a>(&'a self, audience: &'a str, now: u64) -> (claims: Option<Claims<'a>>)
        ensures
            now + TOKEN_LIFETIME_SECONDS <= u64::MAX ==> (claims matches Some(c) && c.issued(
                self.client_email@,
                self.client_email@,
                audience@,
                now as int,
            )),
            now + TOKEN_LIFETIME_SECONDS > u64::MAX ==> claims is None,
    {
        Claims::checked_at(self.client_email.as_str(), self.client_email.as_str(), audience, now)
    }

    /// The token for the given audience that is issued at the second `now`,
    /// or the message of the failure to make one: there is none where the
    /// expiry cannot be counted, or where the signing library fails.
    pub open spec fn token_at(&self, audience: Seq<char>, now: u64) -> Result<
        Seq<char>,
        Seq<char>,
    > {
        if now + TOKEN_LIFETIME_SECONDS > u64::MAX {
            Err(no_time_text())
        } else {
            signing_outcome(
                rs256_token(
                    self.private_key_id@,
                    own_claims(self.client_email@, audience, now),
                    self.private_key,
                ),
            )
        }
    }

    /// Signs the claims with the key of these credentials, which the header
    /// of the token names by its id. The result is the token that the
    /// signing library makes; where it makes none, the failure names its
    /// reason.
    pub fn sign(&self, claims: &Claims<'_>) -> (res: Result<String, Error>)
        ensures
            token_result(
                signing_outcome(rs256_token(self.private_key_id@, claims@, self.private_key)),
                res,
            ),
    {
        let header = header_members(self.private_key_id.as_str());
        let texts = claims.text_members();
        let times = claims.time_members();
        match encode_jwt(&header, &texts, &times, &self.private_key) {
            Ok(token) => Ok(token),
            Err(detail) => Err(
                Error::GCPCredentials { message: prefixed("Failed to encode JWT: ", &detail) },
            ),
        }
    }

    /// A signed token for the given audience, valid from the second `now`
    /// for one lifetime.
    pub fn jwt_token_at(&self, audience: &str, now: u64) -> (res: Result<String, Error>)
        ensures
            token_result(self.token_at(audience@, now), res),
    {
        match self.claims_at(audience, now) {
            Some(claims) => {
                assert(claims@ == own_claims(self.client_email@, audience@, now));
                self.sign(&claims)
            },
            None => Err(credentials_error("Time went backwards")),
        }
    }

    /// A signed token for the given audience, valid from now for one
    /// lifetime. Whatever the clock of this machine reads, the result is
    /// what `jwt_token_at` gives for that reading; where the clock stands
    /// before the Unix epoch, there is no time to issue the token at.
    pub fn get_jwt_token(&self, audience: &str) -> (res: Result<String, Error>)
        ensures
            token_result(Err(no_time_text()), res) || exists|now: u64|
                token_result(#[trigger] self.token_at(audience@, now), res),
    {
        match unix_time_now() {
            Some(reading) => self.jwt_token_at(audience, reading.seconds),
            None => Err(credentials_error("Time went backwards")),
        }
    }

    /// The credentials as they are shown in logs: the key itself is left
    /// out, so the text is the same whatever the key.
    pub fn debug_text(&self) -> (text: String)
        ensures
            text@ == "GCPCredentials { private_key_id: "@ + debug_quoted(self.private_key_id@)
                + ", private_key: \"[redacted]\", client_email: "@ + debug_quoted(
                self.client_email@,
            ) + " }"@,
    {
        let mut text = "GCPCredentials { private_key_id: ".to_owned();
        let id = debug_quote(self.private_key_id.as_str());
        text.append(id.as_str());
        text.append(", private_key: \"[redacted]\", client_email: ");
        let email = debug_quote(self.client_email.as_str());
        text.append(email.as_str());
        text.append(" }");
        text
    }
}

} // verus!
