//! Identity tokens. A user's id and name are signed into a JSON Web Token
//! with the `jsonwebtoken` crate; the token travels in a cookie and is
//! checked again on every use.

use crate::json::{find_integer, find_natural, find_text, integer_at, json_members, member_views,
    natural_at, parse_object, text_at, Kind, Member, MemberView};
use crate::text::{decimal, decimal_digits, decimal_text, unsigned_decimal};
use crate::user::{User, UserId, UserView, DEFAULT_USERNAME, USER_COOKIE};
use vstd::prelude::*;
use vstd::slice::slice_to_vec;

verus! {

/// `jsonwebtoken::errors::Error`, why a token could not be signed or did
/// not pass its check, carried as it is.
#[verifier::external_type_specification]
#[verifier::external_body]
pub struct ExTokenError(jsonwebtoken::errors::Error);

/// The expiry written into every token, in seconds since 1970.
pub const TOKEN_EXPIRY: usize = 2_000_000_000;

/// The secret that tokens are signed and checked with.
pub struct Keys {
    pub secret: Vec<u8>,
}

impl Keys {
    pub fn new(secret: &[u8]) -> (r: Keys)
        ensures
            r.secret@ == secret@,
    {
        Keys { secret: slice_to_vec(secret) }
    }
}

/// What a token says of its bearer.
#[derive(Debug)]
pub struct Claims {
    pub sub: UserId,
    pub name: String,
    pub exp: usize,
}

/// Claims with the name as a character sequence.
pub struct ClaimsView {
    pub sub: UserId,
    pub name: Seq<char>,
    pub exp: usize,
}

impl View for Claims {
    type V = ClaimsView;

    open spec fn view(&self) -> ClaimsView {
        ClaimsView { sub: self.sub, name: self.name@, exp: self.exp }
    }
}

impl Claims {
    /// The claims made for a user: the id as subject, the name, and the
    /// fixed expiry.
    pub open spec fn of_user(user: UserView) -> ClaimsView {
        ClaimsView { sub: user.id, name: user.name, exp: TOKEN_EXPIRY }
    }

    /// The user that claims speak of.
    pub open spec fn bearer(claims: ClaimsView) -> UserView {
        UserView { id: claims.sub, name: claims.name }
    }

    /// The members of the payload that carries claims: the subject's id
    /// under `sub`, the name under `name` and the expiry under `exp`, in
    /// this order, the numbers in decimal.
    pub open spec fn members(claims: ClaimsView) -> Seq<MemberView> {
        seq![
            MemberView { key: "sub"@, kind: Kind::Number, text: decimal_text(claims.sub as int) },
            MemberView { key: "name"@, kind: Kind::Text, text: claims.name },
            MemberView { key: "exp"@, kind: Kind::Number, text: decimal_digits(claims.exp as nat) },
        ]
    }

    pub fn for_user(user: &User) -> (r: Claims)
        ensures
            r@ == Claims::of_user(user@),
    {
        Claims { sub: user.id, name: user.name.clone(), exp: TOKEN_EXPIRY }
    }

    /// Writes the claims as the members of a token's payload.
    pub fn to_members(&self) -> (r: Vec<Member>)
        ensures
            member_views(r@) == Claims::members(self@),
    {
        let mut r = Vec::new();
        r.push(Member { key: "sub".to_owned(), kind: Kind::Number, text: decimal(self.sub) });
        r.push(Member { key: "name".to_owned(), kind: Kind::Text, text: self.name.clone() });
        r.push(
            Member {
                key: "exp".to_owned(),
                kind: Kind::Number,
                text: unsigned_decimal(self.exp as u64),
            },
        );
        assert(member_views(r@) =~= Claims::members(self@));
        r
    }

    /// A one-line description: `sub: ` and the subject's id.
    pub fn summary(&self) -> (r: String)
        ensures
            r@ == "sub: "@ + decimal_text(self.sub as int),
    {
        "sub: ".to_owned().concat(decimal(self.sub).as_str())
    }
}

impl From<Claims> for User {
    fn from(claims: Claims) -> (r: User) {
        User { id: claims.sub, name: claims.name }
    }
}

impl vstd::std_specs::convert::FromSpecImpl<Claims> for User {
    open spec fn obeys_from_spec() -> bool {
        true
    }

    open spec fn from_spec(claims: Claims) -> User {
        User { id: claims.sub, name: claims.name }
    }
}

/// The token that `jsonwebtoken::encode` makes of a payload and a secret,
/// or nothing where it fails. The payload is a JSON object, given by its
/// members in their order. It is not defined here.
pub uninterp spec fn signed_token(payload: Seq<MemberView>, secret: Seq<u8>) -> Option<Seq<char>>;

/// Signs a payload with `jsonwebtoken::encode`, under the default header
/// and the secret as an HMAC key. The members are handed over as a
/// `serde_json::Map` in their order: a text as a JSON string, a number as
/// the JSON number that `serde_json::from_str` reads from its text, and
/// anything else as `null`. The contract names the outcome `signed_token`
/// and claims no more of it.
#[verifier::external_body]
fn sign_members(members: &Vec<Member>, secret: &[u8]) -> (r: Result<
    String,
    jsonwebtoken::errors::Error,
>)
    ensures
        match r {
            Ok(token) => signed_token(member_views(members@), secret@) == Some(token@),
            Err(_) => signed_token(member_views(members@), secret@) is None,
        },
{
    let mut payload = serde_json::Map::new();
    for member in members {
        let value = match member.kind {
            Kind::Text => serde_json::Value::String(member.text.clone()),
            Kind::Number => serde_json::from_str(&member.text).unwrap_or(serde_json::Value::Null),
            Kind::Other => serde_json::Value::Null,
        };
        payload.insert(member.key.clone(), value);
    }
    let key = jsonwebtoken::EncodingKey::from_secret(secret);
    jsonwebtoken::encode(&jsonwebtoken::Header::default(), &payload, &key)
}

/// Checks a token with `jsonwebtoken::decode` under the default validation
/// (HMAC signature by the secret, expiry against the clock) and returns
/// the claims as JSON text. Whether a token passes depends on the time of
/// the call, so nothing is claimed of the outcome. The check reads the
/// system clock and panics where that clock stands before 1970, which no
/// argument can prevent.
#[verifier::external_body]
fn checked_payload(token: &str, secret: &[u8]) -> (r: Result<String, jsonwebtoken::errors::Error>) {
    let key = jsonwebtoken::DecodingKey::from_secret(secret);
    let validation = jsonwebtoken::Validation::default();
    jsonwebtoken::decode::<serde_json::Value>(token, &key, &validation).map(
        |data| data.claims.to_string(),
    )
}

/// Why a request was turned away.
#[derive(Clone, Copy, Debug, PartialEq, Eq, Structural)]
pub enum AuthError {
    WrongCredentials,
    MissingCredentials,
    TokenCreation,
    InvalidToken,
}

impl AuthError {
    /// The HTTP status that answers the error.
    pub open spec fn status(self) -> int {
        match self {
            AuthError::WrongCredentials => 401,
            AuthError::MissingCredentials => 400,
            AuthError::TokenCreation => 500,
            AuthError::InvalidToken => 400,
        }
    }

    /// The message that answers the error.
    pub open spec fn message_text(self) -> Seq<char> {
        match self {
            AuthError::WrongCredentials => "Wrong credentials"@,
            AuthError::MissingCredentials => "Missing credentials"@,
            AuthError::TokenCreation => "Token creation error"@,
            AuthError::InvalidToken => "Invalid token"@,
        }
    }

    pub fn status_code(&self) -> (r: u16)
        ensures
            r == self.status(),
    {
        match self {
            AuthError::WrongCredentials => 401,
            AuthError::MissingCredentials => 400,
            AuthError::TokenCreation => 500,
            AuthError::InvalidToken => 400,
        }
    }

    pub fn message(&self) -> (r: String)
        ensures
            r@ == self.message_text(),
    {
        match self {
            AuthError::WrongCredentials => "Wrong credentials".to_owned(),
            AuthError::MissingCredentials => "Missing credentials".to_owned(),
            AuthError::TokenCreation => "Token creation error".to_owned(),
            AuthError::InvalidToken => "Invalid token".to_owned(),
        }
    }
}

/// The answer to a request for a token.
#[derive(Debug)]
pub struct AuthBody {
    pub token: String,
    pub token_type: String,
}

impl AuthBody {
    pub fn new(token: String) -> (r: AuthBody)
        ensures
            r.token@ == token@,
            r.token_type@ == "Bearer"@,
    {
        AuthBody { token, token_type: "Bearer".to_owned() }
    }
}

/// How a browser sends a cookie along with requests from other sites.
#[derive(Clone, Copy, Debug, PartialEq, Eq, Structural)]
pub enum SameSite {
    Strict,
    Lax,
    Unrestricted,
}

/// The cookie that carries a token.
#[derive(Debug)]
pub struct UserCookie {
    pub name: String,
    pub value: String,
    pub path: String,
    pub same_site: SameSite,
}

impl UserCookie {
    /// Whether this is the identity cookie with the given token: named
    /// `_fq_user`, valid for every path, lax towards other sites.
    pub open spec fn carries(&self, token: Seq<char>) -> bool {
        &&& self.name@ == USER_COOKIE@
        &&& self.value@ == token
        &&& self.path@ == "/"@
        &&& self.same_site == SameSite::Lax
    }
}

/// The token of a user under a secret: the signed payload of the claims
/// made for the user.
pub open spec fn user_token(user: UserView, secret: Seq<u8>) -> Option<Seq<char>> {
    signed_token(Claims::members(Claims::of_user(user)), secret)
}

/// Signs a token for a user.
pub fn make_user_token(user: &User, keys: &Keys) -> (r: Result<String, jsonwebtoken::errors::Error>)
    ensures
        match r {
            Ok(token) => user_token(user@, keys.secret@) == Some(token@),
            Err(_) => user_token(user@, keys.secret@) is None,
        },
{
    let members = Claims::for_user(user).to_members();
    sign_members(&members, keys.secret.as_slice())
}

/// Wraps a token in the identity cookie.
pub fn make_user_cookie(token: String) -> (r: UserCookie)
    ensures
        r.carries(token@),
{
    UserCookie {
        name: USER_COOKIE.to_owned(),
        value: token,
        path: "/".to_owned(),
        same_site: SameSite::Lax,
    }
}

/// The claims that a payload's members make: an integer `sub`, a string
/// `name`, and a natural number `exp` that fits a `usize`. Other members
/// are passed over.
pub open spec fn claims_in(members: Seq<MemberView>) -> Option<ClaimsView> {
    match (integer_at(members, "sub"@), text_at(members, "name"@), natural_at(members, "exp"@)) {
        (Some(sub), Some(name), Some(exp)) => if exp <= usize::MAX {
            Some(ClaimsView { sub: sub as i64, name, exp: exp as usize })
        } else {
            None
        },
        _ => None,
    }
}

/// Claims written as a payload's members read back as the same claims.
pub proof fn lemma_claims_round_trip(claims: ClaimsView)
    ensures
        claims_in(Claims::members(claims)) == Some(claims),
{
    let members = Claims::members(claims);
    reveal_strlit("sub");
    reveal_strlit("name");
    reveal_strlit("exp");
    assert("sub"@[0] == 's' && "name"@[0] == 'n' && "exp"@[0] == 'e');
    reveal_with_fuel(crate::json::member_at, 4);
    assert(members.drop_first()[0] == members[1]);
    assert(members.drop_first().drop_first()[0] == members[2]);
    assert(crate::json::member_at(members, "sub"@) == Some(members[0]));
    assert(crate::json::member_at(members, "name"@) == Some(members[1]));
    assert(crate::json::member_at(members, "exp"@) == Some(members[2]));
    let sub = choose|n: int| i64::MIN <= n <= i64::MAX && decimal_text(n) == members[0].text;
    crate::text::lemma_decimal_text_unique(sub, claims.sub as int);
    let exp = choose|n: nat| n <= u64::MAX && decimal_digits(n) == members[2].text;
    assert(claims.exp as nat <= u64::MAX && decimal_digits(claims.exp as nat) == members[2].text);
    crate::text::lemma_decimal_digits_unique(exp, claims.exp as nat);
}

/// The claims that a payload in JSON text makes.
pub open spec fn payload_claims(payload: Seq<char>) -> Option<ClaimsView> {
    match json_members(payload) {
        Some(members) => claims_in(members),
        None => None,
    }
}

/// Reads claims from the members of a token's payload.
pub fn claims_from_members(members: &Vec<Member>) -> (r: Option<Claims>)
    ensures
        match r {
            Some(claims) => claims_in(member_views(members@)) == Some(claims@),
            None => claims_in(member_views(members@)) is None,
        },
{
    let sub = match find_integer(members, "sub") {
        Some(sub) => sub,
        None => { return None; },
    };
    let name = match find_text(members, "name") {
        Some(name) => name,
        None => { return None; },
    };
    let exp = match find_natural(members, "exp") {
        Some(exp) => exp,
        None => { return None; },
    };
    if exp > usize::MAX as u64 {
        return None;
    }
    Some(Claims { sub, name, exp: exp as usize })
}

/// Reads claims from a token's payload.
pub fn claims_from_payload(payload: &str) -> (r: Option<Claims>)
    ensures
        match r {
            Some(claims) => payload_claims(payload@) == Some(claims@),
            None => payload_claims(payload@) is None,
        },
{
    match parse_object(payload) {
        Some(members) => claims_from_members(&members),
        None => None,
    }
}

/// What is made of a token once its signature and expiry were checked: the
/// claims of the payload that the check handed back, or `InvalidToken`
/// where the check failed or the payload makes no claims.
pub fn claims_of_checked(checked: Option<String>) -> (r: Result<Claims, AuthError>)
    ensures
        match r {
            Ok(claims) => checked matches Some(payload) && payload_claims(payload@) == Some(
                claims@,
            ),
            Err(e) => e == AuthError::InvalidToken && (checked matches Some(payload)
                ==> payload_claims(payload@) is None),
        },
{
    match checked {
        Some(payload) => match claims_from_payload(payload.as_str()) {
            Some(claims) => Ok(claims),
            None => Err(AuthError::InvalidToken),
        },
        None => Err(AuthError::InvalidToken),
    }
}

/// Checks a token and reads its claims. A token that fails the check, by
/// its signature or by the clock, gives `InvalidToken`, and so does one
/// whose payload makes no claims.
pub fn decode_user_token(token: &str, keys: &Keys) -> (r: Result<Claims, AuthError>)
    ensures
        match r {
            Ok(claims) => exists|payload: Seq<char>|
                payload_claims(payload) == Some(claims@),
            Err(e) => e == AuthError::InvalidToken,
        },
{
    let checked = match checked_payload(token, keys.secret.as_slice()) {
        Ok(payload) => Some(payload),
        Err(_) => None,
    };
    claims_of_checked(checked)
}

/// The user that an identity cookie names. No cookie, or one whose token
/// fails the check, names nobody.
pub fn decode_user_cookie(cookie: Option<&str>, keys: &Keys) -> (r: Option<User>)
    ensures
        cookie is None ==> r is None,
        r matches Some(user) ==> exists|payload: Seq<char>|
            #[trigger] payload_claims(payload) is Some && Claims::bearer(payload_claims(payload)->0)
                == user@,
{
    match cookie {
        Some(token) => match decode_user_token(token, keys) {
            Ok(claims) => {
                proof {
                    let payload = choose|payload: Seq<char>|
                        payload_claims(payload) == Some(claims@);
                }
                Some(User::from(claims))
            },
            Err(_) => None,
        },
        None => None,
    }
}

/// What a request for a token needs next.
#[derive(Debug)]
pub enum Authorization {
    /// The request came with an identity cookie: its token is the answer.
    Known(AuthBody),
    /// The request came without: a user has to be created first.
    NewUser,
}

/// Answers a request for a token from its identity cookie.
pub fn authorize(cookie: Option<&str>) -> (r: Authorization)
    ensures
        match cookie {
            Some(token) => r matches Authorization::Known(body) && body.token@ == token@
                && body.token_type@ == "Bearer"@,
            None => r is NewUser,
        },
{
    match cookie {
        Some(token) => Authorization::Known(AuthBody::new(token.to_owned())),
        None => Authorization::NewUser,
    }
}

/// The identity of a newly created user: the token that answers the
/// request, and the cookie to set. `created` is the new user's id, or
/// nothing where the user could not be created; that and a failure to sign
/// both give `TokenCreation`.
pub fn issue_identity(created: Option<UserId>, keys: &Keys) -> (r: Result<
    (AuthBody, UserCookie),
    AuthError,
>)
    ensures
        match r {
            Ok((body, cookie)) => created matches Some(id) && user_token(
                UserView { id, name: DEFAULT_USERNAME@ },
                keys.secret@,
            ) == Some(body.token@) && body.token_type@ == "Bearer"@ && cookie.carries(
                body.token@,
            ),
            Err(e) => e == AuthError::TokenCreation && (created matches Some(id) ==> user_token(
                UserView { id, name: DEFAULT_USERNAME@ },
                keys.secret@,
            ) is None),
        },
{
    let id = match created {
        Some(id) => id,
        None => { return Err(AuthError::TokenCreation); },
    };
    let user = User::with_default_name(id);
    match make_user_token(&user, keys) {
        Ok(token) => {
            let cookie = make_user_cookie(token.clone());
            Ok((AuthBody::new(token), cookie))
        },
        Err(_) => Err(AuthError::TokenCreation),
    }
}

/// The greeting of the protected area, with the bearer's claims.
pub fn protected(claims: &Claims) -> (r: Result<String, AuthError>)
    ensures
        r matches Ok(text) && text@ == "Welcome to the protected area :)\nYour data:\n"@
            + "sub: "@ + decimal_text(claims.sub as int),
{
    let text = "Welcome to the protected area :)\nYour data:\n".to_owned().concat(
        claims.summary().as_str(),
    );
    assert(text@ =~= "Welcome to the protected area :)\nYour data:\n"@ + "sub: "@ + decimal_text(
        claims.sub as int,
    ));
    Ok(text)
}

} // verus!
