//! Decisions of the authentication endpoints: registration rules, password
//! checks, refresh-token sessions and the GitHub e-mail choice.

use vstd::prelude::*;
use vstd::string::*;
use vstd::utf8::encode_utf8;
use crate::cookies::{cookie_value, parse_cookie_value};
use crate::error::{AppError, ErrorView};
use crate::ids::{parse_uuid, spec_parse_uuid};
use crate::text::{contains_char, trim, trim_str, view_opt_str, view_opt_string};

verus! {

/// Length of a text in UTF-8 bytes, as `str::len` counts it.
pub open spec fn utf8_len(s: Seq<char>) -> nat {
    encode_utf8(s).len()
}

/// Body of a registration request.
pub struct RegisterRequest {
    pub email: String,
    pub password: String,
    pub display_name: String,
}

/// Body of a login request.
pub struct LoginRequest {
    pub email: String,
    pub password: String,
}

/// Body of a refresh request; without a token the `tc_refresh` cookie is used.
pub struct RefreshRequest {
    pub refresh_token: Option<String>,
}

/// Body of a Google sign-in request.
pub struct GoogleAuthRequest {
    pub id_token: String,
}

/// Body of a GitHub sign-in request.
pub struct GitHubAuthRequest {
    pub code: String,
}

/// The message a registration is refused with, if any, checked in order:
/// e-mail, password length (at least 8 bytes), display name (1 to 100 bytes).
pub open spec fn registration_error(email: Seq<char>, password: Seq<char>, display_name: Seq<char>) -> Option<Seq<char>> {
    if trim(email).len() == 0 || !email.contains('@') {
        Some("A valid email is required"@)
    } else if utf8_len(password) < 8 {
        Some("Password must be at least 8 characters"@)
    } else if trim(display_name).len() == 0 || utf8_len(display_name) > 100 {
        Some("display_name is required and must be 1-100 chars"@)
    } else {
        None
    }
}

/// A registration is refused exactly when one of its field rules fails: a
/// blank e-mail or one without `@`, a password under 8 bytes, or a blank or
/// over-long display name. With a valid e-mail, a short password is refused
/// with the password message.
pub proof fn lemma_registration_refusal(email: Seq<char>, password: Seq<char>, display_name: Seq<char>)
    ensures
        registration_error(email, password, display_name) is Some <==> (trim(email).len() == 0
            || !email.contains('@') || utf8_len(password) < 8 || trim(display_name).len() == 0
            || utf8_len(display_name) > 100),
        trim(email).len() != 0 && email.contains('@') && utf8_len(password) < 8 ==> registration_error(
            email,
            password,
            display_name,
        ) == Some("Password must be at least 8 characters"@),
{
}

impl RegisterRequest {
    /// Checks the fields of a registration.
    pub fn validate(&self) -> (r: Result<(), AppError>)
        ensures
            match registration_error(self.email@, self.password@, self.display_name@) {
                Some(m) => r is Err && r->Err_0@ == ErrorView::Validation(m),
                None => r is Ok,
            },
    {
        if trim_str(self.email.as_str()).is_empty() || !contains_char(self.email.as_str(), '@') {
            return Err(AppError::validation("A valid email is required"));
        }
        if self.password.as_str().as_bytes().len() < 8 {
            return Err(AppError::validation("Password must be at least 8 characters"));
        }
        if trim_str(self.display_name.as_str()).is_empty() || self.display_name.as_str().as_bytes().len()
            > 100 {
            return Err(AppError::validation("display_name is required and must be 1-100 chars"));
        }
        Ok(())
    }
}

#[verifier::external_type_specification]
#[verifier::external_body]
pub struct ExBcryptError(bcrypt::BcryptError);

/// What `bcrypt::verify` answers for a password and a stored hash: `None`
/// when the hash cannot be read.
pub uninterp spec fn spec_bcrypt_verify(password: Seq<char>, hash: Seq<char>) -> Option<bool>;

/// Calls `bcrypt::verify`. Its answer depends on the password and the hash
/// alone (the salt and cost are read from the hash), so it is named.
#[verifier::external_body]
fn bcrypt_verify(password: &str, hash: &str) -> (r: Result<bool, bcrypt::BcryptError>)
    ensures
        r is Ok <==> spec_bcrypt_verify(password@, hash@) is Some,
        r is Ok ==> spec_bcrypt_verify(password@, hash@) == Some(r->Ok_0),
{
    bcrypt::verify(password, hash)
}

/// Calls `bcrypt::hash` with `bcrypt::DEFAULT_COST`. The salt is random, so
/// the hash itself is not named; what holds of every hash it returns is that
/// `bcrypt::verify` accepts the same password against it.
#[verifier::external_body]
fn bcrypt_hash(password: &str) -> (r: Result<String, bcrypt::BcryptError>)
    ensures
        r is Ok ==> spec_bcrypt_verify(password@, r->Ok_0@) == Some(true),
{
    bcrypt::hash(password, bcrypt::DEFAULT_COST)
}

/// Calls `ToString::to_string` on a bcrypt error (its `Display` text); nothing
/// is stated about the text.
#[verifier::external_body]
fn bcrypt_error_text(e: &bcrypt::BcryptError) -> String {
    e.to_string()
}

/// Validates a registration and hashes its password. The hash returned is
/// one that the same password verifies against.
pub fn prepare_registration(req: &RegisterRequest) -> (r: Result<String, AppError>)
    ensures
        match registration_error(req.email@, req.password@, req.display_name@) {
            Some(m) => r is Err && r->Err_0@ == ErrorView::Validation(m),
            None => match r {
                Ok(h) => spec_bcrypt_verify(req.password@, h@) == Some(true),
                Err(e) => e@ is Internal,
            },
        },
{
    req.validate()?;
    match bcrypt_hash(req.password.as_str()) {
        Ok(h) => Ok(h),
        Err(e) => Err(AppError::Internal(bcrypt_error_text(&e))),
    }
}

/// How a login attempt ends: the creator must exist, have a password, and
/// the password must verify against it; an unreadable hash is an internal error.
pub open spec fn login_outcome(creator_found: bool, password_hash: Option<Seq<char>>, password: Seq<char>) -> Option<ErrorView> {
    if !creator_found {
        Some(ErrorView::Unauthorized)
    } else {
        match password_hash {
            None => Some(ErrorView::Unauthorized),
            Some(h) => match spec_bcrypt_verify(password, h) {
                None => Some(ErrorView::Internal(Seq::empty())),
                Some(false) => Some(ErrorView::Unauthorized),
                Some(true) => None,
            },
        }
    }
}

/// Whether two outcomes agree, ignoring the text of an internal error.
pub open spec fn same_outcome(r: Result<(), AppError>, expected: Option<ErrorView>) -> bool {
    match expected {
        None => r is Ok,
        Some(ErrorView::Internal(_)) => r is Err && r->Err_0@ is Internal,
        Some(e) => r is Err && r->Err_0@ == e,
    }
}

/// Checks a login: `creator_found` tells whether the e-mail is registered,
/// `password_hash` is the stored hash of that creator.
pub fn check_login(creator_found: bool, password_hash: Option<&str>, password: &str) -> (r: Result<(), AppError>)
    ensures
        same_outcome(r, login_outcome(creator_found, view_opt_str(password_hash), password@)),
{
    if !creator_found {
        return Err(AppError::Unauthorized);
    }
    let hash = match password_hash {
        Some(h) => h,
        None => return Err(AppError::Unauthorized),
    };
    let answer = match bcrypt_verify(password, hash) {
        Ok(b) => Ok(b),
        Err(e) => Err(bcrypt_error_text(&e)),
    };
    login_verdict(answer)
}

/// How a login ends once bcrypt has answered for the stored hash: `true`
/// logs in, `false` is `Unauthorized`, and an error (an unreadable hash) is
/// an internal error carrying its text.
pub fn login_verdict(answer: Result<bool, String>) -> (r: Result<(), AppError>)
    ensures
        match answer {
            Ok(true) => r is Ok,
            Ok(false) => r is Err && r->Err_0@ == ErrorView::Unauthorized,
            Err(t) => r is Err && r->Err_0@ == ErrorView::Internal(t@),
        },
{
    match answer {
        Ok(true) => Ok(()),
        Ok(false) => Err(AppError::Unauthorized),
        Err(t) => Err(AppError::Internal(t)),
    }
}

/// A password accepted at registration logs in against the hash stored for it.
pub proof fn lemma_registered_password_logs_in(password: Seq<char>, hash: Seq<char>)
    requires
        spec_bcrypt_verify(password, hash) == Some(true),
    ensures
        login_outcome(true, Some(hash), password) is None,
{
}

/// Redis key of the session that holds a creator's current refresh token.
pub open spec fn session_key_spec(user_id: Seq<char>) -> Seq<char> {
    "session:refresh:"@ + user_id
}

/// Redis key that maps a refresh token back to its creator.
pub open spec fn refresh_lookup_key_spec(token: Seq<char>) -> Seq<char> {
    "session:rt:"@ + token
}

/// Key of the session of `user_id`.
pub fn session_key(user_id: &str) -> (r: String)
    ensures
        r@ == session_key_spec(user_id@),
{
    let mut r = String::from_str("session:refresh:");
    r.append(user_id);
    r
}

/// Key of the reverse lookup of a refresh token.
pub fn refresh_lookup_key(token: &str) -> (r: String)
    ensures
        r@ == refresh_lookup_key_spec(token@),
{
    let mut r = String::from_str("session:rt:");
    r.append(token);
    r
}

/// The refresh token a request presents: the body's, else the `tc_refresh`
/// cookie of the `Cookie` header (an absent header reads as empty).
pub open spec fn presented_refresh_token(body: Option<Seq<char>>, cookie_header: Option<Seq<char>>) -> Option<Seq<char>> {
    match body {
        Some(t) => Some(t),
        None => cookie_value(
            match cookie_header {
                Some(h) => h,
                None => Seq::empty(),
            },
            "tc_refresh"@,
        ),
    }
}

/// The refresh token of a request, or `Unauthorized` when it carries none.
pub fn refresh_token_from(body: Option<String>, cookie_header: Option<&str>) -> (r: Result<String, AppError>)
    ensures
        match presented_refresh_token(view_opt_string(body), view_opt_str(cookie_header)) {
            Some(t) => r is Ok && r->Ok_0@ == t,
            None => r is Err && r->Err_0@ == ErrorView::Unauthorized,
        },
{
    match body {
        Some(t) => Ok(t),
        None => {
            let h = match cookie_header {
                Some(h) => h,
                None => "",
            };
            proof {
                reveal_strlit("");
            }
            assert(cookie_header is None ==> h@ =~= Seq::<char>::empty());
            match parse_cookie_value(h, "tc_refresh") {
                Some(v) => Ok(String::from_str(v)),
                None => Err(AppError::Unauthorized),
            }
        },
    }
}

/// How a refresh ends, given the creator the token maps to (`owner`) and the
/// token stored in that creator's session (`stored`): the token must still be
/// the stored one, and the owner must be a UUID.
pub open spec fn refresh_outcome(owner: Option<Seq<char>>, stored: Option<Seq<char>>, presented: Seq<char>) -> Result<u128, ErrorView> {
    match owner {
        None => Err(ErrorView::Unauthorized),
        Some(o) => if stored != Some(presented) {
            Err(ErrorView::Unauthorized)
        } else {
            match spec_parse_uuid(o) {
                Some(id) => Ok(id),
                None => Err(ErrorView::Internal("Invalid user id in session"@)),
            }
        },
    }
}

/// Checks a presented refresh token against its session and yields the creator.
pub fn check_refresh_session(owner: Option<&str>, stored: Option<&str>, presented: &str) -> (r: Result<u128, AppError>)
    ensures
        match refresh_outcome(view_opt_str(owner), view_opt_str(stored), presented@) {
            Ok(id) => r == Ok::<u128, AppError>(id),
            Err(e) => r is Err && r->Err_0@ == e,
        },
{
    let o = match owner {
        Some(o) => o,
        None => return Err(AppError::Unauthorized),
    };
    match stored {
        Some(s) => {
            if !crate::text::str_eq(s, presented) {
                return Err(AppError::Unauthorized);
            }
        },
        None => return Err(AppError::Unauthorized),
    }
    match parse_uuid(o) {
        Some(id) => Ok(id),
        None => Err(AppError::Internal(String::from_str("Invalid user id in session"))),
    }
}

/// Refresh tokens rotate: once the session holds a different token, the old
/// one is refused.
pub proof fn lemma_rotated_token_is_refused(owner: Seq<char>, current: Seq<char>, old: Seq<char>)
    requires
        current != old,
    ensures
        refresh_outcome(Some(owner), Some(current), old) == Err::<u128, ErrorView>(ErrorView::Unauthorized),
{
}

/// The token just stored in a creator's session is accepted for that creator.
pub proof fn lemma_stored_token_is_accepted(id: u128, owner: Seq<char>, token: Seq<char>)
    requires
        spec_parse_uuid(owner) == Some(id),
    ensures
        refresh_outcome(Some(owner), Some(token), token) == Ok::<u128, ErrorView>(id),
{
}

/// The access token a logout request carries in its `tc_token` cookie.
pub fn logout_token<'a>(cookie_header: Option<&'a str>) -> (r: Option<&'a str>)
    ensures
        r is Some <==> cookie_value(
            match cookie_header {
                Some(h) => h@,
                None => Seq::empty(),
            },
            "tc_token"@,
        ) is Some,
        r is Some ==> r->0@ == cookie_value(
            match cookie_header {
                Some(h) => h@,
                None => Seq::empty(),
            },
            "tc_token"@,
        )->0,
{
    let h = match cookie_header {
        Some(h) => h,
        None => "",
    };
    proof {
        reveal_strlit("");
    }
    assert(cookie_header is None ==> h@ =~= Seq::<char>::empty());
    parse_cookie_value(h, "tc_token")
}

/// The answer to a registration once its insert ran: the new row when one
/// was written, or `Conflict` when the e-mail was already registered (the
/// insert then skips the row and returns none).
pub fn registration_outcome<T>(inserted: Option<T>) -> (r: Result<T, AppError>)
    ensures
        match inserted {
            Some(row) => r == Ok::<T, AppError>(row),
            None => r is Err && r->Err_0@ == ErrorView::Conflict("Email already registered"@),
        },
{
    match inserted {
        Some(row) => Ok(row),
        None => Err(AppError::Conflict(String::from_str("Email already registered"))),
    }
}

/// The guard on a token's creator, given the answer of the lookup of its
/// row (`None` when the lookup itself failed). A token whose signature and
/// subject are valid is accepted once the lookup has answered, whether or not
/// the row is there; only a failed lookup refuses the request.
pub fn check_creator_exists(lookup: Option<bool>) -> (r: Result<(), AppError>)
    ensures
        lookup is Some ==> r is Ok,
        lookup is None ==> r is Err && r->Err_0@ == ErrorView::Unauthorized,
{
    match lookup {
        Some(_) => Ok(()),
        None => Err(AppError::Unauthorized),
    }
}

/// One entry of GitHub's e-mail list: whether `primary` and `verified` are
/// JSON `true`, and the `email` field when it is a string.
pub struct GitHubEmail {
    pub primary: bool,
    pub verified: bool,
    pub email: Option<String>,
}

/// Index of the first entry that is both primary and verified, from `i` on.
pub open spec fn first_primary_verified(entries: Seq<GitHubEmail>, i: int) -> Option<int>
    decreases entries.len() - i,
{
    if i < 0 || i >= entries.len() {
        None
    } else if entries[i].primary && entries[i].verified {
        Some(i)
    } else {
        first_primary_verified(entries, i + 1)
    }
}

/// The e-mail of a GitHub account: the profile's when public, else the
/// address of the first primary and verified entry, which must be a string.
pub open spec fn github_email_spec(profile_email: Option<Seq<char>>, entries: Seq<GitHubEmail>) -> Option<Seq<char>> {
    match profile_email {
        Some(e) => Some(e),
        None => match first_primary_verified(entries, 0) {
            Some(i) => view_opt_string(entries[i].email),
            None => None,
        },
    }
}

/// Chooses the e-mail of a GitHub account.
pub fn select_github_email(profile_email: Option<String>, entries: &Vec<GitHubEmail>) -> (r: Result<String, AppError>)
    ensures
        match github_email_spec(view_opt_string(profile_email), entries@) {
            Some(e) => r is Ok && r->Ok_0@ == e,
            None => r is Err && r->Err_0@ == ErrorView::Internal("No verified email found on GitHub"@),
        },
{
    if let Some(e) = profile_email {
        return Ok(e);
    }
    let mut i: usize = 0;
    while i < entries.len()
        invariant
            profile_email is None,
            i <= entries@.len(),
            first_primary_verified(entries@, 0) == first_primary_verified(entries@, i as int),
        decreases entries@.len() - i,
    {
        if entries[i].primary && entries[i].verified {
            return match &entries[i].email {
                Some(e) => Ok(e.clone()),
                None => Err(AppError::Internal(String::from_str("No verified email found on GitHub"))),
            };
        }
        i = i + 1;
    }
    Err(AppError::Internal(String::from_str("No verified email found on GitHub")))
}

/// Display name of a GitHub account: its name, else its login.
pub fn github_display_name(name: Option<String>, login: String) -> (r: String)
    ensures
        r@ == match name {
            Some(n) => n@,
            None => login@,
        },
{
    match name {
        Some(n) => n,
        None => login,
    }
}

} // verus!
