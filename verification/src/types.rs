//! The typed values that travel through the API: request bodies,
//! response payloads, and the form-state records they are built from.
//!
//! Types whose fields are integers or booleans are structural and can
//! stand in contracts directly; the string-bearing ones carry a ghost
//! view (`…V`) over character sequences.

use vstd::prelude::*;

verus! {

use vstd::string::StrSliceExecFns;

/// An opaque numeric identifier, as issued by the server.
#[derive(Debug, Clone, Copy, PartialEq, Eq, Structural, Hash)]
pub struct Snowflake(pub u64);

/// Credentials sent as the body of the login request.
#[derive(Debug, Clone)]
pub struct LoginCredentials {
    pub login: String,
    pub password: String,
}

pub struct LoginCredentialsV {
    pub login: Seq<char>,
    pub password: Seq<char>,
}

impl View for LoginCredentials {
    type V = LoginCredentialsV;

    open spec fn view(&self) -> LoginCredentialsV {
        LoginCredentialsV { login: self.login@, password: self.password@ }
    }
}

/// The login form's state: what the user typed so far.
#[derive(Debug, Clone)]
pub struct LoginInfo {
    pub login: String,
    pub password: String,
}

/// A login form state under the key the login endpoint's callers use.
#[derive(Debug, Clone)]
pub struct LoginInfoWrapper {
    pub user: LoginInfo,
}

impl LoginCredentials {
    /// The credentials that a filled login form stands for.
    pub fn from_login_info(info: LoginInfo) -> (r: LoginCredentials)
        ensures
            r@.login == info.login@,
            r@.password == info.password@,
    {
        LoginCredentials { login: info.login, password: info.password }
    }
}

/// Payload of a successful login: the fresh session token.
#[derive(Debug, Clone, PartialEq, Eq)]
pub struct SessionToken {
    pub token: String,
}

pub struct SessionTokenV {
    pub token: Seq<char>,
}

impl View for SessionToken {
    type V = SessionTokenV;

    open spec fn view(&self) -> SessionTokenV {
        SessionTokenV { token: self.token@ }
    }
}

/// Payload of a rejected login. It carries no data; the rejection
/// itself is the information.
#[derive(Debug, Clone, Copy, PartialEq, Eq, Structural)]
pub struct LoginError {}

/// Payload of the session check: whether the stored credentials still
/// name a valid session.
#[derive(Debug, Clone, Copy, PartialEq, Eq, Structural)]
pub struct CheckResult {
    pub valid: bool,
}

/// The server-side record of one session token.
#[derive(Debug, Clone, Copy, PartialEq, Eq, Structural)]
pub struct TokenRecord {
    pub id: Snowflake,
    /// Expiry instant, in seconds since the Unix epoch.
    pub expires: u64,
}

/// The user a token belongs to.
#[derive(Debug, Clone, PartialEq, Eq)]
pub struct UserRecord {
    pub id: Snowflake,
    pub username: String,
}

pub struct UserRecordV {
    pub id: Snowflake,
    pub username: Seq<char>,
}

impl View for UserRecord {
    type V = UserRecordV;

    open spec fn view(&self) -> UserRecordV {
        UserRecordV { id: self.id, username: self.username@ }
    }
}

/// Everything the server tells about one session: the token record and
/// its owning user.
#[derive(Debug, Clone, PartialEq, Eq)]
pub struct TokenInfo {
    pub token: TokenRecord,
    pub user: UserRecord,
}

pub struct TokenInfoV {
    pub token: TokenRecord,
    pub user: UserRecordV,
}

impl View for TokenInfo {
    type V = TokenInfoV;

    open spec fn view(&self) -> TokenInfoV {
        TokenInfoV { token: self.token, user: self.user@ }
    }
}

/// The registration form's state.
#[derive(Debug, Clone)]
pub struct RegisterInfo {
    pub username: String,
    pub email: String,
    pub password: String,
    pub hcaptcha_response: String,
}

/// Why a registration form could not be turned into a request.
#[derive(Debug, Clone, Copy, PartialEq, Eq, Structural)]
pub enum RegisterError {
    EmailNotValid,
}

/// Body of the registration request.
#[derive(Debug, Clone)]
pub struct RegistrationDetails {
    pub username: String,
    pub email: String,
    pub password: String,
    pub hcaptcha_response: String,
}

pub struct RegistrationDetailsV {
    pub username: Seq<char>,
    pub email: Seq<char>,
    pub password: Seq<char>,
    pub hcaptcha_response: Seq<char>,
}

impl View for RegistrationDetails {
    type V = RegistrationDetailsV;

    open spec fn view(&self) -> RegistrationDetailsV {
        RegistrationDetailsV {
            username: self.username@,
            email: self.email@,
            password: self.password@,
            hcaptcha_response: self.hcaptcha_response@,
        }
    }
}

/// Payload of the registration response.
#[derive(Debug, Clone, PartialEq, Eq)]
pub enum RegistrationResult {
    /// The registration was accepted and awaits confirmation.
    Accepted { id: Snowflake },
    /// A registration for this account is already pending.
    AlreadyPending { id: Snowflake },
    /// The server could not store the registration.
    DatabaseError,
    /// The captcha response was rejected.
    CaptchaFailure { error: String },
}

pub enum RegistrationResultV {
    Accepted { id: Snowflake },
    AlreadyPending { id: Snowflake },
    DatabaseError,
    CaptchaFailure { error: Seq<char> },
}

impl View for RegistrationResult {
    type V = RegistrationResultV;

    open spec fn view(&self) -> RegistrationResultV {
        match self {
            RegistrationResult::Accepted { id } => RegistrationResultV::Accepted { id: *id },
            RegistrationResult::AlreadyPending { id } => RegistrationResultV::AlreadyPending {
                id: *id,
            },
            RegistrationResult::DatabaseError => RegistrationResultV::DatabaseError,
            RegistrationResult::CaptchaFailure { error } => RegistrationResultV::CaptchaFailure {
                error: error@,
            },
        }
    }
}

/// Payload of a pending-registration lookup.
#[derive(Debug, Clone, PartialEq, Eq)]
pub struct PendingRegistration {
    pub id: Snowflake,
    pub username: String,
}

pub struct PendingRegistrationV {
    pub id: Snowflake,
    pub username: Seq<char>,
}

impl View for PendingRegistration {
    type V = PendingRegistrationV;

    open spec fn view(&self) -> PendingRegistrationV {
        PendingRegistrationV { id: self.id, username: self.username@ }
    }
}

/// Body of the registration-confirmation request.
#[derive(Debug, Clone)]
pub struct ConfirmationToken {
    pub token: String,
}

pub struct ConfirmationTokenV {
    pub token: Seq<char>,
}

impl View for ConfirmationToken {
    type V = ConfirmationTokenV;

    open spec fn view(&self) -> ConfirmationTokenV {
        ConfirmationTokenV { token: self.token@ }
    }
}

/// Payload of the registration-confirmation response.
#[derive(Debug, Clone, PartialEq, Eq)]
pub enum ConfirmationResult {
    /// The registration is confirmed; the fresh session token.
    Confirmed { token: String },
    /// The server could not store the confirmation.
    DatabaseError,
    /// The confirmation token was rejected.
    RegistrationConfirmError,
    /// An account with this name already exists.
    UserAlreadyExists,
}

pub enum ConfirmationResultV {
    Confirmed { token: Seq<char> },
    DatabaseError,
    RegistrationConfirmError,
    UserAlreadyExists,
}

impl View for ConfirmationResult {
    type V = ConfirmationResultV;

    open spec fn view(&self) -> ConfirmationResultV {
        match self {
            ConfirmationResult::Confirmed { token } => ConfirmationResultV::Confirmed {
                token: token@,
            },
            ConfirmationResult::DatabaseError => ConfirmationResultV::DatabaseError,
            ConfirmationResult::RegistrationConfirmError => {
                ConfirmationResultV::RegistrationConfirmError
            },
            ConfirmationResult::UserAlreadyExists => ConfirmationResultV::UserAlreadyExists,
        }
    }
}

/// One sleep record: when it began, and when it ended — still open
/// while the user is asleep. Instants are in seconds since the Unix
/// epoch.
#[derive(Debug, Clone, Copy, PartialEq, Eq, Structural)]
pub struct SleepState {
    pub id: Snowflake,
    pub start: u64,
    pub end: Option<u64>,
}

/// What the application knows about the current user.
#[derive(Debug, Clone)]
pub enum UserContext {
    LoggedIn(TokenInfo),
    LoggedOut,
}

/// How many times `c` occurs in `s`.
pub open spec fn count_char(s: Seq<char>, c: char) -> nat
    decreases s.len(),
{
    if s.len() == 0 {
        0
    } else {
        (if s[0] == c {
            1nat
        } else {
            0nat
        }) + count_char(s.drop_first(), c)
    }
}

proof fn lemma_count_char_push(s: Seq<char>, c: char, x: char)
    ensures
        count_char(s.push(x), c) == count_char(s, c) + (if x == c {
            1nat
        } else {
            0nat
        }),
    decreases s.len(),
{
    let t = s.push(x);
    if s.len() == 0 {
        assert(t[0] == x);
        assert(t.drop_first() =~= Seq::<char>::empty());
        assert(count_char(Seq::<char>::empty(), c) == 0);
    } else {
        assert(t[0] == s[0]);
        assert(t.drop_first() =~= s.drop_first().push(x));
        lemma_count_char_push(s.drop_first(), c, x);
    }
}

/// A username is acceptable when it is nonempty.
pub open spec fn spec_valid_username(s: Seq<char>) -> bool {
    s.len() > 0
}

/// A password is acceptable when it is nonempty.
pub open spec fn spec_valid_password(s: Seq<char>) -> bool {
    s.len() > 0
}

/// An email address is acceptable when it holds exactly one `@`, with
/// at least one character on each side of it.
pub open spec fn spec_valid_email(s: Seq<char>) -> bool {
    &&& count_char(s, '@') == 1
    &&& s.len() >= 3
    &&& s[0] != '@'
    &&& s[s.len() - 1] != '@'
}

/// Whether the username typed into the registration form is acceptable.
pub fn validate_user(info: &RegisterInfo) -> (r: bool)
    ensures
        r == spec_valid_username(info.username@),
{
    !info.username.as_str().is_empty()
}

/// Whether the password typed into the registration form is acceptable.
pub fn validate_password(info: &RegisterInfo) -> (r: bool)
    ensures
        r == spec_valid_password(info.password@),
{
    !info.password.as_str().is_empty()
}

/// Whether the email address typed into the registration form is
/// acceptable.
pub fn validate_email(info: &RegisterInfo) -> (r: bool)
    ensures
        r == spec_valid_email(info.email@),
{
    let s = info.email.as_str();
    let n = s.unicode_len();
    if n < 3 {
        return false;
    }
    let mut at_count: usize = 0;
    for i in 0..n
        invariant
            n == s@.len(),
            at_count <= i,
            at_count == count_char(s@.subrange(0, i as int), '@'),
    {
        let c = s.get_char(i);
        proof {
            assert(s@.subrange(0, i as int).push(s@[i as int]) =~= s@.subrange(0, i as int + 1));
            lemma_count_char_push(s@.subrange(0, i as int), '@', s@[i as int]);
        }
        if c == '@' {
            at_count = at_count + 1;
        }
    }
    proof {
        assert(s@.subrange(0, n as int) =~= s@);
    }
    if at_count != 1 {
        return false;
    }
    let first = s.get_char(0);
    let last = s.get_char(n - 1);
    first != '@' && last != '@'
}

impl RegistrationDetails {
    /// Turn a filled registration form into a request body, rejecting
    /// a form whose email address is not acceptable.
    pub fn try_from_info(info: RegisterInfo) -> (r: Result<RegistrationDetails, RegisterError>)
        ensures
            spec_valid_email(info.email@) ==> (r matches Ok(d) && d@ == (RegistrationDetailsV {
                username: info.username@,
                email: info.email@,
                password: info.password@,
                hcaptcha_response: info.hcaptcha_response@,
            })),
            !spec_valid_email(info.email@) ==> r == Err::<RegistrationDetails, RegisterError>(
                RegisterError::EmailNotValid,
            ),
    {
        if validate_email(&info) {
            Ok(
                RegistrationDetails {
                    username: info.username,
                    email: info.email,
                    password: info.password,
                    hcaptcha_response: info.hcaptcha_response,
                },
            )
        } else {
            Err(RegisterError::EmailNotValid)
        }
    }
}

} // verus!
