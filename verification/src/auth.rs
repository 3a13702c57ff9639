//! Who may do what: reading the bearer token of a request, and deciding
//! from a token's claims or from a login whether access is granted.

use vstd::prelude::*;
use crate::models::{opt_count, opt_time};
use crate::text::{clone_opt_text, opt_text};

verus! {

/// Seconds for which a token is good.
pub const TOKEN_SECONDS: i64 = 86_400;

/// A login by name and password, for administrators.
#[derive(Debug)]
pub struct AdminLoginRequest {
    pub username: String,
    pub password: String,
}

/// A login by name and password, for every kind of account.
#[derive(Debug)]
pub struct UnifiedLoginRequest {
    pub username: String,
    pub password: String,
}

/// What a token says about its bearer.
#[derive(Debug)]
pub struct Claims {
    pub sub: String,
    pub username: String,
    pub group_id: i32,
    pub user_status: i32,
    pub exp: usize,
    pub iat: usize,
}

/// What a `Claims` holds, with texts as sequences of characters and
/// numbers as integers.
pub struct ClaimsView {
    pub sub: Seq<char>,
    pub username: Seq<char>,
    pub group_id: int,
    pub user_status: int,
    pub exp: int,
    pub iat: int,
}

impl View for Claims {
    type V = ClaimsView;

    open spec fn view(&self) -> ClaimsView {
        ClaimsView {
            sub: self.sub@,
            username: self.username@,
            group_id: self.group_id as int,
            user_status: self.user_status as int,
            exp: self.exp as int,
            iat: self.iat as int,
        }
    }
}

impl Clone for Claims {
    fn clone(&self) -> (copy: Self)
        ensures
            copy@ == self@,
    {
        Claims {
            sub: self.sub.clone(),
            username: self.username.clone(),
            group_id: self.group_id,
            user_status: self.user_status,
            exp: self.exp,
            iat: self.iat,
        }
    }
}

/// An account. `user_status` is 1 for an account in good standing, and
/// `group_id` is 1 for an administrator.
#[derive(Debug)]
pub struct User {
    pub id: Option<String>,
    pub user_name: String,
    pub user_pwd: String,
    pub group_id: i32,
    pub user_status: i32,
    pub user_nick_name: Option<String>,
    pub user_email: Option<String>,
    pub user_phone: Option<String>,
    pub user_portrait: Option<String>,
    pub user_points: i32,
    pub user_end_time: i64,
    pub vip_level: Option<i32>,
    pub vip_end_time: Option<i64>,
    pub created_at: Option<i64>,
}

/// What a `User` holds, with texts as sequences of characters and
/// numbers as integers.
pub struct UserView {
    pub id: Option<Seq<char>>,
    pub user_name: Seq<char>,
    pub user_pwd: Seq<char>,
    pub group_id: int,
    pub user_status: int,
    pub user_nick_name: Option<Seq<char>>,
    pub user_email: Option<Seq<char>>,
    pub user_phone: Option<Seq<char>>,
    pub user_portrait: Option<Seq<char>>,
    pub user_points: int,
    pub user_end_time: int,
    pub vip_level: Option<int>,
    pub vip_end_time: Option<int>,
    pub created_at: Option<int>,
}

impl View for User {
    type V = UserView;

    open spec fn view(&self) -> UserView {
        UserView {
            id: opt_text(self.id),
            user_name: self.user_name@,
            user_pwd: self.user_pwd@,
            group_id: self.group_id as int,
            user_status: self.user_status as int,
            user_nick_name: opt_text(self.user_nick_name),
            user_email: opt_text(self.user_email),
            user_phone: opt_text(self.user_phone),
            user_portrait: opt_text(self.user_portrait),
            user_points: self.user_points as int,
            user_end_time: self.user_end_time as int,
            vip_level: opt_count(self.vip_level),
            vip_end_time: opt_time(self.vip_end_time),
            created_at: opt_time(self.created_at),
        }
    }
}

impl Clone for User {
    fn clone(&self) -> (copy: Self)
        ensures
            copy@ == self@,
    {
        User {
            id: clone_opt_text(&self.id),
            user_name: self.user_name.clone(),
            user_pwd: self.user_pwd.clone(),
            group_id: self.group_id,
            user_status: self.user_status,
            user_nick_name: clone_opt_text(&self.user_nick_name),
            user_email: clone_opt_text(&self.user_email),
            user_phone: clone_opt_text(&self.user_phone),
            user_portrait: clone_opt_text(&self.user_portrait),
            user_points: self.user_points,
            user_end_time: self.user_end_time,
            vip_level: self.vip_level,
            vip_end_time: self.vip_end_time,
            created_at: self.created_at,
        }
    }
}


/// The access that an operation asks for.
#[derive(Debug, Clone, Copy, PartialEq, Eq, Structural)]
pub enum Access {
    /// Any account in good standing.
    Authenticated,
    /// An administrator in good standing.
    Admin,
}

/// Why access is refused.
#[derive(Debug, Clone, Copy, PartialEq, Eq, Structural)]
pub enum AuthError {
    /// The request carries no authorization header.
    MissingHeader,
    /// The authorization header is no text.
    UnreadableHeader,
    /// The authorization header does not carry a bearer token.
    NotBearer,
    /// The token is not valid.
    InvalidToken,
    /// The account is disabled.
    Disabled,
    /// The account is no administrator.
    NotAdmin,
}

/// How a login ends.
#[derive(Debug, Clone, Copy, PartialEq, Eq, Structural)]
pub enum LoginOutcome {
    /// The login is good; a token is to be issued.
    Granted { is_admin: bool },
    /// Name or password are wrong.
    BadCredentials,
    /// The account is disabled.
    Disabled,
    /// The password could not be checked.
    Failed,
}

/// The text of a refusal.
pub open spec fn auth_error_text(e: AuthError) -> Seq<char> {
    match e {
        AuthError::MissingHeader => "缺少Authorization头"@,
        AuthError::UnreadableHeader => "Authorization头格式错误"@,
        AuthError::NotBearer => "无效的Authorization头格式"@,
        AuthError::InvalidToken => "Invalid token"@,
        AuthError::Disabled => "用户已被禁用"@,
        AuthError::NotAdmin => "需要管理员权限"@,
    }
}

/// The word that introduces a bearer token, with the space after it.
pub open spec fn bearer_prefix() -> Seq<char> {
    seq!['B', 'e', 'a', 'r', 'e', 'r', ' ']
}

/// The token that an authorization header carries: what follows the word
/// `Bearer` and one space, where the header starts with them.
pub open spec fn token_of(header: Seq<char>) -> Option<Seq<char>> {
    if header.len() >= 7 && header.subrange(0, 7) == bearer_prefix() {
        Some(header.subrange(7, header.len() as int))
    } else {
        None
    }
}

/// Why access of a kind is refused to the bearer of claims, if it is: a
/// disabled account gets none, and only an administrator gets an
/// administrator's.
pub open spec fn refusal(claims: ClaimsView, access: Access) -> Option<AuthError> {
    if claims.user_status != 1 {
        Some(AuthError::Disabled)
    } else if access == Access::Admin && claims.group_id != 1 {
        Some(AuthError::NotAdmin)
    } else {
        None
    }
}

/// The account that claims stand for, as far as they say: without
/// password, contact or points, in force until `now`.
pub open spec fn account_of(claims: ClaimsView, now: int) -> UserView {
    UserView {
        id: Some(claims.sub),
        user_name: claims.username,
        user_pwd: Seq::empty(),
        group_id: claims.group_id,
        user_status: claims.user_status,
        user_nick_name: None,
        user_email: None,
        user_phone: None,
        user_portrait: None,
        user_points: 0,
        user_end_time: now,
        vip_level: None,
        vip_end_time: None,
        created_at: None,
    }
}

/// How a login ends, given the account that was found under the name and
/// whether the password matches its hash; `None` for the latter where the
/// check itself failed.
pub open spec fn login_outcome_of(
    account: Option<UserView>,
    password_ok: Option<bool>,
) -> LoginOutcome {
    match account {
        None => LoginOutcome::BadCredentials,
        Some(user) => match password_ok {
            None => LoginOutcome::Failed,
            Some(false) => LoginOutcome::BadCredentials,
            Some(true) => if user.user_status != 1 {
                LoginOutcome::Disabled
            } else {
                LoginOutcome::Granted { is_admin: user.group_id == 1 }
            },
        },
    }
}

/// What bcrypt says of a password and a hash: whether they match, or
/// nothing where the hash cannot be read.
pub uninterp spec fn bcrypt_verdict(password: Seq<char>, hash: Seq<char>) -> Option<bool>;

/// The error of `bcrypt::verify`, carried through as a value of which
/// nothing is known.
#[verifier::external_type_specification]
#[verifier::external_body]
pub struct ExBcryptError(bcrypt::BcryptError);

/// Calls `bcrypt::verify`. Trusted: the outcome depends on the password and
/// the hash alone; an error means that the hash could not be read.
#[verifier::external_body]
fn bcrypt_verify(password: &str, hash: &str) -> (r: Result<bool, bcrypt::BcryptError>)
    ensures
        match r {
            Ok(ok) => bcrypt_verdict(password@, hash@) == Some(ok),
            Err(_) => bcrypt_verdict(password@, hash@) is None,
        },
{
    bcrypt::verify(password, hash)
}

impl AuthError {
    /// The refusal as text.
    pub fn message(&self) -> (m: String)
        ensures
            m@ == auth_error_text(*self),
    {
        match self {
            AuthError::MissingHeader => String::from_str("缺少Authorization头"),
            AuthError::UnreadableHeader => String::from_str("Authorization头格式错误"),
            AuthError::NotBearer => String::from_str("无效的Authorization头格式"),
            AuthError::InvalidToken => String::from_str("Invalid token"),
            AuthError::Disabled => String::from_str("用户已被禁用"),
            AuthError::NotAdmin => String::from_str("需要管理员权限"),
        }
    }
}

/// Reads the bearer token out of an authorization header.
pub fn bearer_token(header: &str) -> (token: Option<String>)
    ensures
        opt_text(token) == token_of(header@),
{
    let len = header.unicode_len();
    if len < 7 {
        return None;
    }
    let starts = header.get_char(0) == 'B' && header.get_char(1) == 'e' && header.get_char(2)
        == 'a' && header.get_char(3) == 'r' && header.get_char(4) == 'e' && header.get_char(5)
        == 'r' && header.get_char(6) == ' ';
    if starts {
        assert(header@.subrange(0, 7) =~= bearer_prefix());
        Some(String::from_str(header.substring_char(7, len)))
    } else {
        assert(header@.subrange(0, 7) != bearer_prefix()) by {
            let head = header@.subrange(0, 7);
            if head == bearer_prefix() {
                assert(head[0] == 'B' && head[1] == 'e' && head[2] == 'a' && head[3] == 'r'
                    && head[4] == 'e' && head[5] == 'r' && head[6] == ' ');
            }
        }
        None
    }
}

/// Reads the bearer token out of a request's authorization header, where
/// it has one.
pub fn token_from_header(header: Option<&str>) -> (r: Result<String, AuthError>)
    ensures
        header is None ==> r == Err::<String, AuthError>(AuthError::MissingHeader),
        header matches Some(h) ==> match token_of(h@) {
            Some(t) => r matches Ok(token) && token@ == t,
            None => r == Err::<String, AuthError>(AuthError::NotBearer),
        },
{
    match header {
        None => Err(AuthError::MissingHeader),
        Some(h) => match bearer_token(h) {
            Some(token) => Ok(token),
            None => Err(AuthError::NotBearer),
        },
    }
}

/// Grants or refuses access of a kind to the bearer of claims.
pub fn authorize(claims: &Claims, access: Access) -> (r: Result<(), AuthError>)
    ensures
        match refusal(claims@, access) {
            Some(e) => r == Err::<(), AuthError>(e),
            None => r is Ok,
        },
{
    if claims.user_status != 1 {
        Err(AuthError::Disabled)
    } else {
        match access {
            Access::Admin => {
                if claims.group_id != 1 {
                    Err(AuthError::NotAdmin)
                } else {
                    Ok(())
                }
            },
            Access::Authenticated => Ok(()),
        }
    }
}

/// Whether the bearer of claims is an administrator in good standing.
pub fn is_admin_user(claims: &Claims) -> (admin: bool)
    ensures
        admin == (refusal(claims@, Access::Admin) is None),
{
    claims.user_status == 1 && claims.group_id == 1
}

/// Whether the bearer of claims is an account in good standing.
pub fn is_authenticated_user(claims: &Claims) -> (ok: bool)
    ensures
        ok == (refusal(claims@, Access::Authenticated) is None),
{
    claims.user_status == 1
}

/// The account that claims stand for.
pub fn get_user_from_token(claims: &Claims, now: i64) -> (user: User)
    ensures
        user@ == account_of(claims@, now as int),
{
    User {
        id: Some(claims.sub.clone()),
        user_name: claims.username.clone(),
        user_pwd: String::new(),
        group_id: claims.group_id,
        user_status: claims.user_status,
        user_nick_name: None,
        user_email: None,
        user_phone: None,
        user_portrait: None,
        user_points: 0,
        user_end_time: now,
        vip_level: None,
        vip_end_time: None,
        created_at: None,
    }
}

/// Decides how a login ends.
pub fn login_outcome(account: &Option<User>, password_ok: Option<bool>) -> (outcome: LoginOutcome)
    ensures
        outcome == login_outcome_of(
            match *account {
                Some(u) => Some(u@),
                None => None,
            },
            password_ok,
        ),
{
    match account {
        None => LoginOutcome::BadCredentials,
        Some(user) => match password_ok {
            None => LoginOutcome::Failed,
            Some(false) => LoginOutcome::BadCredentials,
            Some(true) => {
                if user.user_status != 1 {
                    LoginOutcome::Disabled
                } else {
                    LoginOutcome::Granted { is_admin: user.group_id == 1 }
                }
            },
        },
    }
}

/// Checks a password against the account that was found under the name
/// and decides how the login ends. Without an account the password is not
/// looked at.
pub fn check_login(account: &Option<User>, password: &str) -> (outcome: LoginOutcome)
    ensures
        outcome == match *account {
            Some(user) => login_outcome_of(
                Some(user@),
                bcrypt_verdict(password@, user@.user_pwd),
            ),
            None => LoginOutcome::BadCredentials,
        },
{
    match account {
        None => login_outcome(account, None),
        Some(user) => {
            let password_ok = match bcrypt_verify(password, user.user_pwd.as_str()) {
                Ok(ok) => Some(ok),
                Err(_) => None,
            };
            login_outcome(account, password_ok)
        },
    }
}

/// The time of issue that a token carries: `now`, counted from the epoch
/// where it lies before it, and held within what the token can count.
pub open spec fn issued_at(now: int) -> int {
    let from_epoch = if now < 0 {
        0
    } else {
        now
    };
    if from_epoch > usize::MAX {
        usize::MAX as int
    } else {
        from_epoch
    }
}

/// The time of expiry that a token carries: a day after its issue, held
/// within what the clock and the token can count.
pub open spec fn expires_at(now: int) -> int {
    let from_epoch = if now < 0 {
        0
    } else {
        now
    };
    let a_day_on = if from_epoch + TOKEN_SECONDS > i64::MAX {
        i64::MAX as int
    } else {
        from_epoch + TOKEN_SECONDS
    };
    if a_day_on > usize::MAX {
        usize::MAX as int
    } else {
        a_day_on
    }
}

/// The claims of a token issued at `now_seconds` for an account with the
/// given identifier: good for a day.
pub fn generate_token_claims(
    user_id: &str,
    user_name: &str,
    group_id: i32,
    user_status: i32,
    now_seconds: i64,
) -> (claims: Claims)
    ensures
        claims@ == (ClaimsView {
            sub: user_id@,
            username: user_name@,
            group_id: group_id as int,
            user_status: user_status as int,
            exp: expires_at(now_seconds as int),
            iat: issued_at(now_seconds as int),
        }),
{
    let issued: i64 = if now_seconds < 0 {
        0
    } else {
        now_seconds
    };
    let expires: i64 = match issued.checked_add(TOKEN_SECONDS) {
        Some(t) => t,
        None => i64::MAX,
    };
    let iat: usize = if issued as u64 > usize::MAX as u64 {
        usize::MAX
    } else {
        issued as usize
    };
    let exp: usize = if expires as u64 > usize::MAX as u64 {
        usize::MAX
    } else {
        expires as usize
    };
    Claims {
        sub: String::from_str(user_id),
        username: String::from_str(user_name),
        group_id,
        user_status,
        exp,
        iat,
    }
}

} // verus!
