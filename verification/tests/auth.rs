use maccms_jobs::auth::{
    authorize, check_login, bearer_token, generate_token_claims, get_user_from_token, is_admin_user,
    is_authenticated_user, login_outcome, token_from_header, Access, AuthError, Claims,
    LoginOutcome, TOKEN_SECONDS,
};

fn claims(group_id: i32, user_status: i32) -> Claims {
    Claims {
        sub: "0123456789abcdef01234567".to_string(),
        username: "ada".to_string(),
        group_id,
        user_status,
        exp: 2_000,
        iat: 1_000,
    }
}

#[test]
fn bearer_token_is_what_follows_the_prefix() {
    assert_eq!(bearer_token("Bearer abc.def.ghi").as_deref(), Some("abc.def.ghi"));
    assert_eq!(bearer_token("Bearer ").as_deref(), Some(""));
    assert_eq!(bearer_token("Bearer  two").as_deref(), Some(" two"));
    assert_eq!(bearer_token("Bearer tökén").as_deref(), Some("tökén"));
    assert_eq!(bearer_token("bearer abc"), None);
    assert_eq!(bearer_token("Bearer"), None);
    assert_eq!(bearer_token("Basic abc"), None);
    assert_eq!(bearer_token(""), None);
    assert_eq!(bearer_token(" Bearer abc"), None);
    assert_eq!(bearer_token("Bearér abc"), None);
}

#[test]
fn token_from_header_says_what_is_wrong() {
    assert_eq!(token_from_header(None), Err(AuthError::MissingHeader));
    assert_eq!(token_from_header(Some("Token x")), Err(AuthError::NotBearer));
    assert_eq!(token_from_header(Some("Bearer x")), Ok("x".to_string()));
}

#[test]
fn disabled_account_gets_no_access() {
    assert_eq!(authorize(&claims(1, 0), Access::Admin), Err(AuthError::Disabled));
    assert_eq!(authorize(&claims(1, 0), Access::Authenticated), Err(AuthError::Disabled));
    assert_eq!(authorize(&claims(2, 2), Access::Admin), Err(AuthError::Disabled));
    assert!(!is_admin_user(&claims(1, 0)));
    assert!(!is_authenticated_user(&claims(1, 0)));
}

#[test]
fn only_group_one_is_admin() {
    assert_eq!(authorize(&claims(1, 1), Access::Admin), Ok(()));
    assert_eq!(authorize(&claims(2, 1), Access::Admin), Err(AuthError::NotAdmin));
    assert_eq!(authorize(&claims(0, 1), Access::Admin), Err(AuthError::NotAdmin));
    assert_eq!(authorize(&claims(2, 1), Access::Authenticated), Ok(()));
    assert!(is_admin_user(&claims(1, 1)));
    assert!(!is_admin_user(&claims(2, 1)));
    assert!(is_authenticated_user(&claims(2, 1)));
}

#[test]
fn account_is_rebuilt_from_claims() {
    let user = get_user_from_token(&claims(3, 1), 77);
    assert_eq!(user.id.as_deref(), Some("0123456789abcdef01234567"));
    assert_eq!(user.user_name, "ada");
    assert_eq!(user.user_pwd, "");
    assert_eq!(user.group_id, 3);
    assert_eq!(user.user_status, 1);
    assert_eq!(user.user_points, 0);
    assert_eq!(user.user_end_time, 77);
    assert_eq!(user.user_email, None);
    assert_eq!(user.vip_level, None);
    assert_eq!(user.created_at, None);
}

#[test]
fn login_outcomes() {
    let admin = get_user_from_token(&claims(1, 1), 0);
    let plain = get_user_from_token(&claims(2, 1), 0);
    let disabled = get_user_from_token(&claims(1, 0), 0);
    assert_eq!(login_outcome(&None, Some(true)), LoginOutcome::BadCredentials);
    assert_eq!(login_outcome(&None, None), LoginOutcome::BadCredentials);
    assert_eq!(login_outcome(&Some(admin.clone()), Some(false)), LoginOutcome::BadCredentials);
    assert_eq!(login_outcome(&Some(admin.clone()), None), LoginOutcome::Failed);
    assert_eq!(login_outcome(&Some(admin), Some(true)), LoginOutcome::Granted { is_admin: true });
    assert_eq!(login_outcome(&Some(plain), Some(true)), LoginOutcome::Granted { is_admin: false });
    assert_eq!(login_outcome(&Some(disabled.clone()), Some(true)), LoginOutcome::Disabled);
    // A wrong password is reported before the state of the account.
    assert_eq!(login_outcome(&Some(disabled), Some(false)), LoginOutcome::BadCredentials);
}

#[test]
fn token_is_good_for_a_day() {
    assert_eq!(TOKEN_SECONDS, 86_400);
    let c = generate_token_claims("0123456789abcdef01234567", "ada", 1, 1, 1_700_000_000);
    assert_eq!(c.sub, "0123456789abcdef01234567");
    assert_eq!(c.username, "ada");
    assert_eq!(c.group_id, 1);
    assert_eq!(c.user_status, 1);
    assert_eq!(c.iat, 1_700_000_000);
    assert_eq!(c.exp, 1_700_086_400);
    let early = generate_token_claims("id", "n", 2, 0, -5);
    assert_eq!(early.iat, 0);
    assert_eq!(early.exp, 86_400);
    let late = generate_token_claims("id", "n", 2, 0, i64::MAX);
    assert_eq!(late.iat as u128, (i64::MAX as u128).min(usize::MAX as u128));
    assert_eq!(late.exp, late.iat);
    let day_before = generate_token_claims("id", "n", 2, 0, i64::MAX - 86_400);
    assert_eq!(day_before.exp as u128, (i64::MAX as u128).min(usize::MAX as u128));
}

#[test]
fn auth_error_messages() {
    assert_eq!(AuthError::MissingHeader.message(), "缺少Authorization头");
    assert_eq!(AuthError::UnreadableHeader.message(), "Authorization头格式错误");
    assert_eq!(AuthError::NotBearer.message(), "无效的Authorization头格式");
    assert_eq!(AuthError::InvalidToken.message(), "Invalid token");
    assert_eq!(AuthError::Disabled.message(), "用户已被禁用");
    assert_eq!(AuthError::NotAdmin.message(), "需要管理员权限");
}

#[test]
fn login_checks_the_password_against_the_stored_hash() {
    let mut user = get_user_from_token(&claims(1, 1), 0);
    user.user_pwd = "$2a$04$UuTkLRZZ6QofpDOlMz32MuuxEHA43WOemOYHPz6.SjsVsyO1tDU96".to_string();
    let account = Some(user);
    assert_eq!(check_login(&account, "password"), LoginOutcome::Granted { is_admin: true });
    assert_eq!(check_login(&account, "Password"), LoginOutcome::BadCredentials);
    assert_eq!(check_login(&account, ""), LoginOutcome::BadCredentials);
    assert_eq!(check_login(&None, "password"), LoginOutcome::BadCredentials);
}

#[test]
fn login_fails_where_the_hash_cannot_be_read() {
    let mut user = get_user_from_token(&claims(2, 1), 0);
    user.user_pwd = "password".to_string();
    assert_eq!(check_login(&Some(user.clone()), "password"), LoginOutcome::Failed);
    user.user_pwd = String::new();
    assert_eq!(check_login(&Some(user), ""), LoginOutcome::Failed);
}

#[test]
fn login_of_a_disabled_account_is_refused_after_the_password() {
    let mut user = get_user_from_token(&claims(2, 0), 0);
    user.user_pwd = "$2b$04$EGdrhbKUv8Oc9vGiXX0HQOxSg445d458Muh7DAHskb6QbtCvdxcie".to_string();
    assert_eq!(
        check_login(&Some(user.clone()), "correctbatteryhorsestapler"),
        LoginOutcome::Disabled
    );
    assert_eq!(check_login(&Some(user), "wrong"), LoginOutcome::BadCredentials);
}
