use mindone_coordinator::error::ApiError;
use mindone_coordinator::ids::Uuid;
use mindone_coordinator::web_auth::{
    check_account, check_bound, check_consumed, check_password, check_registered,
    new_one_time_token, normalize_email, normalize_user_code, one_time_token, plan_verification,
    valid_verification_token, validate_login, validate_password_input, validate_registration,
    verification_url, verify_email_page, EmailAccount, LoginForm, RegisterForm, StoredVerification,
    VerificationPage, VerificationStep, VerifyEmailToken, VERIFICATION_PREFIX,
};

const TOKEN: &str = "mnev_AAAAAAAAAAAAAAAAAAAAAAAAAAAAAAAAAAAAAAAAAAA";

#[test]
fn registration_normalizes_bounded_inputs_without_accepting_controls() {
    let form = RegisterForm {
        email: " Alice@Example.COM ".to_owned(),
        username: "爱丽丝".to_owned(),
        password: "correct horse".to_owned(),
        password_confirm: "correct horse".to_owned(),
    };
    let (email, username) = validate_registration(&form).expect("合法注册输入应通过");
    assert_eq!(email, "alice@example.com");
    assert_eq!(username, "爱丽丝");

    let mut invalid = form;
    invalid.username = "bad\nname".to_owned();
    assert!(validate_registration(&invalid).is_err());
}

#[test]
fn email_and_login_payload_are_strict() {
    assert!(normalize_email("missing-at.example.com").is_err());
    assert!(normalize_email("a@localhost").is_err());
    let mut payload = vec![
        ("email".to_owned(), "a@example.com".to_owned()),
        ("password".to_owned(), "password".to_owned()),
        ("user_code".to_owned(), "ABCDEF123456".to_owned()),
    ];
    assert!(LoginForm::from_members(&payload).is_some());
    payload.push(("access_token".to_owned(), "must-not-be-accepted".to_owned()));
    assert!(LoginForm::from_members(&payload).is_none());
}

#[test]
fn forms_have_their_fields_once_each() {
    let field = |name: &str, value: &str| (name.to_owned(), value.to_owned());
    let whole = vec![
        field("password_confirm", "d"),
        field("email", "a"),
        field("username", "b"),
        field("password", "c"),
    ];
    let form = RegisterForm::from_members(&whole).expect("complete");
    assert_eq!(form.email, "a");
    assert_eq!(form.username, "b");
    assert_eq!(form.password, "c");
    assert_eq!(form.password_confirm, "d");
    let twice = vec![
        field("email", "a"),
        field("email", "a"),
        field("username", "b"),
        field("password", "c"),
    ];
    assert!(RegisterForm::from_members(&twice).is_none());
}

#[test]
fn email_user_code_is_canonical_and_bounded() {
    assert_eq!(
        normalize_user_code(" abcd-ef12-3456 ").expect("可读分组用户码应规范化"),
        "ABCDEF123456"
    );
    assert!(normalize_user_code("ABCDEF12345").is_err());
    assert!(normalize_user_code("ABCDEF12345Z").is_err());
    assert!(normalize_user_code("ABCDEF\n123456").is_err());
}

#[test]
fn email_verification_token_shape_is_strict() {
    assert!(valid_verification_token(
        "mnev_AAAAAAAAAAAAAAAAAAAAAAAAAAAAAAAAAAAAAAAAAAA"
    ));
    assert!(!valid_verification_token(
        "mnev_AAAAAAAAAAAAAAAAAAAAAAAAAAAAAAAAAAAAAAAAAA"
    ));
    assert!(!valid_verification_token(
        "mnev_AAAAAAAAAAAAAAAAAAAAAAAAAAAAAAAAAAAAAAAAAA!"
    ));
    assert!(!valid_verification_token(
        "otherAAAAAAAAAAAAAAAAAAAAAAAAAAAAAAAAAAAAAAAAAAA"
    ));
}

#[test]
fn verification_get_only_renders_an_explicit_post_confirmation() {
    let token = "mnev_AAAAAAAAAAAAAAAAAAAAAAAAAAAAAAAAAAAAAAAAAAA";
    match verify_email_page(&Some(VerifyEmailToken { token: token.to_owned() })) {
        VerificationPage::Confirm { html } => {
            assert!(html.len() <= 16 * 1024);
            assert!(html.contains("method=\"post\""));
            assert!(html.contains("action=\"/auth/verify-email\""));
            assert!(html.contains(token));
            assert!(!html.contains("邮箱验证成功"));
        }
        VerificationPage::Refused { message } => panic!("{message}"),
    }
    assert!(matches!(
        verify_email_page(&Some(VerifyEmailToken { token: "bad".to_owned() })),
        VerificationPage::Refused { .. }
    ));
}

#[test]
fn verification_query_rejections_are_chinese_and_bounded() {
    for members in [Vec::new(), vec![("unknown".to_owned(), "value".to_owned())]] {
        match verify_email_page(&VerifyEmailToken::from_members(&members)) {
            VerificationPage::Refused { message } => {
                assert!(message.len() <= 1024);
                assert_eq!(message, "邮箱验证请求格式无效");
            }
            VerificationPage::Confirm { html } => panic!("{html}"),
        }
    }
}

#[test]
fn emails_are_bounded() {
    assert_eq!(normalize_email("a@b.cd"), Ok("a@b.cd".to_owned()));
    assert_eq!(normalize_email(" A@B.CD "), normalize_email("a@b.cd"));
    assert!(normalize_email("").is_err());
    assert!(normalize_email("@b.cd").is_err());
    assert!(normalize_email("a@.cd").is_err());
    assert!(normalize_email("a@b.cd.").is_err());
    assert!(normalize_email("a b@c.de").is_err());
    assert!(normalize_email(&format!("{}@b.cd", "a".repeat(254))).is_err());
}

#[test]
fn passwords_are_bounded_and_confirmed() {
    assert!(validate_password_input("1234567").is_err());
    assert_eq!(validate_password_input("12345678"), Ok(()));
    assert_eq!(validate_password_input(&"a".repeat(1_024)), Ok(()));
    assert!(validate_password_input(&"a".repeat(1_025)).is_err());
    assert!(validate_registration(&RegisterForm {
        email: "a@b.cd".to_owned(),
        username: "name".to_owned(),
        password: "correct horse".to_owned(),
        password_confirm: "correct house".to_owned(),
    })
    .is_err());
}

#[test]
fn tokens_are_random_and_well_formed() {
    assert_eq!(one_time_token(VERIFICATION_PREFIX, &[0; 32]), TOKEN);
    let first = new_one_time_token(VERIFICATION_PREFIX).expect("randomness");
    let second = new_one_time_token(VERIFICATION_PREFIX).expect("randomness");
    assert!(valid_verification_token(&first));
    assert_ne!(first, second);
    assert_eq!(
        verification_url("https://mind.one", "t"),
        "https://mind.one/auth/verify-email?token=t"
    );
}

#[test]
fn tokens_confirm_one_address_once() {
    let stored = |expires_at, used| Some(StoredVerification { expires_at, used });
    assert_eq!(plan_verification(TOKEN, &stored(2, false), 1), VerificationStep::Consume);
    assert_eq!(plan_verification(TOKEN, &stored(2, true), 1), VerificationStep::AlreadyVerified);
    assert_eq!(plan_verification(TOKEN, &stored(1, false), 1), VerificationStep::Expired);
    assert_eq!(plan_verification(TOKEN, &None, 1), VerificationStep::Invalid);
    assert_eq!(plan_verification("bad", &stored(2, false), 1), VerificationStep::Invalid);
    assert_eq!(check_consumed(1), Ok(()));
    assert!(check_consumed(0).is_err());
    assert_eq!(check_registered(1), Ok(()));
    assert!(check_registered(0).is_err());
}

#[test]
fn logins_take_a_verified_account_and_its_password() {
    let form = LoginForm {
        email: " A@B.CD".to_owned(),
        password: "correct horse".to_owned(),
        user_code: "abcdef123456".to_owned(),
    };
    assert_eq!(validate_login(&form), Ok(("a@b.cd".to_owned(), "ABCDEF123456".to_owned())));
    let id = Uuid::from_u128(1);
    let account = |has_password, verified| {
        Some(EmailAccount { user_id: id, has_password, verified })
    };
    assert_eq!(check_account(&account(true, true)), Ok(id));
    assert!(check_account(&account(true, false)).is_err());
    assert!(check_account(&account(false, true)).is_err());
    assert!(check_account(&None).is_err());
    assert_eq!(check_password(true, id, Some(id)), Ok(()));
    assert!(check_password(false, id, Some(id)).is_err());
    assert!(check_password(true, id, None).is_err());
    assert_eq!(check_bound(1), Ok(()));
    assert!(matches!(
        check_bound(0),
        Err(ApiError::BadRequest { .. } | ApiError::Conflict { .. } | ApiError::Authentication { .. })
    ));
}
