use black_rose_auth_api::auth::permissions::{require_permissions, UserLookup};
use black_rose_auth_api::auth::route::auth::{
    affiliation_is_stale, callback_redirect, callback_state_is_valid, check_admin_setup,
    login_owner, login_redirect_url, logout_redirect, LoginOwner, MissingSetting,
};
use black_rose_auth_api::auth::route::groups::Reply;
use black_rose_auth_api::auth::route::user::{user_character_ids, user_id_from_session};
use black_rose_auth_api::auth::seed::{
    admin_login_link, create_admin, generate_random_string, AdminSetup,
};
use black_rose_auth_api::clock::{elapsed_more_than, Timestamp};
use black_rose_auth_api::controller::user::get_user_permissions;
use black_rose_auth_api::entity::auth_permission::Model as Permission;
use black_rose_auth_api::entity::auth_user_character_ownership::Model as Ownership;
use black_rose_auth_api::text::{character_id_from_subject, parse_i32};

fn domain(d: &str) -> Option<String> {
    Some(d.to_string())
}

#[test]
fn the_subject_names_the_character() {
    assert_eq!(character_id_from_subject("CHARACTER:EVE:2118500443"), Some(2118500443));
    assert_eq!(character_id_from_subject("CHARACTER:EVE"), None);
    assert_eq!(character_id_from_subject("CHARACTER:EVE:abc"), None);
}

#[test]
fn numbers_parse_as_str_parse_does() {
    assert_eq!(parse_i32("98755820"), Some(98755820));
    assert_eq!(parse_i32("-42"), Some(-42));
    assert_eq!(parse_i32("+7"), Some(7));
    assert_eq!(parse_i32("2147483647"), Some(i32::MAX));
    assert_eq!(parse_i32("-2147483648"), Some(i32::MIN));
    assert_eq!(parse_i32("2147483648"), None);
    assert_eq!(parse_i32(""), None);
    assert_eq!(parse_i32("-"), None);
    assert_eq!(parse_i32("12a"), None);
    assert_eq!(parse_i32(" 1"), None);
    for s in ["0", "17", "-99011657", "+0012"] {
        assert_eq!(parse_i32(s), s.parse::<i32>().ok());
    }
}

#[test]
fn login_goes_back_to_the_callback() {
    assert_eq!(login_redirect_url("localhost:8080"), "http://localhost:8080/auth/callback");
}

#[test]
fn admin_setup_codes() {
    let stored = domain("Abc123");
    assert_eq!(check_admin_setup(&None, &stored), Ok(false));
    assert_eq!(check_admin_setup(&domain("Abc123"), &stored), Ok(true));
    let refusal = Reply {
        status: 403,
        message: "Invalid admin authorization code, restart your application to get a new one.",
    };
    assert_eq!(check_admin_setup(&domain("abc123"), &stored), Err(refusal));
    assert_eq!(check_admin_setup(&domain("Abc123"), &None), Err(refusal));
}

#[test]
fn the_callback_state_must_match_the_session() {
    assert!(callback_state_is_valid(&domain("s1"), &"s1".to_string()));
    assert!(!callback_state_is_valid(&domain("s1"), &"s2".to_string()));
    assert!(!callback_state_is_valid(&None, &"s1".to_string()));
}

#[test]
fn affiliations_go_stale_after_an_hour() {
    let then = Timestamp { secs: 1_000, nanos: 0 };
    assert!(!affiliation_is_stale(Timestamp { secs: 4_600, nanos: 0 }, then));
    assert!(affiliation_is_stale(Timestamp { secs: 4_600, nanos: 1 }, then));
    assert!(elapsed_more_than(Timestamp { secs: 10, nanos: 5 }, Timestamp { secs: 9, nanos: 4 }, 1));
    assert!(!elapsed_more_than(Timestamp { secs: 10, nanos: 5 }, Timestamp { secs: 9, nanos: 5 }, 1));
}

#[test]
fn who_logs_in() {
    assert_eq!(matches!(login_owner(Some(4), None), LoginOwner::SessionUser(4)), true);
    let known = Ownership { id: 1, user_id: 9, character_id: 2118500443, ownerhash: "h".to_string(), main: true };
    match login_owner(None, Some(known)) {
        LoginOwner::Known(o) => assert_eq!(o.user_id, 9),
        _ => panic!("expected the known owner"),
    }
    assert!(matches!(login_owner(None, None), LoginOwner::NewUser));
}

#[test]
fn redirects_after_login_and_logout() {
    let front = domain("auth.example.com");
    let back = domain("api.example.com");
    assert_eq!(
        callback_redirect(&front, &back, false, Some(true), false),
        Ok(("http://auth.example.com/settings".to_string(), true))
    );
    assert_eq!(
        callback_redirect(&front, &back, false, Some(true), true),
        Ok(("http://auth.example.com/".to_string(), false))
    );
    assert_eq!(
        callback_redirect(&domain(""), &back, true, None, false),
        Ok(("http://api.example.com/docs".to_string(), false))
    );
    assert_eq!(callback_redirect(&None, &None, true, None, false), Err(MissingSetting::BackendDomain));
    assert_eq!(callback_redirect(&None, &back, false, None, false), Err(MissingSetting::FrontendDomain));
    assert_eq!(logout_redirect(&front, &back, false), Ok((307, "http://auth.example.com/login".to_string())));
    assert_eq!(logout_redirect(&None, &back, true), Ok((307, "http://api.example.com/docs".to_string())));
    assert_eq!(logout_redirect(&None, &back, false), Err(MissingSetting::FrontendDomain));
}

#[test]
fn only_admins_pass() {
    assert_eq!(require_permissions(Some(3), UserLookup::Found { admin: true }), Ok(3));
    assert_eq!(
        require_permissions(Some(3), UserLookup::Found { admin: false }),
        Err(Reply { status: 403, message: "Insufficient permissions" })
    );
    assert_eq!(
        require_permissions(None, UserLookup::Found { admin: true }),
        Err(Reply { status: 404, message: "User not found" })
    );
    assert_eq!(
        require_permissions(Some(3), UserLookup::Missing),
        Err(Reply { status: 404, message: "User not found" })
    );
    assert_eq!(
        require_permissions(Some(3), UserLookup::Failed),
        Err(Reply { status: 500, message: "There was an issue getting user info" })
    );
}

#[test]
fn random_codes_are_alphanumeric() {
    for _ in 0..20 {
        let code = generate_random_string();
        assert!((20..=64).contains(&code.len()));
        assert!(code.chars().all(|c| c.is_ascii_alphanumeric()));
    }
    let a = generate_random_string();
    let b = generate_random_string();
    let c = generate_random_string();
    assert!(a != b || b != c);
}

#[test]
fn start_up_admin_setup() {
    for debug in [false, true] {
        match create_admin(0, debug) {
            AdminSetup::IssueSetupCode { code, expires_in_seconds } => {
                assert!((20..=64).contains(&code.len()));
                assert!(code.chars().all(|c| c.is_ascii_alphanumeric()));
                assert_eq!(expires_in_seconds, 300);
            }
            other => panic!("expected a setup code, got {:?}", other),
        }
    }
    assert!(matches!(create_admin(2, true), AdminSetup::ShowLoginLink));
    assert!(matches!(create_admin(2, false), AdminSetup::Nothing));
    assert_eq!(
        admin_login_link("localhost:8080", "Xy9"),
        "http://localhost:8080/auth/login?admin_setup=Xy9"
    );
}

#[test]
fn permission_names() {
    let permissions = vec![
        Permission { id: 1, module: "auth".to_string(), name: "admin".to_string(), hidden: false },
        Permission { id: 2, module: "groups".to_string(), name: "edit".to_string(), hidden: true },
    ];
    assert_eq!(get_user_permissions(&permissions), vec!["auth.admin".to_string(), "groups.edit".to_string()]);
}

#[test]
fn the_session_user() {
    assert_eq!(user_id_from_session(&Some("12".to_string())), Some(12));
    assert_eq!(user_id_from_session(&None), None);
}

#[test]
fn user_characters_are_listed_once() {
    assert_eq!(user_character_ids(&vec![]), None);
    let rows = vec![
        Ownership { id: 1, user_id: 9, character_id: 2118500443, ownerhash: "a".to_string(), main: true },
        Ownership { id: 2, user_id: 9, character_id: 2122013871, ownerhash: "b".to_string(), main: false },
        Ownership { id: 3, user_id: 9, character_id: 2118500443, ownerhash: "c".to_string(), main: false },
    ];
    let mut ids = user_character_ids(&rows).unwrap();
    ids.sort();
    assert_eq!(ids, vec![2118500443, 2122013871]);
}
