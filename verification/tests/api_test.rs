use realtime_svg::api::auth_token::{password_check_outcome, validate_token_request, TokenRequest};
use realtime_svg::api::session::{
    apply_update, get_session_response, prepare_create_session, CreateBody,
};
use realtime_svg::api::user::{
    default_ttl, prepare_create_user_session, sessions_list_response, user_session_response,
    CreateSessionRequest,
};
use realtime_svg::args::ArgMap;
use realtime_svg::errors::ApiError;
use realtime_svg::session_data::SessionData;

fn args_one(key: &str, value_json: &str) -> ArgMap {
    let mut args = ArgMap::new();
    args.insert(key.to_string(), value_json.to_string());
    args
}

fn create_body(session_id: &str, expire: Option<&str>) -> CreateBody {
    CreateBody {
        session_id: session_id.to_string(),
        template: "<svg>{{x}}</svg>".to_string(),
        args: Some(args_one("x", "\"hi\"")),
        expire: expire.map(|e| e.to_string()),
    }
}

#[test]
fn public_create_accepts_and_trims() {
    let plan = prepare_create_session(create_body("  demo ", Some("1d")), false).unwrap();
    assert_eq!(plan.session_id, "demo");
    assert_eq!(plan.ttl_seconds, 86400);
    assert_eq!(plan.session.template, "<svg>{{x}}</svg>");
    assert!(plan.session.owner.is_none());
    assert_eq!(plan.session.args.get("x"), Some(&"\"hi\"".to_string()));
}

#[test]
fn public_create_defaults_expire_to_one_day() {
    let plan = prepare_create_session(create_body("demo", None), false).unwrap();
    assert_eq!(plan.ttl_seconds, 86400);
}

#[test]
fn public_create_parses_other_durations() {
    let plan = prepare_create_session(create_body("demo", Some("2h")), false).unwrap();
    assert_eq!(plan.ttl_seconds, 7200);
}

#[test]
fn public_create_rejects_empty_id() {
    let err = prepare_create_session(create_body("", Some("1d")), false).unwrap_err();
    assert_eq!(err.status_code(), 400);
    assert!(matches!(err, ApiError::InvalidSessionId));

    let err = prepare_create_session(create_body("   ", Some("1d")), false).unwrap_err();
    assert!(matches!(err, ApiError::InvalidSessionId));
}

#[test]
fn public_create_rejects_bad_duration() {
    let err = prepare_create_session(create_body("demo", Some("soon")), false).unwrap_err();
    assert_eq!(err.status_code(), 400);
    assert!(matches!(err, ApiError::InvalidDuration(_)));
}

#[test]
fn public_create_rejects_duplicate() {
    let err = prepare_create_session(create_body("demo", Some("1d")), true).unwrap_err();
    assert_eq!(err.status_code(), 409);
    match err {
        ApiError::SessionExists(id) => assert_eq!(id, "demo"),
        _ => panic!("duplicate must be SessionExists"),
    }
}

#[test]
fn create_then_get_returns_what_was_sent() {
    let plan = prepare_create_session(create_body("demo", Some("1d")), false).unwrap();
    let detail = get_session_response("demo".to_string(), Some(plan.session)).unwrap();
    assert_eq!(detail.session_id, "demo");
    assert_eq!(detail.template, "<svg>{{x}}</svg>");
    assert_eq!(detail.args.get("x"), Some(&"\"hi\"".to_string()));
}

#[test]
fn get_of_absent_session_is_not_found() {
    let err = get_session_response("demo".to_string(), None).unwrap_err();
    assert_eq!(err.status_code(), 404);
}

#[test]
fn update_replaces_args_and_refreshes_ttl() {
    let stored = SessionData::new("<svg>{{x}}</svg>".to_string(), args_one("x", "\"hi\""));
    let (updated, ttl) =
        apply_update("demo".to_string(), Some(stored), args_one("x", "\"ok\"")).unwrap();
    assert_eq!(ttl, 3600);
    assert_eq!(updated.args.get("x"), Some(&"\"ok\"".to_string()));
    // Never a merge: a key only in the old map is gone.
    let stored = SessionData::new("<svg/>".to_string(), args_one("old", "1"));
    let (updated, _) =
        apply_update("demo".to_string(), Some(stored), args_one("new", "2")).unwrap();
    assert_eq!(updated.args.get("old"), None);
    assert_eq!(updated.args.get("new"), Some(&"2".to_string()));
}

#[test]
fn update_of_absent_session_is_not_found() {
    let err = apply_update("demo".to_string(), None, ArgMap::new()).unwrap_err();
    assert_eq!(err.status_code(), 404);
}

#[test]
fn owned_create_authorizes_subject() {
    let req = CreateSessionRequest {
        session_id: "s".to_string(),
        template: "<svg/>".to_string(),
        args: ArgMap::new(),
        ttl_seconds: default_ttl(),
    };
    // Alice's token cannot create under bob's path.
    let err = prepare_create_user_session("alice", "bob", req).unwrap_err();
    assert_eq!(err.status_code(), 403);

    let req = CreateSessionRequest {
        session_id: "s".to_string(),
        template: "<svg/>".to_string(),
        args: ArgMap::new(),
        ttl_seconds: default_ttl(),
    };
    let session = prepare_create_user_session("alice", "alice", req).unwrap();
    assert_eq!(session.owner.as_deref(), Some("alice"));
}

#[test]
fn owned_create_rejects_empty_id() {
    let req = CreateSessionRequest {
        session_id: "".to_string(),
        template: "<svg/>".to_string(),
        args: ArgMap::new(),
        ttl_seconds: 3600,
    };
    let err = prepare_create_user_session("alice", "alice", req).unwrap_err();
    assert_eq!(err.status_code(), 400);
}

#[test]
fn owned_get_and_list_authorize_subject() {
    let err =
        user_session_response("alice", "bob", "s".to_string(), None).unwrap_err();
    assert_eq!(err.status_code(), 403);

    let err = sessions_list_response("alice", "bob", &Vec::new()).unwrap_err();
    assert_eq!(err.status_code(), 403);

    let keys = vec![
        "user:alice:session:a".to_string(),
        "user:bob:session:b".to_string(),
    ];
    let list = sessions_list_response("alice", "alice", &keys).unwrap();
    let ids: Vec<&str> = list.items.iter().map(|i| i.session_id.as_str()).collect();
    assert_eq!(ids, ["a"]);
}

#[test]
fn token_request_validation() {
    let req = TokenRequest {
        user_id: "".to_string(),
        password: "pw".to_string(),
        ttl_seconds: None,
    };
    assert_eq!(validate_token_request(&req).unwrap_err().status_code(), 401);

    let req = TokenRequest {
        user_id: "alice".to_string(),
        password: "pw".to_string(),
        ttl_seconds: None,
    };
    assert_eq!(validate_token_request(&req).unwrap(), 3600);

    let req = TokenRequest {
        user_id: "alice".to_string(),
        password: "pw".to_string(),
        ttl_seconds: Some(60),
    };
    assert_eq!(validate_token_request(&req).unwrap(), 60);
}

#[test]
fn password_outcome_maps_to_unauthorized() {
    assert!(password_check_outcome(true).is_ok());
    assert_eq!(password_check_outcome(false).unwrap_err().status_code(), 401);
}
