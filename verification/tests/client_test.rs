use realtime_svg::client::{jwt_payload_segment, response_error_message, ApiState};

#[test]
fn api_state_starts_idle() {
    let state: ApiState<String> = ApiState::default();
    assert!(matches!(state, ApiState::Idle));
}

#[test]
fn payload_segment_of_a_three_part_token() {
    assert_eq!(jwt_payload_segment("aaa.bbb.ccc"), Some("bbb".to_string()));
    assert_eq!(jwt_payload_segment("..").unwrap(), "");
}

#[test]
fn payload_segment_rejects_other_shapes() {
    assert_eq!(jwt_payload_segment(""), None);
    assert_eq!(jwt_payload_segment("abc"), None);
    assert_eq!(jwt_payload_segment("a.b"), None);
    assert_eq!(jwt_payload_segment("a.b.c.d"), None);
}

#[test]
fn response_errors_by_status() {
    assert_eq!(response_error_message(200, None), None);
    assert_eq!(response_error_message(201, None), None);
    assert_eq!(
        response_error_message(401, None).unwrap(),
        "토큰이 만료되었습니다. 다시 로그인하세요"
    );
    assert_eq!(
        response_error_message(403, None).unwrap(),
        "권한이 없습니다. 세션 소유자만 수정할 수 있습니다"
    );
    assert_eq!(response_error_message(404, None).unwrap(), "세션을 찾을 수 없습니다");
    assert_eq!(response_error_message(409, None).unwrap(), "이미 존재하는 세션 ID입니다");
    assert_eq!(
        response_error_message(500, Some(&"boom".to_string())).unwrap(),
        "[500] boom"
    );
    assert_eq!(response_error_message(418, None).unwrap(), "요청 실패 (418)");
}
