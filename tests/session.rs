use daily_report::auth::{require_session, strip_phone_separators, AuthService, LoginReply};
use daily_report::project::{ProjectInfo, ProjectReply, ProjectService};
use daily_report::upload::{error_message, upload_outcome, UploadService};

fn reply_with_token(token: Option<&str>) -> LoginReply {
    LoginReply {
        token: token.map(|t| t.to_string()),
        refresh_token: None,
        user_id: Some(7),
        username: Some("alice".to_string()),
        name: None,
        email: Some("a@example.com".to_string()),
        phone: None,
        role: Some("reporter".to_string()),
    }
}

#[test]
fn new_session_has_no_token() {
    let auth = AuthService::new("http://host".to_string());
    assert_eq!(auth.get_token(), None);
    assert_eq!(auth.login_url(), "http://host/api/v1/auth/login");
    assert_eq!(auth.refresh_url(), "http://host/api/v1/auth/refresh");
    assert_eq!(auth.refresh_request().unwrap_err(), "RefreshToken不存在");
}

#[test]
fn session_with_refresh_token() {
    let auth = AuthService::with_refresh_token("http://host".to_string(), "r-1".to_string());
    assert_eq!(auth.get_token(), None);
    assert_eq!(auth.refresh_request().unwrap(), "r-1");
}

#[test]
fn login_keeps_tokens_and_fills_defaults() {
    let mut auth = AuthService::new("http://host".to_string());
    let resp = auth.complete_login(reply_with_token(Some("t-1"))).unwrap();
    assert_eq!(resp.token, "t-1");
    assert_eq!(resp.refresh_token, "");
    assert_eq!(resp.user_info.id, 7);
    assert_eq!(resp.user_info.username, "alice");
    assert_eq!(resp.user_info.name, "");
    assert_eq!(resp.user_info.email, "a@example.com");
    assert_eq!(resp.user_info.phone, "");
    assert_eq!(resp.user_info.role, "reporter");
    assert_eq!(auth.get_token(), Some("t-1"));
    assert_eq!(auth.refresh_request().unwrap(), "");
}

#[test]
fn login_without_token_fails() {
    let mut auth = AuthService::new("http://host".to_string());
    assert_eq!(auth.complete_login(reply_with_token(None)).unwrap_err(), "token 不存在");
    assert_eq!(auth.get_token(), None);
}

#[test]
fn login_user_id_defaults_and_narrows() {
    let mut auth = AuthService::new("h".to_string());
    let mut reply = reply_with_token(Some("t"));
    reply.user_id = None;
    assert_eq!(auth.complete_login(reply).unwrap().user_info.id, 0);
    let mut reply = reply_with_token(Some("t"));
    reply.user_id = Some(4_294_967_297);
    assert_eq!(auth.complete_login(reply).unwrap().user_info.id, 1);
}

#[test]
fn refresh_replaces_the_token() {
    let mut auth = AuthService::with_refresh_token("h".to_string(), "r".to_string());
    assert_eq!(auth.complete_refresh(Some("t-2".to_string())).unwrap(), "t-2");
    assert_eq!(auth.get_token(), Some("t-2"));
    assert_eq!(auth.complete_refresh(None).unwrap_err(), "刷新后的token不存在");
    assert_eq!(auth.get_token(), Some("t-2"));
    assert_eq!(auth.refresh_request().unwrap(), "r");
}

#[test]
fn phone_numbers_are_recognised() {
    assert!(AuthService::is_phone_number("13800138000"));
    assert!(AuthService::is_phone_number("138-0013-8000"));
    assert!(AuthService::is_phone_number(" (138) 0013 8000 "));
    assert!(AuthService::is_phone_number("+8613800138000"));
    assert!(AuthService::is_phone_number("0123456789"));
    assert!(!AuthService::is_phone_number("alice"));
    assert!(!AuthService::is_phone_number("123456789"));
    assert!(!AuthService::is_phone_number("1234567890123456"));
    assert!(!AuthService::is_phone_number(""));
}

#[test]
fn phone_separators_are_stripped() {
    assert_eq!(strip_phone_separators(" (138) 0013-8000\t"), "13800138000");
    assert_eq!(strip_phone_separators("a-b"), "ab");
}

#[test]
fn empty_token_means_not_logged_in() {
    assert_eq!(require_session("").unwrap_err(), "未登录");
    assert!(require_session("t").is_ok());
}

#[test]
fn upload_outcomes() {
    assert!(upload_outcome(Some(1), None, None).is_ok());
    assert_eq!(
        upload_outcome(Some(0), Some("重复".to_string()), Some("dup".to_string())).unwrap_err(),
        "重复"
    );
    assert_eq!(upload_outcome(Some(2), None, Some("dup".to_string())).unwrap_err(), "dup");
    assert_eq!(upload_outcome(None, None, None).unwrap_err(), "上传失败");
    assert_eq!(upload_outcome(None, Some("x".to_string()), None).unwrap_err(), "x");
}

#[test]
fn error_message_fallbacks() {
    assert_eq!(error_message(None, None, "默认".to_string()), "默认");
    assert_eq!(error_message(None, Some("m".to_string()), "默认".to_string()), "m");
    assert_eq!(
        error_message(Some("a".to_string()), Some("m".to_string()), "默认".to_string()),
        "a"
    );
}

#[test]
fn project_from_reply() {
    let info = ProjectInfo::from_reply(ProjectReply {
        id: Some(12),
        name: Some("盐场".to_string()),
        type_display_name: None,
        status_display_name: Some("在建".to_string()),
        manager: None,
        completion_progress: Some(45),
        estimated_salt_amount: None,
        actual_salt_amount: Some(5_000_000_000),
    });
    assert_eq!(info.id, 12);
    assert_eq!(info.name, "盐场");
    assert_eq!(info.type_display_name, "");
    assert_eq!(info.status_display_name, "在建");
    assert_eq!(info.manager, "");
    assert_eq!(info.completion_progress, Some(45));
    assert_eq!(info.estimated_salt_amount, None);
    assert_eq!(info.actual_salt_amount, Some(5_000_000_000i64 as i32));
    let empty = ProjectInfo::from_reply(ProjectReply {
        id: None,
        name: None,
        type_display_name: None,
        status_display_name: None,
        manager: None,
        completion_progress: None,
        estimated_salt_amount: None,
        actual_salt_amount: None,
    });
    assert_eq!(empty.id, 0);
}

#[test]
fn service_addresses_and_tokens() {
    let p = ProjectService::new("http://h".to_string(), "tok".to_string());
    assert_eq!(p.project_url(), "http://h/api/v1/projects/my-project");
    assert_eq!(p.token(), "tok");
    let u = UploadService::new("http://h".to_string(), "tok".to_string());
    assert_eq!(u.batch_import_url(), "http://h/api/v1/daily-reports/batch-import");
    assert_eq!(u.token(), "tok");
}
