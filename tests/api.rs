use chrono::Datelike;
use miteras::api::{clock_in_params, clock_out_params, update_password_params, Api};
use miteras::condition::{condition_value, Condition};
use miteras::config::Config;
use miteras::date::{work_date_string, WorkDate};
use miteras::error::ApiError;
use miteras::operation::{Operation, Step};
use miteras::outcome::{clock_message, clock_reply_message, login_succeeded, password_changed};
use miteras::request::{Body, Method, Request};
use miteras::token::parse_csrf;

const ENDPOINT: &str = "http://127.0.0.1:1234";

const LOGIN_PAGE: &str = "<html><head><meta name=\"_csrf\" content=\"login-token\"></head>\
<body><form action=\"/A123456/auth\"><input type=\"hidden\" name=\"_csrf\" value=\"login-token\">\
</form></body></html>";

const CICO_PAGE: &str = "<html><head><title>cico</title></head><body><form>\
<input type=\"hidden\" name=\"_csrf\" value=\"cico-token\"></form></body></html>";

fn api() -> Api {
    let config = Config::new(
        "A123456".to_string(),
        "sinsoku".to_string(),
        "pass1234".to_string(),
    );
    Api::with_endpoint(&config, ENDPOINT)
}

fn today_string() -> String {
    let today = chrono::Local::now().date_naive();
    format!("{}-{}-{}", today.year(), today.month(), today.day())
}

fn expect_send(step: Result<Step, ApiError>) -> Request {
    match step {
        Ok(Step::Send(r)) => r,
        Ok(Step::Done) => panic!("the operation ended early"),
        Err(e) => panic!("the operation failed: {:?}", e),
    }
}

fn form(r: &Request) -> Vec<(String, String)> {
    match &r.body {
        Body::Form(f) => f.clone(),
        _ => panic!("not a form"),
    }
}

fn json(r: &Request) -> String {
    match &r.body {
        Body::Json(j) => j.clone(),
        _ => panic!("not JSON"),
    }
}

fn pairs(items: &[(&str, &str)]) -> Vec<(String, String)> {
    items.iter().map(|(k, v)| (k.to_string(), v.to_string())).collect()
}

#[test]
fn str_to_num() {
    assert_eq!(Ok(1), condition_value("best"));
    assert_eq!(Ok(2), condition_value("good"));
    assert_eq!(Ok(3), condition_value("normal"));
    assert_eq!(Ok(4), condition_value("bad"));
}

#[test]
fn unknown_condition_is_refused() {
    assert_eq!(Err(ApiError::InvalidCondition), condition_value("great"));
    assert_eq!(Err(ApiError::InvalidCondition), condition_value(""));
    assert_eq!(Err(ApiError::InvalidCondition), condition_value("Best"));
    assert_eq!(Err(ApiError::InvalidCondition), Condition::from_label("goodx"));
    assert!(matches!(api().clock_in("great"), Err(ApiError::InvalidCondition)));
    assert!(matches!(api().clock_out("meh"), Err(ApiError::InvalidCondition)));
}

#[test]
fn date_has_no_zero_padding() {
    assert_eq!("2024-3-7", work_date_string(&WorkDate::new(2024, 3, 7)));
    assert_eq!("2024-12-31", work_date_string(&WorkDate::new(2024, 12, 31)));
    assert_eq!("1999-10-1", work_date_string(&WorkDate::new(1999, 10, 1)));
    assert_eq!("-44-3-15", work_date_string(&WorkDate::new(-44, 3, 15)));
    assert_eq!("0-1-1", work_date_string(&WorkDate::new(0, 1, 1)));
}

#[test]
fn today_is_rendered_like_chrono_renders_it() {
    assert_eq!(today_string(), work_date_string(&WorkDate::today()));
}

#[test]
fn token_from_meta_or_input() {
    let meta = "<meta name=\"_csrf\" content=\"abc123\">";
    let input = "<form><input type=\"hidden\" name=\"_csrf\" value=\"abc123\"></form>";
    assert_eq!(Ok("abc123".to_string()), parse_csrf(meta));
    assert_eq!(Ok("abc123".to_string()), parse_csrf(input));
    assert_eq!(parse_csrf(meta), parse_csrf(input));
}

#[test]
fn token_missing_is_an_error() {
    assert_eq!(Err(ApiError::TokenNotFound), parse_csrf("<p>logged out</p>"));
    assert_eq!(Err(ApiError::TokenNotFound), parse_csrf(""));
    assert_eq!(
        Err(ApiError::TokenNotFound),
        parse_csrf("<input name=\"other\" value=\"x\">")
    );
}

#[test]
fn token_attribute_missing_is_an_error() {
    assert_eq!(
        Err(ApiError::TokenAttributeMissing),
        parse_csrf("<meta name=\"_csrf\" value=\"x\">")
    );
    assert_eq!(
        Err(ApiError::TokenAttributeMissing),
        parse_csrf("<input name=\"_csrf\" content=\"x\">")
    );
}

#[test]
fn first_token_element_wins() {
    assert_eq!(Ok("login-token".to_string()), parse_csrf(LOGIN_PAGE));
    assert_eq!(Ok("cico-token".to_string()), parse_csrf(CICO_PAGE));
}

#[test]
fn urls_are_scoped_to_the_organisation() {
    let a = api();
    assert_eq!("http://127.0.0.1:1234/A123456/login", a.build_url("login"));
    let config = Config::new("X9".to_string(), "u".to_string(), "p".to_string());
    assert_eq!("https://kintai.miteras.jp/X9/cico", Api::new(&config).build_url("cico"));
}

#[test]
fn clock_in_payload_is_exact() {
    let body = clock_in_params(Condition::Good, &WorkDate::new(2024, 3, 7));
    assert_eq!(
        "{\"clockInCondition\":{\"condition\":2},\"dailyPlaceEvidence\":{},\
\"workDateString\":\"2024-3-7\",\"enableBreakTime\":false}",
        body
    );
    let value: serde_json::Value = serde_json::from_str(&body).unwrap();
    assert_eq!(value["clockInCondition"]["condition"], 2);
}

#[test]
fn clock_out_payload_is_exact() {
    let body = clock_out_params(Condition::Bad, &WorkDate::new(2023, 11, 20));
    assert_eq!(
        "{\"clockOutCondition\":{\"condition\":4},\"dailyPlaceEvidence\":{},\
\"workDateString\":\"2023-11-20\",\"stampBreakStart\":\"\",\"stampBreakEnd\":\"\"}",
        body
    );
    let value: serde_json::Value = serde_json::from_str(&body).unwrap();
    assert_eq!(value["stampBreakEnd"], "");
}

#[test]
fn login_with_valid_args() {
    let (mut op, first) = api().login();
    assert!(first.method == Method::Get);
    assert_eq!("http://127.0.0.1:1234/A123456/login", first.url);
    let auth = expect_send(op.advance(Some(LOGIN_PAGE)));
    assert!(auth.method == Method::Post);
    assert_eq!("http://127.0.0.1:1234/A123456/auth", auth.url);
    assert_eq!(Some("http://127.0.0.1:1234/A123456/login".to_string()), auth.referer);
    assert_eq!(
        pairs(&[("username", "sinsoku"), ("password", "pass1234"), ("_csrf", "login-token")]),
        form(&auth)
    );
    assert!(matches!(op.advance(Some(CICO_PAGE)), Ok(Step::Done)));
    assert!(login_succeeded("/A123456/cico"));
}

#[test]
fn login_with_invalid_args() {
    let config = Config::new(
        "A123456".to_string(),
        "sinsoku".to_string(),
        "passXXX".to_string(),
    );
    let (mut op, _) = Api::with_endpoint(&config, ENDPOINT).login();
    let auth = expect_send(op.advance(Some(LOGIN_PAGE)));
    assert_eq!(
        pairs(&[("username", "sinsoku"), ("password", "passXXX"), ("_csrf", "login-token")]),
        form(&auth)
    );
    // a refused login is sent back to the login page
    assert!(matches!(op.advance(Some(LOGIN_PAGE)), Ok(Step::Done)));
    assert!(!login_succeeded("/A123456/login"));
}

#[test]
fn clock_in_no_args() {
    let (mut op, first) = api().clock_in("good").unwrap();
    assert_eq!("http://127.0.0.1:1234/A123456/login", first.url);
    let auth = expect_send(op.advance(Some(LOGIN_PAGE)));
    assert_eq!("http://127.0.0.1:1234/A123456/auth", auth.url);
    let submit = expect_send(op.advance(Some(CICO_PAGE)));
    assert!(submit.method == Method::Post);
    assert_eq!("http://127.0.0.1:1234/A123456/submitClockIn", submit.url);
    assert_eq!(Some("cico-token".to_string()), submit.csrf_token);
    assert_eq!(Some("http://127.0.0.1:1234/A123456/cico".to_string()), submit.referer);
    let expected = format!(
        "{{\"clockInCondition\":{{\"condition\":2}},\"dailyPlaceEvidence\":{{}},\
\"workDateString\":\"{}\",\"enableBreakTime\":false}}",
        today_string()
    );
    assert_eq!(expected, json(&submit));
    let reply = "{\"returnValue\":\"Success\",\"filePath\":\"../../common/images/ico_condi02.svg\",\"clockTime\":\"10:00\"}";
    assert!(matches!(op.advance(Some(reply)), Ok(Step::Done)));
    assert_eq!("clock-in at 10:00\n", clock_reply_message("clock-in", reply));
}

#[test]
fn clock_out_no_args() {
    let (mut op, _) = api().clock_out("good").unwrap();
    expect_send(op.advance(Some(LOGIN_PAGE)));
    let submit = expect_send(op.advance(Some(CICO_PAGE)));
    assert_eq!("http://127.0.0.1:1234/A123456/submitClockOut", submit.url);
    assert_eq!(Some("cico-token".to_string()), submit.csrf_token);
    let expected = format!(
        "{{\"clockOutCondition\":{{\"condition\":2}},\"dailyPlaceEvidence\":{{}},\
\"workDateString\":\"{}\",\"stampBreakStart\":\"\",\"stampBreakEnd\":\"\"}}",
        today_string()
    );
    assert_eq!(expected, json(&submit));
    let reply = "{\"returnValue\":\"Success\",\"atmessage\":\"Your Attendance request has been sent\",\"filePath\":\"../../common/images/ico_condi02.svg\",\"clockTime\":\"19:00\"}";
    assert!(matches!(op.advance(Some(reply)), Ok(Step::Done)));
    assert_eq!("clock-out at 19:00\n", clock_reply_message("clock-out", reply));
}

#[test]
fn end_to_end_clock_in_on_a_date() {
    let (mut op, _) = api().clock_in_on("good", WorkDate::new(2024, 3, 7)).unwrap();
    let auth = expect_send(op.advance(Some(LOGIN_PAGE)));
    assert_eq!("login-token", form(&auth)[2].1);
    let submit = expect_send(op.advance(Some(CICO_PAGE)));
    assert_eq!(Some("cico-token".to_string()), submit.csrf_token);
    assert_ne!(Some("login-token".to_string()), submit.csrf_token);
    assert_eq!(
        "{\"clockInCondition\":{\"condition\":2},\"dailyPlaceEvidence\":{},\
\"workDateString\":\"2024-3-7\",\"enableBreakTime\":false}",
        json(&submit)
    );
    let reply = "{\"returnValue\":\"Success\",\"clockTime\":\"09:01\"}";
    assert!(matches!(op.advance(Some(reply)), Ok(Step::Done)));
    assert_eq!("clock-in at 09:01\n", clock_reply_message("clock-in", reply));
}

#[test]
fn update_password_form_repeats_the_new_password() {
    let (mut op, _) = api().update_password("newPass1");
    expect_send(op.advance(Some(LOGIN_PAGE)));
    let submit = expect_send(op.advance(Some(CICO_PAGE)));
    assert_eq!("http://127.0.0.1:1234/A123456/resetPassword", submit.url);
    assert_eq!(Some("cico-token".to_string()), submit.csrf_token);
    assert_eq!(None, submit.referer);
    assert_eq!(
        pairs(&[("old_pass", "pass1234"), ("new_pass", "newPass1"), ("confirm_pass", "newPass1")]),
        form(&submit)
    );
    assert_eq!(
        pairs(&[("old_pass", "a"), ("new_pass", "b"), ("confirm_pass", "b")]),
        update_password_params("a", "b")
    );
    assert!(password_changed(""));
    assert!(!password_changed("{\"error\":\"mismatch\"}"));
}

#[test]
fn handshakes_do_not_share_tokens() {
    let second_login_page = "<meta name=\"_csrf\" content=\"second-token\">";
    let (mut one, _) = api().login();
    let auth_one = expect_send(one.advance(Some(LOGIN_PAGE)));
    assert!(matches!(one.advance(Some(CICO_PAGE)), Ok(Step::Done)));
    let (mut two, _) = api().login();
    let auth_two = expect_send(two.advance(Some(second_login_page)));
    assert_eq!("login-token", form(&auth_one)[2].1);
    assert_eq!("second-token", form(&auth_two)[2].1);
}

#[test]
fn failures_end_the_operation() {
    let (mut op, _) = api().clock_in("best").unwrap();
    assert!(matches!(op.advance(None), Err(ApiError::NetworkError)));
    assert!(matches!(op.advance(Some(LOGIN_PAGE)), Ok(Step::Done)));

    let (mut op, _) = api().clock_in("best").unwrap();
    assert!(matches!(op.advance(Some("<p>down</p>")), Err(ApiError::TokenNotFound)));

    let (mut op, _) = api().update_password("x");
    expect_send(op.advance(Some(LOGIN_PAGE)));
    assert!(matches!(
        op.advance(Some("<meta name=\"_csrf\">")),
        Err(ApiError::TokenAttributeMissing)
    ));
}

#[test]
fn clock_reports() {
    assert_eq!("clock-in at 10:00\n", clock_message("clock-in", Some("Success"), Some("10:00")));
    assert_eq!("clock-in failed.\n", clock_message("clock-in", Some("Failure"), Some("10:00")));
    assert_eq!("clock-out failed.\n", clock_message("clock-out", None, None));
    assert_eq!(
        "clock-out failed.\n",
        clock_reply_message("clock-out", "{\"returnValue\":\"Error\"}")
    );
    assert_eq!("clock-in failed.\n", clock_reply_message("clock-in", "not json"));
}

#[test]
fn login_landing_paths() {
    assert!(login_succeeded("/A123456/cico"));
    assert!(login_succeeded("/cico"));
    assert!(!login_succeeded("/A123456/cico/x"));
    assert!(!login_succeeded("cico"));
    assert!(!login_succeeded(""));
}
