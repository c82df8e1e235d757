use glm_autopay::client::{default_headers, header_value};
use glm_autopay::config::{AppConfig, PayType};
use glm_autopay::error::AppError;

fn config() -> AppConfig {
    AppConfig {
        name: "alice".to_string(),
        auth_token: "Bearer x.y.z".to_string(),
        cookie: "a=1; b=2".to_string(),
        customer_id: "c".to_string(),
        bigmodel_organization: "org-1".to_string(),
        bigmodel_project: "proj-1".to_string(),
        base_url: "https://www.bigmodel.cn/api/biz/pay".to_string(),
        user_agent: "agent/1.0".to_string(),
        product_id: "p".to_string(),
        pay_type: PayType::Ali,
        invitation_code: String::new(),
        rps: 30,
        timeout_secs: 5,
    }
}

#[test]
fn header_values_follow_the_http_rule() {
    assert_eq!(header_value("plain text").unwrap(), "plain text");
    assert_eq!(header_value("tab\there").unwrap(), "tab\there");
    assert_eq!(header_value("caf\u{e9}").unwrap(), "caf\u{e9}");
    assert_eq!(header_value("").unwrap(), "");
    for bad in ["new\nline", "nul\0", "del\u{7f}", "cr\r"] {
        match header_value(bad) {
            Err(AppError::InvalidHeader(v)) => assert_eq!(v, bad),
            other => panic!("unexpected {other:?}"),
        }
    }
}

#[test]
fn default_headers_in_order() {
    let h = default_headers(&config()).unwrap();
    let expected = [
        ("user-agent", "agent/1.0"),
        ("accept", "application/json, text/plain, */*"),
        ("content-type", "application/json;charset=UTF-8"),
        ("cookie", "a=1; b=2"),
        ("authorization", "Bearer x.y.z"),
        ("bigmodel-organization", "org-1"),
        ("bigmodel-project", "proj-1"),
        ("origin", "https://www.bigmodel.cn"),
        ("referer", "https://www.bigmodel.cn/glm-coding"),
    ];
    assert_eq!(h.len(), expected.len());
    for (i, (n, v)) in expected.iter().enumerate() {
        assert_eq!(h[i].0, *n);
        assert_eq!(h[i].1, *v);
    }
}

#[test]
fn default_headers_name_the_first_bad_value() {
    let mut c = config();
    c.auth_token = "bad\ntoken".to_string();
    c.bigmodel_project = "bad\nproject".to_string();
    match default_headers(&c) {
        Err(AppError::InvalidHeader(v)) => assert_eq!(v, "bad\ntoken"),
        other => panic!("unexpected {other:?}"),
    }
}
