use glm_autopay::config::{
    browser_user_agent_string, default_org, default_project, default_rps, default_timeout,
    pay_api_base_url, AppConfig, GlobalConfig, PayType, UserConfig,
};
use glm_autopay::error::AppError;

fn user(name: &str, pay_type: &str) -> UserConfig {
    UserConfig {
        name: name.to_string(),
        auth_token: format!("token-{name}"),
        cookie: format!("cookie-{name}"),
        customer_id: format!("cust-{name}"),
        product_id: format!("product-{name}"),
        pay_type: pay_type.to_string(),
        bigmodel_organization: "org-x".to_string(),
        bigmodel_project: "proj-y".to_string(),
    }
}

#[test]
fn pay_type_codes() {
    assert_eq!(PayType::Ali.as_str(), "ALI");
    assert_eq!(PayType::WeChat.as_str(), "WE_CHAT");
}

#[test]
fn pay_type_round_trips_through_its_code() {
    for p in [PayType::Ali, PayType::WeChat] {
        assert_eq!(PayType::from_str(p.as_str()).unwrap(), p);
    }
}

#[test]
fn pay_type_from_str_ignores_case_and_accepts_aliases() {
    assert_eq!(PayType::from_str("ali").unwrap(), PayType::Ali);
    assert_eq!(PayType::from_str("AliPay").unwrap(), PayType::Ali);
    assert_eq!(PayType::from_str("ALIPAY").unwrap(), PayType::Ali);
    assert_eq!(PayType::from_str("we_chat").unwrap(), PayType::WeChat);
    assert_eq!(PayType::from_str("WeChat").unwrap(), PayType::WeChat);
}

#[test]
fn pay_type_from_str_uses_unicode_uppercase() {
    // The dotless i upper-cases to an ASCII `I`, as `str::to_uppercase` does.
    assert_eq!(PayType::from_str("al\u{131}").unwrap(), PayType::Ali);
}

#[test]
fn pay_type_from_str_rejects_other_text() {
    match PayType::from_str("PayPal") {
        Err(AppError::InvalidPayType(t)) => assert_eq!(t, "PayPal"),
        other => panic!("unexpected {other:?}"),
    }
    match PayType::from_str("") {
        Err(AppError::InvalidPayType(t)) => assert_eq!(t, ""),
        other => panic!("unexpected {other:?}"),
    }
    assert!(PayType::from_str(" ali").is_err());
    assert!(PayType::from_str("WE-CHAT").is_err());
}

#[test]
fn pay_type_from_uppercase_keeps_the_typed_text_in_the_error() {
    match PayType::from_uppercase("XYZ", "xyz") {
        Err(AppError::InvalidPayType(t)) => assert_eq!(t, "xyz"),
        other => panic!("unexpected {other:?}"),
    }
    assert_eq!(PayType::from_uppercase("WECHAT", "wechat").unwrap(), PayType::WeChat);
    assert!(PayType::from_uppercase("wechat", "wechat").is_err());
}

#[test]
fn defaults() {
    assert_eq!(default_rps(), 30);
    assert_eq!(default_timeout(), 5);
    assert_eq!(default_org(), "org-583867d3f6994298908000F995870b6a");
    assert_eq!(default_project(), "proj_2fFEA9d9c35B4408A1C72206C32a0354");
    assert_eq!(pay_api_base_url(), "https://www.bigmodel.cn/api/biz/pay");
    assert!(browser_user_agent_string().starts_with("Mozilla/5.0 (Windows NT 10.0; Win64; x64)"));
    assert!(browser_user_agent_string().ends_with("Chrome/137.0.0.0 Safari/537.36"));
}

#[test]
fn into_app_configs_keeps_every_account_in_order() {
    let g = GlobalConfig { rps: 12, timeout_secs: 9, users: vec![user("a", "ali"), user("b", "WE_CHAT")] };
    let cs: Vec<AppConfig> = g.into_app_configs().unwrap();
    assert_eq!(cs.len(), 2);
    assert_eq!(cs[0].name, "a");
    assert_eq!(cs[0].pay_type, PayType::Ali);
    assert_eq!(cs[0].auth_token, "token-a");
    assert_eq!(cs[0].cookie, "cookie-a");
    assert_eq!(cs[0].customer_id, "cust-a");
    assert_eq!(cs[0].product_id, "product-a");
    assert_eq!(cs[0].bigmodel_organization, "org-x");
    assert_eq!(cs[0].bigmodel_project, "proj-y");
    assert_eq!(cs[0].base_url, "https://www.bigmodel.cn/api/biz/pay");
    assert_eq!(cs[0].invitation_code, "");
    assert_eq!(cs[0].rps, 12);
    assert_eq!(cs[0].timeout_secs, 9);
    assert_eq!(cs[1].name, "b");
    assert_eq!(cs[1].pay_type, PayType::WeChat);
    assert_eq!(cs[1].user_agent, browser_user_agent_string());
}

#[test]
fn into_app_configs_of_no_accounts_is_empty() {
    let g = GlobalConfig { rps: 30, timeout_secs: 5, users: vec![] };
    assert!(g.into_app_configs().unwrap().is_empty());
}

#[test]
fn into_app_configs_fails_on_the_first_bad_pay_type() {
    let g = GlobalConfig {
        rps: 30,
        timeout_secs: 5,
        users: vec![user("a", "ali"), user("b", "cash"), user("c", "card")],
    };
    match g.into_app_configs() {
        Err(AppError::InvalidPayType(t)) => assert_eq!(t, "cash"),
        other => panic!("unexpected {other:?}"),
    }
}
