use base64::Engine;
use glm_autopay::config::{PayType, UserConfig};
use glm_autopay::error::AppError;
use glm_autopay::json::{str_member_of, JsonDoc};
use glm_autopay::setup::{
    classify_account_input, identity_from_claims, jwt_payload_base64, listing_config,
    account_from_export, parse_jwt_payload, parse_pay_choice, record_account, parse_product_choice, parse_usize, pay_label,
    product_label, product_status, require_products, rps_from_input, user_from_export,
    wizard_config, AccountInput, Tier, TampermonkeyExport, TmHeaders,
};

fn setup_message<T: std::fmt::Debug>(r: Result<T, AppError>) -> String {
    match r {
        Err(AppError::Setup(m)) => m,
        other => panic!("expected a setup error, got {other:?}"),
    }
}

#[test]
fn jwt_with_customer_and_username() {
    let token = "eyJhbGciOiJIUzI1NiJ9.eyJjdXN0b21lcl9pZCI6ImMxIiwidXNlcm5hbWUiOiJ1MSJ9.sig";
    let (c, u) = parse_jwt_payload(token).unwrap();
    assert_eq!(c, "c1");
    assert_eq!(u, "u1");
}

#[test]
fn jwt_payload_needing_two_padding_characters() {
    // payload `{"customer_id":"c-42"}`, 30 characters unpadded
    let token = "h.eyJjdXN0b21lcl9pZCI6ImMtNDIifQ.s";
    let (c, u) = parse_jwt_payload(token).unwrap();
    assert_eq!(c, "c-42");
    assert_eq!(u, "unknown");
}

#[test]
fn jwt_payload_with_url_safe_characters() {
    // payload `{"customer_id":"\xff\xfe>?","username":"张"}` uses `-` and `_`
    let token = "h.eyJjdXN0b21lcl9pZCI6Iv_-Pj8iLCJ1c2VybmFtZSI6IuW8oCJ9";
    let r = parse_jwt_payload(token);
    // the bytes 0xff 0xfe are not UTF-8, so the JSON parser refuses the text
    let claims: &[u8] = b"{\"customer_id\":\"\xff\xfe>?\",\"username\":\"\xe5\xbc\xa0\"}";
    let e = serde_json::from_slice::<serde_json::Value>(claims).unwrap_err();
    assert_eq!(setup_message(r), format!("parse JWT: {e}"));
    let p = jwt_payload_base64(token).unwrap();
    assert_eq!(p, b"eyJjdXN0b21lcl9pZCI6Iv/+Pj8iLCJ1c2VybmFtZSI6IuW8oCJ9".to_vec());
}

#[test]
fn jwt_payload_is_padded_to_a_multiple_of_four() {
    assert_eq!(jwt_payload_base64("a.bm90IGpzb24").unwrap(), b"bm90IGpzb24=".to_vec());
    assert_eq!(jwt_payload_base64("a.YWI.c.d").unwrap(), b"YWI=".to_vec());
    assert_eq!(jwt_payload_base64("a.YQ").unwrap(), b"YQ==".to_vec());
    assert_eq!(jwt_payload_base64("a.YWJj").unwrap(), b"YWJj".to_vec());
    assert_eq!(jwt_payload_base64("a.Y").unwrap(), b"Y".to_vec());
    assert_eq!(jwt_payload_base64("a.").unwrap(), b"".to_vec());
    assert!(jwt_payload_base64("abc").is_none());
}

#[test]
fn jwt_without_a_dot_is_refused() {
    assert_eq!(setup_message(parse_jwt_payload("nodots")), "invalid JWT token");
    assert_eq!(setup_message(parse_jwt_payload("")), "invalid JWT token");
}

#[test]
fn jwt_with_bad_base64_is_refused() {
    let e = base64::engine::general_purpose::STANDARD.decode("!!!!").unwrap_err();
    assert_eq!(setup_message(parse_jwt_payload("a.!!!!.c")), format!("base64 decode JWT: {e}"));
    // one leftover character cannot be decoded
    let e = base64::engine::general_purpose::STANDARD.decode("abcde").unwrap_err();
    assert_eq!(setup_message(parse_jwt_payload("a.abcde.c")), format!("base64 decode JWT: {e}"));
}

#[test]
fn jwt_with_a_payload_that_is_not_json_is_refused() {
    let e = serde_json::from_slice::<serde_json::Value>(b"not json").unwrap_err();
    assert_eq!(setup_message(parse_jwt_payload("a.bm90IGpzb24.c")), format!("parse JWT: {e}"));
}

#[test]
fn jwt_without_a_string_customer_id_is_refused() {
    // payload `{"customer_id":7}`
    assert_eq!(
        setup_message(parse_jwt_payload("a.eyJjdXN0b21lcl9pZCI6N30.c")),
        "customer_id not found in JWT"
    );
    // payload `{"username":"u"}`
    assert_eq!(
        setup_message(parse_jwt_payload("a.eyJ1c2VybmFtZSI6InUifQ.c")),
        "customer_id not found in JWT"
    );
}

#[test]
fn identity_reads_string_members_only() {
    let claims = JsonDoc::Object(vec![
        ("customer_id".to_string(), Some("c9".to_string())),
        ("username".to_string(), None),
    ]);
    let (c, u) = identity_from_claims(&claims).unwrap();
    assert_eq!(c, "c9");
    assert_eq!(u, "unknown");
    assert_eq!(setup_message(identity_from_claims(&JsonDoc::NotObject)), "customer_id not found in JWT");
    assert_eq!(str_member_of(&claims, "customer_id").as_deref(), Some("c9"));
    assert_eq!(str_member_of(&claims, "missing"), None);
    assert_eq!(str_member_of(&JsonDoc::NotObject, "customer_id"), None);
}

#[test]
fn export_becomes_an_account_with_default_headers() {
    let export = TampermonkeyExport {
        headers: TmHeaders {
            authorization: "jwt".to_string(),
            bigmodel_organization: None,
            bigmodel_project: Some("proj-own".to_string()),
        },
        cookies: "a=1".to_string(),
    };
    let u = user_from_export(export, "c1".to_string(), "u1".to_string());
    assert_eq!(u.name, "u1");
    assert_eq!(u.auth_token, "jwt");
    assert_eq!(u.cookie, "a=1");
    assert_eq!(u.customer_id, "c1");
    assert_eq!(u.product_id, "");
    assert_eq!(u.pay_type, "");
    assert_eq!(u.bigmodel_organization, "org-583867d3f6994298908000F995870b6a");
    assert_eq!(u.bigmodel_project, "proj-own");
}

#[test]
fn account_prompt_answers() {
    assert_eq!(classify_account_input("q", true), AccountInput::Finish);
    assert_eq!(classify_account_input("Q", true), AccountInput::Finish);
    assert_eq!(classify_account_input("q", false), AccountInput::NeedOneAccount);
    assert_eq!(classify_account_input("", true), AccountInput::Finish);
    assert_eq!(classify_account_input("", false), AccountInput::AskAgain);
    assert_eq!(classify_account_input("{\"headers\":{}}", false), AccountInput::Export);
    assert_eq!(classify_account_input("qq", true), AccountInput::Export);
}

#[test]
fn parse_usize_matches_the_standard_parser() {
    let cases = [
        "", "+", "-", "-1", "+5", "5", "007", "42", " 1", "1 ", "1a", "18446744073709551615",
        "18446744073709551616", "99999999999999999999999", "+0", "٣", "0x10",
    ];
    for s in cases {
        assert_eq!(parse_usize(s), s.parse::<usize>().ok(), "input {s:?}");
    }
}

#[test]
fn product_choice_must_be_in_range() {
    assert_eq!(parse_product_choice("1", 3), Some(1));
    assert_eq!(parse_product_choice("3", 3), Some(3));
    assert_eq!(parse_product_choice("0", 3), None);
    assert_eq!(parse_product_choice("4", 3), None);
    assert_eq!(parse_product_choice("x", 3), None);
}

#[test]
fn pay_choice_defaults_to_alipay() {
    assert_eq!(parse_pay_choice(""), Some(PayType::Ali));
    assert_eq!(parse_pay_choice("1"), Some(PayType::Ali));
    assert_eq!(parse_pay_choice("2"), Some(PayType::WeChat));
    assert_eq!(parse_pay_choice("3"), None);
    assert_eq!(parse_pay_choice("wechat"), None);
}

#[test]
fn rps_defaults_to_thirty() {
    assert_eq!(rps_from_input("50"), 50);
    assert_eq!(rps_from_input(""), 30);
    assert_eq!(rps_from_input("fast"), 30);
}

#[test]
fn wizard_settings() {
    let users = vec![UserConfig {
        name: "u".to_string(),
        auth_token: "t".to_string(),
        cookie: "c".to_string(),
        customer_id: "id".to_string(),
        product_id: "p".to_string(),
        pay_type: "ALI".to_string(),
        bigmodel_organization: "o".to_string(),
        bigmodel_project: "pr".to_string(),
    }];
    let g = wizard_config(12, users);
    assert_eq!(g.rps, 12);
    assert_eq!(g.timeout_secs, 5);
    assert_eq!(g.users.len(), 1);
    let c = listing_config(&g.users[0]);
    assert_eq!(c.name, "u");
    assert_eq!(c.product_id, "");
    assert_eq!(c.pay_type, PayType::Ali);
    assert_eq!(c.rps, 1);
    assert_eq!(c.timeout_secs, 5);
    assert_eq!(c.base_url, "https://www.bigmodel.cn/api/biz/pay");
    assert_eq!(c.cookie, "c");
    assert_eq!(c.auth_token, "t");
}

#[test]
fn labels() {
    assert_eq!(pay_label("WE_CHAT"), "微信");
    assert_eq!(pay_label("ALI"), "支付宝");
    assert_eq!(pay_label("anything"), "支付宝");
    assert_eq!(product_status(Some(true)), "已售罄");
    assert_eq!(product_status(Some(false)), "可购买");
    assert_eq!(product_status(None), "可购买");
    assert_eq!(product_label(Tier::Pro, 1), "Pro 月付");
    assert_eq!(product_label(Tier::Pro, 3), "Pro 连续包季");
    assert_eq!(product_label(Tier::ProPlus, 12), "Pro+ 连续包年");
    assert_eq!(product_label(Tier::Team, 3), "Team 连续包季");
    assert_eq!(product_label(Tier::Team, 6), "未知套餐");
}

#[test]
fn an_empty_product_list_is_an_error() {
    assert_eq!(setup_message(require_products(0)), "no products returned");
    assert!(require_products(2).is_ok());
}

#[test]
fn unpadded_url_safe_payloads_decode_to_the_claims() {
    for claims in [
        "{\"customer_id\":\"c\"}",
        "{\"customer_id\":\"c1\",\"username\":\"u\"}",
        "{\"customer_id\":\"c12\",\"username\":\"\u{5f20}\u{4e09}\"}",
        "{\"customer_id\":\"\u{ff}?>\"}",
    ] {
        let payload = base64::engine::general_purpose::URL_SAFE_NO_PAD.encode(claims);
        for token in [format!("hdr.{payload}"), format!("hdr.{payload}.sig")] {
            let b64 = jwt_payload_base64(&token).unwrap();
            let decoded = glm_autopay::base64::decode_base64(&b64).unwrap();
            assert_eq!(decoded, claims.as_bytes());
        }
    }
    let token = format!(
        "x.{}.y",
        base64::engine::general_purpose::URL_SAFE_NO_PAD.encode("{\"customer_id\":\"c>?\",\"username\":\"n\"}")
    );
    let (c, u) = parse_jwt_payload(&token).unwrap();
    assert_eq!(c, "c>?");
    assert_eq!(u, "n");
}

#[test]
fn jwt_claims_that_are_not_an_object() {
    // payload `["customer_id"]`
    let payload = base64::engine::general_purpose::URL_SAFE_NO_PAD.encode("[\"customer_id\"]");
    assert_eq!(
        setup_message(parse_jwt_payload(&format!("a.{payload}.c"))),
        "customer_id not found in JWT"
    );
    // payload `{"customer_id":"a","customer_id":"b"}`: the later member wins
    let payload =
        base64::engine::general_purpose::URL_SAFE_NO_PAD.encode("{\"customer_id\":\"a\",\"customer_id\":\"b\"}");
    assert_eq!(parse_jwt_payload(&format!("a.{payload}")).unwrap().0, "b");
}

#[test]
fn accounts_are_read_from_exports_and_kept_in_paste_order() {
    let export = |token: &str, cookie: &str| TampermonkeyExport {
        headers: TmHeaders {
            authorization: token.to_string(),
            bigmodel_organization: Some("org-own".to_string()),
            bigmodel_project: None,
        },
        cookies: cookie.to_string(),
    };
    let first = account_from_export(export(
        "h.eyJjdXN0b21lcl9pZCI6ImMxIiwidXNlcm5hbWUiOiJ1MSJ9.s",
        "k=1",
    ))
    .unwrap();
    assert_eq!(first.name, "u1");
    assert_eq!(first.customer_id, "c1");
    assert_eq!(first.cookie, "k=1");
    assert_eq!(first.bigmodel_organization, "org-own");
    assert_eq!(first.bigmodel_project, "proj_2fFEA9d9c35B4408A1C72206C32a0354");
    assert_eq!(first.product_id, "");
    let second = account_from_export(export("h.eyJjdXN0b21lcl9pZCI6ImMtNDIifQ", "k=2")).unwrap();
    assert_eq!(second.name, "unknown");
    assert_eq!(setup_message(account_from_export(export("nodots", "k=3"))), "invalid JWT token");

    let mut users = Vec::new();
    record_account(&mut users, first, "p1".to_string(), "ALI".to_string());
    record_account(&mut users, second, "p2".to_string(), "WE_CHAT".to_string());
    assert_eq!(users.len(), 2);
    assert_eq!(users[0].customer_id, "c1");
    assert_eq!(users[0].product_id, "p1");
    assert_eq!(users[0].pay_type, "ALI");
    assert_eq!(users[1].customer_id, "c-42");
    assert_eq!(users[1].product_id, "p2");
    assert_eq!(users[1].pay_type, "WE_CHAT");
}
