use vstd::prelude::*;
use vstd::string::StringSliceAdditionalSpecFns;

use crate::config::AppConfig;
use crate::error::{AppError, AppResult};

verus! {

/// Whether a byte may stand in an HTTP header value: a tab, or any byte from
/// space upwards except DEL.
pub open spec fn header_byte_ok(b: u8) -> bool {
    (b >= 32 && b != 127) || b == 9
}

/// The header byte rule, byte by byte: the tab, every visible ASCII
/// character (`%`, `"`, `;` and `=` among them) and every byte of a
/// multi-byte UTF-8 character are allowed; the other control characters
/// (line breaks included) and DEL are not.
pub proof fn lemma_header_byte_rule(b: u8)
    ensures
        b == 9 ==> header_byte_ok(b),
        32 <= b <= 126 ==> header_byte_ok(b),
        128 <= b ==> header_byte_ok(b),
        b < 9 ==> !header_byte_ok(b),
        10 <= b < 32 ==> !header_byte_ok(b),
        b == 127 ==> !header_byte_ok(b),
{
}

/// Whether every UTF-8 byte of a text may stand in an HTTP header value.
pub open spec fn header_text_ok(s: Seq<u8>) -> bool {
    forall|i: int| 0 <= i < s.len() ==> header_byte_ok(#[trigger] s[i])
}

/// Whether a text may be sent as an HTTP header value.
pub open spec fn header_value_ok(s: Seq<char>) -> bool {
    header_text_ok(vstd::utf8::encode_utf8(s))
}

/// Accepts a value that can be sent as an HTTP header (the rule of
/// `HeaderValue::from_str`) and hands it back; otherwise the error names it.
pub fn header_value(value: &str) -> (res: AppResult<String>)
    ensures
        header_value_ok(value@) ==> (res matches Ok(v) && v@ == value@),
        !header_value_ok(value@) ==> (res matches Err(AppError::InvalidHeader(t))
            && t@ == value@),
{
    let bytes = value.as_bytes();
    let mut i: usize = 0;
    while i < bytes.len()
        invariant
            bytes@ == value.spec_bytes(),
            i <= bytes@.len(),
            forall|k: int| 0 <= k < i ==> header_byte_ok(#[trigger] bytes@[k]),
        decreases bytes@.len() - i,
    {
        let b = bytes[i];
        if !((b >= 32 && b != 127) || b == 9) {
            return Err(AppError::InvalidHeader(String::from_str(value)));
        }
        i = i + 1;
    }
    Ok(String::from_str(value))
}

/// The header names and values sent with every request, in order.
pub open spec fn request_headers(c: AppConfig) -> Seq<(Seq<char>, Seq<char>)> {
    seq![
        ("user-agent"@, c.user_agent@),
        ("accept"@, "application/json, text/plain, */*"@),
        ("content-type"@, "application/json;charset=UTF-8"@),
        ("cookie"@, c.cookie@),
        ("authorization"@, c.auth_token@),
        ("bigmodel-organization"@, c.bigmodel_organization@),
        ("bigmodel-project"@, c.bigmodel_project@),
        ("origin"@, "https://www.bigmodel.cn"@),
        ("referer"@, "https://www.bigmodel.cn/glm-coding"@),
    ]
}

/// The first configured header value that cannot be sent, taking the
/// user agent, the cookie, the token, the organization and the project in
/// that order.
pub open spec fn first_bad_header(c: AppConfig) -> Option<Seq<char>> {
    if !header_value_ok(c.user_agent@) {
        Some(c.user_agent@)
    } else if !header_value_ok(c.cookie@) {
        Some(c.cookie@)
    } else if !header_value_ok(c.auth_token@) {
        Some(c.auth_token@)
    } else if !header_value_ok(c.bigmodel_organization@) {
        Some(c.bigmodel_organization@)
    } else if !header_value_ok(c.bigmodel_project@) {
        Some(c.bigmodel_project@)
    } else {
        None
    }
}

/// The header pairs as text.
pub open spec fn header_pairs_view(h: Seq<(String, String)>) -> Seq<(Seq<char>, Seq<char>)> {
    h.map_values(|p: (String, String)| (p.0@, p.1@))
}

fn pair(name: &str, value: String) -> (p: (String, String))
    ensures
        p.0@ == name@,
        p.1 == value,
{
    (String::from_str(name), value)
}

/// The default headers of an account's client; fails on the first
/// configured value that cannot be sent.
pub fn default_headers(config: &AppConfig) -> (res: AppResult<Vec<(String, String)>>)
    ensures
        match first_bad_header(*config) {
            Some(bad) => res matches Err(AppError::InvalidHeader(t)) && t@ == bad,
            None => res matches Ok(h) && header_pairs_view(h@) == request_headers(*config),
        },
{
    let user_agent = header_value(config.user_agent.as_str())?;
    let cookie = header_value(config.cookie.as_str())?;
    let token = header_value(config.auth_token.as_str())?;
    let org = header_value(config.bigmodel_organization.as_str())?;
    let project = header_value(config.bigmodel_project.as_str())?;
    let mut h: Vec<(String, String)> = Vec::new();
    h.push(pair("user-agent", user_agent));
    h.push(pair("accept", String::from_str("application/json, text/plain, */*")));
    h.push(pair("content-type", String::from_str("application/json;charset=UTF-8")));
    h.push(pair("cookie", cookie));
    h.push(pair("authorization", token));
    h.push(pair("bigmodel-organization", org));
    h.push(pair("bigmodel-project", project));
    h.push(pair("origin", String::from_str("https://www.bigmodel.cn")));
    h.push(pair("referer", String::from_str("https://www.bigmodel.cn/glm-coding")));
    assert(header_pairs_view(h@) =~= request_headers(*config));
    Ok(h)
}

} // verus!
