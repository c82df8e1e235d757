use vstd::prelude::*;
use vstd::string::StringSliceAdditionalSpecFns;

use crate::base64::{
    base64_decode, base64_decode_error_text, base64_encode, base64_pad_count, decode_base64, is_base64_symbol,
    lemma_base64_encode_injective, lemma_base64_encode_shape,
};
use crate::config::{
    browser_user_agent, browser_user_agent_string, default_org, default_org_id, default_project,
    default_project_id, pay_api_base, pay_api_base_url, AppConfig, GlobalConfig, PayType, UserConfig,
};
use crate::error::{AppError, AppResult};
use crate::json::{json_document, json_error_text, parse_json, str_member, str_member_of, JsonDoc};
use crate::text::str_eq;
use vstd::string::StrSliceExecFns;

verus! {

// ---------------------------------------------------------------------------
// Reading the account out of a JWT
// ---------------------------------------------------------------------------

/// The index of the first byte `x` in `b`, or the length of `b` when there is
/// none.
pub open spec fn first_index(b: Seq<u8>, x: u8) -> int
    decreases b.len(),
{
    if b.len() == 0 {
        0
    } else if b[0] == x {
        0
    } else {
        1 + first_index(b.skip(1), x)
    }
}

proof fn lemma_first_index(b: Seq<u8>, x: u8, i: int)
    requires
        0 <= i <= b.len(),
        forall|k: int| 0 <= k < i ==> b[k] != x,
        i == b.len() || b[i] == x,
    ensures
        first_index(b, x) == i,
    decreases i,
{
    if i > 0 {
        assert(b[0] != x);
        lemma_first_index(b.skip(1), x, i - 1);
    }
}

/// The second `.`-separated part of a token's bytes (the JWT payload), if
/// the token holds a `.` at all.
pub open spec fn jwt_payload_segment(token: Seq<u8>) -> Option<Seq<u8>> {
    let i = first_index(token, 46);
    if i < token.len() {
        let rest = token.skip(i + 1);
        Some(rest.take(first_index(rest, 46)))
    } else {
        None
    }
}

/// `=` padding up to a multiple of four characters where one or two are
/// missing; other lengths are left alone.
pub open spec fn jwt_pad(p: Seq<u8>) -> Seq<u8> {
    if p.len() % 4 == 2 {
        p + seq![61u8, 61u8]
    } else if p.len() % 4 == 3 {
        p + seq![61u8]
    } else {
        p
    }
}

/// The URL-safe base64 alphabet turned into the standard one: `-` becomes
/// `+` and `_` becomes `/`.
pub open spec fn url_safe_to_standard(b: Seq<u8>) -> Seq<u8> {
    Seq::new(b.len(), |i: int| if b[i] == 45 { 43u8 } else if b[i] == 95 { 47u8 } else { b[i] })
}

/// The JWT payload of a token, padded and in the standard base64 alphabet.
pub open spec fn jwt_payload_base64_spec(token: Seq<u8>) -> Option<Seq<u8>> {
    match jwt_payload_segment(token) {
        Some(p) => Some(url_safe_to_standard(jwt_pad(p))),
        None => None,
    }
}

/// The standard alphabet turned into the URL-safe one: `+` becomes `-` and
/// `/` becomes `_`.
pub open spec fn standard_to_url_safe(b: Seq<u8>) -> Seq<u8> {
    Seq::new(b.len(), |i: int| if b[i] == 43 { 45u8 } else if b[i] == 47 { 95u8 } else { b[i] })
}

/// The unpadded URL-safe base64 of a byte string, as a JWT carries its parts.
pub open spec fn base64url_unpadded(v: Seq<u8>) -> Seq<u8> {
    let e = base64_encode(v);
    standard_to_url_safe(e.take(e.len() - base64_pad_count(v.len())))
}

/// A token `header.payload` or `header.payload.rest`, whose payload is the
/// unpadded URL-safe base64 of `claims`, gives exactly `claims` to the JSON
/// reader.
pub proof fn lemma_jwt_payload_round_trip(header: Seq<u8>, claims: Seq<u8>, tail: Seq<u8>)
    requires
        !header.contains(46u8),
        tail.len() == 0 || tail[0] == 46,
    ensures
        jwt_payload_base64_spec(header + seq![46u8] + base64url_unpadded(claims) + tail) matches Some(
            b,
        ) && base64_decode(b) == Some(claims),
{
    let e = base64_encode(claims);
    let pad = base64_pad_count(claims.len());
    lemma_base64_encode_shape(claims);
    let payload = base64url_unpadded(claims);
    let token = header + seq![46u8] + payload + tail;
    assert forall|k: int| 0 <= k < header.len() implies token[k] != 46 by {
        assert(token[k] == header[k]);
        if header[k] == 46 {
            assert(header.contains(46u8));
        }
    }
    assert(token[header.len() as int] == 46);
    lemma_first_index(token, 46, header.len() as int);
    let rest = token.skip(header.len() as int + 1);
    assert(rest =~= payload + tail);
    assert forall|k: int| 0 <= k < payload.len() implies rest[k] != 46 by {
        assert(is_base64_symbol(e[k]));
    }
    lemma_first_index(rest, 46, payload.len() as int);
    assert(rest.take(payload.len() as int) =~= payload);
    // Padding back the unpadded text gives the standard encoding again.
    assert((e.len() - pad) % 4 == if pad == 2 {
        2int
    } else if pad == 1 {
        3int
    } else {
        0int
    }) by {
        assert(e.len() == 4 * ((claims.len() + 2) / 3));
    }
    assert(url_safe_to_standard(jwt_pad(payload)) =~= e);
    assert(base64_encode(claims) == e);
    let w = choose|w: Seq<u8>| #[trigger] base64_encode(w) == e;
    lemma_base64_encode_injective(claims, w);
}

/// The payload of a JWT made ready for standard base64 decoding; nothing
/// when the token has no `.`.
pub fn jwt_payload_base64(token: &str) -> (r: Option<Vec<u8>>)
    ensures
        match jwt_payload_base64_spec(token.spec_bytes()) {
            Some(b) => r matches Some(v) && v@ == b,
            None => r is None,
        },
{
    let bytes = token.as_bytes();
    let n = bytes.len();
    let mut i: usize = 0;
    while i < n && bytes[i] != 46
        invariant
            n == bytes@.len(),
            i <= n,
            forall|k: int| 0 <= k < i ==> bytes@[k] != 46,
        decreases n - i,
    {
        i = i + 1;
    }
    proof {
        lemma_first_index(bytes@, 46, i as int);
    }
    if i == n {
        return None;
    }
    let start = i + 1;
    let ghost rest = bytes@.skip(start as int);
    let mut out: Vec<u8> = Vec::new();
    let mut j: usize = start;
    while j < n && bytes[j] != 46
        invariant
            n == bytes@.len(),
            start <= j <= n,
            rest == bytes@.skip(start as int),
            forall|k: int| 0 <= k < j - start ==> rest[k] != 46,
            out@ == url_safe_to_standard(rest.take(j - start)),
        decreases n - j,
    {
        let c = bytes[j];
        let d: u8 = if c == 45 {
            43
        } else if c == 95 {
            47
        } else {
            c
        };
        out.push(d);
        j = j + 1;
        assert(out@ =~= url_safe_to_standard(rest.take(j - start)));
    }
    proof {
        lemma_first_index(rest, 46, j - start);
    }
    let seg_len = j - start;
    let ghost seg = rest.take(j - start);
    if seg_len % 4 == 2 {
        out.push(61);
        out.push(61);
    } else if seg_len % 4 == 3 {
        out.push(61);
    }
    assert(out@ =~= url_safe_to_standard(jwt_pad(seg)));
    Some(out)
}

/// The account a JWT payload names: its `customer_id` string and its
/// `username` string, `unknown` when that is missing; nothing when
/// `customer_id` is not a string.
pub open spec fn jwt_identity(claims: JsonDoc) -> Option<(Seq<char>, Seq<char>)> {
    match str_member(claims, "customer_id"@) {
        Some(c) => Some(
            (
                c,
                match str_member(claims, "username"@) {
                    Some(u) => u,
                    None => "unknown"@,
                },
            ),
        ),
        None => None,
    }
}

/// `res` is what reading the account out of `claims` gives.
pub open spec fn identity_result(res: AppResult<(String, String)>, claims: JsonDoc) -> bool {
    match jwt_identity(claims) {
        Some((c, u)) => res matches Ok((a, b)) && a@ == c && b@ == u,
        None => res matches Err(AppError::Setup(m)) && m@ == "customer_id not found in JWT"@,
    }
}

/// Reads `(customer_id, username)` from decoded JWT claims.
pub fn identity_from_claims(claims: &JsonDoc) -> (res: AppResult<(String, String)>)
    ensures
        identity_result(res, *claims),
{
    let customer_id = match str_member_of(claims, "customer_id") {
        Some(c) => c,
        None => {
            return Err(AppError::Setup(String::from_str("customer_id not found in JWT")));
        },
    };
    let username = match str_member_of(claims, "username") {
        Some(u) => u,
        None => String::from_str("unknown"),
    };
    Ok((customer_id, username))
}

/// `res` is a setup error with the message `text`.
pub open spec fn setup_error_is(res: AppResult<(String, String)>, text: Seq<char>) -> bool {
    res matches Err(AppError::Setup(m)) && m@ == text
}

/// The setup error `{prefix}{detail}`.
pub fn setup_error_text(prefix: &str, detail: String) -> (e: AppError)
    ensures
        e matches AppError::Setup(m) && m@ == prefix@ + detail@,
{
    let mut m = String::from_str(prefix);
    m.append(detail.as_str());
    AppError::Setup(m)
}

/// What reading a JWT gives: `(customer_id, username)`, or the message of
/// the setup error.
pub open spec fn jwt_result(token: Seq<u8>) -> Result<(Seq<char>, Seq<char>), Seq<char>> {
    match jwt_payload_base64_spec(token) {
        None => Err("invalid JWT token"@),
        Some(b64) => match base64_decode(b64) {
            None => Err("base64 decode JWT: "@ + base64_decode_error_text(b64)),
            Some(claims_bytes) => match json_document(claims_bytes) {
                None => Err("parse JWT: "@ + json_error_text(claims_bytes)),
                Some(claims) => match jwt_identity(claims) {
                    Some(p) => Ok(p),
                    None => Err("customer_id not found in JWT"@),
                },
            },
        },
    }
}

/// `res` is the outcome `r` of reading a JWT.
pub open spec fn is_jwt_outcome(
    res: AppResult<(String, String)>,
    r: Result<(Seq<char>, Seq<char>), Seq<char>>,
) -> bool {
    match r {
        Ok((c, u)) => res matches Ok((a, b)) && a@ == c && b@ == u,
        Err(m) => setup_error_is(res, m),
    }
}

/// Reads `(customer_id, username)` from the payload of a JWT: the second
/// `.`-separated part, base64url without padding, holding a JSON object.
pub fn parse_jwt_payload(token: &str) -> (res: AppResult<(String, String)>)
    ensures
        is_jwt_outcome(res, jwt_result(token.spec_bytes())),
{
    let payload = match jwt_payload_base64(token) {
        Some(p) => p,
        None => {
            return Err(AppError::Setup(String::from_str("invalid JWT token")));
        },
    };
    let decoded = match decode_base64(payload.as_slice()) {
        Ok(d) => d,
        Err(e) => {
            return Err(setup_error_text("base64 decode JWT: ", e));
        },
    };
    let claims = match parse_json(decoded.as_slice()) {
        Ok(v) => v,
        Err(e) => {
            return Err(setup_error_text("parse JWT: ", e));
        },
    };
    identity_from_claims(&claims)
}

// ---------------------------------------------------------------------------
// Accounts pasted into the wizard
// ---------------------------------------------------------------------------

/// The JSON that the browser script exports for a signed-in account.
#[derive(Debug)]
pub struct TampermonkeyExport {
    pub headers: TmHeaders,
    pub cookies: String,
}

/// The request headers in such an export.
#[derive(Debug)]
pub struct TmHeaders {
    pub authorization: String,
    pub bigmodel_organization: Option<String>,
    pub bigmodel_project: Option<String>,
}

/// The text of an optional string, or `default` when absent.
pub open spec fn text_or(s: Option<String>, default: Seq<char>) -> Seq<char> {
    match s {
        Some(t) => t@,
        None => default,
    }
}

/// The account entry for an export, before a product and pay type are chosen.
pub fn user_from_export(export: TampermonkeyExport, customer_id: String, username: String) -> (u:
    UserConfig)
    ensures
        u.name == username,
        u.auth_token == export.headers.authorization,
        u.cookie == export.cookies,
        u.customer_id == customer_id,
        u.product_id@ == Seq::<char>::empty(),
        u.pay_type@ == Seq::<char>::empty(),
        u.bigmodel_organization@ == text_or(export.headers.bigmodel_organization, default_org_id()),
        u.bigmodel_project@ == text_or(export.headers.bigmodel_project, default_project_id()),
{
    let org = match export.headers.bigmodel_organization {
        Some(o) => o,
        None => default_org(),
    };
    let project = match export.headers.bigmodel_project {
        Some(p) => p,
        None => default_project(),
    };
    UserConfig {
        name: username,
        auth_token: export.headers.authorization,
        cookie: export.cookies,
        customer_id,
        product_id: String::new(),
        pay_type: String::new(),
        bigmodel_organization: org,
        bigmodel_project: project,
    }
}

/// The account of a pasted export: the customer and user its JWT names,
/// the export's token, cookie and headers (defaults where absent), and no
/// product or pay type yet. A token that cannot be read gives its error.
pub fn account_from_export(export: TampermonkeyExport) -> (res: AppResult<UserConfig>)
    ensures
        match jwt_result(vstd::utf8::encode_utf8(export.headers.authorization@)) {
            Ok((c, n)) => res matches Ok(u) && {
                &&& u.name@ == n
                &&& u.customer_id@ == c
                &&& u.auth_token == export.headers.authorization
                &&& u.cookie == export.cookies
                &&& u.product_id@ == Seq::<char>::empty()
                &&& u.pay_type@ == Seq::<char>::empty()
                &&& u.bigmodel_organization@ == text_or(
                    export.headers.bigmodel_organization,
                    default_org_id(),
                )
                &&& u.bigmodel_project@ == text_or(export.headers.bigmodel_project, default_project_id())
            },
            Err(m) => res matches Err(AppError::Setup(t)) && t@ == m,
        },
{
    let (customer_id, username) = parse_jwt_payload(export.headers.authorization.as_str())?;
    Ok(user_from_export(export, customer_id, username))
}

/// Adds an account, with the product and pay type chosen for it, after the
/// accounts already added.
pub fn record_account(
    users: &mut Vec<UserConfig>,
    account: UserConfig,
    product_id: String,
    pay_type: String,
)
    ensures
        final(users)@ == old(users)@.push(
            UserConfig { product_id: product_id, pay_type: pay_type, ..account },
        ),
{
    let mut account = account;
    account.product_id = product_id;
    account.pay_type = pay_type;
    users.push(account);
}

/// What the wizard does with a line typed at the account prompt.
#[derive(Debug, PartialEq, Eq, Structural)]
pub enum AccountInput {
    /// Stop adding accounts.
    Finish,
    /// Ask again, saying that one account at least is needed.
    NeedOneAccount,
    /// Ask again without a word.
    AskAgain,
    /// Read the line as an exported account.
    Export,
}

/// Whether the line is `q` or `Q`.
pub open spec fn is_quit_word(raw: Seq<char>) -> bool {
    raw == "q"@ || raw == "Q"@
}

/// `q` (any case) finishes, an empty line finishes too; both only once an
/// account has been added. Any other line is an export.
pub fn classify_account_input(raw: &str, have_accounts: bool) -> (a: AccountInput)
    ensures
        a == (if is_quit_word(raw@) {
            if have_accounts {
                AccountInput::Finish
            } else {
                AccountInput::NeedOneAccount
            }
        } else if raw@.len() == 0 {
            if have_accounts {
                AccountInput::Finish
            } else {
                AccountInput::AskAgain
            }
        } else {
            AccountInput::Export
        }),
{
    if str_eq(raw, "q") || str_eq(raw, "Q") {
        if have_accounts {
            AccountInput::Finish
        } else {
            AccountInput::NeedOneAccount
        }
    } else if raw.is_empty() {
        if have_accounts {
            AccountInput::Finish
        } else {
            AccountInput::AskAgain
        }
    } else {
        AccountInput::Export
    }
}

// ---------------------------------------------------------------------------
// Numbers and choices typed by the user
// ---------------------------------------------------------------------------

pub open spec fn is_digit(c: char) -> bool {
    '0' <= c <= '9'
}

pub open spec fn all_digits(s: Seq<char>) -> bool {
    forall|i: int| 0 <= i < s.len() ==> is_digit(#[trigger] s[i])
}

/// The number that a string of decimal digits denotes.
pub open spec fn digits_value(s: Seq<char>) -> nat
    decreases s.len(),
{
    if s.len() == 0 {
        0
    } else {
        digits_value(s.drop_last()) * 10 + ((s.last() as u32) - 48) as nat
    }
}

/// `str::parse::<usize>`: an optional `+`, then one decimal digit at least,
/// denoting a value that fits in `usize`.
pub open spec fn parse_usize_spec(s: Seq<char>) -> Option<usize> {
    let d = if s.len() > 0 && s[0] == '+' {
        s.skip(1)
    } else {
        s
    };
    if d.len() > 0 && all_digits(d) && digits_value(d) <= usize::MAX {
        Some(digits_value(d) as usize)
    } else {
        None
    }
}

proof fn lemma_digits_value_grows(s: Seq<char>, i: int)
    requires
        0 <= i <= s.len(),
        all_digits(s),
    ensures
        digits_value(s.take(i)) <= digits_value(s),
    decreases s.len() - i,
{
    if i < s.len() {
        lemma_digits_value_grows(s, i + 1);
        assert(s.take(i + 1).drop_last() =~= s.take(i));
    } else {
        assert(s.take(i) =~= s);
    }
}

/// Reads a `usize` as `str::parse` does.
pub fn parse_usize(s: &str) -> (r: Option<usize>)
    ensures
        r == parse_usize_spec(s@),
{
    let n = s.unicode_len();
    let mut i: usize = 0;
    if n > 0 && s.get_char(0) == '+' {
        i = 1;
    }
    let start = i;
    let ghost d = s@.skip(start as int);
    assert(s@.skip(0) =~= s@);
    assert(d == (if s@.len() > 0 && s@[0] == '+' { s@.skip(1) } else { s@ }));
    if start == n {
        return None;
    }
    let mut value: usize = 0;
    while i < n
        invariant
            n == s@.len(),
            start <= i <= n,
            start < n,
            d == s@.skip(start as int),
            start == 1 <==> (s@.len() > 0 && s@[0] == '+'),
            start <= 1,
            d == (if s@.len() > 0 && s@[0] == '+' { s@.skip(1) } else { s@ }),
            all_digits(d.take(i - start)),
            value == digits_value(d.take(i - start)),
        decreases n - i,
    {
        let c = s.get_char(i);
        if !('0' <= c && c <= '9') {
            assert(!is_digit(d[i - start]));
            return None;
        }
        let digit = (c as u32 - 48) as usize;
        let ghost next = d.take(i + 1 - start);
        assert(next.drop_last() =~= d.take(i - start));
        assert(next.last() == c);
        assert(all_digits(next));
        assert(digits_value(next) == value * 10 + digit);
        let times_ten = match value.checked_mul(10) {
            Some(t) => t,
            None => {
                proof {
                    if all_digits(d) {
                        lemma_digits_value_grows(d, i + 1 - start);
                    }
                }
                return None;
            },
        };
        value = match times_ten.checked_add(digit) {
            Some(v) => v,
            None => {
                proof {
                    if all_digits(d) {
                        lemma_digits_value_grows(d, i + 1 - start);
                    }
                }
                return None;
            },
        };
        i = i + 1;
    }
    assert(d.take(n - start) =~= d);
    Some(value)
}

/// The product number typed at the product prompt, when it is one of
/// `1..=count`.
pub fn parse_product_choice(input: &str, count: usize) -> (r: Option<usize>)
    ensures
        r == (match parse_usize_spec(input@) {
            Some(k) => if 1 <= k <= count {
                Some(k)
            } else {
                None
            },
            None => None,
        }),
{
    match parse_usize(input) {
        Some(k) => if k >= 1 && k <= count {
            Some(k)
        } else {
            None
        },
        None => None,
    }
}

/// The pay type chosen at the pay prompt: empty or `1` is Alipay, `2` is
/// WeChat; anything else is asked again.
pub fn parse_pay_choice(input: &str) -> (r: Option<PayType>)
    ensures
        r == (if input@.len() == 0 || input@ == "1"@ {
            Some(PayType::Ali)
        } else if input@ == "2"@ {
            Some(PayType::WeChat)
        } else {
            None
        }),
{
    if input.is_empty() || str_eq(input, "1") {
        Some(PayType::Ali)
    } else if str_eq(input, "2") {
        Some(PayType::WeChat)
    } else {
        None
    }
}

/// The requests per second typed by the user, 30 when it is not a number.
pub fn rps_from_input(input: &str) -> (r: usize)
    ensures
        r == (match parse_usize_spec(input@) {
            Some(k) => k,
            None => 30,
        }),
{
    match parse_usize(input) {
        Some(k) => k,
        None => 30,
    }
}

/// The settings written by the wizard: the typed rate, a 5 second timeout
/// and the accounts in the order they were added.
pub fn wizard_config(rps: usize, users: Vec<UserConfig>) -> (c: GlobalConfig)
    ensures
        c.rps == rps,
        c.timeout_secs == 5,
        c.users == users,
{
    GlobalConfig { rps, timeout_secs: 5, users }
}

/// The word shown for an account's pay type in the wizard's summary.
pub fn pay_label(pay_type: &str) -> (s: &'static str)
    ensures
        s@ == (if pay_type@ == "WE_CHAT"@ {
            "微信"@
        } else {
            "支付宝"@
        }),
{
    if str_eq(pay_type, "WE_CHAT") {
        "微信"
    } else {
        "支付宝"
    }
}

/// The word shown for a product's stock, which counts as available when the
/// shop does not say.
pub fn product_status(sold_out: Option<bool>) -> (s: &'static str)
    ensures
        s@ == (if sold_out == Some(true) {
            "已售罄"@
        } else {
            "可购买"@
        }),
{
    match sold_out {
        Some(true) => "已售罄",
        _ => "可购买",
    }
}

/// The price band of a plan, by its monthly price.
#[derive(Clone, Copy, Debug, PartialEq, Eq, Structural)]
pub enum Tier {
    Pro,
    ProPlus,
    Team,
}

/// The Chinese name of a plan from its band and its billing period in
/// months; periods other than 1, 3 and 12 have no name.
pub open spec fn product_label_text(tier: Tier, months: i32) -> Seq<char> {
    match tier {
        Tier::Pro => if months == 1 {
            "Pro 月付"@
        } else if months == 3 {
            "Pro 连续包季"@
        } else if months == 12 {
            "Pro 连续包年"@
        } else {
            "未知套餐"@
        },
        Tier::ProPlus => if months == 1 {
            "Pro+ 月付"@
        } else if months == 3 {
            "Pro+ 连续包季"@
        } else if months == 12 {
            "Pro+ 连续包年"@
        } else {
            "未知套餐"@
        },
        Tier::Team => if months == 1 {
            "Team 月付"@
        } else if months == 3 {
            "Team 连续包季"@
        } else if months == 12 {
            "Team 连续包年"@
        } else {
            "未知套餐"@
        },
    }
}

/// A plan is named by its price band, a space, and its billing period:
/// `月付` (monthly) for 1 month, `连续包季` (quarterly) for 3 and `连续包年`
/// (yearly) for 12, with the same band word whatever the period; any other
/// period gives `未知套餐` (unknown plan) for every band.
pub proof fn lemma_product_label_band_and_period(t: Tier, months: i32)
    ensures
        ({
            let band = match t {
                Tier::Pro => "Pro"@,
                Tier::ProPlus => "Pro+"@,
                Tier::Team => "Team"@,
            };
            &&& months == 1 ==> product_label_text(t, months) == band + " "@ + "月付"@
            &&& months == 3 ==> product_label_text(t, months) == band + " "@ + "连续包季"@
            &&& months == 12 ==> product_label_text(t, months) == band + " "@ + "连续包年"@
            &&& (months != 1 && months != 3 && months != 12) ==> product_label_text(t, months)
                == product_label_text(Tier::Pro, 0)
        }),
        product_label_text(Tier::Team, 0) == "未知套餐"@,
{
    reveal_strlit("Pro");
    reveal_strlit("Pro+");
    reveal_strlit("Team");
    reveal_strlit(" ");
    reveal_strlit("月付");
    reveal_strlit("连续包季");
    reveal_strlit("连续包年");
    reveal_strlit("Pro 月付");
    reveal_strlit("Pro 连续包季");
    reveal_strlit("Pro 连续包年");
    reveal_strlit("Pro+ 月付");
    reveal_strlit("Pro+ 连续包季");
    reveal_strlit("Pro+ 连续包年");
    reveal_strlit("Team 月付");
    reveal_strlit("Team 连续包季");
    reveal_strlit("Team 连续包年");
    let band = match t {
        Tier::Pro => "Pro"@,
        Tier::ProPlus => "Pro+"@,
        Tier::Team => "Team"@,
    };
    if months == 1 {
        assert(product_label_text(t, months) =~= band + " "@ + "月付"@);
    } else if months == 3 {
        assert(product_label_text(t, months) =~= band + " "@ + "连续包季"@);
    } else if months == 12 {
        assert(product_label_text(t, months) =~= band + " "@ + "连续包年"@);
    }
}

/// The name shown for a plan.
pub fn product_label(tier: Tier, months: i32) -> (s: &'static str)
    ensures
        s@ == product_label_text(tier, months),
{
    match (tier, months) {
        (Tier::Pro, 1) => "Pro 月付",
        (Tier::Pro, 3) => "Pro 连续包季",
        (Tier::Pro, 12) => "Pro 连续包年",
        (Tier::ProPlus, 1) => "Pro+ 月付",
        (Tier::ProPlus, 3) => "Pro+ 连续包季",
        (Tier::ProPlus, 12) => "Pro+ 连续包年",
        (Tier::Team, 1) => "Team 月付",
        (Tier::Team, 3) => "Team 连续包季",
        (Tier::Team, 12) => "Team 连续包年",
        _ => "未知套餐",
    }
}

/// The configuration used to list an account's products before it has
/// chosen one: no product, Alipay, one request per second, 5 s timeout.
pub fn listing_config(user: &UserConfig) -> (c: AppConfig)
    ensures
        c.name == user.name,
        c.auth_token == user.auth_token,
        c.cookie == user.cookie,
        c.customer_id == user.customer_id,
        c.bigmodel_organization == user.bigmodel_organization,
        c.bigmodel_project == user.bigmodel_project,
        c.base_url@ == pay_api_base(),
        c.user_agent@ == browser_user_agent(),
        c.product_id@ == Seq::<char>::empty(),
        c.pay_type == PayType::Ali,
        c.invitation_code@ == Seq::<char>::empty(),
        c.rps == 1,
        c.timeout_secs == 5,
{
    AppConfig {
        auth_token: user.auth_token.clone(),
        cookie: user.cookie.clone(),
        customer_id: user.customer_id.clone(),
        bigmodel_organization: user.bigmodel_organization.clone(),
        bigmodel_project: user.bigmodel_project.clone(),
        base_url: pay_api_base_url(),
        user_agent: browser_user_agent_string(),
        product_id: String::new(),
        pay_type: PayType::Ali,
        invitation_code: String::new(),
        rps: 1,
        timeout_secs: 5,
        name: user.name.clone(),
    }
}

/// A product list must not be empty.
pub fn require_products(count: usize) -> (res: AppResult<()>)
    ensures
        count == 0 ==> (res matches Err(AppError::Setup(m)) && m@ == "no products returned"@),
        count > 0 ==> res is Ok,
{
    if count == 0 {
        Err(AppError::Setup(String::from_str("no products returned")))
    } else {
        Ok(())
    }
}

} // verus!
