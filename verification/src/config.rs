use vstd::prelude::*;

use crate::error::{AppError, AppResult};
use crate::text::{ascii_uppercase, str_eq};

verus! {

/// The run-time settings of one account.
#[derive(Clone, Debug)]
pub struct AppConfig {
    pub name: String,
    pub auth_token: String,
    pub cookie: String,
    pub customer_id: String,
    pub bigmodel_organization: String,
    pub bigmodel_project: String,
    pub base_url: String,
    pub user_agent: String,
    pub product_id: String,
    pub pay_type: PayType,
    pub invitation_code: String,
    pub rps: usize,
    pub timeout_secs: u64,
}

/// How an order is paid.
#[derive(Clone, Copy, Debug, PartialEq, Eq, Structural)]
pub enum PayType {
    Ali,
    WeChat,
}

/// The pay type named by an already upper-cased text, if any:
/// `ALI` or `ALIPAY` is Alipay, `WE_CHAT` or `WECHAT` is WeChat.
pub open spec fn pay_type_named(upper: Seq<char>) -> Option<PayType> {
    if upper == "ALI"@ || upper == "ALIPAY"@ {
        Some(PayType::Ali)
    } else if upper == "WE_CHAT"@ || upper == "WECHAT"@ {
        Some(PayType::WeChat)
    } else {
        None
    }
}

/// Unicode upper-casing of a string (`str::to_uppercase`).
pub uninterp spec fn unicode_uppercase(s: Seq<char>) -> Seq<char>;

/// `str::to_uppercase`. Trusted: the result is the Unicode upper-casing of
/// the input, and on ASCII text it only turns `a`-`z` into `A`-`Z`.
#[verifier::external_body]
fn to_uppercase(s: &str) -> (u: String)
    ensures
        u@ == unicode_uppercase(s@),
        vstd::utf8::is_ascii_chars(s@) ==> u@ == ascii_uppercase(s@),
{
    s.to_uppercase()
}

impl PayType {
    /// The code the shop uses for this pay type.
    pub open spec fn code(&self) -> Seq<char> {
        match self {
            PayType::Ali => "ALI"@,
            PayType::WeChat => "WE_CHAT"@,
        }
    }

    pub fn as_str(&self) -> (s: &'static str)
        ensures
            s@ == self.code(),
    {
        match self {
            PayType::Ali => "ALI",
            PayType::WeChat => "WE_CHAT",
        }
    }

    /// Reads a pay type from text that has already been upper-cased;
    /// `as_written` is the text as the user wrote it, kept for the error.
    pub fn from_uppercase(upper: &str, as_written: &str) -> (res: AppResult<PayType>)
        ensures
            match pay_type_named(upper@) {
                Some(p) => res == Ok::<PayType, AppError>(p),
                None => res matches Err(AppError::InvalidPayType(t)) && t@ == as_written@,
            },
    {
        if str_eq(upper, "ALI") || str_eq(upper, "ALIPAY") {
            Ok(PayType::Ali)
        } else if str_eq(upper, "WE_CHAT") || str_eq(upper, "WECHAT") {
            Ok(PayType::WeChat)
        } else {
            Err(AppError::InvalidPayType(String::from_str(as_written)))
        }
    }

    /// Reads a pay type, ignoring case: `ALI`/`ALIPAY` or `WE_CHAT`/`WECHAT`.
    pub fn from_str(s: &str) -> (res: AppResult<PayType>)
        ensures
            match pay_type_named(unicode_uppercase(s@)) {
                Some(p) => res == Ok::<PayType, AppError>(p),
                None => res matches Err(AppError::InvalidPayType(t)) && t@ == s@,
            },
            vstd::utf8::is_ascii_chars(s@) ==> match pay_type_named(ascii_uppercase(s@)) {
                Some(p) => res == Ok::<PayType, AppError>(p),
                None => res is Err,
            },
            forall|p: PayType| s@ == p.code() ==> res == Ok::<PayType, AppError>(p),
    {
        let upper = to_uppercase(s);
        proof {
            if vstd::utf8::is_ascii_chars(s@) {
                assert(unicode_uppercase(s@) == ascii_uppercase(s@));
            }
            assert forall|p: PayType| s@ == p.code() implies pay_type_named(
                unicode_uppercase(s@),
            ) == Some(p) by {
                lemma_pay_type_code_round_trip(p);
            }
        }
        PayType::from_uppercase(upper.as_str(), s)
    }
}

/// Every pay type's code is ASCII and names that pay type again once
/// upper-cased.
pub proof fn lemma_pay_type_code_round_trip(p: PayType)
    ensures
        vstd::utf8::is_ascii_chars(p.code()),
        pay_type_named(ascii_uppercase(p.code())) == Some(p),
{
    reveal_strlit("ALI");
    reveal_strlit("WE_CHAT");
    reveal_strlit("ALIPAY");
    reveal_strlit("WECHAT");
    assert(ascii_uppercase(p.code()) =~= p.code());
    if p == PayType::WeChat {
        assert(p.code() != "ALI"@);
        assert(p.code() != "ALIPAY"@);
    }
}

/// The settings file: shared rate settings and the accounts.
#[derive(Clone, Debug)]
pub struct GlobalConfig {
    pub rps: usize,
    pub timeout_secs: u64,
    pub users: Vec<UserConfig>,
}

/// One account as written in the settings file.
#[derive(Clone, Debug)]
pub struct UserConfig {
    pub name: String,
    pub auth_token: String,
    pub cookie: String,
    pub customer_id: String,
    pub product_id: String,
    pub pay_type: String,
    pub bigmodel_organization: String,
    pub bigmodel_project: String,
}

/// Requests per second when the settings file names none.
pub fn default_rps() -> (r: usize)
    ensures
        r == 30,
{
    30
}

/// Request timeout in seconds when the settings file names none.
pub fn default_timeout() -> (r: u64)
    ensures
        r == 5,
{
    5
}

pub open spec fn default_org_id() -> Seq<char> {
    "org-583867d3f6994298908000F995870b6a"@
}

pub open spec fn default_project_id() -> Seq<char> {
    "proj_2fFEA9d9c35B4408A1C72206C32a0354"@
}

/// The organization header sent when the settings file names none.
pub fn default_org() -> (s: String)
    ensures
        s@ == default_org_id(),
{
    String::from_str("org-583867d3f6994298908000F995870b6a")
}

/// The project header sent when the settings file names none.
pub fn default_project() -> (s: String)
    ensures
        s@ == default_project_id(),
{
    String::from_str("proj_2fFEA9d9c35B4408A1C72206C32a0354")
}

pub open spec fn pay_api_base() -> Seq<char> {
    "https://www.bigmodel.cn/api/biz/pay"@
}

pub open spec fn browser_user_agent() -> Seq<char> {
    "Mozilla/5.0 (Windows NT 10.0; Win64; x64) AppleWebKit/537.36 (KHTML, like Gecko) Chrome/137.0.0.0 Safari/537.36"@
}

/// The browser identity sent for every account is desktop Chrome 137 on
/// 64-bit Windows: the operating system part, the engine part and the
/// browser part, one after the other.
pub proof fn lemma_browser_user_agent_parts()
    ensures
        browser_user_agent() == "Mozilla/5.0 (Windows NT 10.0; Win64; x64) "@
            + "AppleWebKit/537.36 (KHTML, like Gecko) "@ + "Chrome/137.0.0.0 Safari/537.36"@,
{
    reveal_strlit("Mozilla/5.0 (Windows NT 10.0; Win64; x64) AppleWebKit/537.36 (KHTML, like Gecko) Chrome/137.0.0.0 Safari/537.36");
    reveal_strlit("Mozilla/5.0 (Windows NT 10.0; Win64; x64) ");
    reveal_strlit("AppleWebKit/537.36 (KHTML, like Gecko) ");
    reveal_strlit("Chrome/137.0.0.0 Safari/537.36");
    assert(browser_user_agent() =~= "Mozilla/5.0 (Windows NT 10.0; Win64; x64) "@
        + "AppleWebKit/537.36 (KHTML, like Gecko) "@ + "Chrome/137.0.0.0 Safari/537.36"@);
}

/// The base URL of the payment API.
pub fn pay_api_base_url() -> (s: String)
    ensures
        s@ == pay_api_base(),
{
    String::from_str("https://www.bigmodel.cn/api/biz/pay")
}

/// The browser identity sent with every request.
pub fn browser_user_agent_string() -> (s: String)
    ensures
        s@ == browser_user_agent(),
{
    String::from_str(
        "Mozilla/5.0 (Windows NT 10.0; Win64; x64) AppleWebKit/537.36 (KHTML, like Gecko) Chrome/137.0.0.0 Safari/537.36",
    )
}

/// `c` is the run-time configuration of account `u` with pay type `p`, under
/// the file-wide `rps` and `timeout_secs`.
pub open spec fn is_app_config_of(
    c: AppConfig,
    u: UserConfig,
    p: PayType,
    rps: usize,
    timeout_secs: u64,
) -> bool {
    &&& c.name == u.name
    &&& c.auth_token == u.auth_token
    &&& c.cookie == u.cookie
    &&& c.customer_id == u.customer_id
    &&& c.bigmodel_organization == u.bigmodel_organization
    &&& c.bigmodel_project == u.bigmodel_project
    &&& c.base_url@ == pay_api_base()
    &&& c.user_agent@ == browser_user_agent()
    &&& c.product_id == u.product_id
    &&& c.pay_type == p
    &&& c.invitation_code@ == Seq::<char>::empty()
    &&& c.rps == rps
    &&& c.timeout_secs == timeout_secs
}

/// Whether an account's pay type text is accepted.
pub open spec fn user_pay_type_ok(u: UserConfig) -> bool {
    pay_type_named(unicode_uppercase(u.pay_type@)) is Some
}

impl UserConfig {
    /// The run-time configuration of this account with the given pay type.
    pub fn to_app_config(&self, pay_type: PayType, rps: usize, timeout_secs: u64) -> (c: AppConfig)
        ensures
            is_app_config_of(c, *self, pay_type, rps, timeout_secs),
    {
        AppConfig {
            name: self.name.clone(),
            auth_token: self.auth_token.clone(),
            cookie: self.cookie.clone(),
            customer_id: self.customer_id.clone(),
            bigmodel_organization: self.bigmodel_organization.clone(),
            bigmodel_project: self.bigmodel_project.clone(),
            base_url: pay_api_base_url(),
            user_agent: browser_user_agent_string(),
            product_id: self.product_id.clone(),
            pay_type,
            invitation_code: String::new(),
            rps,
            timeout_secs,
        }
    }
}

impl GlobalConfig {
    /// One run-time configuration per account, in the file's order; fails on
    /// the first account whose pay type is not accepted.
    pub fn into_app_configs(self) -> (res: AppResult<Vec<AppConfig>>)
        ensures
            (forall|i: int| 0 <= i < self.users@.len() ==> user_pay_type_ok(#[trigger] self.users@[i]))
                <==> res is Ok,
            res matches Ok(cs) ==> {
                &&& cs@.len() == self.users@.len()
                &&& forall|i: int|
                    0 <= i < cs@.len() ==> is_app_config_of(
                        #[trigger] cs@[i],
                        self.users@[i],
                        pay_type_named(unicode_uppercase(self.users@[i].pay_type@))->0,
                        self.rps,
                        self.timeout_secs,
                    )
            },
            res matches Err(e) ==> exists|k: int|
                #![trigger self.users@[k]]
                {
                    &&& 0 <= k < self.users@.len()
                    &&& !user_pay_type_ok(self.users@[k])
                    &&& forall|i: int| 0 <= i < k ==> user_pay_type_ok(#[trigger] self.users@[i])
                    &&& e matches AppError::InvalidPayType(t)
                    &&& t@ == self.users@[k].pay_type@
                },
    {
        let users = self.users;
        let mut configs: Vec<AppConfig> = Vec::new();
        let mut i: usize = 0;
        while i < users.len()
            invariant
                users@ == self.users@,
                i <= users@.len(),
                configs@.len() == i,
                forall|j: int| 0 <= j < i ==> user_pay_type_ok(#[trigger] users@[j]),
                forall|j: int|
                    0 <= j < i ==> is_app_config_of(
                        #[trigger] configs@[j],
                        users@[j],
                        pay_type_named(unicode_uppercase(users@[j].pay_type@))->0,
                        self.rps,
                        self.timeout_secs,
                    ),
            decreases users@.len() - i,
        {
            let u = &users[i];
            let pay_type = match PayType::from_str(u.pay_type.as_str()) {
                Ok(p) => p,
                Err(e) => {
                    assert(!user_pay_type_ok(users@[i as int]));
                    return Err(e);
                },
            };
            configs.push(u.to_app_config(pay_type, self.rps, self.timeout_secs));
            i = i + 1;
        }
        Ok(configs)
    }
}

} // verus!
