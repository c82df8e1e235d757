use vstd::prelude::*;

verus! {

/// The envelope of every answer of the payment API.
#[derive(Debug)]
pub struct ApiResponse<T> {
    pub code: Option<i32>,
    pub data: Option<T>,
    pub msg: Option<String>,
}

/// Body of the `preview` request.
#[derive(Debug)]
pub struct PreviewRequest<'a> {
    pub product_id: &'a str,
    pub invitation_code: &'a str,
}

/// The subscription an account already holds.
#[derive(Clone, Debug)]
pub struct SubscriptionSummary {
    pub product_id: Option<String>,
    pub agreement_no: Option<String>,
}

/// Answer of the `preview` request. The two amounts are held as the decimal
/// text of the numbers the shop sent.
#[derive(Clone, Debug)]
pub struct PreviewData {
    pub biz_id: Option<String>,
    pub sold_out: Option<bool>,
    pub product_name: Option<String>,
    pub pay_amount: Option<String>,
    pub third_party_amount: Option<String>,
    pub renew: Option<bool>,
    pub last_subscription_summary: Option<SubscriptionSummary>,
}

/// Body of the `create-sign` request.
#[derive(Debug)]
pub struct CreateSignRequest<'a> {
    pub pay_type: &'a str,
    pub product_id: &'a str,
    pub customer_id: &'a str,
    pub biz_id: &'a str,
    pub invitation_code: &'a str,
}

/// Answer of the `create-sign` request.
#[derive(Clone, Debug)]
pub struct CreateSignData {
    pub sign: Option<String>,
}

/// What the pay-middle page is given, sealed, in its `info` parameter.
#[derive(Clone, Debug)]
pub struct PayMiddleInfo {
    pub product_id: String,
    pub product_name: String,
    pub amount: String,
    pub customer_id: String,
    pub customer_name: String,
    pub old_product_id: String,
    pub agreement_no: String,
    pub is_subscribe: bool,
    pub biz_id: String,
    pub pay_type: String,
    pub user_state: String,
    pub ic: String,
}

} // verus!
