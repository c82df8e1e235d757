use vstd::prelude::*;
use vstd::string::StringSliceAdditionalSpecFns;

use crate::base64::{
    base64_decode, base64_encode, base64_standard_encode, lemma_base64_decode_encode,
    lemma_base64_encode_ascii, lemma_base64_encode_shape,
};
use crate::config::{pay_api_base, pay_api_base_url, AppConfig, PayType};
use crate::crypto::{
    ecb_encrypt, ecb_encrypt_blocks, lemma_ecb_encrypt_prefix, lemma_pkcs7_pad_prefix,
    lemma_pkcs7_pad_reversible, pay_info_key, pay_info_key_bytes, pkcs7_pad, pkcs7_pad_in_place,
    sealed_bytes,
};
use crate::model::{
    ApiResponse, CreateSignData, CreateSignRequest, PayMiddleInfo, PreviewData, PreviewRequest,
};
use crate::text::{
    ascii_chars, concat3, decimal_digits, hex_bytes, hex_digits, lemma_ascii_string_bytes,
    lemma_hex_bytes_len, push_decimal, push_hex, push_hex_bytes, string_from_ascii,
};

verus! {

// ---------------------------------------------------------------------------
// The `refer__1090` parameter of the preview request
// ---------------------------------------------------------------------------

/// The MD5 digest of a byte string.
pub uninterp spec fn md5_digest(data: Seq<u8>) -> Seq<u8>;

/// `md5::compute`. Trusted: the result is the MD5 digest of the input, and a
/// digest is 16 bytes (`md5::Digest` wraps a `[u8; 16]`).
#[verifier::external_body]
fn md5_compute(data: &[u8]) -> (d: Vec<u8>)
    ensures
        d@ == md5_digest(data@),
        d@.len() == 16,
{
    md5::compute(data).0.to_vec()
}

/// Seconds since the Unix epoch by the system clock (`SystemTime::now`), 0 if
/// the clock is before the epoch. Nothing is promised of the value.
#[verifier::external_body]
fn unix_time_secs() -> u64 {
    std::time::SystemTime::now().duration_since(std::time::UNIX_EPOCH).unwrap_or_default().as_secs()
}

/// A random number from the thread-local generator (`rand::random`).
/// Nothing is promised of the value.
#[verifier::external_body]
fn random_u64() -> u64 {
    rand::random::<u64>()
}

/// The text that is hashed: the time in decimal followed by the random number
/// in lowercase hexadecimal.
pub open spec fn refer_input(ts: u64, random: u64) -> Seq<u8> {
    decimal_digits(ts as nat) + hex_digits(random as nat)
}

/// The first 30 lowercase hexadecimal digits of the MD5 digest of the input.
pub open spec fn refer_param_text(ts: u64, random: u64) -> Seq<char> {
    ascii_chars(hex_bytes(md5_digest(refer_input(ts, random))).take(30))
}

pub open spec fn is_lower_hex_char(c: char) -> bool {
    ('0' <= c <= '9') || ('a' <= c <= 'f')
}

proof fn lemma_hex_bytes_are_digits(b: Seq<u8>)
    ensures
        forall|i: int|
            0 <= i < hex_bytes(b).len() ==> is_lower_hex_char(#[trigger] hex_bytes(b)[i] as char),
    decreases b.len(),
{
    if b.len() > 0 {
        lemma_hex_bytes_are_digits(b.drop_last());
        lemma_hex_bytes_len(b.drop_last());
    }
}

/// The refer parameter for a digest: its first 30 lowercase hexadecimal
/// digits (a digest is 16 bytes; 15 give the 30 digits already).
pub fn refer_from_digest(digest: &[u8]) -> (s: String)
    requires
        digest@.len() >= 15,
    ensures
        s@ == ascii_chars(hex_bytes(digest@).take(30)),
        s@.len() == 30,
        forall|i: int| 0 <= i < 30 ==> is_lower_hex_char(#[trigger] s@[i]),
{
    let mut hex: Vec<u8> = Vec::new();
    push_hex_bytes(&mut hex, digest);
    proof {
        lemma_hex_bytes_len(digest@);
        lemma_hex_bytes_are_digits(digest@);
        assert(hex@ =~= hex_bytes(digest@));
    }
    hex.truncate(30);
    assert(hex@ =~= hex_bytes(digest@).take(30));
    let s = string_from_ascii(hex.as_slice());
    assert forall|i: int| 0 <= i < 30 implies is_lower_hex_char(#[trigger] s@[i]) by {
        assert(s@[i] == hex_bytes(digest@)[i] as char);
    }
    s
}

/// The refer parameter for a given time and random number.
pub fn refer_param(ts: u64, random: u64) -> (s: String)
    ensures
        s@ == refer_param_text(ts, random),
        s@.len() == 30,
        forall|i: int| 0 <= i < 30 ==> is_lower_hex_char(#[trigger] s@[i]),
{
    let mut input: Vec<u8> = Vec::new();
    push_decimal(&mut input, ts);
    push_hex(&mut input, random);
    assert(input@ =~= refer_input(ts, random));
    let digest = md5_compute(input.as_slice());
    refer_from_digest(digest.as_slice())
}

/// A fresh refer parameter from the current time and a random number.
pub fn generate_refer_param() -> (s: String)
    ensures
        exists|ts: u64, random: u64| s@ == refer_param_text(ts, random),
        s@.len() == 30,
        forall|i: int| 0 <= i < 30 ==> is_lower_hex_char(#[trigger] s@[i]),
{
    let ts = unix_time_secs();
    let random = random_u64();
    refer_param(ts, random)
}

// ---------------------------------------------------------------------------
// Preview
// ---------------------------------------------------------------------------

/// The address that lists the products an account may buy.
pub fn batch_preview_url() -> (s: String)
    ensures
        s@ == pay_api_base() + "/batch-preview"@,
{
    let mut s = pay_api_base_url();
    s.append("/batch-preview");
    s
}

/// `{base_url}/preview?refer__1090={refer}`.
pub fn preview_url(base_url: &str, refer: &str) -> (s: String)
    ensures
        s@ == base_url@ + "/preview?refer__1090="@ + refer@,
{
    concat3(base_url, "/preview?refer__1090=", refer)
}

/// The preview request for an account.
pub fn preview_request(config: &AppConfig) -> (r: PreviewRequest<'_>)
    ensures
        r.product_id@ == config.product_id@,
        r.invitation_code@ == config.invitation_code@,
{
    PreviewRequest {
        product_id: config.product_id.as_str(),
        invitation_code: config.invitation_code.as_str(),
    }
}

/// The order id of a preview answer, if it holds one.
pub open spec fn preview_biz_id(data: Option<PreviewData>) -> Option<String> {
    match data {
        Some(d) => d.biz_id,
        None => None,
    }
}

/// A preview answer counts as sold out unless it says otherwise.
pub open spec fn preview_is_sold_out(data: Option<PreviewData>) -> bool {
    match data {
        Some(d) => match d.sold_out {
            Some(b) => b,
            None => true,
        },
        None => true,
    }
}

/// Stock is read from the answer's flag alone, and an answer without the
/// flag, or no answer, counts as sold out; the order id is the answer's own.
pub proof fn lemma_preview_stock(d: PreviewData, flag: Option<bool>)
    ensures
        preview_is_sold_out(None),
        flag matches Some(b) ==> preview_is_sold_out(Some(PreviewData { sold_out: flag, ..d })) == b,
        flag is None ==> preview_is_sold_out(Some(PreviewData { sold_out: flag, ..d })),
        preview_biz_id(Some(d)) == d.biz_id,
        preview_biz_id(None) is None,
{
}

/// Whether the answer is sold out; a missing answer or flag counts as sold out.
pub fn preview_sold_out(data: &Option<PreviewData>) -> (b: bool)
    ensures
        b == preview_is_sold_out(*data),
{
    match data {
        Some(d) => match d.sold_out {
            Some(b) => b,
            None => true,
        },
        None => true,
    }
}

/// The word logged for the stock state.
pub fn preview_status(sold_out: bool) -> (s: &'static str)
    ensures
        s@ == (if sold_out { "sold out"@ } else { "in stock"@ }),
{
    if sold_out {
        "sold out"
    } else {
        "in stock"
    }
}

/// Whether this answer lets the account order: it carries an order id and is
/// not sold out.
pub fn preview_claimable(data: &Option<PreviewData>) -> (b: bool)
    ensures
        b == (preview_biz_id(*data) is Some && !preview_is_sold_out(*data)),
{
    let has_id = match data {
        Some(d) => d.biz_id.is_some(),
        None => false,
    };
    has_id && !preview_sold_out(data)
}

/// What a poll hands on: the answer, when it can be ordered and no other poll
/// has claimed an order before (`already_claimed` is the shared flag's
/// previous value); nothing otherwise.
pub fn preview_outcome(data: Option<PreviewData>, already_claimed: bool) -> (r: Option<PreviewData>)
    ensures
        r == (if preview_biz_id(data) is Some && !preview_is_sold_out(data) && !already_claimed {
            data
        } else {
            None
        }),
{
    if preview_claimable(&data) && !already_claimed {
        data
    } else {
        None
    }
}

// ---------------------------------------------------------------------------
// Create-sign
// ---------------------------------------------------------------------------

/// `{base_url}/create-sign`.
pub fn create_sign_url(base_url: &str) -> (s: String)
    ensures
        s@ == base_url@ + "/create-sign"@,
{
    let mut s = String::from_str(base_url);
    s.append("/create-sign");
    s
}

/// The create-sign request for an account and an order id.
pub fn create_sign_request<'a>(config: &'a AppConfig, biz_id: &'a str) -> (r: CreateSignRequest<'a>)
    ensures
        r.pay_type@ == config.pay_type.code(),
        r.product_id@ == config.product_id@,
        r.customer_id@ == config.customer_id@,
        r.biz_id@ == biz_id@,
        r.invitation_code@ == config.invitation_code@,
{
    CreateSignRequest {
        pay_type: config.pay_type.as_str(),
        product_id: config.product_id.as_str(),
        customer_id: config.customer_id.as_str(),
        biz_id,
        invitation_code: config.invitation_code.as_str(),
    }
}

/// The payment link of a create-sign answer: present only when the answer's
/// code is 200 and it carries a link.
pub fn sign_url(resp: ApiResponse<CreateSignData>) -> (r: Option<String>)
    ensures
        r == (if resp.code == Some(200i32) {
            match resp.data {
                Some(d) => d.sign,
                None => None,
            }
        } else {
            None
        }),
{
    match resp.code {
        Some(c) => {
            if c == 200 {
                match resp.data {
                    Some(d) => d.sign,
                    None => None,
                }
            } else {
                None
            }
        },
        None => None,
    }
}

// ---------------------------------------------------------------------------
// Pay-middle page
// ---------------------------------------------------------------------------

/// The pay-type word of the pay-middle page.
pub open spec fn pay_middle_pay_type_word(p: PayType) -> Seq<char> {
    match p {
        PayType::Ali => "alipay"@,
        PayType::WeChat => "wechat"@,
    }
}

/// `alipay` for Alipay and `wechat` for WeChat.
pub fn pay_middle_pay_type(p: &PayType) -> (s: &'static str)
    ensures
        s@ == pay_middle_pay_type_word(*p),
{
    match p {
        PayType::Ali => "alipay",
        PayType::WeChat => "wechat",
    }
}

/// The text of an optional string, empty when absent.
pub open spec fn text_or_empty(s: Option<String>) -> Seq<char> {
    match s {
        Some(t) => t@,
        None => Seq::empty(),
    }
}

fn string_or_empty(s: &Option<String>) -> (r: String)
    ensures
        r@ == text_or_empty(*s),
{
    match s {
        Some(t) => t.clone(),
        None => String::new(),
    }
}

/// The amount shown: the third-party amount, else the pay amount, else nothing.
pub open spec fn preview_amount(p: PreviewData) -> Seq<char> {
    match p.third_party_amount {
        Some(a) => a@,
        None => text_or_empty(p.pay_amount),
    }
}

pub open spec fn previous_product_id(p: PreviewData) -> Seq<char> {
    match p.last_subscription_summary {
        Some(s) => text_or_empty(s.product_id),
        None => Seq::empty(),
    }
}

pub open spec fn previous_agreement_no(p: PreviewData) -> Seq<char> {
    match p.last_subscription_summary {
        Some(s) => text_or_empty(s.agreement_no),
        None => Seq::empty(),
    }
}

/// What the pay-middle page is told about this order.
pub fn pay_middle_info(config: &AppConfig, preview: &PreviewData) -> (info: PayMiddleInfo)
    ensures
        info.product_id@ == config.product_id@,
        info.product_name@ == text_or_empty(preview.product_name),
        info.amount@ == preview_amount(*preview),
        info.customer_id@ == config.customer_id@,
        info.customer_name@ == config.name@,
        info.old_product_id@ == previous_product_id(*preview),
        info.agreement_no@ == previous_agreement_no(*preview),
        info.is_subscribe == (preview.renew == Some(true)),
        info.biz_id@ == text_or_empty(preview.biz_id),
        info.pay_type@ == pay_middle_pay_type_word(config.pay_type),
        info.user_state@ == "NORMAL"@,
        info.ic@ == config.invitation_code@,
{
    let amount = match &preview.third_party_amount {
        Some(a) => a.clone(),
        None => string_or_empty(&preview.pay_amount),
    };
    let (old_product_id, agreement_no) = match &preview.last_subscription_summary {
        Some(s) => (string_or_empty(&s.product_id), string_or_empty(&s.agreement_no)),
        None => (String::new(), String::new()),
    };
    let is_subscribe = match preview.renew {
        Some(b) => b,
        None => false,
    };
    PayMiddleInfo {
        product_id: config.product_id.clone(),
        product_name: string_or_empty(&preview.product_name),
        amount,
        customer_id: config.customer_id.clone(),
        customer_name: config.name.clone(),
        old_product_id,
        agreement_no,
        is_subscribe,
        biz_id: string_or_empty(&preview.biz_id),
        pay_type: String::from_str(pay_middle_pay_type(&config.pay_type)),
        user_state: String::from_str("NORMAL"),
        ic: config.invitation_code.clone(),
    }
}

/// The previous subscription in the pay-middle record is read from the last
/// subscription summary alone: when the summary names a product (or an
/// agreement) that text is sent, whatever the renew flag and the other
/// fields say; without one, nothing is sent.
pub proof fn lemma_previous_subscription_fields(p: PreviewData, renew: Option<bool>)
    ensures
        previous_product_id(PreviewData { renew: renew, ..p }) == previous_product_id(p),
        previous_agreement_no(PreviewData { renew: renew, ..p }) == previous_agreement_no(p),
        p.last_subscription_summary matches Some(s) ==> (s.product_id matches Some(t)
            ==> previous_product_id(p) == t@),
        p.last_subscription_summary matches Some(s) ==> (s.agreement_no matches Some(t)
            ==> previous_agreement_no(p) == t@),
        p.last_subscription_summary is None ==> previous_product_id(p).len() == 0
            && previous_agreement_no(p).len() == 0,
{
}

/// The amount shown is the third-party amount when there is one, else the
/// pay amount, else empty; it does not depend on anything else.
pub proof fn lemma_preview_amount(p: PreviewData, renew: Option<bool>)
    ensures
        preview_amount(PreviewData { renew: renew, ..p }) == preview_amount(p),
        p.third_party_amount matches Some(a) ==> preview_amount(p) == a@,
        p.pay_amount matches Some(a) ==> (p.third_party_amount is None ==> preview_amount(p) == a@),
        p.third_party_amount is None && p.pay_amount is None ==> preview_amount(p).len() == 0,
{
}

/// AES-128-ECB with PKCS#7 padding under the fixed key, then standard base64.
/// The padded bytes must fit in a `Vec` (at most `isize::MAX` bytes).
pub fn aes_ecb_encrypt(plaintext: &str) -> (s: String)
    requires
        pkcs7_pad(plaintext.spec_bytes()).len() <= isize::MAX,
    ensures
        s@ == ascii_chars(sealed_bytes(plaintext.spec_bytes())),
        s@.len() == 4 * ((16 * (plaintext.spec_bytes().len() / 16 + 1) + 2) / 3),
{
    let mut data: Vec<u8> = Vec::new();
    data.extend_from_slice(plaintext.as_bytes());
    assert(data@ =~= plaintext.spec_bytes());
    pkcs7_pad_in_place(&mut data);
    let key = pay_info_key_bytes();
    let sealed = ecb_encrypt_blocks(key.as_slice(), data.as_slice());
    proof {
        lemma_pkcs7_pad_reversible(plaintext.spec_bytes());
        lemma_base64_encode_shape(sealed@);
    }
    base64_standard_encode(sealed.as_slice())
}

/// ECB has no chaining: plaintexts that agree on their first `k` 16-byte
/// blocks are sealed into texts whose decoded bytes agree on their first `k`
/// blocks (in particular, equal plaintexts give equal sealed texts).
pub proof fn lemma_sealed_prefix(a: Seq<u8>, b: Seq<u8>, k: nat)
    requires
        a.len() >= 16 * k,
        b.len() >= 16 * k,
        a.take(16 * (k as int)) == b.take(16 * (k as int)),
    ensures
        base64_decode(sealed_bytes(a)) matches Some(x) && base64_decode(sealed_bytes(b)) matches Some(
            y,
        ) && x.take(16 * (k as int)) == y.take(16 * (k as int)),
{
    let key = pay_info_key();
    let pa = pkcs7_pad(a);
    let pb = pkcs7_pad(b);
    lemma_pkcs7_pad_prefix(a, k);
    lemma_pkcs7_pad_prefix(b, k);
    lemma_ecb_encrypt_prefix(key, pa, pb, k);
    lemma_base64_decode_encode(ecb_encrypt(key, pa));
    lemma_base64_decode_encode(ecb_encrypt(key, pb));
}

/// Whether a byte is left as it is by percent-encoding: an ASCII letter or
/// digit, `-`, `.`, `_` or `~`.
pub open spec fn url_unreserved(b: u8) -> bool {
    (48 <= b <= 57) || (65 <= b <= 90) || (97 <= b <= 122) || b == 45 || b == 46 || b == 95 || b
        == 126
}

/// The ASCII uppercase hexadecimal digit for a value below 16.
pub open spec fn hex_digit_upper(d: int) -> u8 {
    if d < 10 {
        (48 + d) as u8
    } else {
        (55 + d) as u8
    }
}

/// Percent-encoding of a byte string: unreserved bytes kept, every other byte
/// written `%XX` with uppercase hexadecimal digits.
pub open spec fn url_encode_bytes(b: Seq<u8>) -> Seq<u8>
    decreases b.len(),
{
    if b.len() == 0 {
        seq![]
    } else {
        let x = b.last();
        url_encode_bytes(b.drop_last()) + if url_unreserved(x) {
            seq![x]
        } else {
            seq![37u8, hex_digit_upper((x as int) / 16), hex_digit_upper((x as int) % 16)]
        }
    }
}

/// `urlencoding::encode`. Trusted: the result is the percent-encoding of the
/// UTF-8 bytes of the input (every byte but ASCII letters, digits and
/// `-._~` becomes `%` and two uppercase hexadecimal digits), as ASCII text.
#[verifier::external_body]
fn url_encode(s: &str) -> (e: String)
    ensures
        e@ == ascii_chars(url_encode_bytes(s.spec_bytes())),
{
    urlencoding::encode(s).into_owned()
}

pub open spec fn pay_middle_www_prefix() -> Seq<char> {
    "https://www.bigmodel.cn/pay-middle-page?info="@
}

pub open spec fn pay_middle_bare_prefix() -> Seq<char> {
    "https://bigmodel.cn/pay-middle-page?info="@
}

/// The `info` parameter for a serialized pay-middle record: sealed, then
/// percent-encoded.
pub open spec fn pay_middle_param(info_json: Seq<u8>) -> Seq<char> {
    ascii_chars(url_encode_bytes(sealed_bytes(info_json)))
}

/// The two pay-middle page links (on `www.bigmodel.cn` and on
/// `bigmodel.cn`) for the JSON text of a pay-middle record.
pub fn pay_middle_links(info_json: &str) -> (links: (String, String))
    requires
        pkcs7_pad(info_json.spec_bytes()).len() <= isize::MAX,
    ensures
        links.0@ == pay_middle_www_prefix() + pay_middle_param(info_json.spec_bytes()),
        links.1@ == pay_middle_bare_prefix() + pay_middle_param(info_json.spec_bytes()),
{
    let encrypted = aes_ecb_encrypt(info_json);
    let es = encrypted.as_str();
    proof {
        lemma_base64_encode_ascii(ecb_encrypt(pay_info_key(), pkcs7_pad(info_json.spec_bytes())));
        lemma_ascii_string_bytes(es, sealed_bytes(info_json.spec_bytes()));
    }
    let encoded = url_encode(es);
    let mut www = String::from_str("https://www.bigmodel.cn/pay-middle-page?info=");
    www.append(encoded.as_str());
    let mut bare = String::from_str("https://bigmodel.cn/pay-middle-page?info=");
    bare.append(encoded.as_str());
    (www, bare)
}

// ---------------------------------------------------------------------------
// QR code images
// ---------------------------------------------------------------------------

#[verifier::external_type_specification]
#[verifier::external_body]
pub struct ExQrError(qrcode::types::QrError);

/// A QR symbol: `width` modules a side, row by row, `true` for dark.
#[derive(Debug)]
pub struct QrSymbol {
    pub width: usize,
    pub modules: Vec<bool>,
}

/// A grey-scale picture, row by row, one byte a pixel (0 black, 255 white).
#[derive(Debug)]
pub struct QrPicture {
    pub width: u32,
    pub height: u32,
    pub pixels: Vec<u8>,
}

/// Whether a byte string fits in a QR code at the medium error-correction level.
pub uninterp spec fn qr_fits(data: Seq<u8>) -> bool;

/// The side, in modules, of the QR code of a byte string.
pub uninterp spec fn qr_width(data: Seq<u8>) -> usize;

/// The modules of the QR code of a byte string, row by row, `true` for dark.
pub uninterp spec fn qr_modules(data: Seq<u8>) -> Seq<bool>;

/// `qrcode::QrCode::new`, read through `QrCode::width` and `QrCode::to_vec`.
/// Trusted: encoding (medium error correction, smallest normal version)
/// succeeds exactly when the data fits, and then gives the QR code of the
/// data: a square of `17 + 4 * version` modules a side for a version from 1
/// to 40.
#[verifier::external_body]
fn qr_encode(data: &[u8]) -> (res: Result<QrSymbol, qrcode::types::QrError>)
    ensures
        res is Ok <==> qr_fits(data@),
        res matches Ok(q) ==> {
            &&& q.width == qr_width(data@)
            &&& q.modules@ == qr_modules(data@)
            &&& 21 <= q.width <= 177
            &&& q.modules@.len() == q.width * q.width
        },
{
    match qrcode::QrCode::new(data) {
        Ok(code) => Ok(QrSymbol { width: code.width(), modules: code.to_vec() }),
        Err(e) => Err(e),
    }
}

/// The side of a pixel block for one module: the least that makes the
/// picture at least `min` pixels across, and at least 1.
pub open spec fn qr_unit(min: int, span: int) -> int {
    let u = (min + span - 1) / span;
    if u < 1 {
        1
    } else {
        u
    }
}

/// Pixel `(x, y)` of a rendered symbol: black where it falls on a dark
/// module, white elsewhere (the quiet zone included).
pub open spec fn qr_pixel(
    modules: Seq<bool>,
    width: int,
    quiet_zone: int,
    unit_w: int,
    unit_h: int,
    x: int,
    y: int,
) -> u8 {
    let mx = x / unit_w - quiet_zone;
    let my = y / unit_h - quiet_zone;
    if 0 <= mx < width && 0 <= my < width && modules[my * width + mx] {
        0
    } else {
        255
    }
}

/// `p` is the rendering of the symbol with a quiet zone of `quiet_zone`
/// modules on each side, scaled up to at least `min_width` by `min_height`
/// pixels with square-grid blocks.
pub open spec fn is_rendering(
    p: QrPicture,
    modules: Seq<bool>,
    width: int,
    quiet_zone: int,
    min_width: int,
    min_height: int,
) -> bool {
    let span = width + 2 * quiet_zone;
    let uw = qr_unit(min_width, span);
    let uh = qr_unit(min_height, span);
    &&& p.width == span * uw
    &&& p.height == span * uh
    &&& p.pixels@.len() == p.width * p.height
    &&& forall|i: int|
        0 <= i < p.pixels@.len() ==> #[trigger] p.pixels@[i] == qr_pixel(
            modules,
            width,
            quiet_zone,
            uw,
            uh,
            i % (p.width as int),
            i / (p.width as int),
        )
}

/// `qrcode::render::Renderer::<image::Luma<u8>>` (`new`, `min_dimensions`,
/// `build`), read through `ImageBuffer::width`, `height` and `into_raw`.
/// Trusted: the result is the rendering described above (dark modules
/// black, everything else white). The renderer panics unless there are
/// `width * width` modules; the bounds keep its `u32` sizes from overflowing.
#[verifier::external_body]
fn qr_render(modules: &[bool], width: usize, quiet_zone: u32, min_width: u32, min_height: u32) -> (p:
    QrPicture)
    requires
        modules@.len() == width * width,
        1 <= width <= 1000,
        quiet_zone <= 1000,
        min_width <= 100_000,
        min_height <= 100_000,
    ensures
        is_rendering(p, modules@, width as int, quiet_zone as int, min_width as int, min_height as int),
{
    let colors: Vec<qrcode::Color> = modules.iter().map(
        |&dark| if dark { qrcode::Color::Dark } else { qrcode::Color::Light },
    ).collect();
    let img = qrcode::render::Renderer::<image::Luma<u8>>::new(&colors, width, quiet_zone)
        .min_dimensions(min_width, min_height)
        .build();
    QrPicture { width: img.width(), height: img.height(), pixels: img.into_raw() }
}

/// The QR code of a link, from its UTF-8 bytes.
pub fn qr_code_for(url: &str) -> (res: Result<QrSymbol, qrcode::types::QrError>)
    ensures
        res is Ok <==> qr_fits(url.spec_bytes()),
        res matches Ok(q) ==> {
            &&& q.width == qr_width(url.spec_bytes())
            &&& q.modules@ == qr_modules(url.spec_bytes())
            &&& 21 <= q.width <= 177
            &&& q.modules@.len() == q.width * q.width
        },
{
    qr_encode(url.as_bytes())
}

/// The picture saved for a QR symbol: a quiet zone of 4 modules (what the
/// crate uses for normal QR codes) and at least 300 by 300 pixels.
pub fn qr_picture(symbol: &QrSymbol) -> (p: QrPicture)
    requires
        21 <= symbol.width <= 177,
        symbol.modules@.len() == symbol.width * symbol.width,
    ensures
        is_rendering(p, symbol.modules@, symbol.width as int, 4, 300, 300),
{
    qr_render(symbol.modules.as_slice(), symbol.width, 4, 300, 300)
}

/// The picture of the QR code of a link; fails exactly when the link does
/// not fit in a QR code.
pub fn qr_picture_for(url: &str) -> (res: Result<QrPicture, qrcode::types::QrError>)
    ensures
        res is Ok <==> qr_fits(url.spec_bytes()),
        res matches Ok(p) ==> is_rendering(
            p,
            qr_modules(url.spec_bytes()),
            qr_width(url.spec_bytes()) as int,
            4,
            300,
            300,
        ),
{
    match qr_code_for(url) {
        Ok(symbol) => Ok(qr_picture(&symbol)),
        Err(e) => Err(e),
    }
}

/// `pay_{username}_{ts}.png`.
pub fn qrcode_filename(username: &str, ts: u64) -> (s: String)
    ensures
        s@ == "pay_"@ + username@ + "_"@ + ascii_chars(decimal_digits(ts as nat)) + ".png"@,
{
    let mut digits: Vec<u8> = Vec::new();
    push_decimal(&mut digits, ts);
    assert(digits@ =~= decimal_digits(ts as nat));
    let ds = string_from_ascii(digits.as_slice());
    let mut s = concat3("pay_", username, "_");
    s.append(ds.as_str());
    s.append(".png");
    s
}

} // verus!
