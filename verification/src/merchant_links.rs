//! Merchant-link and variant rules: accepted platforms and stock states,
//! what a new link needs, and how updates are checked and applied.

use vstd::prelude::*;
use vstd::string::*;
use crate::access::{access_spec, check_ownership};
use crate::error::{db_code_is, db_error_to_app, AppError, DbError, ErrorView};
use crate::text::{merged, spec_lowercase, str_eq, to_lowercase, trim, trim_str, view_opt_string};

verus! {

/// Platforms a merchant link can be on.
pub open spec fn platform_valid(p: Seq<char>) -> bool {
    p == "shopee"@ || p == "lazada"@ || p == "tiktok"@ || p == "other"@
}

/// Stock states a variant can be in.
pub open spec fn stock_valid(s: Seq<char>) -> bool {
    s == "in_stock"@ || s == "out_of_stock"@ || s == "unknown"@
}

/// A platform name as stored: trimmed and lowercased.
pub open spec fn normalized_platform(p: Seq<char>) -> Seq<char> {
    spec_lowercase(trim(p))
}

pub open spec fn platform_error_text() -> Seq<char> {
    "platform must be one of: shopee, lazada, tiktok, other"@
}

pub open spec fn stock_error_text() -> Seq<char> {
    "stock_status must be one of: in_stock, out_of_stock, unknown"@
}

/// Stock state of a variant: the given one, `unknown` when absent.
pub open spec fn stock_or_default(s: Option<Seq<char>>) -> Seq<char> {
    match s {
        Some(s) => s,
        None => "unknown"@,
    }
}

/// Currency of a variant: the given one, `THB` when absent.
pub open spec fn currency_or_default(s: Option<Seq<char>>) -> Seq<char> {
    match s {
        Some(s) => s,
        None => "THB"@,
    }
}

fn is_valid_platform(p: &str) -> (r: bool)
    ensures
        r == platform_valid(p@),
{
    str_eq(p, "shopee") || str_eq(p, "lazada") || str_eq(p, "tiktok") || str_eq(p, "other")
}

fn is_valid_stock(s: &str) -> (r: bool)
    ensures
        r == stock_valid(s@),
{
    str_eq(s, "in_stock") || str_eq(s, "out_of_stock") || str_eq(s, "unknown")
}

/// Trimmed, lowercased platform name.
pub fn normalize_platform(p: &str) -> (r: String)
    ensures
        r@ == normalized_platform(p@),
{
    to_lowercase(trim_str(p))
}

/// Checks an already trimmed and lowercased platform name: it must be given
/// and be one of the known platforms.
pub fn check_platform(normalized: &str) -> (r: Result<(), AppError>)
    ensures
        normalized@.len() == 0 ==> r is Err && r->Err_0@ == ErrorView::Validation("platform is required"@),
        normalized@.len() != 0 && !platform_valid(normalized@) ==> r is Err && r->Err_0@
            == ErrorView::Validation(platform_error_text()),
        normalized@.len() != 0 && platform_valid(normalized@) ==> r is Ok,
{
    if normalized.is_empty() {
        return Err(AppError::validation("platform is required"));
    }
    if !is_valid_platform(normalized) {
        return Err(AppError::validation("platform must be one of: shopee, lazada, tiktok, other"));
    }
    Ok(())
}

/// Why a new merchant link is refused, if it is, checked in order.
pub open spec fn new_link_error(platform: Seq<char>, store_name: Seq<char>, affiliate_url: Seq<char>, variant_count: nat) -> Option<Seq<char>> {
    let pl = normalized_platform(platform);
    if pl.len() == 0 {
        Some("platform is required"@)
    } else if !platform_valid(pl) {
        Some(platform_error_text())
    } else if trim(store_name).len() == 0 {
        Some("store_name is required"@)
    } else if trim(affiliate_url).len() == 0 {
        Some("affiliate_url is required"@)
    } else if variant_count == 0 {
        Some("at least one variant is required"@)
    } else {
        None
    }
}

/// Checks the fields of a new merchant link and yields the platform to store.
pub fn validate_new_merchant_link(
    platform: &str,
    store_name: &str,
    affiliate_url: &str,
    variant_count: usize,
) -> (r: Result<String, AppError>)
    ensures
        match new_link_error(platform@, store_name@, affiliate_url@, variant_count as nat) {
            Some(m) => r is Err && r->Err_0@ == ErrorView::Validation(m),
            None => r is Ok && r->Ok_0@ == normalized_platform(platform@),
        },
{
    let pl = normalize_platform(platform);
    check_platform(pl.as_str())?;
    if trim_str(store_name).is_empty() {
        return Err(AppError::validation("store_name is required"));
    }
    if trim_str(affiliate_url).is_empty() {
        return Err(AppError::validation("affiliate_url is required"));
    }
    if variant_count == 0 {
        return Err(AppError::validation("at least one variant is required"));
    }
    Ok(pl)
}

/// Whether every variant of a request has an accepted stock state.
pub open spec fn all_stock_valid(statuses: Seq<Option<String>>) -> bool {
    forall|i: int| 0 <= i < statuses.len() ==> stock_valid(stock_or_default(#[trigger] view_opt_string(statuses[i])))
}

/// Every variant counts: a request's stock states pass exactly when each of
/// them, wherever it stands, is absent (read as `unknown`) or one of
/// `in_stock`, `out_of_stock` and `unknown`; when any one is something else,
/// the check answers with the stock-status message.
pub proof fn lemma_every_stock_state_checked(statuses: Seq<Option<String>>)
    ensures
        all_stock_valid(statuses) <==> forall|i: int| 0 <= i < statuses.len() ==> (#[trigger] statuses[i] is None
            || statuses[i]->0@ == "in_stock"@ || statuses[i]->0@ == "out_of_stock"@ || statuses[i]->0@
            == "unknown"@),
        forall|i: int| 0 <= i < statuses.len() && #[trigger] statuses[i] is Some && statuses[i]->0@
            != "in_stock"@ && statuses[i]->0@ != "out_of_stock"@ && statuses[i]->0@ != "unknown"@
            ==> !all_stock_valid(statuses),
        stock_error_text() == "stock_status must be one of: in_stock, out_of_stock, unknown"@,
        stock_or_default(None) == "unknown"@,
        forall|s: Seq<char>| #[trigger] stock_or_default(Some(s)) == s,
{
    reveal_strlit("unknown");
    if all_stock_valid(statuses) {
        assert forall|i: int| 0 <= i < statuses.len() implies (#[trigger] statuses[i] is None
            || statuses[i]->0@ == "in_stock"@ || statuses[i]->0@ == "out_of_stock"@ || statuses[i]->0@
            == "unknown"@) by {
            assert(stock_valid(stock_or_default(view_opt_string(statuses[i]))));
        }
    }
    if forall|i: int| 0 <= i < statuses.len() ==> (#[trigger] statuses[i] is None
        || statuses[i]->0@ == "in_stock"@ || statuses[i]->0@ == "out_of_stock"@ || statuses[i]->0@
        == "unknown"@) {
        assert forall|i: int| 0 <= i < statuses.len() implies stock_valid(
            stock_or_default(#[trigger] view_opt_string(statuses[i])),
        ) by {
            assert(statuses[i] is None || statuses[i]->0@ == "in_stock"@ || statuses[i]->0@
                == "out_of_stock"@ || statuses[i]->0@ == "unknown"@);
        }
    }
    assert forall|i: int| 0 <= i < statuses.len() && #[trigger] statuses[i] is Some && statuses[i]->0@
        != "in_stock"@ && statuses[i]->0@ != "out_of_stock"@ && statuses[i]->0@ != "unknown"@
        implies !all_stock_valid(statuses) by {
        assert(!stock_valid(stock_or_default(view_opt_string(statuses[i]))));
    }
}

/// Checks the stock states of the variants of a new merchant link.
pub fn validate_stock_statuses(statuses: &Vec<Option<String>>) -> (r: Result<(), AppError>)
    ensures
        all_stock_valid(statuses@) ==> r is Ok,
        !all_stock_valid(statuses@) ==> r is Err && r->Err_0@ == ErrorView::Validation(stock_error_text()),
{
    let mut i: usize = 0;
    while i < statuses.len()
        invariant
            i <= statuses@.len(),
            forall|k: int| 0 <= k < i ==> stock_valid(stock_or_default(#[trigger] view_opt_string(statuses@[k]))),
        decreases statuses@.len() - i,
    {
        let ok = match &statuses[i] {
            Some(s) => is_valid_stock(s.as_str()),
            None => true,
        };
        if !ok {
            assert(!stock_valid(stock_or_default(view_opt_string(statuses@[i as int]))));
            return Err(AppError::validation("stock_status must be one of: in_stock, out_of_stock, unknown"));
        }
        i = i + 1;
    }
    Ok(())
}

/// Currency and stock state stored for a variant, with their defaults.
pub fn variant_defaults(currency: Option<String>, stock_status: Option<String>) -> (r: (String, String))
    ensures
        r.0@ == currency_or_default(view_opt_string(currency)),
        r.1@ == stock_or_default(view_opt_string(stock_status)),
{
    let c = match currency {
        Some(c) => c,
        None => String::from_str("THB"),
    };
    let s = match stock_status {
        Some(s) => s,
        None => String::from_str("unknown"),
    };
    (c, s)
}

/// Why a new variant is refused, if it is, checked in order.
pub open spec fn new_variant_error(name: Seq<char>, price_negative: bool, stock_status: Option<Seq<char>>) -> Option<Seq<char>> {
    if trim(name).len() == 0 {
        Some("variant_name is required"@)
    } else if price_negative {
        Some("price must be non-negative"@)
    } else if !stock_valid(stock_or_default(stock_status)) {
        Some(stock_error_text())
    } else {
        None
    }
}

/// Checks a new variant and yields its currency and stock state.
/// `price_negative` tells whether the price is below zero.
pub fn validate_new_variant(
    variant_name: &str,
    price_negative: bool,
    currency: Option<String>,
    stock_status: Option<String>,
) -> (r: Result<(String, String), AppError>)
    ensures
        match new_variant_error(variant_name@, price_negative, view_opt_string(stock_status)) {
            Some(m) => r is Err && r->Err_0@ == ErrorView::Validation(m),
            None => r is Ok && r->Ok_0.0@ == currency_or_default(view_opt_string(currency))
                && r->Ok_0.1@ == stock_or_default(view_opt_string(stock_status)),
        },
{
    if trim_str(variant_name).is_empty() {
        return Err(AppError::validation("variant_name is required"));
    }
    if price_negative {
        return Err(AppError::validation("price must be non-negative"));
    }
    let (c, s) = variant_defaults(currency, stock_status);
    if !is_valid_stock(s.as_str()) {
        return Err(AppError::validation("stock_status must be one of: in_stock, out_of_stock, unknown"));
    }
    Ok((c, s))
}

/// The stored fields of a merchant link that an update can change.
pub struct MerchantLinkFields {
    pub platform: String,
    pub store_name: String,
    pub affiliate_url: String,
    pub is_price_estimated: bool,
}

/// Body of a merchant-link update; absent fields keep their value.
pub struct UpdateMerchantLinkRequest {
    pub platform: Option<String>,
    pub store_name: Option<String>,
    pub affiliate_url: Option<String>,
    pub is_price_estimated: Option<bool>,
}

/// Body of a price verification.
pub struct VerifyPriceRequest {
    pub is_price_estimated: Option<bool>,
}

impl VerifyPriceRequest {
    /// Whether the price stays marked as estimated (not unless asked).
    pub fn estimated(&self) -> (r: bool)
        ensures
            r == match self.is_price_estimated {
                Some(b) => b,
                None => false,
            },
    {
        match self.is_price_estimated {
            Some(b) => b,
            None => false,
        }
    }
}

/// Applies an update to a merchant link. A new platform is normalized and
/// must be accepted; the other fields replace the old ones when given.
pub fn apply_merchant_link_update(existing: MerchantLinkFields, req: UpdateMerchantLinkRequest) -> (r: Result<MerchantLinkFields, AppError>)
    ensures
        match req.platform {
            Some(p) => !platform_valid(normalized_platform(p@)) ==> r is Err && r->Err_0@
                == ErrorView::Validation(platform_error_text()),
            None => true,
        },
        r is Ok ==> {
            &&& r->Ok_0.platform@ == match req.platform {
                Some(p) => normalized_platform(p@),
                None => existing.platform@,
            }
            &&& r->Ok_0.store_name@ == merged(view_opt_string(req.store_name), existing.store_name@)
            &&& r->Ok_0.affiliate_url@ == merged(view_opt_string(req.affiliate_url), existing.affiliate_url@)
            &&& r->Ok_0.is_price_estimated == match req.is_price_estimated {
                Some(b) => b,
                None => existing.is_price_estimated,
            }
        },
        match req.platform {
            Some(p) => platform_valid(normalized_platform(p@)) ==> r is Ok,
            None => r is Ok,
        },
{
    let platform = match req.platform {
        Some(p) => {
            let pl = normalize_platform(p.as_str());
            if !is_valid_platform(pl.as_str()) {
                return Err(AppError::validation("platform must be one of: shopee, lazada, tiktok, other"));
            }
            pl
        },
        None => existing.platform,
    };
    Ok(MerchantLinkFields {
        platform,
        store_name: match req.store_name {
            Some(s) => s,
            None => existing.store_name,
        },
        affiliate_url: match req.affiliate_url {
            Some(u) => u,
            None => existing.affiliate_url,
        },
        is_price_estimated: match req.is_price_estimated {
            Some(b) => b,
            None => existing.is_price_estimated,
        },
    })
}

/// The stored fields of a variant that an update can change, besides its price.
pub struct VariantFields {
    pub variant_name: String,
    pub currency: String,
    pub stock_status: String,
}

/// Checks a variant update: the stock state first, then the price.
pub fn validate_variant_update(stock_status: Option<&str>, price_negative: bool) -> (r: Result<(), AppError>)
    ensures
        match stock_status {
            Some(s) => !stock_valid(s@) ==> r is Err && r->Err_0@ == ErrorView::Validation(stock_error_text()),
            None => true,
        },
        (match stock_status {
            Some(s) => stock_valid(s@),
            None => true,
        }) ==> if price_negative {
            r is Err && r->Err_0@ == ErrorView::Validation("price must be non-negative"@)
        } else {
            r is Ok
        },
{
    if let Some(s) = stock_status {
        if !is_valid_stock(s) {
            return Err(AppError::validation("stock_status must be one of: in_stock, out_of_stock, unknown"));
        }
    }
    if price_negative {
        return Err(AppError::validation("price must be non-negative"));
    }
    Ok(())
}

/// Applies an update to the text fields of a variant.
pub fn apply_variant_update(
    existing: VariantFields,
    variant_name: Option<String>,
    currency: Option<String>,
    stock_status: Option<String>,
) -> (r: VariantFields)
    ensures
        r.variant_name@ == merged(view_opt_string(variant_name), existing.variant_name@),
        r.currency@ == merged(view_opt_string(currency), existing.currency@),
        r.stock_status@ == merged(view_opt_string(stock_status), existing.stock_status@),
{
    VariantFields {
        variant_name: match variant_name {
            Some(v) => v,
            None => existing.variant_name,
        },
        currency: match currency {
            Some(c) => c,
            None => existing.currency,
        },
        stock_status: match stock_status {
            Some(s) => s,
            None => existing.stock_status,
        },
    }
}

/// A merchant link may be acted on by the creator of its product: `link_product`
/// is the link's product when the link exists, `product_owner` the owner of
/// that product when it is live.
pub open spec fn link_access_spec(link_product: Option<u128>, product_owner: Option<u128>, requester: u128) -> Result<(), ErrorView> {
    match link_product {
        None => Err(ErrorView::NotFound("Merchant link not found"@)),
        Some(_) => access_spec(product_owner, requester, "Product not found"@),
    }
}

/// Checks access to a merchant link through its product.
pub fn check_link_access(link_product: Option<u128>, product_owner: Option<u128>, requester: u128) -> (r: Result<(), AppError>)
    ensures
        match link_access_spec(link_product, product_owner, requester) {
            Ok(()) => r is Ok,
            Err(e) => r is Err && r->Err_0@ == e,
        },
{
    match link_product {
        None => Err(AppError::not_found("Merchant link not found")),
        Some(_) => check_ownership(product_owner, requester, "Product not found"),
    }
}

/// Checks access to a variant through its merchant link and product.
pub fn check_variant_access(
    variant_link: Option<u128>,
    link_product: Option<u128>,
    product_owner: Option<u128>,
    requester: u128,
) -> (r: Result<(), AppError>)
    ensures
        match variant_link {
            None => r is Err && r->Err_0@ == ErrorView::NotFound("Variant not found"@),
            Some(_) => match link_access_spec(link_product, product_owner, requester) {
                Ok(()) => r is Ok,
                Err(e) => r is Err && r->Err_0@ == e,
            },
        },
{
    match variant_link {
        None => Err(AppError::not_found("Variant not found")),
        Some(_) => check_link_access(link_product, product_owner, requester),
    }
}

/// The error a failed variant insert is answered with: a missing merchant
/// link (foreign key violation) is not found, anything else as usual.
pub fn variant_insert_error(e: DbError) -> (r: AppError)
    ensures
        db_code_is(e, "23503"@) ==> r@ == ErrorView::NotFound(
            "Merchant link was deleted before variant could be created"@,
        ),
        !db_code_is(e, "23503"@) ==> r@ == db_error_to_app(e),
{
    if crate::error::code_is(&e, "23503") {
        AppError::not_found("Merchant link was deleted before variant could be created")
    } else {
        AppError::from_db_error(e)
    }
}

} // verus!
