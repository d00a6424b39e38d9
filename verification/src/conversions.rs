//! Conversion rules: accepted statuses, who may act on a conversion, and the
//! checks a platform postback goes through.

use vstd::prelude::*;
use vstd::string::*;
use crate::access::{access_spec, check_ownership};
use crate::auth::utf8_len;
use crate::error::{code_is, db_code_is, AppError, DbError, ErrorView};
use crate::ids::{parse_uuid, spec_parse_uuid};
use crate::text::{has_prefix, str_eq, view_opt_string};

verus! {

/// Largest serialized `raw_data` a postback may carry, in bytes.
pub const MAX_RAW_DATA_BYTES: usize = 10000;

/// Statuses a conversion can be set to.
pub open spec fn status_valid(s: Seq<char>) -> bool {
    s == "pending"@ || s == "approved"@ || s == "rejected"@ || s == "cancelled"@
}

/// Body of a conversion status change.
pub struct UpdateConversionRequest {
    pub status: String,
}

impl UpdateConversionRequest {
    /// Checks the requested status.
    pub fn validate(&self) -> (r: Result<(), AppError>)
        ensures
            status_valid(self.status@) ==> r is Ok,
            !status_valid(self.status@) ==> r is Err && r->Err_0@ == ErrorView::Validation(
                "Invalid status. Must be: pending, approved, rejected, or cancelled"@,
            ),
    {
        let s = self.status.as_str();
        if str_eq(s, "pending") || str_eq(s, "approved") || str_eq(s, "rejected") || str_eq(
            s,
            "cancelled",
        ) {
            Ok(())
        } else {
            Err(
                AppError::validation(
                    "Invalid status. Must be: pending, approved, rejected, or cancelled",
                ),
            )
        }
    }
}

/// A conversion may be read or changed only by the creator it was credited to.
pub fn check_conversion_access(owner: Option<u128>, creator_id: u128) -> (r: Result<(), AppError>)
    ensures
        match access_spec(owner, creator_id, "Conversion not found"@) {
            Ok(()) => r is Ok,
            Err(e) => r is Err && r->Err_0@ == e,
        },
{
    check_ownership(owner, creator_id, "Conversion not found")
}

/// How the first checks of a postback end: the click id must be a UUID, then
/// the serialized `raw_data` (when sent) must be at most 10 000 bytes.
pub open spec fn postback_input_spec(click_id: Seq<char>, raw_data_len: Option<usize>) -> Result<u128, ErrorView> {
    match spec_parse_uuid(click_id) {
        None => Err(ErrorView::Validation("Invalid click_id format"@)),
        Some(id) => match raw_data_len {
            Some(n) => if n > MAX_RAW_DATA_BYTES {
                Err(ErrorView::Validation("raw_data exceeds maximum size of 10KB"@))
            } else {
                Ok(id)
            },
            None => Ok(id),
        },
    }
}

/// Parses the click id of a postback, the first check a postback meets.
pub fn parse_click_id(click_id: &str) -> (r: Result<u128, AppError>)
    ensures
        match spec_parse_uuid(click_id@) {
            Some(id) => r == Ok::<u128, AppError>(id),
            None => r is Err && r->Err_0@ == ErrorView::Validation("Invalid click_id format"@),
        },
{
    match parse_uuid(click_id) {
        Some(id) => Ok(id),
        None => Err(AppError::validation("Invalid click_id format")),
    }
}

/// Checks the length in bytes of the serialized raw data of a postback,
/// when it sent any; the check that follows the click id's.
pub fn check_raw_data_size(raw_data_len: Option<usize>) -> (r: Result<(), AppError>)
    ensures
        match raw_data_len {
            Some(n) => if n > MAX_RAW_DATA_BYTES {
                r is Err && r->Err_0@ == ErrorView::Validation("raw_data exceeds maximum size of 10KB"@)
            } else {
                r is Ok
            },
            None => r is Ok,
        },
{
    if let Some(n) = raw_data_len {
        if n > MAX_RAW_DATA_BYTES {
            return Err(AppError::validation("raw_data exceeds maximum size of 10KB"));
        }
    }
    Ok(())
}

/// Checks the size of a postback's raw data given its JSON text, when it
/// sent any: the text may be at most 10 000 bytes of UTF-8.
pub fn check_raw_data_text(raw_json: Option<&str>) -> (r: Result<(), AppError>)
    ensures
        match raw_json {
            Some(t) => if utf8_len(t@) > MAX_RAW_DATA_BYTES {
                r is Err && r->Err_0@ == ErrorView::Validation("raw_data exceeds maximum size of 10KB"@)
            } else {
                r is Ok
            },
            None => r is Ok,
        },
{
    let len = match raw_json {
        Some(t) => Some(t.as_bytes().len()),
        None => None,
    };
    check_raw_data_size(len)
}

#[verifier::external_type_specification]
#[verifier::external_body]
pub struct ExJsonValue(serde_json::Value);

#[verifier::external_type_specification]
#[verifier::external_body]
pub struct ExJsonError(serde_json::Error);

/// The JSON text `serde_json::to_string` writes for a value, or `None` when
/// it fails. The text is a function of the value alone (its `Serialize`
/// impl writes into a fresh buffer).
pub uninterp spec fn spec_json_text(v: serde_json::Value) -> Option<Seq<char>>;

/// Calls `serde_json::to_string` on a JSON value; the contract names its
/// result.
#[verifier::external_body]
fn json_text(v: &serde_json::Value) -> (r: Result<String, serde_json::Error>)
    ensures
        r is Ok <==> spec_json_text(*v) is Some,
        r is Ok ==> spec_json_text(*v) == Some(r->Ok_0@),
{
    serde_json::to_string(v)
}

/// Calls `ToString::to_string` on a JSON error (its `Display` text);
/// nothing is stated about the text.
#[verifier::external_body]
fn json_error_text(e: &serde_json::Error) -> String {
    e.to_string()
}

/// Serializes a postback's raw data, when it sent any, and checks the size
/// of its JSON text with `check_raw_data_text`: a text of more than 10 000
/// bytes of UTF-8 is refused, and a serialization failure is an internal
/// error.
pub fn check_raw_data(raw_data: Option<&serde_json::Value>) -> (r: Result<(), AppError>)
    ensures
        match raw_data {
            None => r is Ok,
            Some(v) => match spec_json_text(*v) {
                Some(t) => if utf8_len(t) > MAX_RAW_DATA_BYTES {
                    r is Err && r->Err_0@ == ErrorView::Validation("raw_data exceeds maximum size of 10KB"@)
                } else {
                    r is Ok
                },
                None => r is Err && r->Err_0@ is Internal && has_prefix(
                    crate::error::message_of(r->Err_0@),
                    "Serialization error: "@,
                ),
            },
        },
{
    match raw_data {
        None => Ok(()),
        Some(v) => match json_text(v) {
            Ok(text) => check_raw_data_text(Some(text.as_str())),
            Err(e) => {
                let detail = json_error_text(&e);
                assert(("Serialization error: "@ + detail@).subrange(0, "Serialization error: "@.len() as int)
                    =~= "Serialization error: "@);
                Err(AppError::internal_with("Serialization error: ", detail.as_str()))
            },
        },
    }
}

/// Checks the click id and the size of the raw data of a postback.
pub fn validate_postback(click_id: &str, raw_data_len: Option<usize>) -> (r: Result<u128, AppError>)
    ensures
        match postback_input_spec(click_id@, raw_data_len) {
            Ok(id) => r == Ok::<u128, AppError>(id),
            Err(e) => r is Err && r->Err_0@ == e,
        },
{
    let id = parse_click_id(click_id)?;
    check_raw_data_size(raw_data_len)?;
    Ok(id)
}

/// How a postback continues once its click is looked up: the click must have
/// a redirect event (giving its merchant link), and no conversion may exist
/// for it yet.
pub open spec fn postback_click_spec(event_link: Option<u128>, already_converted: bool) -> Result<u128, ErrorView> {
    match event_link {
        None => Err(ErrorView::NotFound("Invalid click_id: no matching redirect event"@)),
        Some(link) => if already_converted {
            Err(ErrorView::Conflict("Conversion already exists for this click_id"@))
        } else {
            Ok(link)
        },
    }
}

/// Checks the click of a postback against the recorded redirects and conversions.
pub fn check_postback_click(event_link: Option<u128>, already_converted: bool) -> (r: Result<u128, AppError>)
    ensures
        match postback_click_spec(event_link, already_converted) {
            Ok(l) => r == Ok::<u128, AppError>(l),
            Err(e) => r is Err && r->Err_0@ == e,
        },
{
    match event_link {
        None => Err(AppError::not_found("Invalid click_id: no matching redirect event")),
        Some(link) => if already_converted {
            Err(AppError::Conflict(String::from_str("Conversion already exists for this click_id")))
        } else {
            Ok(link)
        },
    }
}

/// A postback's click is credited at most once.
pub proof fn lemma_click_converts_once(link: u128)
    ensures
        postback_click_spec(Some(link), true) is Err,
        postback_click_spec(Some(link), false) == Ok::<u128, ErrorView>(link),
{
}

/// Currency and type recorded for a postback: `THB` and `sale` by default.
pub fn postback_defaults(currency: Option<String>, conversion_type: Option<String>) -> (r: (String, String))
    ensures
        r.0@ == match view_opt_string(currency) {
            Some(c) => c,
            None => "THB"@,
        },
        r.1@ == match view_opt_string(conversion_type) {
            Some(t) => t,
            None => "sale"@,
        },
{
    (
        match currency {
            Some(c) => c,
            None => String::from_str("THB"),
        },
        match conversion_type {
            Some(t) => t,
            None => String::from_str("sale"),
        },
    )
}

/// The error a failed conversion insert is answered with: a vanished click,
/// link or creator (foreign key violation) is a validation error.
pub fn postback_insert_error(e: DbError) -> (r: AppError)
    ensures
        db_code_is(e, "23503"@) ==> r@ == ErrorView::Validation(
            "Referenced resource (click, merchant link, or creator) no longer exists"@,
        ),
        !db_code_is(e, "23503"@) ==> r@ == ErrorView::Internal(
            "Failed to create conversion: "@ + e.text@,
        ),
{
    if code_is(&e, "23503") {
        AppError::validation("Referenced resource (click, merchant link, or creator) no longer exists")
    } else {
        AppError::internal_with("Failed to create conversion: ", e.text.as_str())
    }
}

} // verus!
