use backend::access::check_ownership;
use backend::conversions::{
    check_conversion_access, check_postback_click, check_raw_data, check_raw_data_size, check_raw_data_text,
    parse_click_id, postback_defaults,
    postback_insert_error, validate_postback, UpdateConversionRequest,
};
use backend::error::{AppError, DbError, DbErrorKind};
use backend::merchant_links::{
    apply_merchant_link_update, apply_variant_update, check_link_access, check_variant_access,
    check_platform, normalize_platform, validate_new_merchant_link, validate_new_variant, validate_stock_statuses,
    validate_variant_update, variant_defaults, variant_insert_error, MerchantLinkFields,
    UpdateMerchantLinkRequest, VariantFields, VerifyPriceRequest,
};
use backend::pagination::{normalize_pagination, page_offset, try_page_offset, ListParams};
use backend::products::{
    prepare_new_product, CreateProductRequest, ProductFields, ProductService, UpdateProductRequest,
};

fn fk_error() -> DbError {
    DbError {
        kind: DbErrorKind::Database {
            code: Some("23503".to_string()),
            message: "fk".to_string(),
            detail: "fk".to_string(),
        },
        text: "error returned from database: fk".to_string(),
    }
}

#[test]
fn pagination_defaults_and_clamps() {
    assert_eq!(normalize_pagination(None, None), (1, 20));
    assert_eq!(normalize_pagination(Some(0), Some(0)), (1, 1));
    assert_eq!(normalize_pagination(Some(-5), Some(1000)), (1, 100));
    assert_eq!(normalize_pagination(Some(3), Some(50)), (3, 50));
    assert_eq!(page_offset(3, 50), 100);
    assert_eq!(page_offset(1, 20), 0);
    assert_eq!(try_page_offset(i64::MAX, 100), None);
    assert_eq!(try_page_offset(2, 100), Some(100));
    let p = ListParams { page: Some(2), limit: None, category: None, search: None };
    assert_eq!(p.pagination(), (2, 20));
}

#[test]
fn create_rejects_empty_title_with_400() {
    let req = CreateProductRequest { title: "   ".to_string(), description: None, category: None, images: None };
    let err = prepare_new_product(req).err().expect("empty title should be rejected");
    assert_eq!(err.status_code(), 400);
    assert_eq!(err.message(), "title is required and must be at most 500 chars");
}

#[test]
fn create_persists_product_and_returns_201() {
    let req = CreateProductRequest {
        title: "New Gadget".to_string(),
        description: Some("A cool gadget".to_string()),
        category: Some("electronics".to_string()),
        images: None,
    };
    let p = prepare_new_product(req).ok().expect("create should succeed");
    assert_eq!(p.title, "New Gadget");
    assert_eq!(p.category, "electronics");
    assert!(p.images.is_empty());
    let req = CreateProductRequest { title: "T".to_string(), description: None, category: Some(" ".to_string()), images: Some(vec!["a.png".to_string()]) };
    let p = prepare_new_product(req).ok().unwrap();
    assert_eq!(p.category, "uncategorized");
    assert_eq!(p.description, "");
    assert_eq!(p.images, vec!["a.png".to_string()]);
}

#[test]
fn update_modifies_owned_product() {
    let req = UpdateProductRequest { title: Some("New Title".to_string()), description: None, category: None, images: None };
    assert!(req.validate().is_ok());
    let bad = UpdateProductRequest { title: Some("".to_string()), description: None, category: None, images: None };
    assert_eq!(bad.validate().unwrap_err().message(), "title must be 1-500 chars");
    let existing = ProductFields { title: "Old Title".to_string(), description: "d".to_string(), category: "c".to_string() };
    let merged = ProductService::merge_update(existing, Some("New Title".to_string()), None, None);
    assert_eq!(merged.title, "New Title");
    assert_eq!(merged.description, "d");
    assert_eq!(merged.category, "c");
}

#[test]
fn products_test_get_one_returns_403_for_non_owner() {
    assert!(matches!(ProductService::check_access(Some(1), 2), Err(AppError::Forbidden)));
    assert!(ProductService::check_access(Some(2), 2).is_ok());
}

#[test]
fn get_one_returns_404_for_nonexistent_product() {
    let e = ProductService::check_access(None, 2).unwrap_err();
    assert_eq!(e.status_code(), 404);
    assert_eq!(e.message(), "Product not found");
}

#[test]
fn ownership_messages_name_the_record() {
    assert_eq!(check_ownership(None, 1, "Source not found").unwrap_err().message(), "Source not found");
    assert_eq!(check_conversion_access(None, 1).unwrap_err().message(), "Conversion not found");
    assert!(matches!(check_conversion_access(Some(3), 1), Err(AppError::Forbidden)));
}

#[test]
fn create_merchant_link_rejects_empty_platform() {
    let e = validate_new_merchant_link("  ", "My Shop", "https://shopee.co.th/product/123", 1).unwrap_err();
    assert_eq!(e.message(), "platform is required");
}

#[test]
fn create_merchant_link_rejects_invalid_platform() {
    let e = validate_new_merchant_link("amazon", "My Shop", "https://amazon.com/product/123", 1).unwrap_err();
    assert_eq!(e.status_code(), 400);
    assert_eq!(e.message(), "platform must be one of: shopee, lazada, tiktok, other");
}

#[test]
fn create_merchant_link_rejects_empty_variants() {
    let e = validate_new_merchant_link("shopee", "My Shop", "https://shopee.co.th/product/123", 0).unwrap_err();
    assert_eq!(e.message(), "at least one variant is required");
}

#[test]
fn merchant_link_fields_are_checked_in_order() {
    assert_eq!(validate_new_merchant_link(" Shopee ", "S", "u", 1).ok(), Some("shopee".to_string()));
    assert_eq!(validate_new_merchant_link("LAZADA", " ", "u", 1).unwrap_err().message(), "store_name is required");
    assert_eq!(validate_new_merchant_link("tiktok", "S", "", 1).unwrap_err().message(), "affiliate_url is required");
    assert_eq!(normalize_platform("  TikTok\t"), "tiktok");
}

#[test]
fn stock_statuses_must_be_known() {
    assert!(validate_stock_statuses(&vec![None, Some("in_stock".to_string())]).is_ok());
    let e = validate_stock_statuses(&vec![Some("sold".to_string())]).unwrap_err();
    assert_eq!(e.message(), "stock_status must be one of: in_stock, out_of_stock, unknown");
    assert_eq!(variant_defaults(None, None), ("THB".to_string(), "unknown".to_string()));
}

#[test]
fn new_variant_rules() {
    assert_eq!(validate_new_variant(" ", false, None, None).unwrap_err().message(), "variant_name is required");
    assert_eq!(validate_new_variant("Small", true, None, None).unwrap_err().message(), "price must be non-negative");
    assert_eq!(
        validate_new_variant("Small", false, None, Some("bad".to_string())).unwrap_err().message(),
        "stock_status must be one of: in_stock, out_of_stock, unknown"
    );
    assert_eq!(
        validate_new_variant("Small", false, Some("USD".to_string()), None).ok(),
        Some(("USD".to_string(), "unknown".to_string()))
    );
}

#[test]
fn update_modifies_merchant_link() {
    let existing = MerchantLinkFields {
        platform: "shopee".to_string(),
        store_name: "Old Shop".to_string(),
        affiliate_url: "https://shopee.co.th/product/123".to_string(),
        is_price_estimated: true,
    };
    let req = UpdateMerchantLinkRequest {
        platform: Some("Lazada".to_string()),
        store_name: Some("New Shop".to_string()),
        affiliate_url: None,
        is_price_estimated: None,
    };
    let updated = apply_merchant_link_update(existing, req).ok().expect("update should succeed");
    assert_eq!(updated.platform, "lazada");
    assert_eq!(updated.store_name, "New Shop");
    assert_eq!(updated.affiliate_url, "https://shopee.co.th/product/123");
    assert!(updated.is_price_estimated);
    let existing = MerchantLinkFields { platform: "shopee".to_string(), store_name: "s".to_string(), affiliate_url: "u".to_string(), is_price_estimated: false };
    let bad = UpdateMerchantLinkRequest { platform: Some("ebay".to_string()), store_name: None, affiliate_url: None, is_price_estimated: None };
    assert_eq!(apply_merchant_link_update(existing, bad).err().unwrap().message(), "platform must be one of: shopee, lazada, tiktok, other");
}

#[test]
fn verify_price_sets_price_checked_at() {
    assert!(!VerifyPriceRequest { is_price_estimated: None }.estimated());
    assert!(VerifyPriceRequest { is_price_estimated: Some(true) }.estimated());
}

#[test]
fn merchant_links_test_get_one_returns_403_for_non_owner() {
    assert!(matches!(check_link_access(Some(10), Some(1), 2), Err(AppError::Forbidden)));
    assert!(check_link_access(Some(10), Some(2), 2).is_ok());
}

#[test]
fn get_one_returns_404_for_nonexistent_link() {
    assert_eq!(check_link_access(None, None, 2).unwrap_err().message(), "Merchant link not found");
    assert_eq!(check_link_access(Some(10), None, 2).unwrap_err().message(), "Product not found");
    assert_eq!(check_variant_access(None, None, None, 2).unwrap_err().message(), "Variant not found");
    assert!(check_variant_access(Some(5), Some(10), Some(2), 2).is_ok());
}

#[test]
fn variant_updates_check_stock_then_price() {
    assert_eq!(validate_variant_update(Some("bad"), true).unwrap_err().message(), "stock_status must be one of: in_stock, out_of_stock, unknown");
    assert_eq!(validate_variant_update(None, true).unwrap_err().message(), "price must be non-negative");
    assert!(validate_variant_update(Some("out_of_stock"), false).is_ok());
    let v = apply_variant_update(
        VariantFields { variant_name: "S".to_string(), currency: "THB".to_string(), stock_status: "unknown".to_string() },
        None, Some("USD".to_string()), None,
    );
    assert_eq!((v.variant_name.as_str(), v.currency.as_str(), v.stock_status.as_str()), ("S", "USD", "unknown"));
}

#[test]
fn variant_insert_fk_violation_is_not_found() {
    let e = variant_insert_error(fk_error());
    assert_eq!(e.status_code(), 404);
    assert_eq!(e.message(), "Merchant link was deleted before variant could be created");
}

#[test]
fn update_conversion_validates_status() {
    let bad = UpdateConversionRequest { status: "invalid_status".to_string() };
    let e = bad.validate().unwrap_err();
    assert_eq!(e.status_code(), 400);
    assert_eq!(e.message(), "Invalid status. Must be: pending, approved, rejected, or cancelled");
    for s in ["pending", "approved", "rejected", "cancelled"] {
        assert!(UpdateConversionRequest { status: s.to_string() }.validate().is_ok());
    }
}

#[test]
fn postback_rejects_invalid_uuid_format() {
    let e = validate_postback("not-a-uuid", None).unwrap_err();
    assert_eq!(e.status_code(), 400);
    assert_eq!(e.message(), "Invalid click_id format");
}

#[test]
fn postback_raw_data_too_large_returns_400() {
    let click = "6f1c2a3b-0000-4000-8000-000000000001";
    let e = validate_postback(click, Some(11000)).unwrap_err();
    assert_eq!(e.status_code(), 400);
    assert_eq!(e.message(), "raw_data exceeds maximum size of 10KB");
    assert_eq!(validate_postback(click, Some(10000)).ok(), Some(0x6f1c2a3b_0000_4000_8000_000000000001));
}

#[test]
fn postback_returns_404_for_invalid_click_id() {
    let e = check_postback_click(None, false).unwrap_err();
    assert_eq!(e.status_code(), 404);
    assert_eq!(e.message(), "Invalid click_id: no matching redirect event");
}

#[test]
fn postback_duplicate_click_id_returns_409() {
    let e = check_postback_click(Some(7), true).unwrap_err();
    assert_eq!(e.status_code(), 409);
    assert_eq!(check_postback_click(Some(7), false).ok(), Some(7));
}

#[test]
fn postback_defaults_and_insert_errors() {
    assert_eq!(postback_defaults(None, None), ("THB".to_string(), "sale".to_string()));
    let e = postback_insert_error(fk_error());
    assert_eq!(e.message(), "Referenced resource (click, merchant link, or creator) no longer exists");
    let other = DbError { kind: DbErrorKind::Other, text: "io".to_string() };
    assert_eq!(postback_insert_error(other).message(), "Failed to create conversion: io");
}

#[test]
fn products_test_update_returns_403_for_non_owner() {
    let e = ProductService::check_access(Some(1), 99).unwrap_err();
    assert_eq!(e.status_code(), 403);
    assert_eq!(e.code(), "FORBIDDEN");
}

#[test]
fn delete_returns_404_for_nonexistent_product() {
    // A soft-deleted product is no longer found by the live-product lookup.
    let e = ProductService::check_access(None, 99).unwrap_err();
    assert_eq!(e.status_code(), 404);
}

#[test]
fn merchant_links_test_update_returns_403_for_non_owner() {
    let e = check_link_access(Some(5), Some(1), 99).unwrap_err();
    assert_eq!(e.status_code(), 403);
}

#[test]
fn verify_price_returns_403_for_non_owner() {
    assert!(matches!(check_link_access(Some(5), Some(1), 99), Err(AppError::Forbidden)));
    assert!(matches!(check_variant_access(Some(3), Some(5), Some(1), 99), Err(AppError::Forbidden)));
}

#[test]
fn update_with_no_fields_keeps_the_product() {
    let existing = ProductFields { title: "T".to_string(), description: "D".to_string(), category: "C".to_string() };
    let same = ProductService::merge_update(existing, None, None, None);
    assert_eq!((same.title.as_str(), same.description.as_str(), same.category.as_str()), ("T", "D", "C"));
    let once = ProductService::merge_update(
        ProductFields { title: "T".to_string(), description: "D".to_string(), category: "C".to_string() },
        Some("N".to_string()), None, None,
    );
    let twice = ProductService::merge_update(once, Some("N".to_string()), None, None);
    assert_eq!(twice.title, "N");
}

#[test]
fn postback_checks_click_id_before_raw_data() {
    assert_eq!(parse_click_id("6f1c2a3b-0000-4000-8000-000000000001").ok(), Some(0x6f1c2a3b_0000_4000_8000_000000000001));
    assert_eq!(parse_click_id("nope").unwrap_err().message(), "Invalid click_id format");
    assert!(check_raw_data_size(None).is_ok());
    assert!(check_raw_data_size(Some(10000)).is_ok());
    assert_eq!(check_raw_data_size(Some(10001)).unwrap_err().message(), "raw_data exceeds maximum size of 10KB");
    assert_eq!(validate_postback("nope", Some(20000)).unwrap_err().message(), "Invalid click_id format");
}

#[test]
fn raw_data_size_is_measured_on_its_json_text() {
    assert!(check_raw_data(None).is_ok());
    let small = serde_json::Value::String("x".repeat(100));
    assert!(check_raw_data(Some(&small)).is_ok());
    let big = serde_json::Value::String("x".repeat(10_000));
    assert_eq!(check_raw_data(Some(&big)).unwrap_err().message(), "raw_data exceeds maximum size of 10KB");
    assert!(check_raw_data_text(Some(&"a".repeat(10_000))).is_ok());
    assert!(check_raw_data_text(Some(&"\u{e01}".repeat(3_334))).is_err());
    assert!(check_raw_data_text(None).is_ok());
}

#[test]
fn platform_check_on_a_normalized_name() {
    assert!(check_platform("shopee").is_ok());
    assert!(check_platform("other").is_ok());
    assert_eq!(check_platform("").unwrap_err().message(), "platform is required");
    assert_eq!(check_platform("ebay").unwrap_err().message(), "platform must be one of: shopee, lazada, tiktok, other");
    assert!(check_platform("Shopee").is_err());
}

#[test]
fn raw_data_text_of_a_value_is_what_is_measured() {
    let mut obj = serde_json::Map::new();
    obj.insert("k".to_string(), serde_json::Value::String("v".repeat(9_992)));
    let v = serde_json::Value::Object(obj);
    assert_eq!(serde_json::to_string(&v).unwrap().len(), 10_000);
    assert!(check_raw_data(Some(&v)).is_ok());
    let mut obj = serde_json::Map::new();
    obj.insert("k".to_string(), serde_json::Value::String("v".repeat(9_993)));
    assert!(check_raw_data(Some(&serde_json::Value::Object(obj))).is_err());
}
