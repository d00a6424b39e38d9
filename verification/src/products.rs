//! Product rules: what a new product needs, how an update is checked and
//! applied, and who may act on a product.

use vstd::prelude::*;
use vstd::string::*;
use crate::access::{access_spec, check_ownership};
use crate::auth::utf8_len;
use crate::error::{AppError, ErrorView};
use crate::text::{merged, trim, trim_str, view_opt_string};

verus! {

/// Body of a product creation request.
pub struct CreateProductRequest {
    pub title: String,
    pub description: Option<String>,
    pub category: Option<String>,
    pub images: Option<Vec<String>>,
}

/// Body of a product update request; absent fields keep their value.
pub struct UpdateProductRequest {
    pub title: Option<String>,
    pub description: Option<String>,
    pub category: Option<String>,
    pub images: Option<Vec<String>>,
}

/// The fields a new product is stored with.
pub struct NewProduct {
    pub title: String,
    pub description: String,
    pub category: String,
    pub images: Vec<String>,
}

/// The text fields of a stored product.
pub struct ProductFields {
    pub title: String,
    pub description: String,
    pub category: String,
}

/// A product title must be non-blank and at most 500 bytes.
pub open spec fn title_ok(title: Seq<char>) -> bool {
    trim(title).len() != 0 && utf8_len(title) <= 500
}

/// Category stored for a new product: the given one unless blank, else `uncategorized`.
pub open spec fn category_spec(category: Option<Seq<char>>) -> Seq<char> {
    match category {
        Some(c) => if trim(c).len() != 0 {
            c
        } else {
            "uncategorized"@
        },
        None => "uncategorized"@,
    }
}

/// A product keeps the category it was given, character for character,
/// unless that category is missing or blank, in which case it is
/// `uncategorized`.
pub proof fn lemma_category_kept(category: Option<Seq<char>>)
    ensures
        category is Some && trim(category->0).len() != 0 ==> category_spec(category) == category->0,
        category is None ==> category_spec(category) == "uncategorized"@,
        category is Some && trim(category->0).len() == 0 ==> category_spec(category) == "uncategorized"@,
{
}

fn title_is_valid(title: &str) -> (r: bool)
    ensures
        r == title_ok(title@),
{
    !trim_str(title).is_empty() && title.as_bytes().len() <= 500
}

/// Checks a creation request and fills in its defaults.
pub fn prepare_new_product(req: CreateProductRequest) -> (r: Result<NewProduct, AppError>)
    ensures
        !title_ok(req.title@) ==> r is Err && r->Err_0@ == ErrorView::Validation(
            "title is required and must be at most 500 chars"@,
        ),
        title_ok(req.title@) ==> r is Ok && r->Ok_0.title@ == req.title@
            && r->Ok_0.description@ == match req.description {
            Some(d) => d@,
            None => Seq::<char>::empty(),
        } && r->Ok_0.category@ == category_spec(view_opt_string(req.category)) && r->Ok_0.images@
            == match req.images {
            Some(v) => v@,
            None => Seq::<String>::empty(),
        },
{
    if !title_is_valid(req.title.as_str()) {
        return Err(AppError::validation("title is required and must be at most 500 chars"));
    }
    let description = match req.description {
        Some(d) => d,
        None => String::new(),
    };
    let category = match req.category {
        Some(c) => if !trim_str(c.as_str()).is_empty() {
            c
        } else {
            String::from_str("uncategorized")
        },
        None => String::from_str("uncategorized"),
    };
    let images = match req.images {
        Some(v) => v,
        None => Vec::new(),
    };
    Ok(NewProduct { title: req.title, description, category, images })
}

impl UpdateProductRequest {
    /// Checks the new title, when one is given.
    pub fn validate(&self) -> (r: Result<(), AppError>)
        ensures
            match &self.title {
                Some(t) => if title_ok(t@) {
                    r is Ok
                } else {
                    r is Err && r->Err_0@ == ErrorView::Validation("title must be 1-500 chars"@)
                },
                None => r is Ok,
            },
    {
        match &self.title {
            Some(t) => if title_is_valid(t.as_str()) {
                Ok(())
            } else {
                Err(AppError::validation("title must be 1-500 chars"))
            },
            None => Ok(()),
        }
    }
}

/// Service-level product rules.
pub struct ProductService;

impl ProductService {
    /// A product may be read or changed only by the creator that owns it;
    /// `owner` is `None` when no live product has the id.
    pub fn check_access(owner: Option<u128>, creator_id: u128) -> (r: Result<(), AppError>)
        ensures
            match access_spec(owner, creator_id, "Product not found"@) {
                Ok(()) => r is Ok,
                Err(e) => r is Err && r->Err_0@ == e,
            },
    {
        check_ownership(owner, creator_id, "Product not found")
    }

    /// Applies an update to the text fields of a product.
    pub fn merge_update(
        existing: ProductFields,
        title: Option<String>,
        description: Option<String>,
        category: Option<String>,
    ) -> (r: ProductFields)
        ensures
            r.title@ == merged(view_opt_string(title), existing.title@),
            r.description@ == merged(view_opt_string(description), existing.description@),
            r.category@ == merged(view_opt_string(category), existing.category@),
    {
        ProductFields {
            title: match title {
                Some(t) => t,
                None => existing.title,
            },
            description: match description {
                Some(d) => d,
                None => existing.description,
            },
            category: match category {
                Some(c) => c,
                None => existing.category,
            },
        }
    }
}

/// An update that gives no field leaves the field unchanged, a field it
/// gives is stored exactly as given, and applying the same update twice is
/// the same as applying it once.
pub proof fn lemma_update_merge_laws(new: Option<Seq<char>>, old: Seq<char>)
    ensures
        merged(None, old) == old,
        new is Some ==> merged(new, old) == new->0,
        merged(new, merged(new, old)) == merged(new, old),
{
}

} // verus!
