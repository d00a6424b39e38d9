//! Image upload rules: accepted types and size, the stored image's bounds,
//! and where the optimized file is published.

use vstd::prelude::*;
use vstd::string::*;
use crate::error::{AppError, ErrorView};
use crate::ids::{uuid_text, uuid_to_string};
use crate::text::{decimal, has_prefix, str_eq, u64_to_decimal, view_opt_str};

verus! {

/// Largest accepted upload, in bytes (10 MiB).
pub const MAX_FILE_SIZE: usize = 10 * 1024 * 1024;

/// Width and height the stored image is resized and cropped to.
pub const MAX_WIDTH: u32 = 1080;

pub const MAX_HEIGHT: u32 = 1080;

/// Content types an upload may have.
pub open spec fn content_type_allowed(t: Seq<char>) -> bool {
    t == "image/jpeg"@ || t == "image/png"@ || t == "image/heic"@
}

/// Answer to a successful upload: where the image is served and its size.
pub struct UploadResponse {
    pub path: String,
    pub width: u32,
    pub height: u32,
}

/// How the form field of an upload is checked: a field must be present, with
/// a file name and a content type, and the type must be accepted.
pub open spec fn upload_field_spec(field_present: bool, filename: Option<Seq<char>>, content_type: Option<Seq<char>>) -> Result<(), ErrorView> {
    if !field_present {
        Err(ErrorView::Validation("No file provided"@))
    } else if filename is None {
        Err(ErrorView::Validation("No filename provided"@))
    } else if content_type is None {
        Err(ErrorView::Validation("No content type provided"@))
    } else if !content_type_allowed(content_type->0) {
        Err(
            ErrorView::Validation(
                "Invalid file type: "@ + content_type->0 + ". Allowed types: jpg, png, heic"@,
            ),
        )
    } else {
        Ok(())
    }
}

/// A present field with a file name and a content type passes exactly when
/// that type is `image/jpeg`, `image/png` or `image/heic`, the three types
/// the refusal names; any other type is refused with a message naming it.
pub proof fn lemma_upload_types(filename: Seq<char>, content_type: Seq<char>)
    ensures
        upload_field_spec(true, Some(filename), Some(content_type)) is Ok <==> (content_type
            == "image/jpeg"@ || content_type == "image/png"@ || content_type == "image/heic"@),
        upload_field_spec(true, Some(filename), Some("image/jpeg"@)) is Ok,
        upload_field_spec(true, Some(filename), Some("image/png"@)) is Ok,
        upload_field_spec(true, Some(filename), Some("image/heic"@)) is Ok,
        !(content_type == "image/jpeg"@ || content_type == "image/png"@ || content_type == "image/heic"@)
            ==> upload_field_spec(true, Some(filename), Some(content_type)) == Err::<(), ErrorView>(
            ErrorView::Validation(
                "Invalid file type: "@ + content_type + ". Allowed types: jpg, png, heic"@,
            ),
        ),
{
}

/// Checks the form field of an upload.
pub fn validate_upload_field(field_present: bool, filename: Option<&str>, content_type: Option<&str>) -> (r: Result<(), AppError>)
    ensures
        match upload_field_spec(field_present, view_opt_str(filename), view_opt_str(content_type)) {
            Ok(()) => r is Ok,
            Err(e) => r is Err && r->Err_0@ == e,
        },
{
    if !field_present {
        return Err(AppError::validation("No file provided"));
    }
    if filename.is_none() {
        return Err(AppError::validation("No filename provided"));
    }
    let t = match content_type {
        Some(t) => t,
        None => return Err(AppError::validation("No content type provided")),
    };
    if !(str_eq(t, "image/jpeg") || str_eq(t, "image/png") || str_eq(t, "image/heic")) {
        let mut m = String::from_str("Invalid file type: ");
        m.append(t);
        m.append(". Allowed types: jpg, png, heic");
        return Err(AppError::Validation(m));
    }
    Ok(())
}

/// Checks the size of an uploaded file.
pub fn check_upload_size(len: usize) -> (r: Result<(), AppError>)
    ensures
        len <= MAX_FILE_SIZE ==> r is Ok,
        len > MAX_FILE_SIZE ==> r is Err && r->Err_0@ == ErrorView::Validation(
            "File too large: "@ + decimal(len as nat) + " bytes. Maximum size: "@ + decimal(
                MAX_FILE_SIZE as nat,
            ) + " bytes"@,
        ),
{
    if len > MAX_FILE_SIZE {
        let mut m = String::from_str("File too large: ");
        let n = u64_to_decimal(len as u64);
        m.append(n.as_str());
        m.append(" bytes. Maximum size: ");
        let max = u64_to_decimal(MAX_FILE_SIZE as u64);
        m.append(max.as_str());
        m.append(" bytes");
        return Err(AppError::Validation(m));
    }
    Ok(())
}

/// Public path of the optimized image of upload `id`.
pub open spec fn upload_path_spec(id: u128) -> Seq<char> {
    "/uploads/products/"@ + uuid_text(id) + "/optimized.webp"@
}

/// Public path of the optimized image of upload `id`.
pub fn upload_path(id: u128) -> (r: String)
    ensures
        r@ == upload_path_spec(id),
{
    let mut r = String::from_str("/uploads/products/");
    let t = uuid_to_string(id);
    r.append(t.as_str());
    r.append("/optimized.webp");
    r
}

/// Directory the files of upload `id` are written to.
pub fn upload_dir(id: u128) -> (r: String)
    ensures
        r@ == "uploads/products/"@ + uuid_text(id),
{
    let mut r = String::from_str("uploads/products/");
    let t = uuid_to_string(id);
    r.append(t.as_str());
    r
}


#[verifier::external_type_specification]
#[verifier::external_body]
pub struct ExDynamicImage(image::DynamicImage);

#[verifier::external_type_specification]
#[verifier::external_body]
pub struct ExImageError(image::ImageError);

/// The image `image::load_from_memory` decodes from the bytes, or `None`
/// when they are no image it can read. The format is guessed from the bytes
/// themselves, so this depends on them alone.
pub uninterp spec fn spec_decode(data: Seq<u8>) -> Option<image::DynamicImage>;

/// Calls `image::load_from_memory`; the contract names its result.
#[verifier::external_body]
fn load_image(data: &[u8]) -> (r: Result<image::DynamicImage, image::ImageError>)
    ensures
        r is Ok <==> spec_decode(data@) is Some,
        r is Ok ==> spec_decode(data@) == Some(r->Ok_0),
{
    image::load_from_memory(data)
}

/// Calls `ToString::to_string` on an image error (its `Display` text);
/// nothing is stated about the text.
#[verifier::external_body]
fn image_error_text(e: &image::ImageError) -> String {
    e.to_string()
}

/// The width and height `GenericImageView::dimensions` reads from an image.
pub uninterp spec fn spec_image_size(img: image::DynamicImage) -> (u32, u32);

/// Calls `GenericImageView::dimensions`; the contract names its result.
#[verifier::external_body]
fn image_size(img: &image::DynamicImage) -> (r: (u32, u32))
    ensures
        r == spec_image_size(*img),
{
    image::GenericImageView::dimensions(img)
}

/// Whether an image `w` by `h` can be scaled to cover `tw` by `th`: no side
/// is empty, and the scaled image stays within 4 000 000 000 pixels a side,
/// well inside the `u32` sizes the resize works in.
pub open spec fn fill_fits(w: u32, h: u32, tw: u32, th: u32) -> bool {
    &&& w > 0 && h > 0 && tw > 0 && th > 0
    &&& w as int * th as int <= 4_000_000_000 * h as int
    &&& h as int * tw as int <= 4_000_000_000 * w as int
}

/// The image `DynamicImage::resize_to_fill` with the Lanczos3 filter gives
/// for an image and the bounds `tw` by `th`.
pub uninterp spec fn spec_resize_fill(img: image::DynamicImage, tw: u32, th: u32) -> image::DynamicImage;

/// Calls `DynamicImage::resize_to_fill` with the Lanczos3 filter; the
/// contract names its result. That method keeps the image's pixel format,
/// scales it to cover `tw` by `th` and crops the middle to exactly that
/// size; when the image fits (`fill_fits`) neither the scaled size nor the
/// crop leaves the `u32` range, so the result is `tw` by `th`.
#[verifier::external_body]
fn resize_to_fill(img: &image::DynamicImage, tw: u32, th: u32) -> (r: image::DynamicImage)
    requires
        fill_fits(spec_image_size(*img).0, spec_image_size(*img).1, tw, th),
    ensures
        r == spec_resize_fill(*img, tw, th),
        spec_image_size(r) == (tw, th),
{
    img.resize_to_fill(tw, th, image::imageops::FilterType::Lanczos3)
}

/// Whether the image fits the stored bounds, as `fill_fits` states.
fn fits_upload_bounds(w: u32, h: u32) -> (r: bool)
    ensures
        r == fill_fits(w, h, MAX_WIDTH, MAX_HEIGHT),
{
    w > 0 && h > 0 && (w as u64) * 1080u64 <= 4_000_000_000u64 * (h as u64)
        && (h as u64) * 1080u64 <= 4_000_000_000u64 * (w as u64)
}

/// How an upload's image is prepared: bytes that decode to no image are a
/// validation error; a decoded image is resized and cropped to fill the
/// stored bounds, unless it is too narrow or too flat to be scaled to cover
/// them, which is refused as well.
pub open spec fn upload_image_spec(data: Seq<u8>) -> Option<image::DynamicImage> {
    match spec_decode(data) {
        Some(img) => if fill_fits(spec_image_size(img).0, spec_image_size(img).1, MAX_WIDTH, MAX_HEIGHT) {
            Some(spec_resize_fill(img, MAX_WIDTH, MAX_HEIGHT))
        } else {
            None
        },
        None => None,
    }
}

/// Decodes an uploaded image and resizes and crops it to fill the stored
/// bounds, giving the resized image with its width and height.
pub fn prepare_upload_image(data: &[u8]) -> (r: Result<(image::DynamicImage, u32, u32), AppError>)
    ensures
        match upload_image_spec(data@) {
            Some(img) => r is Ok && r->Ok_0.0 == img && r->Ok_0.1 == MAX_WIDTH && r->Ok_0.2 == MAX_HEIGHT
                && spec_image_size(img) == (MAX_WIDTH, MAX_HEIGHT),
            None => r is Err && r->Err_0@ is Validation,
        },
        r is Err ==> spec_decode(data@) is Some ==> r->Err_0@ == ErrorView::Validation(
            "Invalid image: dimensions out of range"@,
        ),
        r is Err ==> has_prefix(crate::error::message_of(r->Err_0@), "Invalid image: "@),
{
    let img = match load_image(data) {
        Ok(img) => img,
        Err(e) => {
            let text = image_error_text(&e);
            let err = AppError::validation_with("Invalid image: ", text.as_str());
            assert(("Invalid image: "@ + text@).subrange(0, "Invalid image: "@.len() as int)
                =~= "Invalid image: "@);
            return Err(err);
        },
    };
    let (w, h) = image_size(&img);
    if !fits_upload_bounds(w, h) {
        proof {
            reveal_strlit("Invalid image: dimensions out of range");
            reveal_strlit("Invalid image: ");
            assert("Invalid image: dimensions out of range"@.subrange(0, "Invalid image: "@.len() as int)
                =~= "Invalid image: "@);
        }
        return Err(AppError::validation("Invalid image: dimensions out of range"));
    }
    let resized = resize_to_fill(&img, MAX_WIDTH, MAX_HEIGHT);
    let (rw, rh) = image_size(&resized);
    Ok((resized, rw, rh))
}

} // verus!
