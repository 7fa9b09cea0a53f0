use vstd::prelude::*;
use image::DynamicImage;
use crate::errors::ValidationError;
use crate::geometry::{crop_fits, crop_rects, left_rect, right_rect, rotation_for, Rotation};
use crate::naming::{output_file_name, output_name, pad_width_of};
use crate::numbering::{page_numbers, page_of, Side};

verus! {

#[verifier::external_type_specification]
#[verifier::external_body]
pub struct ExDynamicImage(image::DynamicImage);

/// Width and height, in pixels, of a decoded image.
pub uninterp spec fn image_dims(img: DynamicImage) -> (u32, u32);

/// Relies on `DynamicImage::width`: the width of the underlying buffer.
pub assume_specification[ DynamicImage::width ](img: &DynamicImage) -> (r: u32)
    ensures
        r == image_dims(*img).0,
;

/// Relies on `DynamicImage::height`: the height of the underlying buffer.
pub assume_specification[ DynamicImage::height ](img: &DynamicImage) -> (r: u32)
    ensures
        r == image_dims(*img).1,
;

/// Relies on `DynamicImage::rotate90`: a new buffer of height by width pixels.
pub assume_specification[ DynamicImage::rotate90 ](img: &DynamicImage) -> (r: DynamicImage)
    ensures
        image_dims(r) == (image_dims(*img).1, image_dims(*img).0),
;

/// Relies on `DynamicImage::rotate270`: a new buffer of height by width pixels.
pub assume_specification[ DynamicImage::rotate270 ](img: &DynamicImage) -> (r: DynamicImage)
    ensures
        image_dims(r) == (image_dims(*img).1, image_dims(*img).0),
;

/// Relies on `DynamicImage::crop_imm`: the requested rectangle, clamped to
/// the image's bounds, copied into a new buffer.
pub assume_specification[ DynamicImage::crop_imm ](
    img: &DynamicImage,
    x: u32,
    y: u32,
    width: u32,
    height: u32,
) -> (r: DynamicImage)
    ensures
        ({
            let (iw, ih) = image_dims(*img);
            let cx = if x <= iw { x } else { iw };
            let cy = if y <= ih { y } else { ih };
            let cw = if width <= iw - cx { width } else { (iw - cx) as u32 };
            let ch = if height <= ih - cy { height } else { (ih - cy) as u32 };
            image_dims(r) == (cw, ch)
        }),
;

/// The two pages cut from one scan, with their final page numbers.
pub struct SplitScan {
    pub left: DynamicImage,
    pub right: DynamicImage,
    pub left_page: usize,
    pub right_page: usize,
}

/// Width and height of a scan once it is turned a quarter in either direction.
pub open spec fn upright_dims(img: DynamicImage) -> (u32, u32) {
    (image_dims(img).1, image_dims(img).0)
}

/// Turns the scan at position `idx` of a chunk of `chunk_len` scans upright,
/// crops its two pages as `crop_rects` places them for `margin`, and numbers
/// them.
pub fn split_scan(img: &DynamicImage, idx: usize, chunk_len: usize, margin: u32) -> (r: Result<
    SplitScan,
    ValidationError,
>)
    requires
        idx < chunk_len,
        chunk_len <= usize::MAX / 2,
    ensures
        ({
            let (w, h) = upright_dims(*img);
            &&& r is Ok <==> crop_fits(margin as int, w as int, h as int)
            &&& r is Err ==> r == Err::<SplitScan, ValidationError>(
                ValidationError::MarginTooLarge { margin, width: w, height: h },
            )
            &&& r matches Ok(s) ==> {
                let lr = left_rect(margin as int, w as int, h as int);
                let rr = right_rect(margin as int, w as int, h as int);
                &&& image_dims(s.left) == (lr.width, lr.height)
                &&& image_dims(s.right) == (rr.width, rr.height)
                &&& s.left_page == page_of(idx as int, chunk_len as int, Side::Left)
                &&& s.right_page == page_of(idx as int, chunk_len as int, Side::Right)
            }
        }),
{
    let upright = match rotation_for(idx) {
        Rotation::Clockwise => img.rotate90(),
        Rotation::CounterClockwise => img.rotate270(),
    };
    let width = upright.width();
    let height = upright.height();
    match crop_rects(margin, width, height) {
        Err(e) => Err(e),
        Ok((l, r)) => {
            let left = upright.crop_imm(l.x, l.y, l.width, l.height);
            let right = upright.crop_imm(r.x, r.y, r.width, r.height);
            let (left_page, right_page) = page_numbers(idx, chunk_len);
            Ok(SplitScan { left, right, left_page, right_page })
        },
    }
}

/// Names of the files for the left and right page of the scan `file_name`
/// at position `idx` of the chunk `label` of `chunk_len` scans.
pub fn page_file_names(label: &str, idx: usize, chunk_len: usize, file_name: &str) -> (r: (
    String,
    String,
))
    requires
        idx < chunk_len,
        chunk_len <= usize::MAX / 2,
    ensures
        r.0@ == output_name(
            label@,
            page_of(idx as int, chunk_len as int, Side::Left) as nat,
            pad_width_of(chunk_len as nat),
            file_name@,
        ),
        r.1@ == output_name(
            label@,
            page_of(idx as int, chunk_len as int, Side::Right) as nat,
            pad_width_of(chunk_len as nat),
            file_name@,
        ),
{
    let (left_page, right_page) = page_numbers(idx, chunk_len);
    let width = chunk_len / 10;
    (
        output_file_name(label, left_page, width, file_name),
        output_file_name(label, right_page, width, file_name),
    )
}

} // verus!
