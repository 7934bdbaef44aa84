use vstd::prelude::*;

verus! {

#[verifier::external_type_specification]
#[verifier::external_body]
pub struct ExImageError(image::ImageError);

/// What `image` decodes from PNG `bytes` as RGBA with eight bits a channel:
/// width, height and the pixels row by row, top row first; `None` where it
/// refuses the bytes.
pub uninterp spec fn png_rgba(bytes: Seq<u8>) -> Option<(u32, u32, Seq<u8>)>;

/// Relies on `image::load` with `ImageFormat::Png`, then
/// `DynamicImage::to_rgba8` and `ImageBuffer::into_raw`: the decoded image
/// converted to RGBA8 in a buffer of exactly four bytes a pixel, as
/// `ImageBuffer::new` allocates it.
#[verifier::external_body]
fn decode_png(bytes: &Vec<u8>) -> (r: Result<(u32, u32, Vec<u8>), image::ImageError>)
    ensures
        r matches Ok((w, h, px)) ==> png_rgba(bytes@) == Some((w, h, px@)) && px@.len() == 4 * w
            * h,
        r is Err ==> png_rgba(bytes@) is None,
{
    match image::load(std::io::Cursor::new(bytes.as_slice()), image::ImageFormat::Png) {
        Ok(img) => {
            let rgba = img.to_rgba8();
            let (w, h) = rgba.dimensions();
            Ok((w, h, rgba.into_raw()))
        },
        Err(e) => Err(e),
    }
}

/// `px` cut into rows of `row_len` bytes, the rows in the opposite order.
pub open spec fn rows_reversed(px: Seq<u8>, row_len: nat, rows: nat) -> Seq<u8> {
    Seq::new(px.len(), |i: int| px[(rows - 1 - i / (row_len as int)) * row_len + i % (row_len as int)])
}

/// Relies on glium's `RawImage2d::from_raw_rgba_reversed`: the RGBA rows of
/// `4 * width` bytes in the opposite order, bottom row first, as OpenGL
/// expects them. It cuts rows with `chunks`, which panics on a zero width.
#[verifier::external_body]
fn reverse_rows(px: &Vec<u8>, width: u32, height: u32) -> (r: Vec<u8>)
    requires
        width > 0,
        px@.len() == 4 * width * height,
    ensures
        r@ == rows_reversed(px@, 4 * width as nat, height as nat),
{
    glium::texture::RawImage2d::from_raw_rgba_reversed(px.as_slice(), (width, height)).data.into_owned()
}

/// A texture ready for upload: RGBA8 pixels, bottom row first.
#[derive(Clone, Debug)]
pub struct TextureImage {
    pub width: u32,
    pub height: u32,
    pub rgba: Vec<u8>,
}

/// Why a texture could not be prepared.
#[derive(Clone, Copy, Debug, PartialEq, Eq, Structural)]
pub enum TextureError {
    /// The bytes are not a PNG image that can be decoded.
    Decode,
    /// The image has no pixels.
    Empty,
}

/// Prepares decoded RGBA8 pixels, top row first, for upload: an image with
/// pixels gets its rows reversed; one without is refused.
pub fn texture_from_rgba(width: u32, height: u32, rgba: Vec<u8>) -> (r: Result<
    TextureImage,
    TextureError,
>)
    requires
        rgba@.len() == 4 * width * height,
    ensures
        r is Err <==> (width == 0 || height == 0),
        r matches Err(e) ==> e == TextureError::Empty,
        r matches Ok(t) ==> t.width == width && t.height == height && t.rgba@ == rows_reversed(
            rgba@,
            4 * width as nat,
            height as nat,
        ),
{
    if width == 0 || height == 0 {
        return Err(TextureError::Empty);
    }
    let flipped = reverse_rows(&rgba, width, height);
    Ok(TextureImage { width, height, rgba: flipped })
}

/// Decodes PNG bytes and prepares the image for upload.
pub fn load_texture(png: &Vec<u8>) -> (r: Result<TextureImage, TextureError>)
    ensures
        r == Err::<TextureImage, TextureError>(TextureError::Decode) <==> png_rgba(png@) is None,
        png_rgba(png@) matches Some((w, h, px)) ==> (if w == 0 || h == 0 {
            r == Err::<TextureImage, TextureError>(TextureError::Empty)
        } else {
            r matches Ok(t) && t.width == w && t.height == h && t.rgba@ == rows_reversed(
                px,
                4 * w as nat,
                h as nat,
            )
        }),
{
    match decode_png(png) {
        Ok((w, h, px)) => texture_from_rgba(w, h, px),
        Err(_) => Err(TextureError::Decode),
    }
}

} // verus!
