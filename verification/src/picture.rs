//! Images that a bot can upload.

use vstd::prelude::*;
use vstd::string::*;
use crate::errors::{BerylliumError, BerylliumResult};

verus! {

/// The image formats that the platform takes.
#[derive(Clone, Copy, Debug, PartialEq, Eq, Structural)]
pub enum ImageFormat {
    Bmp,
    Gif,
    Jpeg,
    Png,
}

impl ImageFormat {
    /// The media type of the format.
    pub fn mime(&self) -> (r: String)
        ensures
            r@ == match self {
                ImageFormat::Bmp => "image/bmp"@,
                ImageFormat::Gif => "image/gif"@,
                ImageFormat::Jpeg => "image/jpeg"@,
                ImageFormat::Png => "image/png"@,
            },
    {
        let s = match self {
            ImageFormat::Bmp => "image/bmp",
            ImageFormat::Gif => "image/gif",
            ImageFormat::Jpeg => "image/jpeg",
            ImageFormat::Png => "image/png",
        };
        s.to_owned()
    }
}

/// What an upload needs to know of an image.
#[derive(Clone, Copy, Debug, PartialEq, Eq, Structural)]
pub struct ImageMeta {
    pub format: ImageFormat,
    pub width: u32,
    pub height: u32,
}

/// What the first bytes of a file say of its format.
#[derive(Clone, Copy, Debug, PartialEq, Eq, Structural)]
pub enum Guess {
    /// One of the formats that the platform takes.
    Known(ImageFormat),
    /// Another image format.
    Other,
}

/// The format that `image::guess_format` finds in the bytes, or `None`
/// where it finds none.
pub uninterp spec fn guessed_format(bytes: Seq<u8>) -> Option<Guess>;

/// The width and the height of the image that
/// `image::load_from_memory_with_format` decodes from the bytes when they
/// are read as the given format, or `None` where it fails.
pub uninterp spec fn decoded_size(bytes: Seq<u8>, format: ImageFormat) -> Option<(u32, u32)>;

/// The error of the `image` crate, carried as it is.
#[verifier::external_type_specification]
#[verifier::external_body]
pub struct ExImageError(::image::ImageError);

/// Calls `image::guess_format`. What it finds depends on the bytes alone.
#[verifier::external_body]
fn guess_format(bytes: &[u8]) -> (r: Result<Guess, ::image::ImageError>)
    ensures
        match r {
            Ok(g) => guessed_format(bytes@) == Some(g),
            Err(_) => guessed_format(bytes@).is_none(),
        },
{
    match ::image::guess_format(bytes) {
        Ok(::image::ImageFormat::Jpeg) => Ok(Guess::Known(ImageFormat::Jpeg)),
        Ok(::image::ImageFormat::Png) => Ok(Guess::Known(ImageFormat::Png)),
        Ok(::image::ImageFormat::Gif) => Ok(Guess::Known(ImageFormat::Gif)),
        Ok(::image::ImageFormat::Bmp) => Ok(Guess::Known(ImageFormat::Bmp)),
        Ok(_) => Ok(Guess::Other),
        Err(e) => Err(e),
    }
}

/// Calls `image::load_from_memory_with_format` with the given format and
/// reads the width and the height of the image. With the format given, the
/// decoder is the crate's own for that format, so both depend on the bytes
/// and the format alone.
#[verifier::external_body]
fn image_size(bytes: &[u8], format: ImageFormat) -> (r: Result<(u32, u32), ::image::ImageError>)
    ensures
        match r {
            Ok(s) => decoded_size(bytes@, format) == Some(s),
            Err(_) => decoded_size(bytes@, format).is_none(),
        },
{
    let outside = match format {
        ImageFormat::Bmp => ::image::ImageFormat::Bmp,
        ImageFormat::Gif => ::image::ImageFormat::Gif,
        ImageFormat::Jpeg => ::image::ImageFormat::Jpeg,
        ImageFormat::Png => ::image::ImageFormat::Png,
    };
    ::image::load_from_memory_with_format(bytes, outside).map(|i| (i.width(), i.height()))
}

/// An image in one of the formats that the platform takes.
#[derive(Clone, Debug, PartialEq, Eq)]
pub struct Image {
    meta: ImageMeta,
    data: Vec<u8>,
}

impl Image {
    /// What an upload needs to know of the image.
    pub closed spec fn meta(&self) -> ImageMeta {
        self.meta
    }

    /// The bytes of the image.
    pub closed spec fn bytes(&self) -> Seq<u8> {
        self.data@
    }

    /// The image of the given bytes, whose format was guessed as `guess`
    /// and which decode to the given size. A format that the platform does
    /// not take is an error.
    pub fn from_parts(guess: Guess, size: (u32, u32), bytes: Vec<u8>) -> (r: BerylliumResult<Image>)
        ensures
            match guess {
                Guess::Known(format) => r matches Ok(i) && i.meta() == (ImageMeta {
                    format,
                    width: size.0,
                    height: size.1,
                }) && i.bytes() == bytes@,
                Guess::Other => r matches Err(BerylliumError::Other(m)) && m@
                    == "Unsupported image format"@,
            },
    {
        match guess {
            Guess::Known(format) => Ok(
                Image { meta: ImageMeta { format, width: size.0, height: size.1 }, data: bytes },
            ),
            Guess::Other => Err(BerylliumError::Other("Unsupported image format".to_owned())),
        }
    }

    /// Reads an image from its bytes. The format is guessed from the first
    /// bytes: where none is found that is an error, and so is a format that
    /// the platform does not take. Then the image is decoded as that
    /// format for its size: where that fails the bytes are no image.
    pub fn from_bytes(bytes: Vec<u8>) -> (r: BerylliumResult<Image>)
        ensures
            match guessed_format(bytes@) {
                None => r matches Err(e) && e is Image,
                Some(Guess::Other) => r matches Err(BerylliumError::Other(m)) && m@
                    == "Unsupported image format"@,
                Some(Guess::Known(format)) => match decoded_size(bytes@, format) {
                    None => r matches Err(e) && e is Image,
                    Some(size) => r matches Ok(i) && i.meta() == (ImageMeta {
                        format,
                        width: size.0,
                        height: size.1,
                    }) && i.bytes() == bytes@,
                },
            },
    {
        let guess = match guess_format(bytes.as_slice()) {
            Ok(g) => g,
            Err(e) => {
                return Err(BerylliumError::Image(e.to_string()));
            },
        };
        match guess {
            Guess::Other => Image::from_parts(guess, (0, 0), bytes),
            Guess::Known(format) => match image_size(bytes.as_slice(), format) {
                Ok(size) => Image::from_parts(guess, size, bytes),
                Err(e) => Err(BerylliumError::Image(e.to_string())),
            },
        }
    }

    /// What an upload needs to know of the image.
    pub fn metadata(&self) -> (r: ImageMeta)
        ensures
            r == self.meta(),
    {
        self.meta
    }

    /// The bytes of the image.
    pub fn data(&self) -> (r: &[u8])
        ensures
            r@ == self.bytes(),
    {
        self.data.as_slice()
    }
}

} // verus!
