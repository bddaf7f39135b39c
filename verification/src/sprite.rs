//! Sprites: decoded images brought into the one pixel layout the GPU upload
//! takes, 8-bit RGBA, row by row.

use vstd::prelude::*;

verus! {

/// A decoded image of the `image` crate. Verus sees nothing inside it; what
/// the contracts need of it goes by the names below.
#[verifier::external_type_specification]
#[verifier::external_body]
pub struct ExDynamicImage(image::DynamicImage);

/// The error of the `image` crate's decoders, carried through unread.
#[verifier::external_type_specification]
#[verifier::external_body]
pub struct ExImageError(image::ImageError);

/// What a decoded image holds: its pixels as 8-bit RGBA samples, four per
/// pixel, row by row from the top left.
pub uninterp spec fn rgba_samples(image: image::DynamicImage) -> Seq<u8>;

/// The size a decoded image was made with: width and height, in pixels.
pub uninterp spec fn image_size(image: image::DynamicImage) -> (u32, u32);

/// The number of RGBA samples an image of the given size has.
pub open spec fn sample_count(width: u32, height: u32) -> int {
    4 * width * height
}

/// Whether the RGBA copy of an image can be allocated at all: a buffer holds
/// at most `isize::MAX` bytes.
pub open spec fn fits_in_memory(image: image::DynamicImage) -> bool {
    sample_count(image_size(image).0, image_size(image).1) <= isize::MAX
}

/// Calls `image::GenericImageView::dimensions` on a `DynamicImage`, which
/// returns the width and height of the buffer inside. Trusted: the pair is
/// what `image_size` names.
#[verifier::external_body]
fn dimensions_of(image: &image::DynamicImage) -> (size: (u32, u32))
    ensures
        size == image_size(*image),
{
    image::GenericImageView::dimensions(image)
}

/// Calls `image::DynamicImage::to_rgba` and hands out the buffer of the
/// image it returns. Trusted: the samples are what `rgba_samples` names, and
/// there are four for each pixel of the source, since `to_rgba` allocates its
/// result with the source's width and height. `to_rgba` panics where that
/// many bytes are more than a buffer can hold; `requires` leaves those images
/// out.
#[verifier::external_body]
fn rgba_of(image: &image::DynamicImage) -> (samples: Vec<u8>)
    requires
        fits_in_memory(*image),
    ensures
        samples@ == rgba_samples(*image),
        samples@.len() == sample_count(image_size(*image).0, image_size(*image).1),
{
    image.to_rgba().into_raw()
}

/// What a sprite is: its size and its RGBA samples.
pub ghost struct SpriteView {
    pub width: u32,
    pub height: u32,
    pub pixels: Seq<u8>,
}

/// The sprite that a decoded image turns into.
pub open spec fn sprite_of(image: image::DynamicImage) -> SpriteView {
    SpriteView {
        width: image_size(image).0,
        height: image_size(image).1,
        pixels: rgba_samples(image),
    }
}

/// An image ready for upload: its size and `4 * width * height` RGBA samples.
pub struct Sprite {
    width: u32,
    height: u32,
    pixels: Vec<u8>,
}

/// Why a list of opened images did not become a list of sprites.
#[derive(Clone, Copy, Debug, PartialEq, Eq, Structural)]
pub enum LoadError {
    /// The file at this place in the list did not open or decode.
    Decode { index: usize },
    /// The image at this place in the list is too large to copy.
    TooLarge { index: usize },
}

impl View for Sprite {
    type V = SpriteView;

    closed spec fn view(&self) -> SpriteView {
        SpriteView { width: self.width, height: self.height, pixels: self.pixels@ }
    }
}

impl Sprite {
    #[verifier::type_invariant]
    spec fn well_formed(&self) -> bool {
        self.pixels@.len() == sample_count(self.width, self.height)
    }

    /// Copies a decoded image into the RGBA layout, or returns `None` for an
    /// image whose copy would not fit in memory.
    pub fn from_image(image: &image::DynamicImage) -> (sprite: Option<Sprite>)
        ensures
            fits_in_memory(*image) ==> (sprite matches Some(s) && s@ == sprite_of(*image)),
            !fits_in_memory(*image) ==> sprite is None,
    {
        let (width, height) = dimensions_of(image);
        let limit: u128 = isize::MAX as u128;
        assert(4 * width * height <= 4 * 0xffff_ffff * 0xffff_ffff) by (nonlinear_arith)
            requires
                0 <= width <= 0xffff_ffff,
                0 <= height <= 0xffff_ffff,
        ;
        let samples: u128 = 4 * (width as u128) * (height as u128);
        if samples <= limit {
            let pixels = rgba_of(image);
            Some(Sprite { width, height, pixels })
        } else {
            None
        }
    }

    /// Width in pixels.
    pub fn width(&self) -> (width: u32)
        ensures
            width == self@.width,
    {
        self.width
    }

    /// Height in pixels.
    pub fn height(&self) -> (height: u32)
        ensures
            height == self@.height,
    {
        self.height
    }

    /// The RGBA samples, four per pixel.
    pub fn pixels(&self) -> (pixels: &Vec<u8>)
        ensures
            pixels@ == self@.pixels,
            pixels@.len() == sample_count(self@.width, self@.height),
    {
        proof {
            use_type_invariant(self);
        }
        &self.pixels
    }

    /// The size of the 2D texture the sprite is uploaded as. A texture
    /// measures 16 bits a side, so each dimension is cut down to its low 16
    /// bits.
    pub fn texture_size(&self) -> (size: (u16, u16))
        ensures
            size.0 == self@.width % 0x1_0000,
            size.1 == self@.height % 0x1_0000,
    {
        let width: u32 = self.width;
        let height: u32 = self.height;
        assert(width as u16 == width % 0x1_0000) by (bit_vector);
        assert(height as u16 == height % 0x1_0000) by (bit_vector);
        (
            #[verifier::truncate]
            (width as u16),
            #[verifier::truncate]
            (height as u16),
        )
    }
}

/// Whether the image at place `i` of `opened` decoded and can be copied.
pub open spec fn loads(opened: Seq<Result<image::DynamicImage, image::ImageError>>, i: int) -> bool {
    opened[i] matches Ok(image) && fits_in_memory(image)
}

/// Turns the images opened from a list of files into sprites, all or none.
///
/// With every file decoded the result holds one sprite per file, in the
/// order of the files. Otherwise no sprite is handed out and the error names
/// the first file that failed.
pub fn load_sprites(
    opened: &Vec<Result<image::DynamicImage, image::ImageError>>,
) -> (loaded: Result<Vec<Sprite>, LoadError>)
    ensures
        match loaded {
            Ok(sprites) => {
                &&& sprites@.len() == opened@.len()
                &&& forall|i: int| 0 <= i < opened@.len() ==> #[trigger] loads(opened@, i)
                &&& forall|i: int|
                    0 <= i < opened@.len() ==> (#[trigger] sprites@[i])@ == sprite_of(
                        opened@[i]->Ok_0,
                    )
            },
            Err(LoadError::Decode { index }) => {
                &&& index < opened@.len()
                &&& opened@[index as int] is Err
                &&& forall|i: int| 0 <= i < index ==> #[trigger] loads(opened@, i)
            },
            Err(LoadError::TooLarge { index }) => {
                &&& index < opened@.len()
                &&& (opened@[index as int] matches Ok(image) && !fits_in_memory(image))
                &&& forall|i: int| 0 <= i < index ==> #[trigger] loads(opened@, i)
            },
        },
{
    let mut sprites: Vec<Sprite> = Vec::new();
    let mut index: usize = 0;
    while index < opened.len()
        invariant
            index <= opened@.len(),
            sprites@.len() == index,
            forall|i: int| 0 <= i < index ==> #[trigger] loads(opened@, i),
            forall|i: int|
                0 <= i < index ==> (#[trigger] sprites@[i])@ == sprite_of(opened@[i]->Ok_0),
        decreases opened@.len() - index,
    {
        match &opened[index] {
            Ok(image) => {
                match Sprite::from_image(image) {
                    Some(sprite) => {
                        sprites.push(sprite);
                    },
                    None => {
                        return Err(LoadError::TooLarge { index });
                    },
                }
            },
            Err(_) => {
                return Err(LoadError::Decode { index });
            },
        }
        index += 1;
    }
    Ok(sprites)
}

} // verus!
