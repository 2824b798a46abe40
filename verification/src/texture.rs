//! Textures as they are handed to the GPU: size, pixel format, pixel bytes
//! and sampling, decoded from image files or made up from a single colour.

use crate::text::text_eq;
use vstd::prelude::*;
use vstd::slice::slice_subrange;

verus! {

/// Pixel format of a texture.
#[derive(Clone, Copy, Debug, PartialEq, Eq)]
pub enum TextureFormat {
    /// Four 8-bit channels, read as linear values.
    Rgba8Unorm,
    /// Four 8-bit channels, read as sRGB-encoded colour.
    Rgba8UnormSrgb,
    /// One 32-bit depth channel.
    Depth32Float,
}

/// How a sampler picks texels.
#[derive(Clone, Copy, Debug, PartialEq, Eq)]
pub enum FilterMode {
    Nearest,
    Linear,
}

/// Sampling state of a texture. All textures clamp to their edge.
#[derive(Clone, Copy, Debug, PartialEq, Eq)]
pub struct Sampler {
    pub mag_filter: FilterMode,
    pub min_filter: FilterMode,
    pub mipmap_filter: FilterMode,
    /// Whether the sampler compares against the stored depth with
    /// "less or equal", as depth textures do.
    pub compare_less_equal: bool,
}

/// Encodings that [`Texture::load_house`] and [`Texture::load_gltf`] decode.
#[derive(Clone, Copy, Debug, PartialEq, Eq)]
pub enum ImageKind {
    Png,
    Jpeg,
}

/// A decoded image: `height` rows of `width` pixels, four bytes (red, green,
/// blue, alpha) per pixel.
#[derive(Debug)]
pub struct Image {
    pub width: u32,
    pub height: u32,
    pub rgba: Vec<u8>,
}

/// What reading an image file gave.
#[derive(Debug)]
pub enum TextureFile {
    /// There is no such file, or it cannot be read.
    Missing,
    /// The file was read but does not hold an image that can be decoded.
    Undecodable,
    /// The file's image.
    Decoded(Image),
}

/// Why a texture could not be made.
#[derive(Clone, Copy, Debug, PartialEq, Eq)]
pub enum TextureError {
    /// Fewer than the four bytes of one pixel were given.
    ShortPixel,
    /// The bytes do not decode as an image.
    Decode,
    /// The image has no pixels.
    EmptyImage,
    /// A row of the image takes more bytes than a row pitch can state.
    TooWide,
    /// The image does not hold four bytes for each of its pixels.
    PixelCount,
    /// The image file is missing.
    NotFound,
    /// No built-in image goes by that file name.
    UnknownAsset,
    /// The image lies in a buffer that was not loaded.
    NoSuchBuffer,
    /// The image's byte range runs past the end of its buffer.
    RangeOutOfBuffer,
    /// The image's media type is neither PNG nor JPEG.
    UnknownMediaType,
    /// The texture index does not fit in 32 bits.
    IndexTooLarge,
    /// The texture's sampler does not state the filter needed.
    NoFilter,
}

/// A texture ready for upload.
#[derive(Debug)]
pub struct Texture {
    pub label: Option<String>,
    pub width: u32,
    pub height: u32,
    pub format: TextureFormat,
    /// Pixel bytes, row after row; empty for a depth texture, which the GPU
    /// fills.
    pub pixels: Vec<u8>,
    /// Bytes from one row of `pixels` to the next; 0 when none is stated.
    pub bytes_per_row: u32,
    /// Rows in `pixels`; 0 when none is stated.
    pub rows_per_image: u32,
    pub sampler: Sampler,
    pub id: u32,
    pub tex_coord: u32,
}

/// The value of a [`Texture`].
pub struct TextureView {
    pub label: Option<Seq<char>>,
    pub width: u32,
    pub height: u32,
    pub format: TextureFormat,
    pub pixels: Seq<u8>,
    pub bytes_per_row: u32,
    pub rows_per_image: u32,
    pub sampler: Sampler,
    pub id: u32,
    pub tex_coord: u32,
}

/// The value of an [`Image`].
pub struct ImageView {
    pub width: u32,
    pub height: u32,
    pub rgba: Seq<u8>,
}

impl View for Image {
    type V = ImageView;

    open spec fn view(&self) -> ImageView {
        ImageView { width: self.width, height: self.height, rgba: self.rgba@ }
    }
}

impl View for Texture {
    type V = TextureView;

    open spec fn view(&self) -> TextureView {
        TextureView {
            label: match self.label {
                Some(l) => Some(l@),
                None => None,
            },
            width: self.width,
            height: self.height,
            format: self.format,
            pixels: self.pixels@,
            bytes_per_row: self.bytes_per_row,
            rows_per_image: self.rows_per_image,
            sampler: self.sampler,
            id: self.id,
            tex_coord: self.tex_coord,
        }
    }
}

/// Identifier of the depth texture.
pub const DEPTH_TEXTURE_ID: u32 = 1000000;

/// Sampler of colour textures: linear when magnified, nearest otherwise.
pub open spec fn color_sampler() -> Sampler {
    Sampler {
        mag_filter: FilterMode::Linear,
        min_filter: FilterMode::Nearest,
        mipmap_filter: FilterMode::Nearest,
        compare_less_equal: false,
    }
}

/// Sampler of depth textures: linear, comparing with "less or equal".
pub open spec fn depth_sampler() -> Sampler {
    Sampler {
        mag_filter: FilterMode::Linear,
        min_filter: FilterMode::Linear,
        mipmap_filter: FilterMode::Nearest,
        compare_less_equal: true,
    }
}

/// Format of a colour texture: normal maps hold linear values, all others
/// sRGB colour.
pub open spec fn color_format(is_normal_map: bool) -> TextureFormat {
    if is_normal_map {
        TextureFormat::Rgba8Unorm
    } else {
        TextureFormat::Rgba8UnormSrgb
    }
}

/// The texture of one pixel with the colour `rgba`.
pub open spec fn pixel_texture(rgba: Seq<u8>, label: Option<Seq<char>>, is_normal_map: bool)
    -> TextureView {
    TextureView {
        label,
        width: 1,
        height: 1,
        format: color_format(is_normal_map),
        pixels: rgba,
        bytes_per_row: 4,
        rows_per_image: 1,
        sampler: color_sampler(),
        id: 0,
        tex_coord: 0,
    }
}

/// The texture that shows `img`, or why there is none.
pub open spec fn image_texture(img: ImageView, label: Option<Seq<char>>, is_normal_map: bool)
    -> Result<TextureView, TextureError> {
    if img.width == 0 || img.height == 0 {
        Err(TextureError::EmptyImage)
    } else if 4 * img.width > u32::MAX {
        Err(TextureError::TooWide)
    } else if img.rgba.len() != 4 * img.width * img.height {
        Err(TextureError::PixelCount)
    } else {
        Ok(
            TextureView {
                label,
                width: img.width,
                height: img.height,
                format: color_format(is_normal_map),
                pixels: img.rgba,
                bytes_per_row: (4 * img.width) as u32,
                rows_per_image: img.height,
                sampler: color_sampler(),
                id: 0,
                tex_coord: 0,
            },
        )
    }
}

/// A texture that shows an image holds the image whole: four bytes per
/// texel, row after row without gaps, as many rows as the image is high.
pub proof fn lemma_image_texture_is_whole(img: ImageView, label: Option<Seq<char>>, is_normal_map: bool)
    requires
        image_texture(img, label, is_normal_map).is_ok(),
    ensures
        ({
            let t = image_texture(img, label, is_normal_map).unwrap();
            &&& t.width >= 1 && t.height >= 1
            &&& t.bytes_per_row == 4 * t.width
            &&& t.rows_per_image == t.height
            &&& t.pixels.len() == t.bytes_per_row * t.rows_per_image
            &&& t.pixels == img.rgba
        }),
{
    let t = image_texture(img, label, is_normal_map).unwrap();
    assert(4 * img.width * img.height == (4 * img.width) * img.height) by (nonlinear_arith);
}

/// The texture that an image file gives, or why there is none.
pub open spec fn file_texture(file: TextureFile, label: Option<Seq<char>>, is_normal_map: bool)
    -> Result<TextureView, TextureError> {
    match file {
        TextureFile::Missing => Err(TextureError::NotFound),
        TextureFile::Undecodable => Err(TextureError::Decode),
        TextureFile::Decoded(img) => image_texture(img@, label, is_normal_map),
    }
}

/// The depth texture of a surface of the given size.
pub open spec fn depth_texture(width: u32, height: u32, label: Seq<char>) -> TextureView {
    TextureView {
        label: Some(label),
        width,
        height,
        format: TextureFormat::Depth32Float,
        pixels: Seq::empty(),
        bytes_per_row: 0,
        rows_per_image: 0,
        sampler: depth_sampler(),
        id: DEPTH_TEXTURE_ID,
        tex_coord: 0,
    }
}

/// Whether `r` is the outcome `expected`, textures compared by value.
pub open spec fn is_outcome(r: Result<Texture, TextureError>, expected: Result<TextureView, TextureError>)
    -> bool {
    match r {
        Ok(t) => expected == Ok::<TextureView, TextureError>(t@),
        Err(e) => expected == Err::<TextureView, TextureError>(e),
    }
}

#[verifier::external_type_specification]
#[verifier::external_body]
pub struct ExImageError(image::ImageError);

/// What `image::load_from_memory` makes of `bytes` where it decodes them,
/// brought to four 8-bit channels: width, height and pixel bytes.
pub uninterp spec fn decoded(bytes: Seq<u8>) -> Option<ImageView>;

/// What `image::load_from_memory_with_format` makes of `bytes` read as
/// `kind` where it decodes them, brought to four 8-bit channels.
pub uninterp spec fn decoded_as(bytes: Seq<u8>, kind: ImageKind) -> Option<ImageView>;

/// Calls `image::load_from_memory`, which guesses the encoding from the
/// first bytes, and converts the image with `DynamicImage::to_rgba8`.
///
/// Trusted: an image that comes out is a function of the bytes alone, and
/// holds exactly four bytes per pixel. Of an error nothing is claimed: the
/// decoder may fail for want of a thread as well as over the bytes.
#[verifier::external_body]
fn load_from_memory(bytes: &[u8]) -> (r: Result<Image, image::ImageError>)
    ensures
        r matches Ok(img) ==> decoded(bytes@) == Some(img@) && img.rgba@.len() == 4 * img.width
            * img.height,
{
    let rgba = image::load_from_memory(bytes)?.to_rgba8();
    Ok(Image { width: rgba.width(), height: rgba.height(), rgba: rgba.into_raw() })
}

/// Calls `image::load_from_memory_with_format` with the format that `kind`
/// names, and converts the image with `DynamicImage::to_rgba8`.
///
/// Trusted: an image that comes out is a function of the bytes and the
/// format alone, and holds exactly four bytes per pixel. Of an error
/// nothing is claimed.
#[verifier::external_body]
fn load_from_memory_with_format(bytes: &[u8], kind: ImageKind) -> (r: Result<
    Image,
    image::ImageError,
>)
    ensures
        r matches Ok(img) ==> decoded_as(bytes@, kind) == Some(img@) && img.rgba@.len() == 4
            * img.width * img.height,
{
    let format = match kind {
        ImageKind::Png => image::ImageFormat::Png,
        ImageKind::Jpeg => image::ImageFormat::Jpeg,
    };
    let rgba = image::load_from_memory_with_format(bytes, format)?.to_rgba8();
    Ok(Image { width: rgba.width(), height: rgba.height(), rgba: rgba.into_raw() })
}

/// Whether `r` says that the decoder gave no image.
pub open spec fn is_refusal(r: Result<Texture, TextureError>) -> bool {
    r matches Err(TextureError::Decode)
}

/// An owned copy of an optional label.
fn own_label(label: Option<&str>) -> (owned: Option<String>)
    ensures
        match owned {
            Some(l) => label.is_some() && l@ == label.unwrap()@,
            None => label.is_none(),
        },
{
    match label {
        Some(l) => Some(String::from_str(l)),
        None => None,
    }
}

/// The label as a value.
pub open spec fn label_view(label: Option<&str>) -> Option<Seq<char>> {
    match label {
        Some(l) => Some(l@),
        None => None,
    }
}

/// A copy of `src`.
fn copy_bytes(src: &Vec<u8>) -> (copy: Vec<u8>)
    ensures
        copy@ == src@,
{
    let n: usize = src.len();
    let mut copy: Vec<u8> = Vec::new();
    let mut i: usize = 0;
    while i < n
        invariant
            i <= n,
            n == src@.len(),
            copy@ == src@.subrange(0, i as int),
        decreases n - i,
    {
        copy.push(src[i]);
        i += 1;
        assert(copy@ =~= src@.subrange(0, i as int));
    }
    assert(src@.subrange(0, n as int) =~= src@);
    copy
}

impl Texture {
    /// A texture of one pixel whose colour is the first four bytes of
    /// `bytes`.
    pub fn one_pixel(bytes: &[u8], label: Option<&str>, is_normal_map: bool) -> (r: Result<
        Texture,
        TextureError,
    >)
        ensures
            is_outcome(
                r,
                if bytes@.len() < 4 {
                    Err(TextureError::ShortPixel)
                } else {
                    Ok(pixel_texture(bytes@.subrange(0, 4), label_view(label), is_normal_map))
                },
            ),
    {
        if bytes.len() < 4 {
            return Err(TextureError::ShortPixel);
        }
        let mut pixels: Vec<u8> = Vec::new();
        pixels.push(bytes[0]);
        pixels.push(bytes[1]);
        pixels.push(bytes[2]);
        pixels.push(bytes[3]);
        assert(pixels@ =~= bytes@.subrange(0, 4));
        Ok(
            Texture {
                label: own_label(label),
                width: 1,
                height: 1,
                format: if is_normal_map {
                    TextureFormat::Rgba8Unorm
                } else {
                    TextureFormat::Rgba8UnormSrgb
                },
                pixels,
                bytes_per_row: 4,
                rows_per_image: 1,
                sampler: Sampler {
                    mag_filter: FilterMode::Linear,
                    min_filter: FilterMode::Nearest,
                    mipmap_filter: FilterMode::Nearest,
                    compare_less_equal: false,
                },
                id: 0,
                tex_coord: 0,
            },
        )
    }

    /// The texture that shows a decoded image, one texel per pixel.
    pub fn from_image(img: &Image, label: Option<&str>, is_normal_map: bool) -> (r: Result<
        Texture,
        TextureError,
    >)
        ensures
            is_outcome(r, image_texture(img@, label_view(label), is_normal_map)),
    {
        if img.width == 0 || img.height == 0 {
            return Err(TextureError::EmptyImage);
        }
        if img.width > u32::MAX / 4 {
            return Err(TextureError::TooWide);
        }
        let row: u64 = 4 * (img.width as u64);
        assert(row * (img.height as u64) <= 0xffff_ffff * 0xffff_ffff) by (nonlinear_arith)
            requires
                row <= 0xffff_ffff,
                img.height <= 0xffff_ffff,
        ;
        assert(row * (img.height as u64) == 4 * img.width * img.height) by (nonlinear_arith)
            requires
                row == 4 * img.width,
        ;
        if img.rgba.len() as u64 != row * (img.height as u64) {
            return Err(TextureError::PixelCount);
        }
        Ok(
            Texture {
                label: own_label(label),
                width: img.width,
                height: img.height,
                format: if is_normal_map {
                    TextureFormat::Rgba8Unorm
                } else {
                    TextureFormat::Rgba8UnormSrgb
                },
                pixels: copy_bytes(&img.rgba),
                bytes_per_row: 4 * img.width,
                rows_per_image: img.height,
                sampler: Sampler {
                    mag_filter: FilterMode::Linear,
                    min_filter: FilterMode::Nearest,
                    mipmap_filter: FilterMode::Nearest,
                    compare_less_equal: false,
                },
                id: 0,
                tex_coord: 0,
            },
        )
    }

    /// Decodes an image held in memory, in whatever encoding its first bytes
    /// announce, and makes the texture that shows it.
    ///
    /// Where the decoder gives an image, the outcome is that of
    /// [`Texture::from_image`] on it. Where it gives none, whether over the
    /// bytes or for want of means, the outcome is `Decode`.
    pub fn from_bytes(bytes: &[u8], label: &str, is_normal_map: bool) -> (r: Result<
        Texture,
        TextureError,
    >)
        ensures
            is_refusal(r) || is_outcome(
                r,
                match decoded(bytes@) {
                    Some(img) => image_texture(img, Some(label@), is_normal_map),
                    None => Err(TextureError::Decode),
                },
            ),
    {
        match load_from_memory(bytes) {
            Ok(img) => Texture::from_image(&img, Some(label), is_normal_map),
            Err(_) => Err(TextureError::Decode),
        }
    }

    /// The depth texture for a surface of `width` by `height` pixels.
    pub fn create_depth_texture(width: u32, height: u32, label: &str) -> (texture: Texture)
        ensures
            texture@ == depth_texture(width, height, label@),
    {
        Texture {
            label: Some(String::from_str(label)),
            width,
            height,
            format: TextureFormat::Depth32Float,
            pixels: Vec::new(),
            bytes_per_row: 0,
            rows_per_image: 0,
            sampler: Sampler {
                mag_filter: FilterMode::Linear,
                min_filter: FilterMode::Linear,
                mipmap_filter: FilterMode::Nearest,
                compare_less_equal: true,
            },
            id: DEPTH_TEXTURE_ID,
            tex_coord: 0,
        }
    }

    /// The texture that the image file at `path` gives; the path is its
    /// label.
    pub fn load(path: &str, file: &TextureFile, is_normal_map: bool) -> (r: Result<
        Texture,
        TextureError,
    >)
        ensures
            is_outcome(r, file_texture(*file, Some(path@), is_normal_map)),
    {
        match file {
            TextureFile::Missing => Err(TextureError::NotFound),
            TextureFile::Undecodable => Err(TextureError::Decode),
            TextureFile::Decoded(img) => Texture::from_image(img, Some(path), is_normal_map),
        }
    }

    /// The texture of one of the three images that come with the house
    /// model, picked by its file name; `path` is its label. Where the decoder
    /// gives no image, the outcome is `Decode`.
    pub fn load_house(path: &str, file_name: &str, assets: &HouseAssets, is_normal_map: bool) -> (r:
        Result<Texture, TextureError>)
        ensures
            is_refusal(r) && house_asset(file_name@, *assets).is_some() || is_outcome(
                r,
                match house_asset(file_name@, *assets) {
                    None => Err(TextureError::UnknownAsset),
                    Some(bytes) => match decoded_as(bytes, ImageKind::Png) {
                        Some(img) => image_texture(img, Some(path@), is_normal_map),
                        None => Err(TextureError::Decode),
                    },
                },
            ),
    {
        let bytes: &Vec<u8> = if text_eq(file_name, "house-Alpha.png") {
            &assets.alpha
        } else if text_eq(file_name, "house-RGB.png") {
            &assets.rgb
        } else if text_eq(file_name, "house-RGBA.png") {
            &assets.rgba
        } else {
            return Err(TextureError::UnknownAsset);
        };
        match load_from_memory_with_format(bytes.as_slice(), ImageKind::Png) {
            Ok(img) => Texture::from_image(&img, Some(path), is_normal_map),
            Err(_) => Err(TextureError::Decode),
        }
    }

    /// The texture that a glTF material refers to.
    ///
    /// An image embedded in a buffer is cut out of `buffers` and decoded
    /// according to its media type; an image in a file of its own comes
    /// decoded. The sampler's filters carry over, mip-mapped minification
    /// becoming nearest. Where the decoder is asked and gives no image, the
    /// outcome is `Decode`.
    pub fn load_gltf(info: &GltfTextureInfo, buffers: &Vec<Vec<u8>>) -> (r: Result<
        Texture,
        TextureError,
    >)
        ensures
            is_refusal(r) && gltf_cut(*info, buffers@).is_some() || is_outcome(
                r,
                gltf_texture(*info, buffers@),
            ),
    {
        if info.index > 0xffff_ffff {
            return Err(TextureError::IndexTooLarge);
        }
        let id: u32 = info.index as u32;
        let made = match &info.source {
            GltfImageSource::View { buffer, offset, length, name, mime_type } => {
                if *buffer >= buffers.len() {
                    return Err(TextureError::NoSuchBuffer);
                }
                let data: &Vec<u8> = &buffers[*buffer];
                if *offset > data.len() || *length > data.len() - *offset {
                    return Err(TextureError::RangeOutOfBuffer);
                }
                let kind = if text_eq(mime_type.as_str(), "image/jpeg") {
                    ImageKind::Jpeg
                } else if text_eq(mime_type.as_str(), "image/png") {
                    ImageKind::Png
                } else {
                    return Err(TextureError::UnknownMediaType);
                };
                let cut = slice_subrange(data.as_slice(), *offset, *offset + *length);
                match load_from_memory_with_format(cut, kind) {
                    Ok(img) => {
                        match name {
                            Some(n) => Texture::from_image(&img, Some(n.as_str()), false),
                            None => Texture::from_image(&img, None, false),
                        }
                    },
                    Err(_) => Err(TextureError::Decode),
                }
            },
            GltfImageSource::Uri { path, file } => Texture::load(path.as_str(), file, false),
        };
        let mut texture = match made {
            Ok(t) => t,
            Err(e) => {
                return Err(e);
            },
        };
        let mag_filter = match info.mag_filter {
            Some(MagFilter::Linear) => FilterMode::Linear,
            Some(MagFilter::Nearest) => FilterMode::Nearest,
            None => {
                return Err(TextureError::NoFilter);
            },
        };
        let min_filter = match info.min_filter {
            Some(MinFilter::Linear) => FilterMode::Linear,
            Some(_) => FilterMode::Nearest,
            None => {
                return Err(TextureError::NoFilter);
            },
        };
        texture.sampler = Sampler {
            mag_filter,
            min_filter,
            mipmap_filter: FilterMode::Nearest,
            compare_less_equal: false,
        };
        texture.id = id;
        texture.tex_coord = info.tex_coord;
        Ok(texture)
    }
}

/// The three images that come with the house model, as PNG files.
#[derive(Debug)]
pub struct HouseAssets {
    /// Content of `house-Alpha.png`.
    pub alpha: Vec<u8>,
    /// Content of `house-RGB.png`.
    pub rgb: Vec<u8>,
    /// Content of `house-RGBA.png`.
    pub rgba: Vec<u8>,
}

/// The built-in image that goes by `file_name`.
pub open spec fn house_asset(file_name: Seq<char>, assets: HouseAssets) -> Option<Seq<u8>> {
    if file_name == "house-Alpha.png"@ {
        Some(assets.alpha@)
    } else if file_name == "house-RGB.png"@ {
        Some(assets.rgb@)
    } else if file_name == "house-RGBA.png"@ {
        Some(assets.rgba@)
    } else {
        None
    }
}

/// Magnification filter of a glTF sampler.
#[derive(Clone, Copy, Debug, PartialEq, Eq)]
pub enum MagFilter {
    Nearest,
    Linear,
}

/// Minification filter of a glTF sampler.
#[derive(Clone, Copy, Debug, PartialEq, Eq)]
pub enum MinFilter {
    Nearest,
    Linear,
    NearestMipmapNearest,
    LinearMipmapNearest,
    NearestMipmapLinear,
    LinearMipmapLinear,
}

/// Where a glTF image is found.
#[derive(Debug)]
pub enum GltfImageSource {
    /// In `length` bytes at `offset` of the buffer with index `buffer`.
    View { buffer: usize, offset: usize, length: usize, name: Option<String>, mime_type: String },
    /// In a file of its own, at `path`.
    Uri { path: String, file: TextureFile },
}

/// What a glTF material says of one of its textures.
#[derive(Debug)]
pub struct GltfTextureInfo {
    /// Index of the texture in its document.
    pub index: usize,
    /// Which set of texture coordinates the texture is looked up with.
    pub tex_coord: u32,
    pub source: GltfImageSource,
    pub mag_filter: Option<MagFilter>,
    pub min_filter: Option<MinFilter>,
}

/// The encoding that a media type names.
pub open spec fn media_kind(mime_type: Seq<char>) -> Option<ImageKind> {
    if mime_type == "image/jpeg"@ {
        Some(ImageKind::Jpeg)
    } else if mime_type == "image/png"@ {
        Some(ImageKind::Png)
    } else {
        None
    }
}

/// The bytes that the decoder is asked to read for a glTF texture, and the
/// encoding to read them as: those of an image that lies in a buffer, if
/// the texture and the place of its image are sound.
pub open spec fn gltf_cut(info: GltfTextureInfo, buffers: Seq<Vec<u8>>) -> Option<
    (Seq<u8>, ImageKind),
> {
    match info.source {
        GltfImageSource::View { buffer, offset, length, name, mime_type } => {
            if info.index > u32::MAX || buffer >= buffers.len() || offset + length
                > buffers[buffer as int]@.len() {
                None
            } else {
                match media_kind(mime_type@) {
                    None => None,
                    Some(kind) => Some(
                        (buffers[buffer as int]@.subrange(offset as int, offset + length), kind),
                    ),
                }
            }
        },
        GltfImageSource::Uri { path, file } => None,
    }
}

/// The image of a glTF texture as a texture with default sampling, or why
/// there is none.
pub open spec fn gltf_image(source: GltfImageSource, buffers: Seq<Vec<u8>>) -> Result<
    TextureView,
    TextureError,
> {
    match source {
        GltfImageSource::View { buffer, offset, length, name, mime_type } => {
            if buffer >= buffers.len() {
                Err(TextureError::NoSuchBuffer)
            } else if offset + length > buffers[buffer as int]@.len() {
                Err(TextureError::RangeOutOfBuffer)
            } else {
                match media_kind(mime_type@) {
                    None => Err(TextureError::UnknownMediaType),
                    Some(kind) => match decoded_as(
                        buffers[buffer as int]@.subrange(offset as int, offset + length),
                        kind,
                    ) {
                        None => Err(TextureError::Decode),
                        Some(img) => image_texture(
                            img,
                            match name {
                                Some(n) => Some(n@),
                                None => None,
                            },
                            false,
                        ),
                    },
                }
            }
        },
        GltfImageSource::Uri { path, file } => file_texture(file, Some(path@), false),
    }
}

/// The texture filter that stands for a glTF minification filter.
pub open spec fn min_filter_mode(filter: MinFilter) -> FilterMode {
    match filter {
        MinFilter::Linear => FilterMode::Linear,
        _ => FilterMode::Nearest,
    }
}

/// The texture filter that stands for a glTF magnification filter.
pub open spec fn mag_filter_mode(filter: MagFilter) -> FilterMode {
    match filter {
        MagFilter::Linear => FilterMode::Linear,
        MagFilter::Nearest => FilterMode::Nearest,
    }
}

/// What [`Texture::load_gltf`] returns.
pub open spec fn gltf_texture(info: GltfTextureInfo, buffers: Seq<Vec<u8>>) -> Result<
    TextureView,
    TextureError,
> {
    if info.index > u32::MAX {
        Err(TextureError::IndexTooLarge)
    } else {
        match gltf_image(info.source, buffers) {
            Err(e) => Err(e),
            Ok(t) => if info.mag_filter.is_none() || info.min_filter.is_none() {
                Err(TextureError::NoFilter)
            } else {
                Ok(
                    TextureView {
                        sampler: Sampler {
                            mag_filter: mag_filter_mode(info.mag_filter.unwrap()),
                            min_filter: min_filter_mode(info.min_filter.unwrap()),
                            mipmap_filter: FilterMode::Nearest,
                            compare_less_equal: false,
                        },
                        id: info.index as u32,
                        tex_coord: info.tex_coord,
                        ..t
                    },
                )
            },
        }
    }
}

} // verus!
