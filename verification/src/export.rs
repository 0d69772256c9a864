use crate::error::SvgError;
use vstd::prelude::*;

verus! {

/// The raster formats an image can be exported to.
#[derive(Clone, Copy, Debug, PartialEq, Eq, Structural)]
pub enum ExportFormat {
    Png,
    Jpeg,
    Bmp,
    Tiff,
    WebP,
}

impl ExportFormat {
    /// The file extension of the format, without a dot.
    pub open spec fn extension_spec(self) -> Seq<char> {
        match self {
            ExportFormat::Png => "png"@,
            ExportFormat::Jpeg => "jpg"@,
            ExportFormat::Bmp => "bmp"@,
            ExportFormat::Tiff => "tiff"@,
            ExportFormat::WebP => "webp"@,
        }
    }

    /// Whether the format can store an alpha channel.
    pub open spec fn supports_alpha_spec(self) -> bool {
        self == ExportFormat::Png || self == ExportFormat::Tiff || self == ExportFormat::WebP
    }

    /// The name of the format as shown to the user.
    pub open spec fn name_spec(self) -> Seq<char> {
        match self {
            ExportFormat::Png => "PNG"@,
            ExportFormat::Jpeg => "JPEG"@,
            ExportFormat::Bmp => "BMP"@,
            ExportFormat::Tiff => "TIFF"@,
            ExportFormat::WebP => "WebP"@,
        }
    }

    /// Every format, in the order in which they are offered.
    pub open spec fn all_spec() -> Seq<ExportFormat> {
        seq![
            ExportFormat::Png,
            ExportFormat::Jpeg,
            ExportFormat::Bmp,
            ExportFormat::Tiff,
            ExportFormat::WebP,
        ]
    }

    pub fn extension(&self) -> (ext: &'static str)
        ensures
            ext@ == self.extension_spec(),
    {
        match self {
            ExportFormat::Png => "png",
            ExportFormat::Jpeg => "jpg",
            ExportFormat::Bmp => "bmp",
            ExportFormat::Tiff => "tiff",
            ExportFormat::WebP => "webp",
        }
    }

    pub fn supports_alpha(&self) -> (yes: bool)
        ensures
            yes == self.supports_alpha_spec(),
    {
        match self {
            ExportFormat::Png => true,
            ExportFormat::Tiff => true,
            ExportFormat::WebP => true,
            ExportFormat::Jpeg => false,
            ExportFormat::Bmp => false,
        }
    }

    pub fn all() -> (formats: [ExportFormat; 5])
        ensures
            formats@ == Self::all_spec(),
    {
        let formats = [
            ExportFormat::Png,
            ExportFormat::Jpeg,
            ExportFormat::Bmp,
            ExportFormat::Tiff,
            ExportFormat::WebP,
        ];
        assert(formats@ =~= Self::all_spec());
        formats
    }

    pub fn name(&self) -> (name: &'static str)
        ensures
            name@ == self.name_spec(),
    {
        match self {
            ExportFormat::Png => "PNG",
            ExportFormat::Jpeg => "JPEG",
            ExportFormat::Bmp => "BMP",
            ExportFormat::Tiff => "TIFF",
            ExportFormat::WebP => "WebP",
        }
    }
}

/// What the user chose for one export.
#[derive(Clone, Copy, Debug)]
pub struct ExportSettings {
    pub format: ExportFormat,
    pub width: u32,
    pub height: u32,
    /// Keep transparency, where the format can store it.
    pub include_alpha: bool,
    /// Passed to the JPEG encoder; no other format reads it.
    pub jpeg_quality: u8,
    /// Shown through transparent pixels when the alpha channel is dropped.
    pub background_color: [u8; 3],
}

impl ExportSettings {
    /// Whether an export with these settings keeps its alpha channel: the
    /// user asked for it and the format can store it.
    pub open spec fn keeps_alpha(self) -> bool {
        self.include_alpha && self.format.supports_alpha_spec()
    }

    /// Chooses the format. A format without alpha also switches the
    /// transparency off, and it stays off until the user asks for it again.
    pub fn select_format(&mut self, format: ExportFormat)
        ensures
            *final(self) == (ExportSettings {
                format,
                include_alpha: old(self).include_alpha && format.supports_alpha_spec(),
                ..*old(self)
            }),
    {
        self.format = format;
        if !format.supports_alpha() {
            self.include_alpha = false;
        }
    }
}

impl Default for ExportSettings {
    fn default() -> (settings: Self)
        ensures
            settings.format == ExportFormat::Png,
            settings.width == 800,
            settings.height == 600,
            settings.include_alpha,
            settings.jpeg_quality == 90,
            settings.background_color@ == seq![255u8, 255u8, 255u8],
    {
        let white: [u8; 3] = [255, 255, 255];
        assert(white@ =~= seq![255u8, 255u8, 255u8]);
        ExportSettings {
            format: ExportFormat::Png,
            width: 800,
            height: 600,
            include_alpha: true,
            jpeg_quality: 90,
            background_color: white,
        }
    }
}

/// One colour channel with the premultiplication by `alpha` undone:
/// `channel / (alpha / 255)`, rounded to the nearest integer (halves go up)
/// and capped at 255. With `alpha == 0` the channel is 0.
pub open spec fn unpremultiplied_channel(channel: u8, alpha: u8) -> int {
    if alpha == 0 {
        0
    } else {
        let rounded = (2 * 255 * channel + alpha) / (2 * alpha);
        if rounded > 255 {
            255
        } else {
            rounded
        }
    }
}

/// Premultiplied RGBA bytes with the premultiplication undone, pixel by
/// pixel. Alpha is kept; a pixel with alpha 0 becomes transparent black.
/// Bytes after the last whole pixel are dropped.
pub open spec fn unpremultiplied(data: Seq<u8>) -> Seq<u8> {
    Seq::new(
        (data.len() / 4 * 4) as nat,
        |i: int|
            if i % 4 == 3 {
                data[i]
            } else {
                unpremultiplied_channel(data[i], data[i - i % 4 + 3]) as u8
            },
    )
}

/// One premultiplied colour channel laid over the background channel `bg`:
/// `channel + bg * (1 - alpha / 255)`, rounded to the nearest integer and
/// capped at 255.
pub open spec fn composited_channel(channel: u8, alpha: u8, bg: u8) -> int {
    let rounded = (2 * (255 * channel + bg * (255 - alpha)) + 255) / 510;
    if rounded > 255 {
        255
    } else {
        rounded
    }
}

/// Premultiplied RGBA bytes laid over the solid colour `bg`, three bytes per
/// pixel. Bytes after the last whole pixel are dropped.
pub open spec fn composited(data: Seq<u8>, bg: Seq<u8>) -> Seq<u8> {
    Seq::new(
        (data.len() / 4 * 3) as nat,
        |i: int| composited_channel(data[i / 3 * 4 + i % 3], data[i / 3 * 4 + 3], bg[i % 3]) as u8,
    )
}

fn un_premultiply_channel(channel: u8, alpha: u8) -> (out: u8)
    requires
        alpha > 0,
    ensures
        out == unpremultiplied_channel(channel, alpha),
{
    let doubled: u32 = 510 * (channel as u32) + (alpha as u32);
    let rounded: u32 = doubled / (2 * (alpha as u32));
    if rounded > 255 {
        255
    } else {
        rounded as u8
    }
}

fn composite_channel(channel: u8, alpha: u8, bg: u8) -> (out: u8)
    ensures
        out == composited_channel(channel, alpha, bg),
{
    let rest: u32 = 255 - (alpha as u32);
    assert(bg * rest <= 255 * 255) by (nonlinear_arith)
        requires
            0 <= bg <= 255,
            0 <= rest <= 255,
    ;
    let weighted: u32 = 255 * (channel as u32) + (bg as u32) * rest;
    let rounded: u32 = (2 * weighted + 255) / 510;
    if rounded > 255 {
        255
    } else {
        rounded as u8
    }
}

/// Undoes the premultiplication of RGBA pixel data.
pub fn un_premultiply_alpha(data: &[u8]) -> (result: Vec<u8>)
    ensures
        result@ == unpremultiplied(data@),
{
    let pixels: usize = data.len() / 4;
    let mut result: Vec<u8> = Vec::new();
    let mut p: usize = 0;
    while p < pixels
        invariant
            pixels == data@.len() / 4,
            4 * pixels <= data@.len() <= usize::MAX,
            p <= pixels,
            result@.len() == 4 * p,
            forall|k: int| 0 <= k < 4 * p ==> result@[k] == unpremultiplied(data@)[k],
        decreases pixels - p,
    {
        let base: usize = 4 * p;
        let alpha: u8 = data[base + 3];
        if alpha > 0 {
            result.push(un_premultiply_channel(data[base], alpha));
            result.push(un_premultiply_channel(data[base + 1], alpha));
            result.push(un_premultiply_channel(data[base + 2], alpha));
            result.push(alpha);
        } else {
            result.push(0);
            result.push(0);
            result.push(0);
            result.push(0);
        }
        p += 1;
    }
    assert(result@ =~= unpremultiplied(data@));
    result
}

/// Lays premultiplied RGBA pixel data over a solid background, which leaves
/// RGB.
pub fn composite_over_background(data: &[u8], bg: [u8; 3]) -> (result: Vec<u8>)
    ensures
        result@ == composited(data@, bg@),
{
    let pixels: usize = data.len() / 4;
    let mut result: Vec<u8> = Vec::new();
    let mut p: usize = 0;
    while p < pixels
        invariant
            pixels == data@.len() / 4,
            4 * pixels <= data@.len() <= usize::MAX,
            p <= pixels,
            result@.len() == 3 * p,
            forall|k: int| 0 <= k < 3 * p ==> result@[k] == composited(data@, bg@)[k],
        decreases pixels - p,
    {
        let base: usize = 4 * p;
        let alpha: u8 = data[base + 3];
        result.push(composite_channel(data[base], alpha, bg[0]));
        result.push(composite_channel(data[base + 1], alpha, bg[1]));
        result.push(composite_channel(data[base + 2], alpha, bg[2]));
        p += 1;
    }
    assert(result@ =~= composited(data@, bg@));
    result
}


/// How the bytes handed to an encoder are laid out.
#[derive(Clone, Copy, Debug, PartialEq, Eq, Structural)]
pub enum PixelLayout {
    /// Four bytes per pixel, alpha not premultiplied.
    Rgba,
    /// Three bytes per pixel, no alpha.
    Rgb,
}

impl PixelLayout {
    pub open spec fn channels_spec(self) -> nat {
        match self {
            PixelLayout::Rgba => 4,
            PixelLayout::Rgb => 3,
        }
    }

    /// Bytes per pixel.
    pub fn channels(&self) -> (count: u8)
        ensures
            count == self.channels_spec(),
    {
        match self {
            PixelLayout::Rgba => 4,
            PixelLayout::Rgb => 3,
        }
    }

    /// The detail of the export error for a buffer that cannot hold an image
    /// of this layout.
    pub open spec fn failure_text(self) -> Seq<char> {
        match self {
            PixelLayout::Rgba => "Failed to create RGBA image"@,
            PixelLayout::Rgb => "Failed to create RGB image"@,
        }
    }
}

/// Which encoder writes the file.
#[derive(Clone, Copy, Debug, PartialEq, Eq, Structural)]
pub enum Encoder {
    /// The encoder that the output path's extension selects.
    ByExtension,
    /// The JPEG encoder, with this quality.
    JpegQuality(u8),
}

/// Pixels ready to be encoded, and how.
#[derive(Debug)]
pub struct EncodeJob {
    pub layout: PixelLayout,
    pub encoder: Encoder,
    pub width: u32,
    pub height: u32,
    pub pixels: Vec<u8>,
}

/// The layout in which an export with these settings is encoded.
pub open spec fn planned_layout(settings: ExportSettings) -> PixelLayout {
    if settings.keeps_alpha() {
        PixelLayout::Rgba
    } else {
        PixelLayout::Rgb
    }
}

/// The bytes handed to the encoder: the alpha channel is either restored to
/// straight alpha or flattened onto the background colour.
pub open spec fn planned_pixels(data: Seq<u8>, settings: ExportSettings) -> Seq<u8> {
    if settings.keeps_alpha() {
        unpremultiplied(data)
    } else {
        composited(data, settings.background_color@)
    }
}

/// Only JPEG takes a quality; every other format is written by the encoder
/// that its extension selects.
pub open spec fn planned_encoder(settings: ExportSettings) -> Encoder {
    if settings.format == ExportFormat::Jpeg {
        Encoder::JpegQuality(settings.jpeg_quality)
    } else {
        Encoder::ByExtension
    }
}

/// Whether `len` bytes hold an image of the given size and layout.
pub open spec fn buffer_fits(width: u32, height: u32, layout: PixelLayout, len: nat) -> bool {
    layout.channels_spec() * width * height <= len
}

fn check_buffer_fits(width: u32, height: u32, layout: PixelLayout, len: usize) -> (fits: bool)
    ensures
        fits == buffer_fits(width, height, layout, len as nat),
{
    let channels: u128 = layout.channels() as u128;
    assert(channels * width <= 4 * 0xffff_ffff) by (nonlinear_arith)
        requires
            0 <= channels <= 4,
            0 <= width <= 0xffff_ffff,
    ;
    let row: u128 = channels * (width as u128);
    assert(row * height <= 4 * 0xffff_ffff * 0xffff_ffff) by (nonlinear_arith)
        requires
            0 <= row <= 4 * 0xffff_ffff,
            0 <= height <= 0xffff_ffff,
    ;
    row * (height as u128) <= len as u128
}

/// Turns rasterized pixels (premultiplied RGBA, `width` by `height`) into
/// what the encoder for `settings.format` takes.
///
/// The alpha channel is kept only where the user asked for it and the format
/// can store it; otherwise the pixels are flattened onto the background
/// colour. Fails with an export error exactly when the converted pixels are
/// too few for the image size.
pub fn plan_export(data: &[u8], width: u32, height: u32, settings: &ExportSettings) -> (result:
    Result<EncodeJob, SvgError>)
    ensures
        match result {
            Ok(job) => {
                &&& buffer_fits(
                    width,
                    height,
                    planned_layout(*settings),
                    planned_pixels(data@, *settings).len(),
                )
                &&& job.layout == planned_layout(*settings)
                &&& job.encoder == planned_encoder(*settings)
                &&& job.width == width
                &&& job.height == height
                &&& job.pixels@ == planned_pixels(data@, *settings)
            },
            Err(error) => {
                &&& !buffer_fits(
                    width,
                    height,
                    planned_layout(*settings),
                    planned_pixels(data@, *settings).len(),
                )
                &&& error matches SvgError::Export(detail)
                &&& detail@ == planned_layout(*settings).failure_text()
            },
        },
{
    let keep_alpha = settings.include_alpha && settings.format.supports_alpha();
    let layout = if keep_alpha {
        PixelLayout::Rgba
    } else {
        PixelLayout::Rgb
    };
    let pixels = if keep_alpha {
        un_premultiply_alpha(data)
    } else {
        composite_over_background(data, settings.background_color)
    };
    if !check_buffer_fits(width, height, layout, pixels.len()) {
        let detail = match layout {
            PixelLayout::Rgba => String::from_str("Failed to create RGBA image"),
            PixelLayout::Rgb => String::from_str("Failed to create RGB image"),
        };
        return Err(SvgError::Export(detail));
    }
    let encoder = match settings.format {
        ExportFormat::Jpeg => Encoder::JpegQuality(settings.jpeg_quality),
        _ => Encoder::ByExtension,
    };
    Ok(EncodeJob { layout, encoder, width, height, pixels })
}


/// The file name offered for an export: the stem of the document's name, a
/// dot and the extension of the format.
pub fn default_export_name(stem: &str, format: ExportFormat) -> (name: String)
    ensures
        name@ == stem@ + "."@ + format.extension_spec(),
{
    String::from_str(stem).concat(".").concat(format.extension())
}


} // verus!
