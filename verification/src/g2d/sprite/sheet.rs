use crate::g2d::gpu::AddressMode;
use crate::g2d::gpu::FilterMode;
use crate::g2d::gpu::SamplerDesc;
use crate::g2d::gpu::TextureFormat;
use std::rc::Rc;
use vstd::prelude::*;

verus! {

/// A decoded image: `width` by `height` pixels, four bytes each (red, green,
/// blue, alpha), rows from the top, no padding between rows.
#[derive(Clone, Debug, PartialEq, Eq)]
pub struct Raster {
    pub width: u32,
    pub height: u32,
    pub pixels: Vec<u8>,
}

/// Why a raster cannot become a sprite sheet.
#[derive(Clone, Copy, Debug, PartialEq, Eq, Structural)]
pub enum SheetError {
    /// A row of the image takes more bytes than a copy command can count.
    TooWide,
    /// The raster holds fewer pixels than its width and height call for.
    Truncated,
}

/// Whether a raster of this shape can be a sheet, and if not, why not.
pub open spec fn raster_fault(width: u32, height: u32, pixels: Seq<u8>) -> Option<SheetError> {
    if 4 * width > u32::MAX {
        Some(SheetError::TooWide)
    } else if 4 * width * height > pixels.len() {
        Some(SheetError::Truncated)
    } else {
        None
    }
}

/// The copy that brings a sheet's pixels into its texture, and the texture
/// and sampler to create for it.
#[derive(Clone, Copy, Debug, PartialEq, Eq, Structural)]
pub struct TextureUpload {
    pub width: u32,
    pub height: u32,
    pub depth: u32,
    pub bytes_per_row: u32,
    pub rows_per_image: u32,
    pub array_layer_count: u32,
    pub mip_level_count: u32,
    pub sample_count: u32,
    pub format: TextureFormat,
    pub sampler: SamplerDesc,
}

/// The bit pattern of `-100.0`.
pub const LOD_MIN_CLAMP: u32 = 0xc2c8_0000;

/// The bit pattern of `100.0`.
pub const LOD_MAX_CLAMP: u32 = 0x42c8_0000;

/// The sampler of every sheet: coordinates clamp to the edge, magnified
/// texels blend, minified texels do not.
pub open spec fn sheet_sampler() -> SamplerDesc {
    SamplerDesc {
        address_mode_u: AddressMode::ClampToEdge,
        address_mode_v: AddressMode::ClampToEdge,
        address_mode_w: AddressMode::ClampToEdge,
        mag_filter: FilterMode::Linear,
        min_filter: FilterMode::Nearest,
        mipmap_filter: FilterMode::Nearest,
        lod_min_clamp: LOD_MIN_CLAMP,
        lod_max_clamp: LOD_MAX_CLAMP,
    }
}

/// One loaded image that sprites are cut from. It does not change once made.
#[derive(Debug, PartialEq, Eq)]
pub struct SpriteSheet {
    width: u32,
    height: u32,
    pixels: Vec<u8>,
}

impl SpriteSheet {
    pub closed spec fn spec_width(&self) -> u32 {
        self.width
    }

    pub closed spec fn spec_height(&self) -> u32 {
        self.height
    }

    /// The texture's contents, row by row from the top, four bytes a pixel.
    pub closed spec fn spec_pixels(&self) -> Seq<u8> {
        self.pixels@
    }

    /// The sheet holds a whole image and its rows can be counted in bytes.
    pub open spec fn wf(&self) -> bool {
        raster_fault(self.spec_width(), self.spec_height(), self.spec_pixels()) is None
    }

    #[verifier::type_invariant]
    spec fn holds_whole_image(&self) -> bool {
        self.wf()
    }

    /// A sheet of the pixels of `raster`.
    pub fn from_raster(raster: Raster) -> (r: Result<Rc<SpriteSheet>, SheetError>)
        ensures
            match r {
                Ok(sheet) => {
                    &&& raster_fault(raster.width, raster.height, raster.pixels@) is None
                    &&& sheet.spec_width() == raster.width
                    &&& sheet.spec_height() == raster.height
                    &&& sheet.spec_pixels() == raster.pixels@
                    &&& sheet.wf()
                },
                Err(e) => raster_fault(raster.width, raster.height, raster.pixels@) == Some(e),
            },
    {
        if raster.width > u32::MAX / 4 {
            return Err(SheetError::TooWide);
        }
        let row: u64 = 4 * (raster.width as u64);
        assert(row * raster.height <= 0x4_0000_0000 * 0x1_0000_0000) by (nonlinear_arith)
            requires
                row <= 0x4_0000_0000,
                raster.height <= 0x1_0000_0000,
        ;
        let need: u128 = (row as u128) * (raster.height as u128);
        assert(need == 4 * raster.width * raster.height) by (nonlinear_arith)
            requires
                row == 4 * raster.width,
                need == row * raster.height,
        ;
        if need > raster.pixels.len() as u128 {
            return Err(SheetError::Truncated);
        }
        Ok(Rc::new(SpriteSheet { width: raster.width, height: raster.height, pixels: raster.pixels }))
    }

    pub fn width(&self) -> (r: u32)
        ensures
            r == self.spec_width(),
    {
        self.width
    }

    pub fn height(&self) -> (r: u32)
        ensures
            r == self.spec_height(),
    {
        self.height
    }

    pub fn pixels(&self) -> (r: &[u8])
        ensures
            r@ == self.spec_pixels(),
    {
        self.pixels.as_slice()
    }

    /// The texture, the sampler and the one copy that put this sheet on the
    /// GPU: a texture of exactly the image's size, filled from a buffer of
    /// the pixels whose rows are `4 * width` bytes apart.
    pub fn upload(&self) -> (r: TextureUpload)
        ensures
            self.wf(),
            r == (TextureUpload {
                width: self.spec_width(),
                height: self.spec_height(),
                depth: 1,
                bytes_per_row: (4 * self.spec_width()) as u32,
                rows_per_image: self.spec_height(),
                array_layer_count: 1,
                mip_level_count: 1,
                sample_count: 1,
                format: TextureFormat::Rgba8UnormSrgb,
                sampler: sheet_sampler(),
            }),
            r.bytes_per_row * r.rows_per_image <= self.spec_pixels().len(),
    {
        proof {
            use_type_invariant(self);
        }
        TextureUpload {
            width: self.width,
            height: self.height,
            depth: 1,
            bytes_per_row: 4 * self.width,
            rows_per_image: self.height,
            array_layer_count: 1,
            mip_level_count: 1,
            sample_count: 1,
            format: TextureFormat::Rgba8UnormSrgb,
            sampler: SamplerDesc {
                address_mode_u: AddressMode::ClampToEdge,
                address_mode_v: AddressMode::ClampToEdge,
                address_mode_w: AddressMode::ClampToEdge,
                mag_filter: FilterMode::Linear,
                min_filter: FilterMode::Nearest,
                mipmap_filter: FilterMode::Nearest,
                lod_min_clamp: LOD_MIN_CLAMP,
                lod_max_clamp: LOD_MAX_CLAMP,
            },
        }
    }
}

} // verus!
