//! Handles of textures that live on the device.

use vstd::prelude::*;
use crate::vertex::ONE;

verus! {

/// Names a texture on the device, with the sampler and the binding set made
/// for it. Two handles name the same texture when they are equal.
#[derive(Clone, Copy, Debug, PartialEq, Eq, Structural)]
pub struct Texture {
    pub id: u64,
    pub width: u32,
    pub height: u32,
}

/// Texture creation or update error.
#[derive(Clone, Copy, Debug, PartialEq, Eq, Structural)]
pub enum TextureError {
    /// The texture has no texels: no device texture has a side of zero.
    Invalid,
    /// A row of texels takes more bytes than a row length can say.
    TooLarge,
    /// The region to write does not lie inside the texture.
    OutOfBounds,
    /// The memory holds fewer bytes than the region to write has.
    TooShort,
}

/// What a sampler does with coordinates outside the texture.
#[derive(Clone, Copy, Debug, PartialEq, Eq, Structural)]
pub enum Wrap {
    Repeat,
    MirroredRepeat,
    ClampToEdge,
    ClampToBorder,
}

/// How a sampler picks a color between texels.
#[derive(Clone, Copy, Debug, PartialEq, Eq, Structural)]
pub enum Filter {
    Linear,
    Nearest,
}

/// How a texture is to be sampled. The border color holds the bit
/// patterns of red, green, blue and alpha.
#[derive(Clone, Copy, Debug, PartialEq, Eq)]
pub struct TextureSettings {
    pub min: Filter,
    pub mag: Filter,
    pub mipmap: Filter,
    pub wrap_u: Wrap,
    pub wrap_v: Wrap,
    pub border_color: [u32; 4],
}

/// Addressing of one coordinate of a sampler.
#[derive(Clone, Copy, Debug, PartialEq, Eq, Structural)]
pub enum AddressMode {
    ClampToEdge,
    Repeat,
    MirrorRepeat,
    ClampToBorder,
}

/// Filtering of a sampler.
#[derive(Clone, Copy, Debug, PartialEq, Eq, Structural)]
pub enum FilterMode {
    Nearest,
    Linear,
}

/// The border colors a sampler can have.
#[derive(Clone, Copy, Debug, PartialEq, Eq, Structural)]
pub enum SamplerBorderColor {
    TransparentBlack,
    OpaqueBlack,
    OpaqueWhite,
}

/// What the sampler of a texture is made from.
#[derive(Clone, Copy, Debug, PartialEq, Eq, Structural)]
pub struct SamplerDescriptor {
    pub address_mode_u: AddressMode,
    pub address_mode_v: AddressMode,
    pub address_mode_w: AddressMode,
    pub mag_filter: FilterMode,
    pub min_filter: FilterMode,
    pub mipmap_filter: FilterMode,
    pub border_color: Option<SamplerBorderColor>,
}

/// One write of tightly packed 8-bit RGBA texels into a texture.
#[derive(Clone, Copy, Debug, PartialEq, Eq, Structural)]
pub struct TextureWrite {
    /// The texel the region starts at.
    pub x: u32,
    pub y: u32,
    /// The extent of the region.
    pub width: u32,
    pub height: u32,
    /// Bytes from one row of the region to the next in memory.
    pub bytes_per_row: u32,
    /// Rows of the region in memory.
    pub rows_per_image: u32,
}

/// What a texture is created from: its handle, the write that fills it,
/// and its sampler.
#[derive(Clone, Copy, Debug, PartialEq, Eq, Structural)]
pub struct TextureCreation {
    pub texture: Texture,
    pub write: TextureWrite,
    pub sampler: SamplerDescriptor,
}

/// Bytes of one texel.
pub const BYTES_PER_TEXEL: u32 = 4;

/// Bit pattern of the number zero with the sign bit set.
pub const MINUS_ZERO: u32 = 0x8000_0000;

impl Texture {
    /// The handle of the texture `id`, `width` by `height` texels.
    pub open spec fn spec_new(id: u64, width: u32, height: u32) -> Texture {
        Texture { id, width, height }
    }

    /// Whether the handle can name a device texture: both sides are at
    /// least one texel long.
    pub open spec fn spec_is_valid(&self) -> bool {
        self.width > 0 && self.height > 0
    }

    /// Width and height in texels.
    pub open spec fn spec_get_size(&self) -> (u32, u32) {
        (self.width, self.height)
    }

    /// The handle of the texture `id`, `width` by `height` texels.
    #[verifier::when_used_as_spec(spec_new)]
    pub fn new(id: u64, width: u32, height: u32) -> (t: Texture)
        ensures
            t == Texture::spec_new(id, width, height),
    {
        Texture { id, width, height }
    }

    /// Whether the handle can name a device texture: both sides are at
    /// least one texel long.
    #[verifier::when_used_as_spec(spec_is_valid)]
    pub fn is_valid(&self) -> (b: bool)
        ensures
            b == self.spec_is_valid(),
    {
        self.width > 0 && self.height > 0
    }

    /// Width and height in texels.
    #[verifier::when_used_as_spec(spec_get_size)]
    pub fn get_size(&self) -> (size: (u32, u32))
        ensures
            size == self.spec_get_size(),
    {
        (self.width, self.height)
    }
}

impl Wrap {
    /// The addressing that wraps in this way.
    pub open spec fn spec_address_mode(self) -> AddressMode {
        match self {
            Wrap::ClampToEdge => AddressMode::ClampToEdge,
            Wrap::Repeat => AddressMode::Repeat,
            Wrap::MirroredRepeat => AddressMode::MirrorRepeat,
            Wrap::ClampToBorder => AddressMode::ClampToBorder,
        }
    }

    /// The addressing that wraps in this way.
    #[verifier::when_used_as_spec(spec_address_mode)]
    pub fn address_mode(self) -> (m: AddressMode)
        ensures
            m == self.spec_address_mode(),
    {
        match self {
            Wrap::ClampToEdge => AddressMode::ClampToEdge,
            Wrap::Repeat => AddressMode::Repeat,
            Wrap::MirroredRepeat => AddressMode::MirrorRepeat,
            Wrap::ClampToBorder => AddressMode::ClampToBorder,
        }
    }
}

impl Filter {
    /// The filtering of this filter.
    pub open spec fn spec_filter_mode(self) -> FilterMode {
        match self {
            Filter::Linear => FilterMode::Linear,
            Filter::Nearest => FilterMode::Nearest,
        }
    }

    /// The filtering of this filter.
    #[verifier::when_used_as_spec(spec_filter_mode)]
    pub fn filter_mode(self) -> (m: FilterMode)
        ensures
            m == self.spec_filter_mode(),
    {
        match self {
            Filter::Linear => FilterMode::Linear,
            Filter::Nearest => FilterMode::Nearest,
        }
    }
}

/// Whether `bits` is the pattern of a number equal to zero: of zero itself
/// or of zero with the sign bit set.
pub open spec fn spec_is_zero(bits: u32) -> bool {
    bits == 0 || bits == MINUS_ZERO
}

/// Whether `bits` is the pattern of a number equal to one.
pub open spec fn spec_is_one(bits: u32) -> bool {
    bits == ONE
}

/// Whether `bits` is the pattern of a number equal to zero.
#[verifier::when_used_as_spec(spec_is_zero)]
pub fn is_zero(bits: u32) -> (b: bool)
    ensures
        b == spec_is_zero(bits),
{
    bits == 0 || bits == MINUS_ZERO
}

/// Whether `bits` is the pattern of a number equal to one.
#[verifier::when_used_as_spec(spec_is_one)]
pub fn is_one(bits: u32) -> (b: bool)
    ensures
        b == spec_is_one(bits),
{
    bits == ONE
}

impl SamplerBorderColor {
    /// The border color that equals `color`, component by component:
    /// transparent black for four zeros, opaque black for three zeros and
    /// a one, opaque white for four ones; no other color is offered.
    pub open spec fn spec_of(color: [u32; 4]) -> Option<SamplerBorderColor> {
        if spec_is_zero(color[0]) && spec_is_zero(color[1]) && spec_is_zero(color[2])
            && spec_is_zero(color[3]) {
            Some(SamplerBorderColor::TransparentBlack)
        } else if spec_is_zero(color[0]) && spec_is_zero(color[1]) && spec_is_zero(color[2])
            && spec_is_one(color[3]) {
            Some(SamplerBorderColor::OpaqueBlack)
        } else if spec_is_one(color[0]) && spec_is_one(color[1]) && spec_is_one(color[2])
            && spec_is_one(color[3]) {
            Some(SamplerBorderColor::OpaqueWhite)
        } else {
            None
        }
    }

    /// The border color that equals `color`, if one of the three does.
    #[verifier::when_used_as_spec(spec_of)]
    pub fn of(color: [u32; 4]) -> (c: Option<SamplerBorderColor>)
        ensures
            c == SamplerBorderColor::spec_of(color),
    {
        let black = is_zero(color[0]) && is_zero(color[1]) && is_zero(color[2]);
        if black && is_zero(color[3]) {
            Some(SamplerBorderColor::TransparentBlack)
        } else if black && is_one(color[3]) {
            Some(SamplerBorderColor::OpaqueBlack)
        } else if is_one(color[0]) && is_one(color[1]) && is_one(color[2]) && is_one(color[3]) {
            Some(SamplerBorderColor::OpaqueWhite)
        } else {
            None
        }
    }
}

impl SamplerDescriptor {
    /// The sampler that `settings` ask for. The third coordinate, which a
    /// flat texture has not, clamps to the edge.
    pub open spec fn spec_of(settings: TextureSettings) -> SamplerDescriptor {
        SamplerDescriptor {
            address_mode_u: settings.wrap_u.spec_address_mode(),
            address_mode_v: settings.wrap_v.spec_address_mode(),
            address_mode_w: AddressMode::ClampToEdge,
            mag_filter: settings.mag.spec_filter_mode(),
            min_filter: settings.min.spec_filter_mode(),
            mipmap_filter: settings.mipmap.spec_filter_mode(),
            border_color: SamplerBorderColor::spec_of(settings.border_color),
        }
    }

    /// The sampler that `settings` ask for.
    #[verifier::when_used_as_spec(spec_of)]
    pub fn of(settings: TextureSettings) -> (d: SamplerDescriptor)
        ensures
            d == SamplerDescriptor::spec_of(settings),
    {
        SamplerDescriptor {
            address_mode_u: settings.wrap_u.address_mode(),
            address_mode_v: settings.wrap_v.address_mode(),
            address_mode_w: AddressMode::ClampToEdge,
            mag_filter: settings.mag.filter_mode(),
            min_filter: settings.min.filter_mode(),
            mipmap_filter: settings.mipmap.filter_mode(),
            border_color: SamplerBorderColor::of(settings.border_color),
        }
    }
}

impl TextureWrite {
    /// The write of a region `width` by `height` texels at `(x, y)`, from
    /// memory that holds the region row by row without padding.
    pub open spec fn spec_of(x: u32, y: u32, width: u32, height: u32) -> TextureWrite {
        TextureWrite {
            x,
            y,
            width,
            height,
            bytes_per_row: (BYTES_PER_TEXEL * width) as u32,
            rows_per_image: height,
        }
    }

    /// Why a texture `width` by `height` texels cannot be filled from
    /// `available` bytes of memory, if it cannot: it has no texels, or a
    /// row of it is too long, or the memory is too short. The first that
    /// applies is given.
    pub open spec fn spec_refusal(width: u32, height: u32, available: nat) -> Option<
        TextureError,
    > {
        if width == 0 || height == 0 {
            Some(TextureError::Invalid)
        } else if BYTES_PER_TEXEL * width > u32::MAX {
            Some(TextureError::TooLarge)
        } else if available < BYTES_PER_TEXEL * width * height {
            Some(TextureError::TooShort)
        } else {
            None
        }
    }

    /// See [`TextureWrite::spec_refusal`].
    pub fn refusal(width: u32, height: u32, available: usize) -> (r: Option<TextureError>)
        ensures
            r == TextureWrite::spec_refusal(width, height, available as nat),
    {
        if width == 0 || height == 0 {
            return Some(TextureError::Invalid);
        }
        if width > u32::MAX / BYTES_PER_TEXEL {
            return Some(TextureError::TooLarge);
        }
        let row: u64 = BYTES_PER_TEXEL as u64 * width as u64;
        assert(row * height <= u64::MAX) by (nonlinear_arith)
            requires
                row <= 0xffff_ffff,
                height <= 0xffff_ffff,
        ;
        let needed: u64 = row * height as u64;
        assert(needed == BYTES_PER_TEXEL * width * height) by (nonlinear_arith)
            requires
                needed == row * height,
                row == BYTES_PER_TEXEL * width,
        ;
        if (available as u64) < needed {
            Some(TextureError::TooShort)
        } else {
            None
        }
    }
}

impl Texture {
    /// Plans the creation of the texture `id`, `size[0]` by `size[1]`
    /// texels, filled from `memory` and sampled as `settings` ask.
    ///
    /// The texture is refused for the reason
    /// [`TextureWrite::spec_refusal`] gives, where it gives one. Otherwise
    /// the plan holds a valid handle, the write of the whole texture, and
    /// the sampler.
    pub fn create(id: u64, memory: &[u8], size: [u32; 2], settings: &TextureSettings) -> (r: Result<
        TextureCreation,
        TextureError,
    >)
        ensures
            match TextureWrite::spec_refusal(size[0], size[1], memory@.len()) {
                Some(e) => r == Err::<TextureCreation, TextureError>(e),
                None => r == Ok::<TextureCreation, TextureError>(
                    TextureCreation {
                        texture: Texture::spec_new(id, size[0], size[1]),
                        write: TextureWrite::spec_of(0, 0, size[0], size[1]),
                        sampler: SamplerDescriptor::spec_of(*settings),
                    },
                ) && r->Ok_0.texture.spec_is_valid(),
            },
    {
        let width = size[0];
        let height = size[1];
        match TextureWrite::refusal(width, height, memory.len()) {
            Some(e) => Err(e),
            None => Ok(
                TextureCreation {
                    texture: Texture { id, width, height },
                    write: TextureWrite {
                        x: 0,
                        y: 0,
                        width,
                        height,
                        bytes_per_row: BYTES_PER_TEXEL * width,
                        rows_per_image: height,
                    },
                    sampler: SamplerDescriptor::of(*settings),
                },
            ),
        }
    }

    /// Whether the region `size[0]` by `size[1]` texels at `offset` lies
    /// inside the texture.
    pub open spec fn spec_holds(&self, offset: [u32; 2], size: [u32; 2]) -> bool {
        offset[0] + size[0] <= self.width && offset[1] + size[1] <= self.height
    }

    /// The plan of an update of the region `size[0]` by `size[1]` texels
    /// at `offset` from `available` bytes of memory.
    ///
    /// A region whose rows are too long is refused. A region without
    /// texels is written as it is, wherever it lies and whatever the
    /// memory holds: nothing is written. A region with texels is refused
    /// where the memory is too short for it, and where it does not lie
    /// inside the texture; the first that applies is given.
    pub open spec fn spec_update(&self, offset: [u32; 2], size: [u32; 2], available: nat) -> Result<
        TextureWrite,
        TextureError,
    > {
        if BYTES_PER_TEXEL * size[0] > u32::MAX {
            Err(TextureError::TooLarge)
        } else if size[0] == 0 || size[1] == 0 {
            Ok(TextureWrite::spec_of(offset[0], offset[1], size[0], size[1]))
        } else if available < BYTES_PER_TEXEL * size[0] * size[1] {
            Err(TextureError::TooShort)
        } else if !self.spec_holds(offset, size) {
            Err(TextureError::OutOfBounds)
        } else {
            Ok(TextureWrite::spec_of(offset[0], offset[1], size[0], size[1]))
        }
    }

    /// Plans an update of the region `size[0]` by `size[1]` texels at
    /// `offset` from `memory`: see [`Texture::spec_update`]. The texture
    /// itself stays as it is.
    pub fn update(&mut self, memory: &[u8], offset: [u32; 2], size: [u32; 2]) -> (r: Result<
        TextureWrite,
        TextureError,
    >)
        ensures
            *final(self) == *old(self),
            r == old(self).spec_update(offset, size, memory@.len()),
    {
        let width = size[0];
        let height = size[1];
        if width > u32::MAX / BYTES_PER_TEXEL {
            return Err(TextureError::TooLarge);
        }
        if width == 0 || height == 0 {
            return Ok(
                TextureWrite {
                    x: offset[0],
                    y: offset[1],
                    width,
                    height,
                    bytes_per_row: BYTES_PER_TEXEL * width,
                    rows_per_image: height,
                },
            );
        }
        if let Some(e) = TextureWrite::refusal(width, height, memory.len()) {
            return Err(e);
        }
        if offset[0] > self.width || width > self.width - offset[0] || offset[1] > self.height
            || height > self.height - offset[1] {
            return Err(TextureError::OutOfBounds);
        }
        Ok(
            TextureWrite {
                x: offset[0],
                y: offset[1],
                width,
                height,
                bytes_per_row: BYTES_PER_TEXEL * width,
                rows_per_image: height,
            },
        )
    }
}

} // verus!
