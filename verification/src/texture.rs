//! Images on the device: the sampled diffuse texture and the depth
//! attachment.

use vstd::prelude::*;
use crate::binding::{
    label_text, owned_label, str_text, BindGroupLayout, BindingKind, LayoutEntry, ShaderStages,
};
use crate::surface::SurfaceConfig;

verus! {

/// The pixel formats that the renderer uses.
#[derive(Clone, Copy, Debug, PartialEq, Eq, Structural)]
pub enum TextureFormat {
    /// Four 8-bit channels, red first, sRGB encoded.
    Rgba8UnormSrgb,
    /// Four 8-bit channels, blue first, sRGB encoded.
    Bgra8UnormSrgb,
    /// One 32-bit floating-point depth channel.
    Depth32Float,
}

/// How an image may be used.
#[derive(Clone, Copy, Debug, PartialEq, Eq, Structural)]
pub struct TextureUsage {
    pub sampled: bool,
    pub copy_dst: bool,
    pub output_attachment: bool,
}

/// How a sampler treats coordinates outside the image.
#[derive(Clone, Copy, Debug, PartialEq, Eq, Structural)]
pub enum AddressMode {
    ClampToEdge,
    Repeat,
    MirrorRepeat,
}

/// How a sampler picks a value between pixels.
#[derive(Clone, Copy, Debug, PartialEq, Eq, Structural)]
pub enum FilterMode {
    Nearest,
    Linear,
}

/// A sampler.
#[derive(Clone, Copy, Debug, PartialEq, Eq, Structural)]
pub struct Sampler {
    pub address_mode_u: AddressMode,
    pub address_mode_v: AddressMode,
    pub address_mode_w: AddressMode,
    pub mag_filter: FilterMode,
    pub min_filter: FilterMode,
    pub mipmap_filter: FilterMode,
}

/// Why an image was refused.
#[derive(Clone, Copy, Debug, PartialEq, Eq, Structural)]
pub enum TextureError {
    /// The width or the height is zero.
    ZeroExtent,
    /// A row of pixels does not fit in a 32-bit byte count.
    TooWide,
    /// The number of bytes is not four for each pixel.
    PixelCount,
}

/// A sampled image with its pixels, its sampler and the layout of the bind
/// group that exposes both to the fragment stage.
#[derive(Clone, Debug, PartialEq, Eq)]
pub struct Texture {
    pub label: Option<String>,
    pub width: u32,
    pub height: u32,
    pub format: TextureFormat,
    pub usage: TextureUsage,
    /// The pixels, row after row, four bytes each.
    pub pixels: Vec<u8>,
    /// The number of bytes from one row to the next.
    pub bytes_per_row: u32,
    pub sampler: Sampler,
    pub bind_group_layout: BindGroupLayout,
}

/// A depth attachment.  It has a view and nothing else: no sampler, and no
/// shader reads it.
#[derive(Clone, Debug, PartialEq, Eq)]
pub struct DepthTexture {
    pub label: Option<String>,
    pub width: u32,
    pub height: u32,
    pub format: TextureFormat,
    pub usage: TextureUsage,
    /// The generation of the surface that the attachment was built for.
    pub generation: u64,
}

/// The sampler of a diffuse texture: the nearest pixel, clamped to the edge.
pub open spec fn nearest_clamped() -> Sampler {
    Sampler {
        address_mode_u: AddressMode::ClampToEdge,
        address_mode_v: AddressMode::ClampToEdge,
        address_mode_w: AddressMode::ClampToEdge,
        mag_filter: FilterMode::Nearest,
        min_filter: FilterMode::Nearest,
        mipmap_filter: FilterMode::Nearest,
    }
}

/// The entries of a texture's bind-group layout: the image at binding 0 and
/// the sampler at binding 1, both for the fragment stage.
pub open spec fn texture_entries() -> Seq<LayoutEntry> {
    seq![
        LayoutEntry {
            binding: 0,
            visibility: ShaderStages { vertex: false, fragment: true },
            kind: BindingKind::SampledTexture,
        },
        LayoutEntry {
            binding: 1,
            visibility: ShaderStages { vertex: false, fragment: true },
            kind: BindingKind::Sampler,
        },
    ]
}

/// What is wrong with an image of the given size that comes with `count`
/// bytes, if anything.
pub open spec fn pixel_fault(width: u32, height: u32, count: nat) -> Option<TextureError> {
    if width == 0 || height == 0 {
        Some(TextureError::ZeroExtent)
    } else if 4 * width > u32::MAX {
        Some(TextureError::TooWide)
    } else if count != 4 * width * height {
        Some(TextureError::PixelCount)
    } else {
        None
    }
}

/// Decides `pixel_fault`.
pub fn check_pixels(width: u32, height: u32, count: usize) -> (fault: Option<TextureError>)
    ensures
        fault == pixel_fault(width, height, count as nat),
{
    if width == 0 || height == 0 {
        return Some(TextureError::ZeroExtent);
    }
    if width > 0x3fff_ffff {
        return Some(TextureError::TooWide);
    }
    assert(width as u64 * height as u64 <= 0xffff_ffff * 0xffff_ffff) by (nonlinear_arith)
        requires
            width <= 0xffff_ffff,
            height <= 0xffff_ffff,
    ;
    let area: u64 = width as u64 * height as u64;
    assert(4 * width * height == 4 * (width * height)) by (nonlinear_arith);
    if count % 4 != 0 || (count / 4) as u64 != area {
        return Some(TextureError::PixelCount);
    }
    None
}

impl Texture {
    /// The image has an extent, four bytes for each pixel and rows that
    /// follow one another without a gap; it can be sampled and copied to;
    /// its bind group exposes it with its sampler.
    pub open spec fn wf(&self) -> bool {
        &&& pixel_fault(self.width, self.height, self.pixels@.len()) is None
        &&& self.bytes_per_row == 4 * self.width
        &&& self.format == TextureFormat::Rgba8UnormSrgb
        &&& self.usage == TextureUsage { sampled: true, copy_dst: true, output_attachment: false }
        &&& self.bind_group_layout.entries@ == texture_entries()
    }

    /// The texture is the diffuse texture for these pixels, under this label.
    pub open spec fn holds(
        &self,
        width: u32,
        height: u32,
        pixels: Seq<u8>,
        label: Option<Seq<char>>,
    ) -> bool {
        &&& self.wf()
        &&& self.width == width
        &&& self.height == height
        &&& self.pixels@ == pixels
        &&& self.sampler == nearest_clamped()
        &&& self.bind_group_layout.label is None
        &&& label_text(self.label) == label
    }

    /// The diffuse texture for decoded pixels: an image of exactly their
    /// size, filled from them row by row, with a nearest-neighbor sampler.
    pub fn new(width: u32, height: u32, pixels: Vec<u8>, label: Option<&str>) -> (r: Result<
        Texture,
        TextureError,
    >)
        ensures
            r is Ok <==> pixel_fault(width, height, pixels@.len()) is None,
            r matches Err(e) ==> pixel_fault(width, height, pixels@.len()) == Some(e),
            r matches Ok(t) ==> t.holds(width, height, pixels@, str_text(label)),
    {
        match check_pixels(width, height, pixels.len()) {
            Some(e) => { return Err(e); },
            None => {},
        }
        let fragment = ShaderStages { vertex: false, fragment: true };
        let mut entries: Vec<LayoutEntry> = Vec::new();
        entries.push(
            LayoutEntry { binding: 0, visibility: fragment, kind: BindingKind::SampledTexture },
        );
        entries.push(LayoutEntry { binding: 1, visibility: fragment, kind: BindingKind::Sampler });
        assert(entries@ =~= texture_entries());
        Ok(
            Texture {
                label: owned_label(label),
                width,
                height,
                format: TextureFormat::Rgba8UnormSrgb,
                usage: TextureUsage { sampled: true, copy_dst: true, output_attachment: false },
                pixels,
                bytes_per_row: 4 * width,
                sampler: Sampler {
                    address_mode_u: AddressMode::ClampToEdge,
                    address_mode_v: AddressMode::ClampToEdge,
                    address_mode_w: AddressMode::ClampToEdge,
                    mag_filter: FilterMode::Nearest,
                    min_filter: FilterMode::Nearest,
                    mipmap_filter: FilterMode::Nearest,
                },
                bind_group_layout: BindGroupLayout { label: None, entries },
            },
        )
    }
}

impl DepthTexture {
    /// The attachment is the one that a surface of this configuration needs:
    /// of its size, in the depth format, usable as an attachment.
    pub open spec fn matches(&self, sc_desc: SurfaceConfig) -> bool {
        &&& self.width == sc_desc.width
        &&& self.height == sc_desc.height
        &&& self.format == TextureFormat::Depth32Float
        &&& self.usage == TextureUsage { sampled: false, copy_dst: false, output_attachment: true }
    }

    /// The depth attachment for the first generation of a surface.  None is
    /// made for a surface without extent.
    pub fn new(sc_desc: &SurfaceConfig, label: Option<&str>) -> (r: Result<
        DepthTexture,
        TextureError,
    >)
        ensures
            r is Err <==> sc_desc.width == 0 || sc_desc.height == 0,
            r matches Err(e) ==> e == TextureError::ZeroExtent,
            r matches Ok(t) ==> t.matches(*sc_desc) && t.generation == 0 && label_text(t.label)
                == str_text(label),
    {
        if sc_desc.width == 0 || sc_desc.height == 0 {
            return Err(TextureError::ZeroExtent);
        }
        Ok(
            DepthTexture {
                label: owned_label(label),
                width: sc_desc.width,
                height: sc_desc.height,
                format: TextureFormat::Depth32Float,
                usage: TextureUsage { sampled: false, copy_dst: false, output_attachment: true },
                generation: 0,
            },
        )
    }

    /// The attachment that replaces this one after the surface has been
    /// configured anew: of the new size, for the new generation, and
    /// otherwise as before.
    pub open spec fn rebuilt(self, sc_desc: SurfaceConfig, generation: u64) -> DepthTexture {
        DepthTexture { width: sc_desc.width, height: sc_desc.height, generation, ..self }
    }

    /// Replaces the attachment by one for the surface as it is now.
    pub fn rebuild(&mut self, sc_desc: &SurfaceConfig, generation: u64)
        ensures
            *final(self) == old(self).rebuilt(*sc_desc, generation),
    {
        self.width = sc_desc.width;
        self.height = sc_desc.height;
        self.generation = generation;
    }
}

} // verus!
