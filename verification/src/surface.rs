//! The presentable surface: its size and how it is configured.

use vstd::prelude::*;
use crate::texture::{TextureFormat, TextureUsage};

verus! {

/// A size in physical pixels.
#[derive(Clone, Copy, Debug, PartialEq, Eq, Structural)]
pub struct Size {
    pub width: u32,
    pub height: u32,
}

/// How finished frames reach the screen.
#[derive(Clone, Copy, Debug, PartialEq, Eq, Structural)]
pub enum PresentMode {
    Immediate,
    Mailbox,
    Fifo,
}

/// The configuration of the surface.  Only a resize changes it.
#[derive(Clone, Copy, Debug, PartialEq, Eq, Structural)]
pub struct SurfaceConfig {
    pub usage: TextureUsage,
    pub format: TextureFormat,
    pub width: u32,
    pub height: u32,
    pub present_mode: PresentMode,
}

impl Size {
    /// Neither side is zero.
    pub open spec fn spec_is_drawable(&self) -> bool {
        self.width > 0 && self.height > 0
    }

    /// Whether anything can be created at this size.
    #[verifier::when_used_as_spec(spec_is_drawable)]
    pub fn is_drawable(&self) -> (b: bool)
        ensures
            b == self.spec_is_drawable(),
    {
        self.width > 0 && self.height > 0
    }
}

impl SurfaceConfig {
    /// The configuration of a surface of the given size: frames are drawn
    /// into it as 8-bit BGRA with sRGB encoding and presented in order, at
    /// the display's pace.
    pub open spec fn spec_for_size(size: Size) -> SurfaceConfig {
        SurfaceConfig {
            usage: TextureUsage { sampled: false, copy_dst: false, output_attachment: true },
            format: TextureFormat::Bgra8UnormSrgb,
            width: size.width,
            height: size.height,
            present_mode: PresentMode::Fifo,
        }
    }

    #[verifier::when_used_as_spec(spec_for_size)]
    pub fn for_size(size: Size) -> (config: SurfaceConfig)
        ensures
            config == SurfaceConfig::spec_for_size(size),
    {
        SurfaceConfig {
            usage: TextureUsage { sampled: false, copy_dst: false, output_attachment: true },
            format: TextureFormat::Bgra8UnormSrgb,
            width: size.width,
            height: size.height,
            present_mode: PresentMode::Fifo,
        }
    }

    /// The size the surface is configured for.
    pub open spec fn spec_size(&self) -> Size {
        Size { width: self.width, height: self.height }
    }

    #[verifier::when_used_as_spec(spec_size)]
    pub fn size(&self) -> (size: Size)
        ensures
            size == self.spec_size(),
    {
        Size { width: self.width, height: self.height }
    }
}

} // verus!
