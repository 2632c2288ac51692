//! Materials: the diffuse texture, the buffer of shading coefficients and
//! the bind group that exposes the buffer to the fragment stage.

use vstd::prelude::*;
use crate::binding::{
    label_text, spec_uniform_usage, suffixed, uniform_entries, BindGroup, BindGroupLayout, Buffer,
    ShaderStages,
};
use crate::texture::{check_pixels, pixel_fault, Texture, TextureError};
use crate::uniform::MaterialRaw;
use crate::words::le_image;

verus! {

/// A material as a loader returns it.  Colors and shininess are
/// single-precision bit patterns.
#[derive(Clone, Debug, PartialEq, Eq)]
pub struct MaterialData {
    pub name: String,
    /// The path of the diffuse image, relative to the data directory.
    pub diffuse_texture: String,
    pub ambient: [u32; 3],
    pub diffuse: [u32; 3],
    pub specular: [u32; 3],
    pub shininess: u32,
}

/// A decoded image: four bytes for each pixel, row after row.
#[derive(Clone, Debug, PartialEq, Eq)]
pub struct Image {
    pub width: u32,
    pub height: u32,
    pub pixels: Vec<u8>,
}

/// A material of the loader together with its decoded diffuse image.
#[derive(Clone, Debug, PartialEq, Eq)]
pub struct MaterialSource {
    pub data: MaterialData,
    pub image: Image,
}

/// Why a material was refused.
#[derive(Clone, Copy, Debug, PartialEq, Eq, Structural)]
pub enum MaterialError {
    /// The diffuse image cannot become a texture.
    Texture(TextureError),
}

/// A material on the device.
#[derive(Clone, Debug, PartialEq, Eq)]
pub struct Material {
    pub diffuse_texture: Texture,
    pub name: String,
    pub bind_group_layout: BindGroupLayout,
    pub bind_group: BindGroup,
}

/// The fragment stage alone.
pub open spec fn fragment_only() -> ShaderStages {
    ShaderStages { vertex: false, fragment: true }
}

/// The shading coefficients of a material.
pub open spec fn coefficients(material: &MaterialData) -> MaterialRaw {
    MaterialRaw {
        ambient: material.ambient,
        diffuse: material.diffuse,
        specular: material.specular,
        shininess: material.shininess,
    }
}

/// Where the diffuse image of a material is found: under the data
/// directory.
pub fn texture_path(material: &MaterialData) -> (path: String)
    ensures
        path@ == "data/"@ + material.diffuse_texture@,
{
    suffixed("data/", material.diffuse_texture.as_str())
}

impl Image {
    /// What keeps the image from becoming a texture, if anything.
    pub open spec fn spec_fault(&self) -> Option<TextureError> {
        pixel_fault(self.width, self.height, self.pixels@.len())
    }

    /// Decides what keeps the image from becoming a texture, if anything.
    #[verifier::when_used_as_spec(spec_fault)]
    pub fn fault(&self) -> (fault: Option<TextureError>)
        ensures
            fault == self.spec_fault(),
    {
        check_pixels(self.width, self.height, self.pixels.len())
    }
}

impl Material {
    /// The texture is sound, the layout exposes one uniform buffer to the
    /// fragment stage, and the bind group fits it with a buffer of the size
    /// of the material block.
    pub open spec fn wf(&self) -> bool {
        &&& self.diffuse_texture.wf()
        &&& self.bind_group_layout.entries@ == uniform_entries(fragment_only())
        &&& self.bind_group.fits(&self.bind_group_layout)
        &&& self.bind_group.buffer.contents@.len() == 52
    }

    /// The material is the one made from this record and these pixels.
    pub open spec fn made_from(&self, material: &MaterialData, image: &Image) -> bool {
        &&& self.wf()
        &&& self.name@ == material.name@
        &&& self.diffuse_texture.holds(
            image.width,
            image.height,
            image.pixels@,
            Some("diffuse_texture"@),
        )
        &&& label_text(self.bind_group_layout.label) == Some(
            material.name@ + " bind group layout"@,
        )
        &&& label_text(self.bind_group.label) == Some(material.name@ + " bind group"@)
        &&& self.bind_group.binding == 0
        &&& label_text(self.bind_group.buffer.label) == Some(
            material.name@ + " uniform buffer"@,
        )
        &&& self.bind_group.buffer.usage == spec_uniform_usage()
        &&& self.bind_group.buffer.contents@ == le_image(coefficients(material).image())
    }

    /// The material on the device for a record of the loader and the
    /// decoded diffuse image.
    pub fn new(material: &MaterialData, image: &Image) -> (r: Result<Material, MaterialError>)
        ensures
            r is Ok <==> image.fault() is None,
            r matches Err(e) ==> image.fault() matches Some(fault) && e == MaterialError::Texture(
                fault,
            ),
            r matches Ok(m) ==> m.made_from(material, image),
    {
        let diffuse_texture = match Texture::new(
            image.width,
            image.height,
            image.pixels.clone(),
            Some("diffuse_texture"),
        ) {
            Ok(texture) => texture,
            Err(e) => { return Err(MaterialError::Texture(e)); },
        };
        let name: String = material.name.clone();
        let material_raw = MaterialRaw {
            ambient: material.ambient,
            diffuse: material.diffuse,
            specular: material.specular,
            shininess: material.shininess,
        };
        let contents = material_raw.bytes();
        let buffer = Buffer::uniform(Some(suffixed(name.as_str(), " uniform buffer")), contents);
        let bind_group_layout = BindGroupLayout::uniform(
            Some(suffixed(name.as_str(), " bind group layout")),
            ShaderStages { vertex: false, fragment: true },
        );
        let bind_group = BindGroup::whole(Some(suffixed(name.as_str(), " bind group")), buffer);
        Ok(Material { diffuse_texture, name, bind_group_layout, bind_group })
    }
}

} // verus!
