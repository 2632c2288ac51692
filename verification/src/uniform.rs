//! The three uniform blocks that the shaders declare: the view-projection
//! matrix, the point light and the shading coefficients of a material.

use vstd::prelude::*;
use vstd::pervasive::unreached;
use crate::bits::{MINUS_THREE, ONE, TWO, ZERO};
use crate::layout::{
    aligned, block_image, block_size, data_words, field_offset, layout_fault, lemma_push_field,
    padded_image, BlockLayout, FieldKind,
};
use crate::words::le_image;

verus! {

/// The fields of the view-projection block: one matrix.
pub open spec fn camera_kinds() -> Seq<FieldKind> {
    seq![FieldKind::Mat4]
}

/// The fields of the light block: position, then color.
pub open spec fn light_kinds() -> Seq<FieldKind> {
    seq![FieldKind::Vec3, FieldKind::Vec3]
}

/// The fields of the material block: ambient, diffuse and specular color,
/// then shininess.
pub open spec fn material_kinds() -> Seq<FieldKind> {
    seq![FieldKind::Vec3, FieldKind::Vec3, FieldKind::Vec3, FieldKind::Scalar]
}

/// The view-projection matrix, column after column.
#[derive(Clone, Copy, Debug, PartialEq, Eq)]
pub struct Uniforms {
    pub view_proj: [[u32; 4]; 4],
}

/// A point light.
#[derive(Clone, Copy, Debug, PartialEq, Eq)]
pub struct Light {
    pub position: [u32; 3],
    pub color: [u32; 3],
}

/// The shading coefficients of a material.
#[derive(Clone, Copy, Debug, PartialEq, Eq)]
pub struct MaterialRaw {
    pub ambient: [u32; 3],
    pub diffuse: [u32; 3],
    pub specular: [u32; 3],
    pub shininess: u32,
}

/// The view-projection block is one matrix of 64 bytes at offset 0, and its
/// image holds the sixteen values as they are.
pub proof fn lemma_camera_block(values: Seq<u32>)
    requires
        values.len() == 16,
    ensures
        layout_fault(camera_kinds()) is None,
        data_words(camera_kinds()) == 16,
        block_size(camera_kinds()) == 64,
        field_offset(camera_kinds(), 0) == 0,
        block_image(camera_kinds(), values) == values,
{
    let k0 = Seq::<FieldKind>::empty();
    let k1 = k0.push(FieldKind::Mat4);
    lemma_push_field(k0, FieldKind::Mat4, values);
    assert(k1 =~= camera_kinds());
    assert(k1.take(0) =~= k0);
    assert(aligned(k1));
    assert(block_image(k1, values) =~= values);
}

/// The light block has the position at offset 0 and the color at offset 16,
/// 28 bytes in all, and one zero word between the two in its image.
pub proof fn lemma_light_block(values: Seq<u32>)
    requires
        values.len() == 6,
    ensures
        layout_fault(light_kinds()) is None,
        data_words(light_kinds()) == 6,
        block_size(light_kinds()) == 28,
        field_offset(light_kinds(), 0) == 0,
        field_offset(light_kinds(), 1) == 16,
        block_image(light_kinds(), values) == seq![
            values[0],
            values[1],
            values[2],
            0u32,
            values[3],
            values[4],
            values[5],
        ],
{
    let k0 = Seq::<FieldKind>::empty();
    let k1 = k0.push(FieldKind::Vec3);
    let k2 = k1.push(FieldKind::Vec3);
    lemma_push_field(k0, FieldKind::Vec3, values);
    lemma_push_field(k1, FieldKind::Vec3, values);
    assert(k2 =~= light_kinds());
    assert(k2.take(0) =~= k0);
    assert(k2.take(1) =~= k1);
    assert(aligned(k2));
    assert(block_image(k2, values) =~= seq![
        values[0],
        values[1],
        values[2],
        0u32,
        values[3],
        values[4],
        values[5],
    ]);
}

/// The material block has its colors at offsets 0, 16 and 32 and the
/// shininess at offset 48, 52 bytes in all, and one zero word after each
/// color in its image.
pub proof fn lemma_material_block(values: Seq<u32>)
    requires
        values.len() == 10,
    ensures
        layout_fault(material_kinds()) is None,
        data_words(material_kinds()) == 10,
        block_size(material_kinds()) == 52,
        field_offset(material_kinds(), 0) == 0,
        field_offset(material_kinds(), 1) == 16,
        field_offset(material_kinds(), 2) == 32,
        field_offset(material_kinds(), 3) == 48,
        block_image(material_kinds(), values) == seq![
            values[0],
            values[1],
            values[2],
            0u32,
            values[3],
            values[4],
            values[5],
            0u32,
            values[6],
            values[7],
            values[8],
            0u32,
            values[9],
        ],
{
    let k0 = Seq::<FieldKind>::empty();
    let k1 = k0.push(FieldKind::Vec3);
    let k2 = k1.push(FieldKind::Vec3);
    let k3 = k2.push(FieldKind::Vec3);
    let k4 = k3.push(FieldKind::Scalar);
    lemma_push_field(k0, FieldKind::Vec3, values);
    lemma_push_field(k1, FieldKind::Vec3, values);
    lemma_push_field(k2, FieldKind::Vec3, values);
    lemma_push_field(k3, FieldKind::Scalar, values);
    assert(k4 =~= material_kinds());
    assert(k4.take(0) =~= k0);
    assert(k4.take(1) =~= k1);
    assert(k4.take(2) =~= k2);
    assert(k4.take(3) =~= k3);
    assert(aligned(k4));
    assert(padded_image(k1, values) =~= seq![values[0], values[1], values[2], 0u32]);
    assert(padded_image(k2, values) =~= seq![
        values[0],
        values[1],
        values[2],
        0u32,
        values[3],
        values[4],
        values[5],
        0u32,
    ]);
    assert(block_image(k4, values) =~= seq![
        values[0],
        values[1],
        values[2],
        0u32,
        values[3],
        values[4],
        values[5],
        0u32,
        values[6],
        values[7],
        values[8],
        0u32,
        values[9],
    ]);
}

/// Lays out a block that is known to be sound.
fn sound_layout(kinds: Vec<FieldKind>) -> (l: BlockLayout)
    requires
        layout_fault(kinds@) is None,
    ensures
        l.wf(),
        l.kinds@ == kinds@,
{
    match BlockLayout::new(kinds) {
        Ok(l) => l,
        Err(_) => unreached(),
    }
}

/// Packs as many values as the block holds.
fn packed(layout: &BlockLayout, values: &[u32]) -> (bytes: Vec<u8>)
    requires
        values@.len() == data_words(layout.kinds@),
    ensures
        bytes@ == le_image(block_image(layout.kinds@, values@)),
{
    match layout.pack(values) {
        Ok(bytes) => bytes,
        Err(_) => unreached(),
    }
}

impl Uniforms {
    /// The sixteen values in the order of the block: column after column.
    pub open spec fn values(&self) -> Seq<u32> {
        Seq::new(16, |i: int| self.view_proj@[i / 4]@[i % 4])
    }

    /// The uniforms that hold the given matrix.
    pub fn new(view_proj: [[u32; 4]; 4]) -> (uniforms: Uniforms)
        ensures
            uniforms.view_proj == view_proj,
    {
        Uniforms { view_proj }
    }

    /// The layout of the view-projection block.
    pub fn layout() -> (l: BlockLayout)
        ensures
            l.wf(),
            l.kinds@ == camera_kinds(),
            l.offsets@ == seq![0u32],
            l.size == 64,
    {
        let mut kinds: Vec<FieldKind> = Vec::new();
        kinds.push(FieldKind::Mat4);
        proof {
            assert(kinds@ =~= camera_kinds());
            lemma_camera_block(Seq::new(16, |i: int| 0u32));
        }
        let l = sound_layout(kinds);
        assert(l.offsets@ =~= seq![0u32]);
        l
    }

    /// The contents of the view-projection buffer: the sixteen values, 64
    /// bytes.
    pub fn bytes(&self) -> (bytes: Vec<u8>)
        ensures
            bytes@ == le_image(self.values()),
    {
        let mut values: Vec<u32> = Vec::new();
        let mut c: usize = 0;
        while c < 4
            invariant
                c <= 4,
                values@.len() == 4 * c,
                forall|i: int| 0 <= i < 4 * c ==> values@[i] == #[trigger] self.values()[i],
            decreases 4 - c,
        {
            let column: [u32; 4] = self.view_proj[c];
            values.push(column[0]);
            values.push(column[1]);
            values.push(column[2]);
            values.push(column[3]);
            c += 1;
        }
        proof {
            assert(values@ =~= self.values());
            lemma_camera_block(values@);
        }
        packed(&Uniforms::layout(), values.as_slice())
    }
}

impl Light {
    /// The position of the fixed light: (0, 2, -3).
    pub open spec fn fixed_position() -> Seq<u32> {
        seq![ZERO, TWO, MINUS_THREE]
    }

    /// The color of the fixed light: white.
    pub open spec fn fixed_color() -> Seq<u32> {
        seq![ONE, ONE, ONE]
    }

    /// The image of the block: position, one zero word, color.
    pub open spec fn image(&self) -> Seq<u32> {
        seq![
            self.position@[0],
            self.position@[1],
            self.position@[2],
            0u32,
            self.color@[0],
            self.color@[1],
            self.color@[2],
        ]
    }

    /// The one light of the scene.
    pub fn fixed() -> (light: Light)
        ensures
            light.position@ == Light::fixed_position(),
            light.color@ == Light::fixed_color(),
    {
        let light = Light { position: [ZERO, TWO, MINUS_THREE], color: [ONE, ONE, ONE] };
        assert(light.position@ =~= Light::fixed_position());
        assert(light.color@ =~= Light::fixed_color());
        light
    }

    /// The layout of the light block.
    pub fn layout() -> (l: BlockLayout)
        ensures
            l.wf(),
            l.kinds@ == light_kinds(),
            l.offsets@ == seq![0u32, 16u32],
            l.size == 28,
    {
        let mut kinds: Vec<FieldKind> = Vec::new();
        kinds.push(FieldKind::Vec3);
        kinds.push(FieldKind::Vec3);
        proof {
            assert(kinds@ =~= light_kinds());
            lemma_light_block(Seq::new(6, |i: int| 0u32));
        }
        let l = sound_layout(kinds);
        assert(l.offsets@ =~= seq![0u32, 16u32]);
        l
    }

    /// The contents of the light buffer, 28 bytes.
    pub fn bytes(&self) -> (bytes: Vec<u8>)
        ensures
            bytes@ == le_image(self.image()),
    {
        let mut values: Vec<u32> = Vec::new();
        values.push(self.position[0]);
        values.push(self.position[1]);
        values.push(self.position[2]);
        values.push(self.color[0]);
        values.push(self.color[1]);
        values.push(self.color[2]);
        proof {
            lemma_light_block(values@);
        }
        packed(&Light::layout(), values.as_slice())
    }
}

impl MaterialRaw {
    /// The image of the block: each color followed by one zero word, then
    /// the shininess.
    pub open spec fn image(&self) -> Seq<u32> {
        seq![
            self.ambient@[0],
            self.ambient@[1],
            self.ambient@[2],
            0u32,
            self.diffuse@[0],
            self.diffuse@[1],
            self.diffuse@[2],
            0u32,
            self.specular@[0],
            self.specular@[1],
            self.specular@[2],
            0u32,
            self.shininess,
        ]
    }

    /// The layout of the material block.
    pub fn layout() -> (l: BlockLayout)
        ensures
            l.wf(),
            l.kinds@ == material_kinds(),
            l.offsets@ == seq![0u32, 16u32, 32u32, 48u32],
            l.size == 52,
    {
        let mut kinds: Vec<FieldKind> = Vec::new();
        kinds.push(FieldKind::Vec3);
        kinds.push(FieldKind::Vec3);
        kinds.push(FieldKind::Vec3);
        kinds.push(FieldKind::Scalar);
        proof {
            assert(kinds@ =~= material_kinds());
            lemma_material_block(Seq::new(10, |i: int| 0u32));
        }
        let l = sound_layout(kinds);
        assert(l.offsets@ =~= seq![0u32, 16u32, 32u32, 48u32]);
        l
    }

    /// The contents of the material buffer, 52 bytes.
    pub fn bytes(&self) -> (bytes: Vec<u8>)
        ensures
            bytes@ == le_image(self.image()),
    {
        let mut values: Vec<u32> = Vec::new();
        values.push(self.ambient[0]);
        values.push(self.ambient[1]);
        values.push(self.ambient[2]);
        values.push(self.diffuse[0]);
        values.push(self.diffuse[1]);
        values.push(self.diffuse[2]);
        values.push(self.specular[0]);
        values.push(self.specular[1]);
        values.push(self.specular[2]);
        values.push(self.shininess);
        proof {
            lemma_material_block(values@);
        }
        packed(&MaterialRaw::layout(), values.as_slice())
    }
}

} // verus!
