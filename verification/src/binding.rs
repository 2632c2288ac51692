//! Bind groups: what a shader stage may read at a numbered slot, and the
//! buffers that stand behind the bindings.

use vstd::prelude::*;

verus! {

/// The shader stages that may read a binding.
#[derive(Clone, Copy, Debug, PartialEq, Eq, Structural)]
pub struct ShaderStages {
    pub vertex: bool,
    pub fragment: bool,
}

/// What kind of resource a binding exposes.
#[derive(Clone, Copy, Debug, PartialEq, Eq, Structural)]
pub enum BindingKind {
    /// A uniform buffer, bound whole and at a fixed offset.
    UniformBuffer,
    /// A two-dimensional sampled image.
    SampledTexture,
    /// A sampler without comparison.
    Sampler,
}

/// One entry of a bind-group layout.
#[derive(Clone, Copy, Debug, PartialEq, Eq, Structural)]
pub struct LayoutEntry {
    pub binding: u32,
    pub visibility: ShaderStages,
    pub kind: BindingKind,
}

/// The layout of a bind group.
#[derive(Clone, Debug, PartialEq, Eq)]
pub struct BindGroupLayout {
    pub label: Option<String>,
    pub entries: Vec<LayoutEntry>,
}

/// How a buffer may be used.
#[derive(Clone, Copy, Debug, PartialEq, Eq, Structural)]
pub struct BufferUsage {
    pub uniform: bool,
    pub copy_dst: bool,
    pub vertex: bool,
    pub index: bool,
}

/// A buffer that is created with its contents.
#[derive(Clone, Debug, PartialEq, Eq)]
pub struct Buffer {
    pub label: Option<String>,
    pub contents: Vec<u8>,
    pub usage: BufferUsage,
}

/// A bind group that exposes one whole uniform buffer under one binding
/// number.
#[derive(Clone, Debug, PartialEq, Eq)]
pub struct BindGroup {
    pub label: Option<String>,
    pub binding: u32,
    pub buffer: Buffer,
}

/// The text of a label, if there is one.
pub open spec fn label_text(label: Option<String>) -> Option<Seq<char>> {
    match label {
        Some(s) => Some(s@),
        None => None,
    }
}

/// The text of a borrowed label, if there is one.
pub open spec fn str_text(label: Option<&str>) -> Option<Seq<char>> {
    match label {
        Some(s) => Some(s@),
        None => None,
    }
}

/// An owned copy of a label.
pub fn owned_label(label: Option<&str>) -> (owned: Option<String>)
    ensures
        label_text(owned) == str_text(label),
{
    match label {
        Some(s) => Some(s.to_owned()),
        None => None,
    }
}

/// The usage of a uniform buffer that can be written again later.
pub open spec fn spec_uniform_usage() -> BufferUsage {
    BufferUsage { uniform: true, copy_dst: true, vertex: false, index: false }
}

/// The entries of a layout that exposes one uniform buffer at binding 0.
pub open spec fn uniform_entries(visibility: ShaderStages) -> Seq<LayoutEntry> {
    seq![LayoutEntry { binding: 0, visibility, kind: BindingKind::UniformBuffer }]
}

/// `String::push_str` appends the given text to the string.
pub assume_specification[ String::push_str ](s: &mut String, text: &str)
    ensures
        final(s)@ == old(s)@ + text@,
;

/// The label made of a name and a suffix.
pub fn suffixed(name: &str, suffix: &str) -> (label: String)
    ensures
        label@ == name@ + suffix@,
{
    let mut label: String = name.to_owned();
    label.push_str(suffix);
    label
}

impl BindGroupLayout {
    /// The layout of a group that exposes one uniform buffer at binding 0.
    pub fn uniform(label: Option<String>, visibility: ShaderStages) -> (layout: BindGroupLayout)
        ensures
            layout.label == label,
            layout.entries@ == uniform_entries(visibility),
    {
        let mut entries: Vec<LayoutEntry> = Vec::new();
        entries.push(LayoutEntry { binding: 0, visibility, kind: BindingKind::UniformBuffer });
        assert(entries@ =~= uniform_entries(visibility));
        BindGroupLayout { label, entries }
    }
}

impl Buffer {
    /// A uniform buffer with the given contents.
    pub fn uniform(label: Option<String>, contents: Vec<u8>) -> (buffer: Buffer)
        ensures
            buffer.label == label,
            buffer.contents == contents,
            buffer.usage == spec_uniform_usage(),
    {
        Buffer {
            label,
            contents,
            usage: BufferUsage { uniform: true, copy_dst: true, vertex: false, index: false },
        }
    }
}

impl BindGroup {
    /// Whether the group fits the layout: the layout has one entry, a
    /// uniform buffer under the group's binding number, and the buffer may be
    /// used as one.
    pub open spec fn fits(&self, layout: &BindGroupLayout) -> bool {
        &&& layout.entries@.len() == 1
        &&& layout.entries@[0].binding == self.binding
        &&& layout.entries@[0].kind == BindingKind::UniformBuffer
        &&& self.buffer.usage.uniform
    }

    /// The group that exposes `buffer` whole at binding 0.
    pub fn whole(label: Option<String>, buffer: Buffer) -> (group: BindGroup)
        ensures
            group.label == label,
            group.binding == 0,
            group.buffer == buffer,
    {
        BindGroup { label, binding: 0, buffer }
    }

    /// Decides `fits`.
    pub fn check(&self, layout: &BindGroupLayout) -> (ok: bool)
        ensures
            ok == self.fits(layout),
    {
        if layout.entries.len() != 1 {
            return false;
        }
        let entry: LayoutEntry = layout.entries[0];
        let uniform: bool = match entry.kind {
            BindingKind::UniformBuffer => true,
            _ => false,
        };
        entry.binding == self.binding && uniform && self.buffer.usage.uniform
    }
}

} // verus!
