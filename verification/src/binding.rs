//! The resource groups the shaders see: named sets of bindings at
//! fixed slots, described as plain data with exact contracts.  The
//! shell translates these descriptions into the device's own
//! descriptor types.

use vstd::prelude::*;

verus! {

/// The shader stage a binding is visible to.
#[derive(Clone, Copy, Debug, PartialEq, Eq, Structural)]
pub enum ShaderStage {
    Vertex,
    Fragment,
}

/// What a binding holds.
#[derive(Clone, Copy, Debug, PartialEq, Eq, Structural)]
pub enum BindingKind {
    UniformBuffer,
    Texture2dFloat,
    FilteringSampler,
}

/// One binding of a resource group.
#[derive(Clone, Copy, Debug, PartialEq, Eq, Structural)]
pub struct BindGroupEntry {
    pub binding: u32,
    pub visibility: ShaderStage,
    pub kind: BindingKind,
}

/// The layout of one resource group.
#[derive(Clone, Debug, PartialEq, Eq)]
pub struct BindGroupLayout {
    pub entries: Vec<BindGroupEntry>,
}

/// The layout of the texture resource group: a two-dimensional
/// float-sampled texture at binding zero and a filtering sampler at
/// binding one, both visible to the fragment stage.
pub fn texture_bind_desc() -> (r: BindGroupLayout)
    ensures
        r.entries@.len() == 2,
        r.entries@[0] == (BindGroupEntry {
            binding: 0,
            visibility: ShaderStage::Fragment,
            kind: BindingKind::Texture2dFloat,
        }),
        r.entries@[1] == (BindGroupEntry {
            binding: 1,
            visibility: ShaderStage::Fragment,
            kind: BindingKind::FilteringSampler,
        }),
{
    let mut entries: Vec<BindGroupEntry> = Vec::new();
    entries.push(
        BindGroupEntry {
            binding: 0,
            visibility: ShaderStage::Fragment,
            kind: BindingKind::Texture2dFloat,
        },
    );
    entries.push(
        BindGroupEntry {
            binding: 1,
            visibility: ShaderStage::Fragment,
            kind: BindingKind::FilteringSampler,
        },
    );
    BindGroupLayout { entries }
}

} // verus!
