//! Buffer kinds and the usage, visibility and binding they call for. Usage
//! and visibility are bit sets in the layout the graphics API uses.
use vstd::prelude::*;

verus! {

/// The vertex shader stage.
pub const SHADER_VERTEX: u32 = 1 << 0;

/// The fragment shader stage.
pub const SHADER_FRAGMENT: u32 = 1 << 1;

/// The compute shader stage.
pub const SHADER_COMPUTE: u32 = 1 << 2;

/// The buffer can be copied from.
pub const USAGE_COPY_SRC: u32 = 1 << 2;

/// The buffer can be copied into.
pub const USAGE_COPY_DST: u32 = 1 << 3;

/// The buffer holds indices.
pub const USAGE_INDEX: u32 = 1 << 4;

/// The buffer holds vertices.
pub const USAGE_VERTEX: u32 = 1 << 5;

/// The buffer is bound as uniforms.
pub const USAGE_UNIFORM: u32 = 1 << 6;

/// The buffer is bound as storage.
pub const USAGE_STORAGE: u32 = 1 << 7;

/// What a buffer is for.
#[derive(Clone, Copy, Debug, PartialEq, Eq, Structural)]
pub enum BufferType {
    Vertex,
    Index,
    Uniform,
    StorageRO,
    StorageRW,
}

/// How a buffer is bound to a shader.
#[derive(Clone, Copy, Debug, PartialEq, Eq, Structural)]
pub enum BufferBindingType {
    Uniform,
    Storage { read_only: bool },
}

/// The shader stages that see a buffer of type `ty`.
pub open spec fn visibility_of(ty: BufferType) -> u32 {
    match ty {
        BufferType::Vertex => SHADER_VERTEX,
        BufferType::Index => SHADER_VERTEX,
        BufferType::Uniform => SHADER_VERTEX | SHADER_FRAGMENT,
        BufferType::StorageRO | BufferType::StorageRW => SHADER_VERTEX | SHADER_FRAGMENT | SHADER_COMPUTE,
    }
}

/// The usages a buffer of type `ty` is made with.
pub open spec fn usage_of(ty: BufferType) -> u32 {
    match ty {
        BufferType::Vertex => USAGE_VERTEX,
        BufferType::Index => USAGE_INDEX,
        BufferType::Uniform => USAGE_UNIFORM | USAGE_COPY_DST,
        BufferType::StorageRO => USAGE_STORAGE | USAGE_COPY_SRC,
        BufferType::StorageRW => USAGE_STORAGE | USAGE_COPY_SRC | USAGE_COPY_DST,
    }
}

/// Whether a buffer of type `ty` can be bound to a shader; vertex and index
/// buffers go to the pipeline instead.
pub open spec fn bindable(ty: BufferType) -> bool {
    !(ty is Vertex) && !(ty is Index)
}

/// The shader stages that see a buffer of type `ty`.
pub fn get_visibility(ty: BufferType) -> (stages: u32)
    ensures
        stages == visibility_of(ty),
{
    match ty {
        BufferType::Vertex => SHADER_VERTEX,
        BufferType::Index => SHADER_VERTEX,
        BufferType::Uniform => SHADER_VERTEX | SHADER_FRAGMENT,
        BufferType::StorageRO | BufferType::StorageRW => {
            let vertex = 1 << 0;
            let fragment = 1 << 1;
            let compute = 1 << 2;
            vertex | fragment | compute
        },
    }
}

/// The usages a buffer of type `ty` is made with.
pub fn get_usage(ty: BufferType) -> (usage: u32)
    ensures
        usage == usage_of(ty),
{
    match ty {
        BufferType::Vertex => USAGE_VERTEX,
        BufferType::Index => USAGE_INDEX,
        BufferType::Uniform => {
            let uniform = 1 << 6;
            let copy_dst = 1 << 3;
            uniform | copy_dst
        },
        BufferType::StorageRO => {
            let storage = 1 << 7;
            let copy_src = 1 << 2;
            storage | copy_src
        },
        BufferType::StorageRW => {
            let storage = 1 << 7;
            let copy_src = 1 << 2;
            let copy_dst = 1 << 3;
            storage | copy_src | copy_dst
        },
    }
}

/// How a buffer of type `ty` is bound: uniforms, or storage that shaders
/// may or may not write.
pub fn get_binding_type(ty: BufferType) -> (binding: BufferBindingType)
    requires
        bindable(ty),
    ensures
        binding == match ty {
            BufferType::Uniform => BufferBindingType::Uniform,
            BufferType::StorageRO => BufferBindingType::Storage { read_only: true },
            _ => BufferBindingType::Storage { read_only: false },
        },
{
    match ty {
        BufferType::Uniform => BufferBindingType::Uniform,
        BufferType::StorageRO => BufferBindingType::Storage { read_only: true },
        _ => BufferBindingType::Storage { read_only: false },
    }
}

/// The layout entry of a buffer bound at `binding`.
pub struct BufferLayoutEntry {
    pub binding: u32,
    pub visibility: u32,
    pub ty: BufferBindingType,
    pub has_dynamic_offset: bool,
    /// The smallest size the bound buffer may have; none when the element
    /// type has no size.
    pub min_binding_size: Option<u64>,
}

/// The layout entry of a buffer of type `ty` holding one `T`, bound at
/// `binding`.
pub fn get_layout<T>(binding: u32, ty: BufferType) -> (entry: BufferLayoutEntry)
    requires
        bindable(ty),
    ensures
        entry.binding == binding,
        entry.visibility == visibility_of(ty),
        entry.ty == get_binding_type_spec(ty),
        !entry.has_dynamic_offset,
        entry.min_binding_size == if vstd::layout::size_of::<T>() == 0 {
            None
        } else {
            Some(vstd::layout::size_of::<T>() as u64)
        },
{
    let size = std::mem::size_of::<T>() as u64;
    BufferLayoutEntry {
        binding,
        visibility: get_visibility(ty),
        ty: get_binding_type(ty),
        has_dynamic_offset: false,
        min_binding_size: if size == 0 {
            None
        } else {
            Some(size)
        },
    }
}

/// How a buffer of type `ty` is bound.
pub open spec fn get_binding_type_spec(ty: BufferType) -> BufferBindingType {
    match ty {
        BufferType::Uniform => BufferBindingType::Uniform,
        BufferType::StorageRO => BufferBindingType::Storage { read_only: true },
        _ => BufferBindingType::Storage { read_only: false },
    }
}

} // verus!
