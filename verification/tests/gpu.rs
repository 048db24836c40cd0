use pony_renderer::gpu::buffer::{
    get_binding_type, get_layout, get_usage, get_visibility, BufferBindingType, BufferType,
};
use pony_renderer::gpu::texture::{get_bytes_per_row, size_differs, size_of, yuv420_plane_sizes, TextureFormat};

#[test]
fn buffer_usages() {
    assert_eq!(get_usage(BufferType::Vertex), 1 << 5);
    assert_eq!(get_usage(BufferType::Index), 1 << 4);
    assert_eq!(get_usage(BufferType::Uniform), (1 << 6) | (1 << 3));
    assert_eq!(get_usage(BufferType::StorageRO), (1 << 7) | (1 << 2));
    assert_eq!(get_usage(BufferType::StorageRW), (1 << 7) | (1 << 2) | (1 << 3));
}

#[test]
fn buffer_visibility() {
    assert_eq!(get_visibility(BufferType::Vertex), 1);
    assert_eq!(get_visibility(BufferType::Index), 1);
    assert_eq!(get_visibility(BufferType::Uniform), 3);
    assert_eq!(get_visibility(BufferType::StorageRO), 7);
    assert_eq!(get_visibility(BufferType::StorageRW), 7);
}

#[test]
fn buffer_bindings() {
    assert_eq!(get_binding_type(BufferType::Uniform), BufferBindingType::Uniform);
    assert_eq!(get_binding_type(BufferType::StorageRO), BufferBindingType::Storage { read_only: true });
    assert_eq!(get_binding_type(BufferType::StorageRW), BufferBindingType::Storage { read_only: false });
    let entry = get_layout::<[u32; 16]>(3, BufferType::Uniform);
    assert_eq!(entry.binding, 3);
    assert_eq!(entry.visibility, 3);
    assert_eq!(entry.min_binding_size, Some(64));
    assert!(!entry.has_dynamic_offset);
    assert_eq!(get_layout::<()>(0, BufferType::StorageRO).min_binding_size, None);
}

#[test]
fn texture_rows() {
    assert_eq!(size_of::<u16>(), 2);
    assert_eq!(get_bytes_per_row(TextureFormat::Depth32Float, 10), Some(40));
    assert_eq!(get_bytes_per_row(TextureFormat::R8Unorm, 10), Some(10));
    assert_eq!(get_bytes_per_row(TextureFormat::Rgba8Unorm, 10), Some(40));
}

#[test]
fn texture_sizes() {
    assert_eq!(yuv420_plane_sizes(1920, 1081), ((1920, 1081), (960, 540)));
    assert!(size_differs(512, 512, 1920, 512));
    assert!(!size_differs(512, 521, 512, 521));
}
