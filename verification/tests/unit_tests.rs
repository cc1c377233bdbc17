//! Unit tests of the staging-buffer abstraction and SPIR-V decoding.

use idek::EngineError;
use idek::Settings;
use idek::engine::Blend;
use idek::engine::Engine;
use idek::engine::Primitive;
use idek::spirv::decode_spv;
use idek::upload::UploadBuffer;

/// Little-endian bytes of the SPIR-V magic number.
const MAGIC_LE: [u8; 4] = [0x03, 0x02, 0x23, 0x07];

/// Byte-swapped bytes of the SPIR-V magic number.
const MAGIC_BE: [u8; 4] = [0x07, 0x23, 0x02, 0x03];

#[test]
fn upload_buffer_static_rejects_writes() {
    let mut b: UploadBuffer<u32> = UploadBuffer::new(&[1, 2, 3], 2, false);
    assert!(matches!(b.write(0, &[4, 5, 6]), Err(EngineError::StaticWrite)));
    assert_eq!(b.buffer(0), &vec![1, 2, 3]);
    assert_eq!(b.buffer(1), &vec![1, 2, 3]);
}

#[test]
fn upload_buffer_dynamic_writes_one_slot() {
    let mut b: UploadBuffer<u32> = UploadBuffer::new(&[1, 2, 3], 2, true);
    b.write(1, &[7, 8, 9]).unwrap();
    assert_eq!(b.buffer(0), &vec![1, 2, 3]);
    assert_eq!(b.buffer(1), &vec![7, 8, 9]);
    b.write(0, &[4, 5, 6]).unwrap();
    assert_eq!(b.buffer(0), &vec![4, 5, 6]);
    assert_eq!(b.buffer(1), &vec![7, 8, 9]);
}

#[test]
fn upload_buffer_new_empty_is_filled() {
    let b: UploadBuffer<u32> = UploadBuffer::new_empty(0, 4, 3, true);
    for s in 0..3 {
        assert_eq!(b.buffer(s), &vec![0, 0, 0, 0]);
    }
    let b: UploadBuffer<u32> = UploadBuffer::new_empty(9, 2, 3, false);
    assert_eq!(b.buffer(0), &vec![9, 9]);
}

#[test]
fn spirv_little_endian_decodes() {
    let mut bytes = Vec::new();
    bytes.extend_from_slice(&MAGIC_LE);
    bytes.extend_from_slice(&[0x78, 0x56, 0x34, 0x12]);
    let words = decode_spv(&bytes).unwrap();
    assert_eq!(words, vec![0x0723_0203, 0x1234_5678]);
}

#[test]
fn spirv_byte_swapped_decodes() {
    let mut bytes = Vec::new();
    bytes.extend_from_slice(&MAGIC_BE);
    bytes.extend_from_slice(&[0x12, 0x34, 0x56, 0x78]);
    let words = decode_spv(&bytes).unwrap();
    assert_eq!(words, vec![0x0723_0203, 0x1234_5678]);
}

#[test]
fn spirv_malformed_is_rejected() {
    // Not 4-byte aligned.
    assert!(matches!(
        decode_spv(&[0x03, 0x02, 0x23]),
        Err(EngineError::InvalidShaderBytes)
    ));
    // Empty.
    assert!(matches!(decode_spv(&[]), Err(EngineError::InvalidShaderBytes)));
    // Wrong magic number.
    assert!(matches!(
        decode_spv(&[0xde, 0xad, 0xbe, 0xef]),
        Err(EngineError::InvalidShaderBytes)
    ));
}

#[test]
fn shader_creation_validates_bytecode() {
    let settings: Settings = Settings::default();
    let mut e = Engine::new(&settings, 2).unwrap();

    let good = MAGIC_LE;
    let bad = [0xffu8, 0xff, 0xff, 0xff];

    assert!(matches!(
        e.shader(&bad, &good, Primitive::Triangles, Blend::Opaque),
        Err(EngineError::InvalidShaderBytes)
    ));
    assert!(matches!(
        e.shader(&good, &bad, Primitive::Lines, Blend::Additive),
        Err(EngineError::InvalidShaderBytes)
    ));

    let s1 = e.shader(&good, &good, Primitive::Triangles, Blend::Opaque).unwrap();
    let s2 = e.shader(&good, &good, Primitive::Points, Blend::Additive).unwrap();
    assert_ne!(s1, s2);
    assert_ne!(s1, e.default_shader_key);
}
