use rtx::gpu::{GpuMaterial, GpuPlane, GpuShape, GpuSphere, GpuTriangle, GpuVec3};
use rtx::serialize::GpuSerialize;

fn v(x: f32, y: f32, z: f32) -> GpuVec3 {
    GpuVec3 { x: x.to_bits(), y: y.to_bits(), z: z.to_bits() }
}

fn bytes(vals: &[f32]) -> Vec<u8> {
    vals.iter().flat_map(|f| f.to_le_bytes()).collect()
}

#[test]
fn u32_is_little_endian() {
    assert_eq!(0x0403_0201u32.serialize(), vec![1, 2, 3, 4]);
    assert_eq!(7u32.serialized_size(), 4);
}

#[test]
fn vector_is_three_f32() {
    assert_eq!(v(1.0, 2.0, -3.5).serialize(), bytes(&[1.0, 2.0, -3.5]));
}

#[test]
fn sphere_record() {
    let s = GpuSphere { position: v(5.0, 0.0, 0.0), radius: 1.0f32.to_bits() };
    assert_eq!(s.serialize(), bytes(&[5.0, 0.0, 0.0, 1.0]));
    assert_eq!(s.serialized_size(), 16);
    assert_eq!(s.struct_fields().len(), 2);
}

#[test]
fn plane_record_is_padded() {
    let p = GpuPlane { position: v(1.0, 2.0, 3.0), normal: v(0.0, 0.0, 1.0) };
    let mut expected = bytes(&[1.0, 2.0, 3.0]);
    expected.extend([0u8; 4]);
    expected.extend(bytes(&[0.0, 0.0, 1.0]));
    expected.extend([0u8; 4]);
    assert_eq!(p.serialize(), expected);
    assert_eq!(p.normal_calculation_code(), "return current.normal;");
}

#[test]
fn triangle_record_is_padded() {
    let t = GpuTriangle { vertices: [v(0.0, 0.0, 0.0), v(1.0, 0.0, 0.0), v(0.0, 1.0, 0.0)] };
    let out = t.serialize();
    assert_eq!(out.len(), 48);
    assert_eq!(&out[16..28], &bytes(&[1.0, 0.0, 0.0])[..]);
    assert_eq!(&out[28..32], &[0u8; 4]);
    assert!(t.distance_code().contains("DistanceInfo"));
}

#[test]
fn object_record_layout() {
    let m = GpuMaterial {
        base_color: v(0.5, 0.25, 1.0),
        emission_color: v(1.0, 1.0, 1.0),
        roughness: 0.75f32.to_bits(),
    };
    let mut expected = bytes(&[0.5, 0.25, 1.0, 0.75, 1.0, 1.0, 1.0]);
    expected.extend(2u32.to_le_bytes());
    assert_eq!(m.gpu_serialize(2), expected);
}
