//! The records that the GPU backend keeps for each shape and each object.
//!
//! A real number is carried as the bit pattern of its `f32` rounding; three
//! of them make a vector. Vectors inside a shape record that is followed by
//! more data are padded to sixteen bytes.
use vstd::prelude::*;
use crate::serialize::{GpuSerialize, le_bytes};

verus! {

/// Four zero bytes that pad a vector to sixteen bytes.
pub open spec fn pad4() -> Seq<u8> {
    seq![0u8, 0u8, 0u8, 0u8]
}

fn padding() -> (r: Vec<u8>)
    ensures
        r@ == pad4(),
{
    let r = vec![0u8, 0u8, 0u8, 0u8];
    assert(r@ =~= pad4());
    r
}

/// A vector as three `f32` bit patterns.
#[derive(Clone, Copy, Debug, PartialEq, Eq, Structural)]
pub struct GpuVec3 {
    pub x: u32,
    pub y: u32,
    pub z: u32,
}

impl GpuSerialize for GpuVec3 {
    open spec fn serialized(&self) -> Seq<u8> {
        le_bytes(self.x) + le_bytes(self.y) + le_bytes(self.z)
    }

    fn serialize(&self) -> (r: Vec<u8>) {
        let mut r = self.x.serialize();
        let mut y = self.y.serialize();
        let mut z = self.z.serialize();
        r.append(&mut y);
        r.append(&mut z);
        r
    }
}

/// A sphere: its center, then its radius.
#[derive(Clone, Copy, Debug, PartialEq, Eq, Structural)]
pub struct GpuSphere {
    pub position: GpuVec3,
    pub radius: u32,
}

impl GpuSerialize for GpuSphere {
    open spec fn serialized(&self) -> Seq<u8> {
        self.position.serialized() + le_bytes(self.radius)
    }

    fn serialize(&self) -> (r: Vec<u8>) {
        let mut r = self.position.serialize();
        let mut radius = self.radius.serialize();
        r.append(&mut radius);
        r
    }
}

/// A one-sided plane: a point on it, then its normal, each padded.
#[derive(Clone, Copy, Debug, PartialEq, Eq, Structural)]
pub struct GpuPlane {
    pub position: GpuVec3,
    pub normal: GpuVec3,
}

impl GpuSerialize for GpuPlane {
    open spec fn serialized(&self) -> Seq<u8> {
        self.position.serialized() + pad4() + self.normal.serialized() + pad4()
    }

    fn serialize(&self) -> (r: Vec<u8>) {
        let mut r = self.position.serialize();
        let mut pad = padding();
        let mut normal = self.normal.serialize();
        let mut pad2 = padding();
        r.append(&mut pad);
        r.append(&mut normal);
        r.append(&mut pad2);
        r
    }
}

/// A triangle: its three vertices, each padded.
#[derive(Clone, Copy, Debug)]
pub struct GpuTriangle {
    pub vertices: [GpuVec3; 3],
}

impl GpuSerialize for GpuTriangle {
    open spec fn serialized(&self) -> Seq<u8> {
        self.vertices[0].serialized() + pad4() + self.vertices[1].serialized() + pad4()
            + self.vertices[2].serialized() + pad4()
    }

    fn serialize(&self) -> (r: Vec<u8>) {
        let mut r: Vec<u8> = Vec::new();
        let mut i: usize = 0;
        while i < 3
            invariant
                i <= 3,
                r@ == (if i == 0 {
                    Seq::<u8>::empty()
                } else if i == 1 {
                    self.vertices[0].serialized() + pad4()
                } else if i == 2 {
                    self.vertices[0].serialized() + pad4() + self.vertices[1].serialized() + pad4()
                } else {
                    self.serialized()
                }),
            decreases 3 - i,
        {
            let mut v = self.vertices[i].serialize();
            let mut pad = padding();
            r.append(&mut v);
            r.append(&mut pad);
            i = i + 1;
        }
        r
    }
}

/// The material of an object as the GPU reads it.
#[derive(Clone, Copy, Debug, PartialEq, Eq, Structural)]
pub struct GpuMaterial {
    pub base_color: GpuVec3,
    pub emission_color: GpuVec3,
    pub roughness: u32,
}

/// The record of one object: base color, roughness, emission color, then the
/// number that says which kind of shape it is.
pub open spec fn object_record(material: GpuMaterial, object_id: u32) -> Seq<u8> {
    material.base_color.serialized() + le_bytes(material.roughness)
        + material.emission_color.serialized() + le_bytes(object_id)
}

impl GpuMaterial {
    /// The record of an object with this material and shape kind `object_id`.
    pub fn gpu_serialize(&self, object_id: u32) -> (r: Vec<u8>)
        ensures
            r@ == object_record(*self, object_id),
    {
        let mut r = self.base_color.serialize();
        let mut roughness = self.roughness.serialize();
        let mut emission = self.emission_color.serialize();
        let mut id = object_id.serialize();
        r.append(&mut roughness);
        r.append(&mut emission);
        r.append(&mut id);
        r
    }
}

/// A shape that the GPU backend can trace: besides its bytes, it gives the
/// WGSL declaration of its record and the WGSL bodies of its distance and
/// normal functions.
///
/// The distance body sees `current` (the record), `ray_position` and
/// `ray_direction`, and returns a `DistanceInfo(hit, distance)`. The normal
/// body sees `current` and `world_position`, and returns a unit vector.
pub trait GpuShape: GpuSerialize {
    /// The fields of the record, as (name, WGSL type), in the order of its
    /// bytes.
    fn struct_fields(&self) -> Vec<(String, String)>;

    /// WGSL body of the distance function.
    fn distance_code(&self) -> String;

    /// WGSL body of the normal function.
    fn normal_calculation_code(&self) -> String;
}

fn field(name: &str, ty: &str) -> (r: (String, String))
    ensures
        r.0@ == name@,
        r.1@ == ty@,
{
    (name.to_owned(), ty.to_owned())
}

impl GpuShape for GpuSphere {
    fn struct_fields(&self) -> Vec<(String, String)> {
        vec![field("position", "vec3<f32>"), field("radius", "f32")]
    }

    fn distance_code(&self) -> String {
        "let offset: vec3<f32> = ray_position - current.position;
let ray_dir: vec3<f32> = normalize(ray_direction);
let a: f32 = dot(ray_dir, ray_dir);
let b: f32 = 2.0 * dot(offset, ray_dir);
let c = dot(offset, offset) - current.radius * current.radius;
let discriminant: f32 = b * b - 4.0 * a * c;
if (discriminant < 1e-100) {
    return DistanceInfo(false, 0.0);
} else {
    return DistanceInfo(true, (-b - sqrt(discriminant)) / (2.0 * a));
}".to_owned()
    }

    fn normal_calculation_code(&self) -> String {
        "return normalize(world_position - current.position);".to_owned()
    }
}

impl GpuShape for GpuPlane {
    fn struct_fields(&self) -> Vec<(String, String)> {
        vec![field("position", "vec3<f32>"), field("normal", "vec3<f32>")]
    }

    fn distance_code(&self) -> String {
        "let offset: vec3<f32> = ray_position - current.position;
let norm = normalize(current.normal);
let dir = normalize(ray_direction);
if dot(dir, norm) >= 0.0 || dot(offset, norm) <= 0.0 {
    return DistanceInfo(false, 0.0);
}
let t = dot(offset, norm) / dot(norm, dir);
let intersection_point = offset + dir * t;
return DistanceInfo(true, length(offset - intersection_point));".to_owned()
    }

    fn normal_calculation_code(&self) -> String {
        "return current.normal;".to_owned()
    }
}

impl GpuShape for GpuTriangle {
    fn struct_fields(&self) -> Vec<(String, String)> {
        vec![field("vertices", "array<vec3<f32>, 3>")]
    }

    fn distance_code(&self) -> String {
        "let pos = current.vertices[0];
let r = current.vertices[1] - pos;
let s = current.vertices[2] - pos;
let normal = cross(r, s);
if (dot(normalize(ray_direction), normal) == 0.0) {
    return DistanceInfo(false, 0.0);
}
let dst = dot(normal, pos - ray_position) / dot(normalize(ray_direction), normal);
if (dst < 0.0) {
    return DistanceInfo(false, 0.0);
}
let intersection_point = ray_position + ray_direction * dst;
let p = intersection_point - pos;
var lgs1 = vec3<f32>(r.x, s.x, p.x);
var lgs2 = vec3<f32>(r.y, s.y, p.y);
var lgs3 = vec3<f32>(r.z, s.z, p.z);
if (lgs1.x == 0.0) {
    if (lgs2.x == 0.0) {
        if (lgs3.x == 0.0) {
            return DistanceInfo(false, 0.0);
        }
        let tmp = lgs3;
        lgs3 = lgs1;
        lgs1 = tmp;
    } else {
        let tmp = lgs2;
        lgs2 = lgs1;
        lgs1 = tmp;
    }
}
lgs1 /= lgs1.x;
lgs2 -= lgs1 * (lgs2.x / lgs1.x);
lgs3 -= lgs1 * (lgs3.x / lgs1.x);
if (lgs2.y == 0.0) {
    if (lgs3.y == 0.0) {
        return DistanceInfo(false, 0.0);
    }
    let tmp = lgs2;
    lgs2 = lgs3;
    lgs3 = tmp;
}
lgs2 /= lgs2.y;
lgs1 -= lgs2 * (lgs1.y / lgs2.y);
lgs3 -= lgs2 * (lgs3.y / lgs2.y);
let a = lgs1.z;
let b = lgs2.z;
if (!(0.0 <= a && a <= 1.0 && 0.0 <= b && b <= 1.0 && (a + b) <= 1.0)) {
    return DistanceInfo(false, 0.0);
}
return DistanceInfo(true, dst);".to_owned()
    }

    fn normal_calculation_code(&self) -> String {
        "let pos = current.vertices[0];
let r = current.vertices[1] - pos;
let s = current.vertices[2] - pos;
let normal = cross(r, s);
return normalize(normal);".to_owned()
    }
}

} // verus!
