//! Instance transforms.
//!
//! A transform is a 4x4 single-precision matrix, carried column-major as 16
//! IEEE-754 bit patterns. The matrix arithmetic itself is done by the math
//! library behind two trusted wrappers; everything the crate states about a
//! transformed vertex is phrased over the two names given to those products.

use vstd::prelude::*;
use crate::vertex::Vertex;

verus! {

/// Bit pattern of the IEEE-754 single-precision number one.
pub const ONE_F32_BITS: u32 = 0x3F80_0000;

/// A 4x4 transform matrix: 16 scalar bit patterns in column-major order.
#[derive(Debug, Copy, Clone)]
pub struct Matrix4 {
    pub cols: [u32; 16],
}

/// The identity matrix, column-major.
pub open spec fn identity_cols() -> Seq<u32> {
    seq![
        ONE_F32_BITS, 0u32, 0u32, 0u32,
        0u32, ONE_F32_BITS, 0u32, 0u32,
        0u32, 0u32, ONE_F32_BITS, 0u32,
        0u32, 0u32, 0u32, ONE_F32_BITS,
    ]
}

impl Matrix4 {
    /// The identity transform; new mesh instances start with it.
    pub fn identity() -> (m: Matrix4)
        ensures
            m.cols@ == identity_cols(),
    {
        let cols: [u32; 16] = [
            ONE_F32_BITS, 0, 0, 0,
            0, ONE_F32_BITS, 0, 0,
            0, 0, ONE_F32_BITS, 0,
            0, 0, 0, ONE_F32_BITS,
        ];
        let m = Matrix4 { cols };
        proof {
            assert(m.cols@ =~= identity_cols());
        }
        m
    }

    /// Wraps an already-computed column-major matrix.
    pub fn from_cols(cols: [u32; 16]) -> (m: Matrix4)
        ensures
            m.cols == cols,
    {
        Matrix4 { cols }
    }
}

/// What the math library returns for a 4x4 matrix times a 4-component
/// vector, both given as scalar bit patterns. A pure function of its
/// arguments; nothing further is assumed of it.
pub uninterp spec fn mat_vec_product(m: Seq<u32>, v: Seq<u32>) -> Seq<u32>;

/// What the math library returns when a matrix transforms a direction:
/// the translation column is ignored. A pure function of its arguments;
/// nothing further is assumed of it.
pub uninterp spec fn mat_dir_product(m: Seq<u32>, v: Seq<u32>) -> Seq<u32>;

/// Relies on nalgebra's matrix-vector multiplication (`Mat4 * Vec4`,
/// reached through nalgebra_glm): the product is a pure function of the two
/// operands' scalar values.
#[verifier::external_body]
fn mat_vec_mul(m: &[u32; 16], v: &[u32; 4]) -> (r: [u32; 4])
    ensures
        r@ == mat_vec_product(m@, v@),
{
    let mm: nalgebra_glm::Mat4 = nalgebra_glm::make_mat4(bytemuck::cast_slice(m.as_slice()));
    let vv: nalgebra_glm::Vec4 = nalgebra_glm::make_vec4(bytemuck::cast_slice(v.as_slice()));
    let p = mm * vv;
    [p.x.to_bits(), p.y.to_bits(), p.z.to_bits(), p.w.to_bits()]
}

/// Relies on nalgebra's `Matrix4::transform_vector` (reached through
/// nalgebra_glm's types): transforms a direction without applying the
/// translation column, as a pure function of the two operands.
#[verifier::external_body]
fn mat_dir_mul(m: &[u32; 16], v: &[u32; 3]) -> (r: [u32; 3])
    ensures
        r@ == mat_dir_product(m@, v@),
{
    let mm: nalgebra_glm::Mat4 = nalgebra_glm::make_mat4(bytemuck::cast_slice(m.as_slice()));
    let vv: nalgebra_glm::Vec3 = nalgebra_glm::make_vec3(bytemuck::cast_slice(v.as_slice()));
    let p = mm.transform_vector(&vv);
    [p.x.to_bits(), p.y.to_bits(), p.z.to_bits()]
}

/// A position transformed by `m`: the homogeneous product with w = 1, with
/// the w component of the result dropped.
pub open spec fn transformed_position(m: Seq<u32>, p: Seq<u32>) -> Seq<u32> {
    let h = mat_vec_product(m, p.push(ONE_F32_BITS));
    seq![h[0], h[1], h[2]]
}

/// `r` is `v` carried through the transform `m`: position via the
/// homogeneous product with w = 1, normal via the direction product that
/// leaves translation out.
pub open spec fn is_transformed(m: Seq<u32>, v: Vertex, r: Vertex) -> bool {
    &&& r.position@ == transformed_position(m, v.position@)
    &&& r.normal@ == mat_dir_product(m, v.normal@)
}

/// Applies the transform to one vertex.
pub fn transform_vertex(m: &Matrix4, v: &Vertex) -> (r: Vertex)
    ensures
        is_transformed(m.cols@, *v, r),
{
    let hom: [u32; 4] = [v.position[0], v.position[1], v.position[2], ONE_F32_BITS];
    let hp = mat_vec_mul(&m.cols, &hom);
    let n = mat_dir_mul(&m.cols, &v.normal);
    let r = Vertex { position: [hp[0], hp[1], hp[2]], normal: n };
    proof {
        assert(hom@ =~= v.position@.push(ONE_F32_BITS));
        assert(r.position@ =~= transformed_position(m.cols@, v.position@));
    }
    r
}

} // verus!
