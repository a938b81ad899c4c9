//! Vectors and matrices of single-precision numbers, held as bit
//! patterns, with the arithmetic of `glam` behind them.

use vstd::prelude::*;

verus! {

/// Bit pattern of the single-precision number `0.0`.
pub const ZERO: u32 = 0;

/// Bit pattern of the single-precision number `1.0`.
pub const ONE: u32 = 0x3f80_0000;

/// Bit pattern of the single-precision number `-1.0`.
pub const MINUS_ONE: u32 = 0xbf80_0000;

/// The number that a single-precision bit pattern stands for.
///
/// Two patterns stand for the same number exactly when they are equal, with
/// one exception: every not-a-number pattern stands for the same value,
/// whatever its sign and payload.
pub open spec fn number(bits: u32) -> u32 {
    if bits % 0x8000_0000 > 0x7f80_0000 {
        0x7fc0_0000
    } else {
        bits
    }
}

/// The numbers that a sequence of bit patterns stands for.
pub open spec fn numbers(bits: Seq<u32>) -> Seq<u32> {
    bits.map_values(|b: u32| number(b))
}

/// A vector of three single-precision numbers, each held as its bit pattern.
#[derive(Clone, Copy, Debug)]
pub struct Vec3 {
    pub x: u32,
    pub y: u32,
    pub z: u32,
}

/// A vector of four single-precision numbers, each held as its bit pattern.
#[derive(Clone, Copy, Debug)]
pub struct Vec4 {
    pub x: u32,
    pub y: u32,
    pub z: u32,
    pub w: u32,
}

/// A 4x4 matrix of single-precision numbers in column-major order, each held
/// as its bit pattern.
#[derive(Clone, Copy, Debug)]
pub struct Mat4 {
    pub cols: [u32; 16],
}

/// The product `a * b` of two 4x4 matrices, each given by its sixteen numbers
/// in column-major order, as single-precision arithmetic gives it: each
/// column of the result is the sum, taken from the first column of `a` on,
/// of the columns of `a` scaled by the numbers of the column of `b`.
pub uninterp spec fn mat4_product(a: Seq<u32>, b: Seq<u32>) -> Seq<u32>;

/// The image of the point `p` under the affine transform `m`, as
/// single-precision arithmetic gives it: the first three components of
/// `m * (p.x, p.y, p.z, 1)`.
pub uninterp spec fn point_image(m: Seq<u32>, p: Seq<u32>) -> Seq<u32>;

/// The product `m * v` of a 4x4 matrix and a vector of four numbers, as
/// single-precision arithmetic gives it.
pub uninterp spec fn vec4_image(m: Seq<u32>, v: Seq<u32>) -> Seq<u32>;

/// The right-handed view matrix of a camera that stands at `eye`, looks at
/// `center` and has `up` above it, as single-precision arithmetic gives
/// it, by its sixteen numbers in column-major order.
pub uninterp spec fn look_at_view(eye: Seq<u32>, center: Seq<u32>, up: Seq<u32>) -> Seq<u32>;

/// Whether sixteen numbers have the shape of a right-handed perspective
/// projection with depth range `[0, 1]`: off the diagonal all is zero but
/// for the two numbers that tie depth to the fourth component, of which
/// the one in the third column is `-1`; the last number is zero.
pub open spec fn perspective_shape(m: Seq<u32>) -> bool {
    &&& m.len() == 16
    &&& m[1] == ZERO && m[2] == ZERO && m[3] == ZERO
    &&& m[4] == ZERO && m[6] == ZERO && m[7] == ZERO
    &&& m[8] == ZERO && m[9] == ZERO && m[11] == MINUS_ONE
    &&& m[12] == ZERO && m[13] == ZERO && m[15] == ZERO
}

impl View for Vec3 {
    type V = Seq<u32>;

    open spec fn view(&self) -> Seq<u32> {
        seq![number(self.x), number(self.y), number(self.z)]
    }
}

impl View for Vec4 {
    type V = Seq<u32>;

    open spec fn view(&self) -> Seq<u32> {
        seq![number(self.x), number(self.y), number(self.z), number(self.w)]
    }
}

impl View for Mat4 {
    type V = Seq<u32>;

    open spec fn view(&self) -> Seq<u32> {
        numbers(self.cols@)
    }
}

impl Vec3 {
    /// The vector whose components are the three patterns of `a`.
    pub fn from_array(a: [u32; 3]) -> (v: Vec3)
        ensures
            v == (Vec3 { x: a[0], y: a[1], z: a[2] }),
            v@ == numbers(a@),
    {
        let v = Vec3 { x: a[0], y: a[1], z: a[2] };
        assert(v@ =~= numbers(a@));
        v
    }

    /// The three patterns of the vector, in order.
    pub fn to_array(&self) -> (a: [u32; 3])
        ensures
            a@ == seq![self.x, self.y, self.z],
            numbers(a@) == self@,
    {
        let a = [self.x, self.y, self.z];
        assert(a@ =~= seq![self.x, self.y, self.z]);
        assert(numbers(a@) =~= self@);
        a
    }

    /// The unit vector along the second axis.
    pub fn unit_y() -> (v: Vec3)
        ensures
            v == (Vec3 { x: ZERO, y: ONE, z: ZERO }),
    {
        Vec3 { x: ZERO, y: ONE, z: ZERO }
    }

    /// The vector `(self.x, self.y, self.z, w)`.
    pub fn extend(&self, w: u32) -> (v: Vec4)
        ensures
            v == (Vec4 { x: self.x, y: self.y, z: self.z, w }),
    {
        Vec4 { x: self.x, y: self.y, z: self.z, w }
    }
}

impl Vec4 {
    /// The first three components.
    pub fn truncate(&self) -> (v: Vec3)
        ensures
            v == (Vec3 { x: self.x, y: self.y, z: self.z }),
            v@ == self@.take(3),
    {
        let v = Vec3 { x: self.x, y: self.y, z: self.z };
        assert(v@ =~= self@.take(3));
        v
    }
}

impl Mat4 {
    /// The sixteen numbers of the identity matrix.
    pub open spec fn identity_numbers() -> Seq<u32> {
        seq![ONE, ZERO, ZERO, ZERO, ZERO, ONE, ZERO, ZERO, ZERO, ZERO, ONE, ZERO, ZERO, ZERO, ZERO, ONE]
    }

    /// The sixteen numbers of the translation by `t`.
    pub open spec fn translation_numbers(t: Seq<u32>) -> Seq<u32> {
        seq![ONE, ZERO, ZERO, ZERO, ZERO, ONE, ZERO, ZERO, ZERO, ZERO, ONE, ZERO, t[0], t[1], t[2], ONE]
    }

    /// The identity matrix.
    pub fn identity() -> (m: Mat4)
        ensures
            m@ == Self::identity_numbers(),
    {
        let m = Mat4 {
            cols: [ONE, ZERO, ZERO, ZERO, ZERO, ONE, ZERO, ZERO, ZERO, ZERO, ONE, ZERO, ZERO, ZERO, ZERO, ONE],
        };
        assert(m@ =~= Self::identity_numbers());
        m
    }

    /// The matrix that moves every point by `translation`.
    pub fn from_translation(translation: Vec3) -> (m: Mat4)
        ensures
            m@ == Self::translation_numbers(translation@),
    {
        let m = Mat4 {
            cols: [
                ONE, ZERO, ZERO, ZERO,
                ZERO, ONE, ZERO, ZERO,
                ZERO, ZERO, ONE, ZERO,
                translation.x, translation.y, translation.z, ONE,
            ],
        };
        assert(m@ =~= Self::translation_numbers(translation@));
        m
    }

    /// Calls `glam::Mat4::mul_mat4`. The numbers of the result are those of the
    /// matrix product of the two arguments, which glam computes from their
    /// numbers alone, column by column, in single-precision arithmetic.
    #[verifier::external_body]
    pub(crate) fn mul_mat4(&self, rhs: &Mat4) -> (r: Mat4)
        ensures
            r@ == mat4_product(self@, rhs@),
    {
        let a = glam::Mat4::from_cols_array(&bytemuck::cast(self.cols));
        let b = glam::Mat4::from_cols_array(&bytemuck::cast(rhs.cols));
        Mat4 { cols: bytemuck::cast(a.mul_mat4(&b).to_cols_array()) }
    }

    /// Calls `glam::Mat4::transform_point3`. The numbers of the result are
    /// those of the image of the point, which glam computes from the numbers
    /// of the matrix and of the point alone.
    #[verifier::external_body]
    pub(crate) fn transform_point3(&self, rhs: Vec3) -> (r: Vec3)
        ensures
            r@ == point_image(self@, rhs@),
    {
        let m = glam::Mat4::from_cols_array(&bytemuck::cast(self.cols));
        let p = glam::Vec3::from_array(bytemuck::cast([rhs.x, rhs.y, rhs.z]));
        let [x, y, z]: [u32; 3] = bytemuck::cast(m.transform_point3(p).to_array());
        Vec3 { x, y, z }
    }

    /// Calls `glam::Mat4::mul_vec4`. The numbers of the result are those of
    /// the product of the matrix and the vector, which glam computes from
    /// their numbers alone.
    #[verifier::external_body]
    pub(crate) fn mul_vec4(&self, rhs: Vec4) -> (r: Vec4)
        ensures
            r@ == vec4_image(self@, rhs@),
    {
        let m = glam::Mat4::from_cols_array(&bytemuck::cast(self.cols));
        let v = glam::Vec4::from_array(bytemuck::cast([rhs.x, rhs.y, rhs.z, rhs.w]));
        let [x, y, z, w]: [u32; 4] = bytemuck::cast(m.mul_vec4(v).to_array());
        Vec4 { x, y, z, w }
    }

    /// Calls `glam::Mat4::look_at_rh`: a right-handed view matrix for a camera
    /// at `eye` that looks at `center`. The numbers of the result are those
    /// of that view matrix, which glam computes from the numbers of the three
    /// vectors alone, with differences, products, a square root and a
    /// reciprocal on single components.
    #[verifier::external_body]
    pub(crate) fn look_at_rh(eye: Vec3, center: Vec3, up: Vec3) -> (r: Mat4)
        ensures
            r@ == look_at_view(eye@, center@, up@),
    {
        let e = glam::Vec3::from_array(bytemuck::cast([eye.x, eye.y, eye.z]));
        let c = glam::Vec3::from_array(bytemuck::cast([center.x, center.y, center.z]));
        let u = glam::Vec3::from_array(bytemuck::cast([up.x, up.y, up.z]));
        Mat4 { cols: bytemuck::cast(glam::Mat4::look_at_rh(e, c, u).to_cols_array()) }
    }

    /// Calls `glam::Mat4::perspective_rh`: a right-handed perspective
    /// projection with depth range `[0, 1]`. The result has the shape of
    /// such a projection: glam writes the twelve numbers of that shape as
    /// constants. Nothing is claimed of the other four, which come from a
    /// sine and a cosine.
    #[verifier::external_body]
    pub(crate) fn perspective_rh(fov_y_radians: u32, aspect_ratio: u32, z_near: u32, z_far: u32) -> (r: Mat4)
        ensures
            perspective_shape(r@),
    {
        let [fov, aspect, near, far] = bytemuck::cast([fov_y_radians, aspect_ratio, z_near, z_far]);
        Mat4 { cols: bytemuck::cast(glam::Mat4::perspective_rh(fov, aspect, near, far).to_cols_array()) }
    }
}

/// Puts `more` behind the words that `words` holds.
pub fn push_words(words: &mut Vec<u32>, more: &[u32])
    ensures
        final(words)@ == old(words)@ + more@,
{
    let mut k: usize = 0;
    assert(more@.take(0) =~= Seq::<u32>::empty());
    while k < more.len()
        invariant
            k <= more.len(),
            words@ == old(words)@ + more@.take(k as int),
        decreases more.len() - k,
    {
        words.push(more[k]);
        assert(more@.take(k + 1) =~= more@.take(k as int).push(more[k as int]));
        k += 1;
    }
    assert(more@.take(more.len() as int) =~= more@);
}

} // verus!
