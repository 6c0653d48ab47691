//! 4x4 matrices in homogeneous coordinates.
use crate::scalar::Scalar;
use crate::vector::Vector;
use vstd::prelude::*;

verus! {

/// Four rows of four entries. Any content is legal: the bottom row is
/// `[0, 0, 0, 1]` for the affine matrices built here, and nothing enforces it.
#[derive(Clone, Copy, Debug)]
pub struct Matrix {
    /// The entries, row by row.
    pub data: [[Scalar; 4]; 4],
}

impl Matrix {
    /// The entry in row `row` and column `col`.
    pub open spec fn at(self, row: int, col: int) -> Scalar {
        self.data[row][col]
    }

    /// The matrix with rows and columns swapped.
    pub open spec fn spec_transposed(&self) -> Matrix {
        Matrix {
            data: [
                [self.at(0, 0), self.at(1, 0), self.at(2, 0), self.at(3, 0)],
                [self.at(0, 1), self.at(1, 1), self.at(2, 1), self.at(3, 1)],
                [self.at(0, 2), self.at(1, 2), self.at(2, 2), self.at(3, 2)],
                [self.at(0, 3), self.at(1, 3), self.at(2, 3), self.at(3, 3)],
            ],
        }
    }

    /// The entry of the identity matrix in row `row` and column `col`.
    pub open spec fn identity_entry(row: int, col: int) -> Scalar {
        if row == col {
            Scalar::spec_one()
        } else {
            Scalar::spec_zero()
        }
    }

    /// Every entry is `+0.0`.
    pub open spec fn is_zero_matrix(self) -> bool {
        forall|i: int, j: int| 0 <= i < 4 && 0 <= j < 4 ==> self.at(i, j) == Scalar::spec_zero()
    }

    /// `1.0` on the diagonal and `+0.0` everywhere else.
    pub open spec fn is_identity(self) -> bool {
        forall|i: int, j: int|
            0 <= i < 4 && 0 <= j < 4 ==> self.at(i, j) == Matrix::identity_entry(i, j)
    }

    /// Creates a matrix with all entries set to `+0.0`.
    ///
    /// ```text
    /// [0  0  0  0]
    /// [0  0  0  0]
    /// [0  0  0  0]
    /// [0  0  0  0]
    /// ```
    pub fn new() -> (m: Matrix)
        ensures
            m.is_zero_matrix(),
    {
        let o = Scalar::zero();
        Matrix { data: [[o, o, o, o], [o, o, o, o], [o, o, o, o], [o, o, o, o]] }
    }

    /// Creates the identity matrix.
    ///
    /// ```text
    /// [1  0  0  0]
    /// [0  1  0  0]
    /// [0  0  1  0]
    /// [0  0  0  1]
    /// ```
    pub fn identity() -> (m: Matrix)
        ensures
            m.is_identity(),
    {
        let o = Scalar::zero();
        let i = Scalar::one();
        Matrix { data: [[i, o, o, o], [o, i, o, o], [o, o, i, o], [o, o, o, i]] }
    }

    /// Lays out a view matrix from a camera basis and the camera's offset
    /// along that basis.
    ///
    /// ```text
    /// [side.x     side.x     side.x     offset.x]
    /// [up.y       up.y       up.y       offset.y]
    /// [forward.z  forward.z  forward.z  offset.z]
    /// [0          0          0          1       ]
    /// ```
    ///
    /// Each of the first three rows repeats one component of its basis vector
    /// across three columns. This is not the camera matrix of the textbooks,
    /// which holds the whole vector in the row (`side.x side.y side.z`, and
    /// so on); a caller who needs that one has to assemble it by hand.
    pub fn view(side: Vector, up: Vector, forward: Vector, offset: Vector) -> (m: Matrix)
        ensures
            m.data == [
                [side.x, side.x, side.x, offset.x],
                [up.y, up.y, up.y, offset.y],
                [forward.z, forward.z, forward.z, offset.z],
                [Scalar::spec_zero(), Scalar::spec_zero(), Scalar::spec_zero(), Scalar::spec_one()],
            ],
    {
        let o = Scalar::zero();
        let i = Scalar::one();
        Matrix {
            data: [
                [side.x, side.x, side.x, offset.x],
                [up.y, up.y, up.y, offset.y],
                [forward.z, forward.z, forward.z, offset.z],
                [o, o, o, i],
            ],
        }
    }

    /// Lays out a perspective projection from its four computed entries.
    ///
    /// ```text
    /// [x_scale  0        0            0           ]
    /// [0        y_scale  0            0           ]
    /// [0        0        depth_scale  depth_offset]
    /// [0        0        1            0           ]
    /// ```
    pub fn projection(
        x_scale: Scalar,
        y_scale: Scalar,
        depth_scale: Scalar,
        depth_offset: Scalar,
    ) -> (m: Matrix)
        ensures
            m.data == [
                [x_scale, Scalar::spec_zero(), Scalar::spec_zero(), Scalar::spec_zero()],
                [Scalar::spec_zero(), y_scale, Scalar::spec_zero(), Scalar::spec_zero()],
                [Scalar::spec_zero(), Scalar::spec_zero(), depth_scale, depth_offset],
                [Scalar::spec_zero(), Scalar::spec_zero(), Scalar::spec_one(), Scalar::spec_zero()],
            ],
    {
        let o = Scalar::zero();
        let i = Scalar::one();
        Matrix {
            data: [
                [x_scale, o, o, o],
                [o, y_scale, o, o],
                [o, o, depth_scale, depth_offset],
                [o, o, i, o],
            ],
        }
    }

    /// Lays out a frustum matrix from its six computed entries.
    ///
    /// ```text
    /// [x_scale  0        x_shift      0           ]
    /// [0        y_scale  y_shift      0           ]
    /// [0        0        depth_scale  depth_offset]
    /// [0        0        -1           0           ]
    /// ```
    pub fn frustum(
        x_scale: Scalar,
        x_shift: Scalar,
        y_scale: Scalar,
        y_shift: Scalar,
        depth_scale: Scalar,
        depth_offset: Scalar,
    ) -> (m: Matrix)
        ensures
            m.data == [
                [x_scale, Scalar::spec_zero(), x_shift, Scalar::spec_zero()],
                [Scalar::spec_zero(), y_scale, y_shift, Scalar::spec_zero()],
                [Scalar::spec_zero(), Scalar::spec_zero(), depth_scale, depth_offset],
                [
                    Scalar::spec_zero(),
                    Scalar::spec_zero(),
                    Scalar::spec_one().spec_neg(),
                    Scalar::spec_zero(),
                ],
            ],
    {
        let o = Scalar::zero();
        let minus_one = Scalar::one().neg();
        Matrix {
            data: [
                [x_scale, o, x_shift, o],
                [o, y_scale, y_shift, o],
                [o, o, depth_scale, depth_offset],
                [o, o, minus_one, o],
            ],
        }
    }

    /// Creates the matrix of a translation by `delta`: the identity with
    /// `delta` in the first three rows of the last column.
    pub fn translate(delta: Vector) -> (m: Matrix)
        ensures
            forall|i: int, j: int|
                0 <= i < 4 && 0 <= j < 4 ==> m.at(i, j) == if j == 3 && i < 3 {
                    delta.component(i)
                } else {
                    Matrix::identity_entry(i, j)
                },
    {
        let o = Scalar::zero();
        let i = Scalar::one();
        Matrix {
            data: [[i, o, o, delta.x], [o, i, o, delta.y], [o, o, i, delta.z], [o, o, o, i]],
        }
    }

    /// Lays out the rotation about the x axis whose angle has the sine `sin`
    /// and the cosine `cos`.
    ///
    /// ```text
    /// [1  0    0     0]
    /// [0  cos  -sin  0]
    /// [0  sin  cos   0]
    /// [0  0    0     1]
    /// ```
    pub fn rot_x(sin: Scalar, cos: Scalar) -> (m: Matrix)
        ensures
            m.data == [
                [Scalar::spec_one(), Scalar::spec_zero(), Scalar::spec_zero(), Scalar::spec_zero()],
                [Scalar::spec_zero(), cos, sin.spec_neg(), Scalar::spec_zero()],
                [Scalar::spec_zero(), sin, cos, Scalar::spec_zero()],
                [Scalar::spec_zero(), Scalar::spec_zero(), Scalar::spec_zero(), Scalar::spec_one()],
            ],
    {
        let o = Scalar::zero();
        let i = Scalar::one();
        Matrix { data: [[i, o, o, o], [o, cos, sin.neg(), o], [o, sin, cos, o], [o, o, o, i]] }
    }

    /// Lays out the rotation about the y axis whose angle has the sine `sin`
    /// and the cosine `cos`.
    ///
    /// ```text
    /// [cos   0  sin  0]
    /// [0     1  0    0]
    /// [-sin  0  cos  0]
    /// [0     0  0    1]
    /// ```
    pub fn rot_y(sin: Scalar, cos: Scalar) -> (m: Matrix)
        ensures
            m.data == [
                [cos, Scalar::spec_zero(), sin, Scalar::spec_zero()],
                [Scalar::spec_zero(), Scalar::spec_one(), Scalar::spec_zero(), Scalar::spec_zero()],
                [sin.spec_neg(), Scalar::spec_zero(), cos, Scalar::spec_zero()],
                [Scalar::spec_zero(), Scalar::spec_zero(), Scalar::spec_zero(), Scalar::spec_one()],
            ],
    {
        let o = Scalar::zero();
        let i = Scalar::one();
        Matrix { data: [[cos, o, sin, o], [o, i, o, o], [sin.neg(), o, cos, o], [o, o, o, i]] }
    }

    /// Lays out the rotation about the z axis whose angle has the sine `sin`
    /// and the cosine `cos`.
    ///
    /// ```text
    /// [cos  -sin  0  0]
    /// [sin  cos   0  0]
    /// [0    0     1  0]
    /// [0    0     0  1]
    /// ```
    pub fn rot_z(sin: Scalar, cos: Scalar) -> (m: Matrix)
        ensures
            m.data == [
                [cos, sin.spec_neg(), Scalar::spec_zero(), Scalar::spec_zero()],
                [sin, cos, Scalar::spec_zero(), Scalar::spec_zero()],
                [Scalar::spec_zero(), Scalar::spec_zero(), Scalar::spec_one(), Scalar::spec_zero()],
                [Scalar::spec_zero(), Scalar::spec_zero(), Scalar::spec_zero(), Scalar::spec_one()],
            ],
    {
        let o = Scalar::zero();
        let i = Scalar::one();
        Matrix { data: [[cos, sin.neg(), o, o], [sin, cos, o, o], [o, o, i, o], [o, o, o, i]] }
    }

    /// Returns the matrix mirrored along its diagonal, so that rows and
    /// columns are swapped. The receiver is left as it is.
    #[verifier::when_used_as_spec(spec_transposed)]
    pub fn transposed(&self) -> (m: Matrix)
        ensures
            m == self.spec_transposed(),
            forall|i: int, j: int| 0 <= i < 4 && 0 <= j < 4 ==> m.at(i, j) == self.at(j, i),
    {
        let d = &self.data;
        Matrix {
            data: [
                [d[0][0], d[1][0], d[2][0], d[3][0]],
                [d[0][1], d[1][1], d[2][1], d[3][1]],
                [d[0][2], d[1][2], d[2][2], d[3][2]],
                [d[0][3], d[1][3], d[2][3], d[3][3]],
            ],
        }
    }

    /// Transposing twice gives the matrix back.
    pub proof fn lemma_transposed_twice(self)
        ensures
            self.spec_transposed().spec_transposed() == self,
    {
        let once = self.spec_transposed();
        let back = once.spec_transposed();
        assert forall|i: int| 0 <= i < 4 implies back.data[i] == self.data[i] by {
            assert(forall|j: int| 0 <= j < 4 ==> once.at(j, i) == self.at(i, j));
            assert(back.data[i] =~= self.data[i]);
        }
        assert(back.data =~= self.data);
    }
}

impl Matrix {
    /// A mutable borrow of the row at `index`. Whatever is written through it
    /// replaces that row and no other.
    pub fn row_mut(&mut self, index: usize) -> (r: &mut [Scalar; 4])
        requires
            index < 4,
        ensures
            *r == old(self).data[index as int],
            final(self).data@ == old(self).data@.update(index as int, *final(r)),
    {
        &mut self.data[index]
    }
}

impl std::ops::Index<usize> for Matrix {
    type Output = [Scalar; 4];

    /// The row at `index`.
    fn index(&self, index: usize) -> (r: &[Scalar; 4])
        ensures
            *r == self.data[index as int],
    {
        &self.data[index]
    }
}

impl vstd::std_specs::core::IndexSpecImpl<usize> for Matrix {
    open spec fn index_req(&self, index: &usize) -> bool {
        *index < 4
    }
}

impl std::ops::Deref for Matrix {
    type Target = [[Scalar; 4]; 4];

    /// The rows themselves.
    fn deref(&self) -> (r: &[[Scalar; 4]; 4])
        ensures
            *r == self.data,
    {
        &self.data
    }
}

} // verus!
