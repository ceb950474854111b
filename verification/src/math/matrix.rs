use vstd::prelude::*;

use crate::math::{Cos, One, Scalar, Sin, ToRadians, Vector3, Vector4, Zero};

verus! {

/// A fixed-dimension matrix, indexed row first. The dimensions are type
/// parameters; the storage is a row-major vector of rows whose shape is
/// the well-formedness invariant [`Matrix::wf`].
pub struct Matrix<T, const R: usize, const C: usize> {
    elements: Vec<Vec<T>>,
}

pub type Matrix4x4<T> = Matrix<T, 4, 4>;

/// Column `j` of a model matrix.
pub open spec fn col_m(b: Seq<Seq<int>>, j: int) -> Seq<int> {
    Seq::new(b.len(), |k: int| b[k][j])
}

/// The first `n` terms of the dot product fold `sum = add(sum, mul(r[k], c[k]))`,
/// starting from zero, over the model operations of `T`.
pub open spec fn dot_t_prefix<T: Scalar>(r: Seq<int>, c: Seq<int>, n: int) -> int
    decreases n,
{
    if n <= 0 {
        0
    } else {
        T::add_m(dot_t_prefix::<T>(r, c, n - 1), T::mul_m(r[n - 1], c[n - 1]))
    }
}

/// The dot product of two rows over the model operations of `T`.
pub open spec fn dot_t<T: Scalar>(r: Seq<int>, c: Seq<int>) -> int {
    dot_t_prefix::<T>(r, c, r.len() as int)
}

/// The matrix product over the model operations of `T`; `cols` is the
/// column count of `b`.
pub open spec fn mm_t<T: Scalar>(a: Seq<Seq<int>>, b: Seq<Seq<int>>, cols: int) -> Seq<Seq<int>> {
    Seq::new(a.len(), |i: int| Seq::new(cols as nat, |j: int| dot_t::<T>(a[i], col_m(b, j))))
}

/// The identity model matrix.
pub open spec fn ident_m<T: Scalar + One>(rows: int, cols: int) -> Seq<Seq<int>> {
    Seq::new(
        rows as nat,
        |i: int| Seq::new(cols as nat, |j: int| if i == j {
            T::one_m()
        } else {
            0
        }),
    )
}

impl<T: Scalar, const R: usize, const C: usize> Matrix<T, R, C> {
    /// The storage has exactly `R` rows of `C` elements.
    pub closed spec fn wf(self) -> bool {
        self.elements@.len() == R && forall|i: int|
            0 <= i < R ==> (#[trigger] self.elements@[i])@.len() == C
    }

    /// The models of the entries, as a sequence of rows.
    pub closed spec fn view_m(self) -> Seq<Seq<int>> {
        Seq::new(R as nat, |i: int| Seq::new(C as nat, |j: int| self.elements@[i]@[j].m()))
    }

    pub fn new(elements: Vec<Vec<T>>) -> (r: Self)
        requires
            elements@.len() == R,
            forall|i: int| 0 <= i < R ==> (#[trigger] elements@[i])@.len() == C,
        ensures
            r.wf(),
            r.view_m().len() == R,
            forall|i: int, j: int|
                0 <= i < R && 0 <= j < C ==> r.view_m()[i][j] == (#[trigger] elements@[i]@[j]).m(),
    {
        let r = Matrix { elements };
        proof {
            assert forall|i: int, j: int| 0 <= i < R && 0 <= j < C implies r.view_m()[i][j] == (
            #[trigger] r.elements@[i]@[j]).m() by {}
        }
        r
    }

    /// The entry at `row`, `column`.
    pub fn entry(&self, row: usize, column: usize) -> (r: T)
        requires
            self.wf(),
            row < R,
            column < C,
        ensures
            r.m() == self.view_m()[row as int][column as int],
    {
        self.elements[row][column]
    }

    /// An identical matrix (the entries are `Copy`; the storage is not).
    pub fn duplicate(&self) -> (r: Self)
        requires
            self.wf(),
        ensures
            r.wf(),
            r.view_m() == self.view_m(),
    {
        let mut rows: Vec<Vec<T>> = Vec::new();
        let mut i: usize = 0;
        while i < R
            invariant
                self.wf(),
                i <= R,
                rows@.len() == i,
                forall|ii: int| 0 <= ii < i ==> (#[trigger] rows@[ii])@ == self.elements@[ii]@,
            decreases R - i,
        {
            let mut row: Vec<T> = Vec::new();
            let mut j: usize = 0;
            while j < C
                invariant
                    self.wf(),
                    i < R,
                    j <= C,
                    row@.len() == j,
                    forall|jj: int| 0 <= jj < j ==> row@[jj] == self.elements@[i as int]@[jj],
                decreases C - j,
            {
                row.push(self.elements[i][j]);
                j += 1;
            }
            proof {
                assert(row@ =~= self.elements@[i as int]@);
            }
            rows.push(row);
            i += 1;
        }
        let r = Matrix { elements: rows };
        proof {
            assert(r.view_m() =~~= self.view_m());
        }
        r
    }

    /// The transposed matrix.
    pub fn transpose(&self) -> (r: Matrix<T, C, R>)
        requires
            self.wf(),
        ensures
            r.wf(),
            r.view_m().len() == C,
            forall|i: int, j: int|
                0 <= i < C && 0 <= j < R ==> r.view_m()[i][j] == self.view_m()[j][i],
    {
        let mut rows: Vec<Vec<T>> = Vec::new();
        let mut i: usize = 0;
        while i < C
            invariant
                self.wf(),
                i <= C,
                rows@.len() == i,
                forall|ii: int| 0 <= ii < i ==> (#[trigger] rows@[ii])@.len() == R,
                forall|ii: int, jj: int|
                    0 <= ii < i && 0 <= jj < R ==> (#[trigger] rows@[ii]@[jj]).m()
                        == self.view_m()[jj][ii],
            decreases C - i,
        {
            let mut row: Vec<T> = Vec::new();
            let mut j: usize = 0;
            while j < R
                invariant
                    self.wf(),
                    i < C,
                    j <= R,
                    row@.len() == j,
                    forall|jj: int|
                        0 <= jj < j ==> (#[trigger] row@[jj]).m() == self.view_m()[jj][i as int],
                decreases R - j,
            {
                row.push(self.elements[j][i]);
                j += 1;
            }
            rows.push(row);
            i += 1;
        }
        Matrix { elements: rows }
    }
}

impl<T: Scalar + Zero + One, const R: usize, const C: usize> Matrix<T, R, C> {
    /// Ones on the diagonal, zeroes elsewhere.
    pub fn identity() -> (r: Self)
        ensures
            r.wf(),
            r.view_m() == ident_m::<T>(R as int, C as int),
    {
        let mut rows: Vec<Vec<T>> = Vec::new();
        let mut i: usize = 0;
        while i < R
            invariant
                i <= R,
                rows@.len() == i,
                forall|ii: int| 0 <= ii < i ==> (#[trigger] rows@[ii])@.len() == C,
                forall|ii: int, jj: int|
                    0 <= ii < i && 0 <= jj < C ==> (#[trigger] rows@[ii]@[jj]).m() == (if ii == jj {
                        T::one_m()
                    } else {
                        0
                    }),
            decreases R - i,
        {
            let mut row: Vec<T> = Vec::new();
            let mut j: usize = 0;
            while j < C
                invariant
                    j <= C,
                    row@.len() == j,
                    forall|jj: int|
                        0 <= jj < j ==> (#[trigger] row@[jj]).m() == (if i as int == jj {
                            T::one_m()
                        } else {
                            0
                        }),
                decreases C - j,
            {
                row.push(if i == j {
                    T::one()
                } else {
                    T::zero()
                });
                j += 1;
            }
            rows.push(row);
            i += 1;
        }
        let r = Matrix { elements: rows };
        proof {
            assert(r.view_m() =~~= ident_m::<T>(R as int, C as int));
        }
        r
    }

    /// The matrix product, by the usual triple summation.
    pub fn mul<const C2: usize>(self, other: Matrix<T, C, C2>) -> (r: Matrix<T, R, C2>)
        requires
            self.wf(),
            other.wf(),
        ensures
            r.wf(),
            r.view_m() == mm_t::<T>(self.view_m(), other.view_m(), C2 as int),
    {
        let mut rows: Vec<Vec<T>> = Vec::new();
        let mut i: usize = 0;
        while i < R
            invariant
                self.wf(),
                other.wf(),
                i <= R,
                rows@.len() == i,
                forall|ii: int| 0 <= ii < i ==> (#[trigger] rows@[ii])@.len() == C2,
                forall|ii: int, jj: int|
                    0 <= ii < i && 0 <= jj < C2 ==> (#[trigger] rows@[ii]@[jj]).m() == dot_t::<T>(
                        self.view_m()[ii],
                        col_m(other.view_m(), jj),
                    ),
            decreases R - i,
        {
            let mut row: Vec<T> = Vec::new();
            let mut j: usize = 0;
            while j < C2
                invariant
                    self.wf(),
                    other.wf(),
                    i < R,
                    j <= C2,
                    row@.len() == j,
                    forall|jj: int|
                        0 <= jj < j ==> (#[trigger] row@[jj]).m() == dot_t::<T>(
                            self.view_m()[i as int],
                            col_m(other.view_m(), jj),
                        ),
                decreases C2 - j,
            {
                let ghost rvec = self.view_m()[i as int];
                let ghost cvec = col_m(other.view_m(), j as int);
                let mut sum: T = T::zero();
                let mut k: usize = 0;
                while k < C
                    invariant
                        self.wf(),
                        other.wf(),
                        i < R,
                        j < C2,
                        k <= C,
                        rvec == self.view_m()[i as int],
                        cvec == col_m(other.view_m(), j as int),
                        sum.m() == dot_t_prefix::<T>(rvec, cvec, k as int),
                    decreases C - k,
                {
                    sum = sum.add(self.elements[i][k].mul(other.elements[k][j]));
                    k += 1;
                }
                proof {
                    assert(rvec.len() == C);
                    assert(sum.m() == dot_t::<T>(rvec, cvec));
                }
                row.push(sum);
                j += 1;
            }
            rows.push(row);
            i += 1;
        }
        let r = Matrix { elements: rows };
        proof {
            assert(r.view_m() =~~= mm_t::<T>(self.view_m(), other.view_m(), C2 as int));
        }
        r
    }
}

impl<T: Scalar> Matrix<T, 4, 4> {
    /// Builds a 4x4 matrix from four rows of four entries, with the
    /// models of the result spelled out entry by entry.
    pub(crate) fn from_rows4(r0: Vec<T>, r1: Vec<T>, r2: Vec<T>, r3: Vec<T>) -> (r: Matrix<T, 4, 4>)
        requires
            r0@.len() == 4,
            r1@.len() == 4,
            r2@.len() == 4,
            r3@.len() == 4,
        ensures
            r.wf(),
            r.view_m() == seq![
                seq![r0@[0].m(), r0@[1].m(), r0@[2].m(), r0@[3].m()],
                seq![r1@[0].m(), r1@[1].m(), r1@[2].m(), r1@[3].m()],
                seq![r2@[0].m(), r2@[1].m(), r2@[2].m(), r2@[3].m()],
                seq![r3@[0].m(), r3@[1].m(), r3@[2].m(), r3@[3].m()],
            ],
    {
        let rows = stack4(r0, r1, r2, r3);
        let r = Matrix { elements: rows };
        proof {
            assert(r.view_m() =~~= seq![
                seq![r0@[0].m(), r0@[1].m(), r0@[2].m(), r0@[3].m()],
                seq![r1@[0].m(), r1@[1].m(), r1@[2].m(), r1@[3].m()],
                seq![r2@[0].m(), r2@[1].m(), r2@[2].m(), r2@[3].m()],
                seq![r3@[0].m(), r3@[1].m(), r3@[2].m(), r3@[3].m()],
            ]);
        }
        r
    }
}

/// Builds a row of four entries.
pub(crate) fn row4<T>(a: T, b: T, c: T, d: T) -> (r: Vec<T>)
    ensures
        r@ =~= seq![a, b, c, d],
{
    let mut row: Vec<T> = Vec::new();
    row.push(a);
    row.push(b);
    row.push(c);
    row.push(d);
    row
}

/// Stacks four rows into the storage of a 4x4 matrix.
pub(crate) fn stack4<T>(r0: Vec<T>, r1: Vec<T>, r2: Vec<T>, r3: Vec<T>) -> (r: Vec<Vec<T>>)
    ensures
        r@.len() == 4,
        r@[0] == r0,
        r@[1] == r1,
        r@[2] == r2,
        r@[3] == r3,
{
    let mut rows: Vec<Vec<T>> = Vec::new();
    rows.push(r0);
    rows.push(r1);
    rows.push(r2);
    rows.push(r3);
    rows
}

/// The scaling model matrix with diagonal `s`.
pub open spec fn scale_m<T: Scalar + One>(s: (int, int, int)) -> Seq<Seq<int>> {
    seq![
        seq![s.0, 0, 0, 0],
        seq![0, s.1, 0, 0],
        seq![0, 0, s.2, 0],
        seq![0, 0, 0, T::one_m()],
    ]
}

/// The translation model matrix with offset `o` in the last row.
pub open spec fn translation_m<T: Scalar + One>(o: (int, int, int)) -> Seq<Seq<int>> {
    seq![
        seq![T::one_m(), 0, 0, 0],
        seq![0, T::one_m(), 0, 0],
        seq![0, 0, T::one_m(), 0],
        seq![o.0, o.1, o.2, T::one_m()],
    ]
}

/// Rotation about the x axis by `d` degrees (converted to radians, not
/// negated — unlike the other two axes, which negate; the asymmetry is
/// part of the layer's conventions).
pub open spec fn rot_x_m<T: Scalar + One + ToRadians + Sin + Cos>(d: int) -> Seq<Seq<int>> {
    let rad = T::to_radians_m(d);
    seq![
        seq![T::one_m(), 0, 0, 0],
        seq![0, T::cos_m(rad), T::neg_m(T::sin_m(rad)), 0],
        seq![0, T::sin_m(rad), T::cos_m(rad), 0],
        seq![0, 0, 0, T::one_m()],
    ]
}

/// Rotation about the y axis by `d` degrees (radians negated).
pub open spec fn rot_y_m<T: Scalar + One + ToRadians + Sin + Cos>(d: int) -> Seq<Seq<int>> {
    let rad = T::neg_m(T::to_radians_m(d));
    seq![
        seq![T::cos_m(rad), 0, T::sin_m(rad), 0],
        seq![0, T::one_m(), 0, 0],
        seq![T::neg_m(T::sin_m(rad)), 0, T::cos_m(rad), 0],
        seq![0, 0, 0, T::one_m()],
    ]
}

/// Rotation about the z axis by `d` degrees (radians negated).
pub open spec fn rot_z_m<T: Scalar + One + ToRadians + Sin + Cos>(d: int) -> Seq<Seq<int>> {
    let rad = T::neg_m(T::to_radians_m(d));
    seq![
        seq![T::cos_m(rad), T::neg_m(T::sin_m(rad)), 0, 0],
        seq![T::sin_m(rad), T::cos_m(rad), 0, 0],
        seq![0, 0, T::one_m(), 0],
        seq![0, 0, 0, T::one_m()],
    ]
}

/// The combined rotation: z, then x, then y.
pub open spec fn rotation_m<T: Scalar + One + ToRadians + Sin + Cos>(
    d: (int, int, int),
) -> Seq<Seq<int>> {
    mm_t::<T>(mm_t::<T>(rot_z_m::<T>(d.2), rot_x_m::<T>(d.0), 4), rot_y_m::<T>(d.1), 4)
}

impl<T: Scalar + Zero + One> Matrix4x4<T> {
    /// The scaling matrix with `scale` on the diagonal.
    pub fn scale(scale: Vector3<T>) -> (r: Self)
        ensures
            r.wf(),
            r.view_m() == scale_m::<T>(scale.models()),
    {
        let rows = stack4(
            row4(scale.x, T::zero(), T::zero(), T::zero()),
            row4(T::zero(), scale.y, T::zero(), T::zero()),
            row4(T::zero(), T::zero(), scale.z, T::zero()),
            row4(T::zero(), T::zero(), T::zero(), T::one()),
        );
        let r = Matrix { elements: rows };
        proof {
            assert(r.view_m() =~~= scale_m::<T>(scale.models()));
        }
        r
    }

    /// The translation matrix moving the origin to `offset`.
    pub fn translation(offset: Vector3<T>) -> (r: Self)
        ensures
            r.wf(),
            r.view_m() == translation_m::<T>(offset.models()),
    {
        let rows = stack4(
            row4(T::one(), T::zero(), T::zero(), T::zero()),
            row4(T::zero(), T::one(), T::zero(), T::zero()),
            row4(T::zero(), T::zero(), T::one(), T::zero()),
            row4(offset.x, offset.y, offset.z, T::one()),
        );
        let r = Matrix { elements: rows };
        proof {
            assert(r.view_m() =~~= translation_m::<T>(offset.models()));
        }
        r
    }
}

impl<T: Scalar + Zero + One + ToRadians + Sin + Cos> Matrix4x4<T> {
    /// Rotation about the x axis by `degrees`.
    pub fn rotation_x(degrees: T) -> (r: Self)
        ensures
            r.wf(),
            r.view_m() == rot_x_m::<T>(degrees.m()),
    {
        let radians = degrees.to_radians();
        let rows = stack4(
            row4(T::one(), T::zero(), T::zero(), T::zero()),
            row4(T::zero(), radians.cos(), radians.sin().neg(), T::zero()),
            row4(T::zero(), radians.sin(), radians.cos(), T::zero()),
            row4(T::zero(), T::zero(), T::zero(), T::one()),
        );
        let r = Matrix { elements: rows };
        proof {
            assert(r.view_m() =~~= rot_x_m::<T>(degrees.m()));
        }
        r
    }

    /// Rotation about the y axis by `degrees`.
    pub fn rotation_y(degrees: T) -> (r: Self)
        ensures
            r.wf(),
            r.view_m() == rot_y_m::<T>(degrees.m()),
    {
        let radians = degrees.to_radians().neg();
        let rows = stack4(
            row4(radians.cos(), T::zero(), radians.sin(), T::zero()),
            row4(T::zero(), T::one(), T::zero(), T::zero()),
            row4(radians.sin().neg(), T::zero(), radians.cos(), T::zero()),
            row4(T::zero(), T::zero(), T::zero(), T::one()),
        );
        let r = Matrix { elements: rows };
        proof {
            assert(r.view_m() =~~= rot_y_m::<T>(degrees.m()));
        }
        r
    }

    /// Rotation about the z axis by `degrees`.
    pub fn rotation_z(degrees: T) -> (r: Self)
        ensures
            r.wf(),
            r.view_m() == rot_z_m::<T>(degrees.m()),
    {
        let radians = degrees.to_radians().neg();
        let rows = stack4(
            row4(radians.cos(), radians.sin().neg(), T::zero(), T::zero()),
            row4(radians.sin(), radians.cos(), T::zero(), T::zero()),
            row4(T::zero(), T::zero(), T::one(), T::zero()),
            row4(T::zero(), T::zero(), T::zero(), T::one()),
        );
        let r = Matrix { elements: rows };
        proof {
            assert(r.view_m() =~~= rot_z_m::<T>(degrees.m()));
        }
        r
    }

    /// The combined rotation `rotation_z(z) * rotation_x(x) * rotation_y(y)`.
    pub fn rotation(degrees: Vector3<T>) -> (r: Self)
        ensures
            r.wf(),
            r.view_m() == rotation_m::<T>(degrees.models()),
    {
        Self::rotation_z(degrees.z).mul(Self::rotation_x(degrees.x)).mul(
            Self::rotation_y(degrees.y),
        )
    }

}

impl<T: Scalar + Zero + One> Matrix4x4<T> {
    /// The product with a column vector, treating the vector as a 4x1
    /// matrix against the transpose (so a row vector times the matrix).
    pub fn mul_vector(self, other: Vector4<T>) -> (r: Vector4<T>)
        requires
            self.wf(),
        ensures
            r.x.m() == dot_t::<T>(col_m(self.view_m(), 0), seq![other.x.m(), other.y.m(), other.z.m(), other.w.m()]),
            r.y.m() == dot_t::<T>(col_m(self.view_m(), 1), seq![other.x.m(), other.y.m(), other.z.m(), other.w.m()]),
            r.z.m() == dot_t::<T>(col_m(self.view_m(), 2), seq![other.x.m(), other.y.m(), other.z.m(), other.w.m()]),
            r.w.m() == dot_t::<T>(col_m(self.view_m(), 3), seq![other.x.m(), other.y.m(), other.z.m(), other.w.m()]),
    {
        let column: Matrix<T, 4, 1> = Matrix {
            elements: stack4(
                row1(other.x),
                row1(other.y),
                row1(other.z),
                row1(other.w),
            ),
        };
        let ghost vm = seq![other.x.m(), other.y.m(), other.z.m(), other.w.m()];
        proof {
            assert(column.wf());
            assert(col_m(column.view_m(), 0) =~= vm);
        }
        let transposed = self.transpose();
        proof {
            assert forall|i: int| 0 <= i < 4 implies transposed.view_m()[i] =~= col_m(
                self.view_m(),
                i,
            ) by {}
        }
        let result = transposed.mul(column);
        Vector4 {
            x: result.entry(0, 0),
            y: result.entry(1, 0),
            z: result.entry(2, 0),
            w: result.entry(3, 0),
        }
    }
}

/// Builds a row of one entry.
fn row1<T>(a: T) -> (r: Vec<T>)
    ensures
        r@ =~= seq![a],
{
    let mut row: Vec<T> = Vec::new();
    row.push(a);
    row
}

} // verus!
