use vstd::prelude::*;

use crate::math::{col_m, dot_t, dot_t_prefix, ident_m, mm_t, ExactScalar, One, Scalar};

verus! {

/// The sum of a sequence of integers.
pub open spec fn sum_int(s: Seq<int>) -> int
    decreases s.len(),
{
    if s.len() == 0 {
        0
    } else {
        sum_int(s.drop_last()) + s.last()
    }
}

/// The termwise products of two rows, one per index of the first.
pub open spec fn products_of(r: Seq<int>, c: Seq<int>) -> Seq<int> {
    Seq::new(r.len(), |k: int| r[k] * c[k])
}

/// The exact dot product of two equally long rows.
pub open spec fn dot_int(r: Seq<int>, c: Seq<int>) -> int {
    sum_int(products_of(r, c))
}

/// The exact matrix product; `cols` is the column count of `b`.
pub open spec fn mm_int(a: Seq<Seq<int>>, b: Seq<Seq<int>>, cols: int) -> Seq<Seq<int>> {
    Seq::new(a.len(), |i: int| Seq::new(cols as nat, |j: int| dot_int(a[i], col_m(b, j))))
}

/// A model matrix with the given shape.
pub open spec fn mat_wf(a: Seq<Seq<int>>, rows: int, cols: int) -> bool {
    a.len() == rows && forall|i: int| 0 <= i < rows ==> (#[trigger] a[i]).len() == cols
}

/// A sequence of zeroes sums to zero.
pub proof fn lemma_sum_zero(s: Seq<int>)
    requires
        forall|k: int| 0 <= k < s.len() ==> s[k] == 0,
    ensures
        sum_int(s) == 0,
    decreases s.len(),
{
    if s.len() > 0 {
        lemma_sum_zero(s.drop_last());
    }
}

/// A sequence that is zero except at one position sums to that entry.
pub proof fn lemma_sum_unit(s: Seq<int>, i: int)
    requires
        0 <= i < s.len(),
        forall|k: int| 0 <= k < s.len() && k != i ==> s[k] == 0,
    ensures
        sum_int(s) == s[i],
    decreases s.len(),
{
    if i == s.len() - 1 {
        lemma_sum_zero(s.drop_last());
    } else {
        lemma_sum_unit(s.drop_last(), i);
    }
}

/// Sums add pointwise.
pub proof fn lemma_sum_pointwise_add(s: Seq<int>, t: Seq<int>, u: Seq<int>)
    requires
        s.len() == t.len(),
        u.len() == s.len(),
        forall|k: int| 0 <= k < s.len() ==> u[k] == #[trigger] s[k] + t[k],
    ensures
        sum_int(u) == sum_int(s) + sum_int(t),
    decreases s.len(),
{
    if s.len() > 0 {
        lemma_sum_pointwise_add(s.drop_last(), t.drop_last(), u.drop_last());
    }
}

/// A common right factor moves out of a sum.
pub proof fn lemma_sum_scale(s: Seq<int>, t: Seq<int>, c: int)
    requires
        t.len() == s.len(),
        forall|k: int| 0 <= k < s.len() ==> t[k] == #[trigger] s[k] * c,
    ensures
        sum_int(t) == sum_int(s) * c,
    decreases s.len(),
{
    if s.len() == 0 {
        assert(sum_int(s) * c == 0) by (nonlinear_arith)
            requires
                sum_int(s) == 0,
        ;
    } else {
        lemma_sum_scale(s.drop_last(), t.drop_last(), c);
        assert(sum_int(t.drop_last()) + t.last() == (sum_int(s.drop_last()) + s.last()) * c) by (
        nonlinear_arith)
            requires
                sum_int(t.drop_last()) == sum_int(s.drop_last()) * c,
                t.last() == s.last() * c,
        ;
    }
}

/// Summing all rows and summing all columns of a rectangular table give
/// the same total.
pub proof fn lemma_sum_swap(m: Seq<Seq<int>>, rows: int, cols: int)
    requires
        mat_wf(m, rows, cols),
        rows >= 0,
        cols >= 0,
    ensures
        sum_int(Seq::new(rows as nat, |i: int| sum_int(m[i]))) == sum_int(
            Seq::new(cols as nat, |j: int| sum_int(col_m(m, j))),
        ),
    decreases rows,
{
    let row_sums = Seq::new(rows as nat, |i: int| sum_int(m[i]));
    let col_sums = Seq::new(cols as nat, |j: int| sum_int(col_m(m, j)));
    if rows == 0 {
        assert forall|j: int| 0 <= j < cols implies col_sums[j] == 0 by {
            assert(col_m(m, j).len() == 0);
        }
        lemma_sum_zero(col_sums);
    } else {
        let m0 = m.drop_last();
        let last = m[rows - 1];
        lemma_sum_swap(m0, rows - 1, cols);
        let row_sums0 = Seq::new((rows - 1) as nat, |i: int| sum_int(m0[i]));
        let col_sums0 = Seq::new(cols as nat, |j: int| sum_int(col_m(m0, j)));
        assert(row_sums.drop_last() =~= row_sums0);
        assert(row_sums.last() == sum_int(last));
        assert forall|j: int| 0 <= j < cols implies col_sums[j] == #[trigger] col_sums0[j]
            + last[j] by {
            assert(col_m(m0, j) =~= col_m(m, j).drop_last());
            assert(col_m(m, j).last() == last[j]);
        }
        lemma_sum_pointwise_add(col_sums0, Seq::new(cols as nat, |j: int| last[j]), col_sums);
        assert(Seq::new(cols as nat, |j: int| last[j]) =~= last);
    }
}

/// One entry of a triple product, reassociated: the entry of `(a*b)*c`
/// equals the entry of `a*(b*c)`.
proof fn lemma_mm_entry_assoc(
    a: Seq<Seq<int>>,
    b: Seq<Seq<int>>,
    c: Seq<Seq<int>>,
    n: int,
    m: int,
    p: int,
    q: int,
    i: int,
    l: int,
)
    requires
        mat_wf(a, n, m),
        mat_wf(b, m, p),
        mat_wf(c, p, q),
        n >= 0,
        m >= 0,
        p >= 0,
        q >= 0,
        0 <= i < n,
        0 <= l < q,
    ensures
        dot_int(mm_int(a, b, p)[i], col_m(c, l)) == dot_int(a[i], col_m(mm_int(b, c, q), l)),
{
    let ab = mm_int(a, b, p);
    let bc = mm_int(b, c, q);
    // the table of all triple products for this entry: row k, column j
    let big = Seq::new(p as nat, |k: int| Seq::new(m as nat, |j: int| a[i][j] * b[j][k] * c[k][l]));

    // left side: sum over k of ab[i][k] * c[k][l], and each term is the
    // sum of row k of the table
    let lhs_terms = Seq::new(p as nat, |k: int| ab[i][k] * col_m(c, l)[k]);
    assert(dot_int(ab[i], col_m(c, l)) == sum_int(lhs_terms)) by {
        assert(lhs_terms =~= Seq::new(ab[i].len(), |k: int| ab[i][k] * col_m(c, l)[k]));
    }
    let row_sums = Seq::new(p as nat, |k: int| sum_int(big[k]));
    assert forall|k: int| 0 <= k < p implies lhs_terms[k] == #[trigger] row_sums[k] by {
        let s = Seq::new(m as nat, |j: int| a[i][j] * b[j][k]);
        assert(ab[i][k] == dot_int(a[i], col_m(b, k)));
        assert(s =~= Seq::new(a[i].len(), |j: int| a[i][j] * col_m(b, k)[j]));
        lemma_sum_scale(s, big[k], c[k][l]);
        assert forall|j: int| 0 <= j < m implies big[k][j] == #[trigger] s[j] * c[k][l] by {
            assert(big[k][j] == a[i][j] * b[j][k] * c[k][l]);
        }
    }
    assert(lhs_terms =~= row_sums);

    // right side: sum over j of a[i][j] * bc[j][l], and each term is the
    // sum of column j of the table
    let rhs_terms = Seq::new(m as nat, |j: int| a[i][j] * col_m(bc, l)[j]);
    assert(dot_int(a[i], col_m(bc, l)) == sum_int(rhs_terms)) by {
        assert(rhs_terms =~= Seq::new(a[i].len(), |j: int| a[i][j] * col_m(bc, l)[j]));
    }
    let col_sums = Seq::new(m as nat, |j: int| sum_int(col_m(big, j)));
    assert forall|j: int| 0 <= j < m implies rhs_terms[j] == #[trigger] col_sums[j] by {
        let s = Seq::new(p as nat, |k: int| b[j][k] * c[k][l]);
        assert(bc[j][l] == dot_int(b[j], col_m(c, l)));
        assert(s =~= Seq::new(b[j].len(), |k: int| b[j][k] * col_m(c, l)[k]));
        let scaled = Seq::new(p as nat, |k: int| s[k] * a[i][j]);
        lemma_sum_scale(s, scaled, a[i][j]);
        assert forall|k: int| 0 <= k < p implies col_m(big, j)[k] == #[trigger] scaled[k] by {
            assert(col_m(big, j)[k] == a[i][j] * b[j][k] * c[k][l]);
            assert(a[i][j] * b[j][k] * c[k][l] == (b[j][k] * c[k][l]) * a[i][j]) by (
            nonlinear_arith);
        }
        assert(col_m(big, j) =~= scaled);
        assert(rhs_terms[j] == a[i][j] * bc[j][l]);
        assert(sum_int(s) * a[i][j] == a[i][j] * sum_int(s)) by (nonlinear_arith);
    }
    assert(rhs_terms =~= col_sums);

    lemma_sum_swap(big, p, m);
}

/// Matrix multiplication over the integers is associative:
/// `(a * b) * c == a * (b * c)` for matrices of compatible shapes.
pub proof fn lemma_mm_int_assoc(
    a: Seq<Seq<int>>,
    b: Seq<Seq<int>>,
    c: Seq<Seq<int>>,
    n: int,
    m: int,
    p: int,
    q: int,
)
    requires
        mat_wf(a, n, m),
        mat_wf(b, m, p),
        mat_wf(c, p, q),
        n >= 0,
        m >= 0,
        p >= 0,
        q >= 0,
    ensures
        mm_int(mm_int(a, b, p), c, q) == mm_int(a, mm_int(b, c, q), q),
{
    let lhs = mm_int(mm_int(a, b, p), c, q);
    let rhs = mm_int(a, mm_int(b, c, q), q);
    assert forall|i: int, l: int| 0 <= i < n && 0 <= l < q implies lhs[i][l] == rhs[i][l] by {
        lemma_mm_entry_assoc(a, b, c, n, m, p, q, i, l);
    }
    assert(lhs =~~= rhs);
}

/// The identity matrix is a left identity: `identity * a == a`.
pub proof fn lemma_mm_int_identity<T: Scalar + ExactScalar>(a: Seq<Seq<int>>, n: int, m: int)
    requires
        mat_wf(a, n, m),
        n >= 0,
        m >= 0,
    ensures
        mm_int(ident_m::<T>(n, n), a, m) == a,
{
    T::lemma_exact_units();
    let ident = ident_m::<T>(n, n);
    let product = mm_int(ident, a, m);
    assert forall|i: int, j: int| 0 <= i < n && 0 <= j < m implies product[i][j] == a[i][j] by {
        let terms = Seq::new(n as nat, |k: int| ident[i][k] * col_m(a, j)[k]);
        assert(product[i][j] == sum_int(terms)) by {
            assert(terms =~= Seq::new(ident[i].len(), |k: int| ident[i][k] * col_m(a, j)[k]));
        }
        assert forall|k: int| 0 <= k < n && k != i implies #[trigger] terms[k] == 0 by {
            assert(ident[i][k] == 0);
        }
        assert(terms[i] == 1 * a[i][j]);
        lemma_sum_unit(terms, i);
    }
    assert(product =~~= a);
}

/// Whether every partial sum and every product of the dot-product fold of
/// two rows is representable in `T`.
pub open spec fn dot_fits<T: Scalar>(r: Seq<int>, c: Seq<int>) -> bool {
    (forall|k: int| 0 <= k < r.len() ==> T::in_range(#[trigger] (r[k] * c[k]))) && (forall|n: int|
        0 <= n <= r.len() ==> T::in_range(sum_int(#[trigger] products_of(r, c).take(n))))
}

/// Where the fold stays in range, the folded dot product over an exact
/// scalar equals the exact integer dot product.
pub proof fn lemma_dot_t_exact<T: ExactScalar>(r: Seq<int>, c: Seq<int>, n: int)
    requires
        c.len() == r.len(),
        dot_fits::<T>(r, c),
        0 <= n <= r.len(),
    ensures
        dot_t_prefix::<T>(r, c, n) == sum_int(products_of(r, c).take(n)),
    decreases n,
{
    let products = products_of(r, c);
    if n == 0 {
        assert(products.take(0).len() == 0);
    } else {
        lemma_dot_t_exact::<T>(r, c, n - 1);
        T::lemma_exact_mul(r[n - 1], c[n - 1]);
        assert(products.take(n).drop_last() =~= products.take(n - 1));
        assert(products.take(n).last() == r[n - 1] * c[n - 1]);
        T::lemma_exact_add(sum_int(products.take(n - 1)), r[n - 1] * c[n - 1]);
    }
}

/// Whether every dot-product fold in the product of two model matrices
/// stays in range.
pub open spec fn mm_fits<T: Scalar>(a: Seq<Seq<int>>, b: Seq<Seq<int>>, cols: int) -> bool {
    forall|i: int, j: int|
        0 <= i < a.len() && 0 <= j < cols ==> dot_fits::<T>(#[trigger] a[i], #[trigger] col_m(b, j))
}

/// Where every fold stays in range, the matrix product over an exact
/// scalar equals the exact integer matrix product. Together with
/// [`lemma_mm_int_assoc`] and [`lemma_mm_int_identity`] this carries the
/// algebraic laws over to [`crate::math::Matrix::mul`], whose contract is
/// stated with [`mm_t`].
pub proof fn lemma_mm_t_exact<T: ExactScalar>(
    a: Seq<Seq<int>>,
    b: Seq<Seq<int>>,
    rows: int,
    inner: int,
    cols: int,
)
    requires
        mat_wf(a, rows, inner),
        mat_wf(b, inner, cols),
        rows >= 0,
        inner >= 0,
        cols >= 0,
        mm_fits::<T>(a, b, cols),
    ensures
        mm_t::<T>(a, b, cols) == mm_int(a, b, cols),
{
    let lhs = mm_t::<T>(a, b, cols);
    let rhs = mm_int(a, b, cols);
    assert forall|i: int, j: int| 0 <= i < rows && 0 <= j < cols implies lhs[i][j] == rhs[i][j] by {
        assert(dot_fits::<T>(a[i], col_m(b, j)));
        lemma_dot_t_exact::<T>(a[i], col_m(b, j), inner);
        let products = products_of(a[i], col_m(b, j));
        assert(products.take(inner) =~= products);
    }
    assert(lhs =~~= rhs);
}

/// The identity matrix is also a right identity: `a * identity == a`.
pub proof fn lemma_mm_int_identity_right<T: Scalar + ExactScalar>(a: Seq<Seq<int>>, n: int, m: int)
    requires
        mat_wf(a, n, m),
        n >= 0,
        m >= 0,
    ensures
        mm_int(a, ident_m::<T>(m, m), m) == a,
{
    T::lemma_exact_units();
    let ident = ident_m::<T>(m, m);
    let product = mm_int(a, ident, m);
    assert forall|i: int, j: int| 0 <= i < n && 0 <= j < m implies product[i][j] == a[i][j] by {
        let terms = Seq::new(m as nat, |k: int| a[i][k] * col_m(ident, j)[k]);
        assert(product[i][j] == sum_int(terms)) by {
            assert(terms =~= Seq::new(a[i].len(), |k: int| a[i][k] * col_m(ident, j)[k]));
        }
        assert forall|k: int| 0 <= k < m && k != j implies #[trigger] terms[k] == 0 by {
            assert(col_m(ident, j)[k] == ident[k][j]);
            assert(ident[k][j] == 0);
        }
        assert(terms[j] == a[i][j] * 1);
        lemma_sum_unit(terms, j);
    }
    assert(product =~~= a);
}

/// The identity matrix has `n` rows of `n` entries.
pub proof fn lemma_ident_wf<T: Scalar + One>(n: int)
    requires
        n >= 0,
    ensures
        mat_wf(ident_m::<T>(n, n), n, n),
{
}

/// Associativity carried to the folded product that the executable
/// multiplication is specified with: over an exact scalar, wherever the
/// folds of both groupings stay in range, `(a * b) * c == a * (b * c)`.
pub proof fn lemma_mm_t_assoc<T: ExactScalar>(
    a: Seq<Seq<int>>,
    b: Seq<Seq<int>>,
    c: Seq<Seq<int>>,
    n: int,
    m: int,
    p: int,
    q: int,
)
    requires
        mat_wf(a, n, m),
        mat_wf(b, m, p),
        mat_wf(c, p, q),
        n >= 0,
        m >= 0,
        p >= 0,
        q >= 0,
        mm_fits::<T>(a, b, p),
        mm_fits::<T>(b, c, q),
        mm_fits::<T>(mm_int(a, b, p), c, q),
        mm_fits::<T>(a, mm_int(b, c, q), q),
    ensures
        mm_t::<T>(mm_t::<T>(a, b, p), c, q) == mm_t::<T>(a, mm_t::<T>(b, c, q), q),
{
    lemma_mm_t_exact::<T>(a, b, n, m, p);
    lemma_mm_t_exact::<T>(b, c, m, p, q);
    assert(mat_wf(mm_int(a, b, p), n, p));
    assert(mat_wf(mm_int(b, c, q), m, q));
    lemma_mm_t_exact::<T>(mm_int(a, b, p), c, n, p, q);
    lemma_mm_t_exact::<T>(a, mm_int(b, c, q), n, m, q);
    lemma_mm_int_assoc(a, b, c, n, m, p, q);
}

/// The identity law carried to the folded product: over an exact scalar,
/// wherever the fold stays in range, `identity * a == a`.
pub proof fn lemma_mm_t_identity<T: ExactScalar>(a: Seq<Seq<int>>, n: int, m: int)
    requires
        mat_wf(a, n, m),
        n >= 0,
        m >= 0,
        mm_fits::<T>(ident_m::<T>(n, n), a, m),
    ensures
        mm_t::<T>(ident_m::<T>(n, n), a, m) == a,
{
    lemma_ident_wf::<T>(n);
    lemma_mm_t_exact::<T>(ident_m::<T>(n, n), a, n, n, m);
    lemma_mm_int_identity::<T>(a, n, m);
}

/// The right-identity law carried to the folded product: over an exact
/// scalar, wherever the fold stays in range, `a * identity == a`.
pub proof fn lemma_mm_t_identity_right<T: ExactScalar>(a: Seq<Seq<int>>, n: int, m: int)
    requires
        mat_wf(a, n, m),
        n >= 0,
        m >= 0,
        mm_fits::<T>(a, ident_m::<T>(m, m), m),
    ensures
        mm_t::<T>(a, ident_m::<T>(m, m), m) == a,
{
    lemma_ident_wf::<T>(m);
    lemma_mm_t_exact::<T>(a, ident_m::<T>(m, m), n, m, m);
    lemma_mm_int_identity_right::<T>(a, n, m);
}

} // verus!
