//! Algebraic facts about the matrix operations, proved for every element
//! type that implements `Ring`.
use vstd::prelude::*;
use crate::algebra::{One, Ring, Zero};
use crate::matrix::{cofactor_sum, det_of, identity_of, is_grid, minor_of, source_index, sum_of, Matrice};

verus! {

/// Deleting the first row and column of an identity matrix leaves the
/// identity matrix one size smaller.
proof fn lemma_identity_minor<T: Ring>(n: nat)
    requires
        n >= 1,
    ensures
        minor_of(identity_of::<T>(n), 0, 0) == identity_of::<T>((n - 1) as nat),
{
    let m = minor_of(identity_of::<T>(n), 0, 0);
    let id = identity_of::<T>((n - 1) as nat);
    assert forall|r: int| 0 <= r < n - 1 implies #[trigger] m[r] =~= id[r] by {
        assert(source_index(r, 0) == r + 1);
    }
    assert(m =~= id);
}

/// The determinant of the identity matrix of every size is one.
pub proof fn lemma_det_identity<T: Ring>(n: nat)
    ensures
        det_of(identity_of::<T>(n)) == T::spec_one(),
    decreases n,
{
    let id = identity_of::<T>(n);
    if n == 1 {
        assert(id[0][0] == T::spec_one());
    } else if n == 2 {
        T::lemma_mul_one(T::spec_one());
        T::lemma_mul_zero(T::spec_zero());
        T::lemma_zero_neutral(T::spec_one());
        assert(id[0][0] == T::spec_one() && id[1][1] == T::spec_one());
        assert(id[1][0] == T::spec_zero() && id[0][1] == T::spec_zero());
    } else if n >= 3 {
        lemma_identity_minor::<T>(n);
        lemma_det_identity::<T>((n - 1) as nat);
        lemma_identity_expansion::<T>(n, n as int);
    }
}

/// Along the first row of an identity matrix of size three or more, only the
/// first column contributes, and it contributes one.
proof fn lemma_identity_expansion<T: Ring>(n: nat, k: int)
    requires
        n >= 3,
        1 <= k <= n,
        det_of(minor_of(identity_of::<T>(n), 0, 0)) == T::spec_one(),
    ensures
        cofactor_sum(identity_of::<T>(n), k) == T::spec_one(),
    decreases k,
{
    let id = identity_of::<T>(n);
    let x = k - 1;
    let d = det_of(minor_of(id, 0, x));
    if k == 1 {
        assert(id[0][0] == T::spec_one());
        T::lemma_mul_one(d);
        T::lemma_zero_neutral(T::spec_one());
        assert(cofactor_sum(id, 0) == T::spec_zero());
        assert(id.len() == n);
        assert(cofactor_sum(id, 1) == T::spec_add(T::spec_zero(), T::spec_mul(id[0][0], d)));
    } else {
        lemma_identity_expansion::<T>(n, k - 1);
        assert(id[0][x] == T::spec_zero());
        T::lemma_mul_zero(d);
        T::lemma_zero_neutral(T::spec_one());
    }
}

/// A square matrix with a row of zeros has determinant zero.
pub proof fn lemma_det_zero_row<T: Ring>(m: Seq<Seq<T>>, r: int)
    requires
        is_grid(m, m.len(), m.len()),
        0 <= r < m.len(),
        forall|c: int| 0 <= c < m.len() ==> #[trigger] m[r][c] == T::spec_zero(),
    ensures
        det_of(m) == T::spec_zero(),
    decreases m.len(),
{
    let n = m.len();
    if n == 2 {
        T::lemma_mul_zero(m[0][0]);
        T::lemma_mul_zero(m[0][1]);
        T::lemma_mul_zero(m[1][0]);
        T::lemma_mul_zero(m[1][1]);
        T::lemma_zero_neutral(T::spec_zero());
    } else if n >= 3 {
        lemma_zero_row_expansion(m, r, n as int);
    }
}

/// Each term of the first-row expansion of a square matrix with a zero row
/// vanishes, so every partial sum is zero.
proof fn lemma_zero_row_expansion<T: Ring>(m: Seq<Seq<T>>, r: int, k: int)
    requires
        m.len() >= 3,
        is_grid(m, m.len(), m.len()),
        0 <= r < m.len(),
        forall|c: int| 0 <= c < m.len() ==> #[trigger] m[r][c] == T::spec_zero(),
        0 <= k <= m.len(),
    ensures
        cofactor_sum(m, k) == T::spec_zero(),
    decreases m.len(), k,
{
    if k > 0 {
        let x = k - 1;
        lemma_zero_row_expansion(m, r, x);
        let sub = minor_of(m, 0, x);
        let d = det_of(sub);
        if r == 0 {
            T::lemma_mul_zero(d);
        } else {
            let n1 = (m.len() - 1) as nat;
            assert forall|q: int| 0 <= q < n1 implies (#[trigger] sub[q]).len() == n1 by {
                assert(0 <= source_index(q, 0) < m.len());
            }
            assert forall|c: int| 0 <= c < n1 implies #[trigger] sub[r - 1][c] == T::spec_zero() by {
                assert(source_index(r - 1, 0) == r);
                assert(0 <= source_index(c, x) < m.len());
            }
            lemma_det_zero_row(sub, r - 1);
            T::lemma_mul_zero(m[0][x]);
        }
        T::lemma_zero_neutral(T::spec_zero());
    }
}

/// Adding matrices of the same shape does not depend on the order of the
/// operands.
pub proof fn lemma_sum_commutative<T: Ring>(a: Matrice<T>, b: Matrice<T>)
    requires
        a.wf(),
        b.wf(),
        a.height == b.height,
        a.width == b.width,
    ensures
        sum_of(a@, b@) == sum_of(b@, a@),
{
    let s = sum_of(a@, b@);
    let t = sum_of(b@, a@);
    assert forall|r: int| 0 <= r < a.height implies #[trigger] s[r] =~= t[r] by {
        assert forall|c: int| 0 <= c < a.width implies #[trigger] s[r][c] == t[r][c] by {
            T::lemma_add_commutative(a@[r][c], b@[r][c]);
        }
    }
    assert(s =~= t);
}

/// Adding three matrices of the same shape does not depend on the grouping.
pub proof fn lemma_sum_associative<T: Ring>(a: Matrice<T>, b: Matrice<T>, c: Matrice<T>)
    requires
        a.wf(),
        b.wf(),
        c.wf(),
        a.height == b.height && b.height == c.height,
        a.width == b.width && b.width == c.width,
    ensures
        sum_of(sum_of(a@, b@), c@) == sum_of(a@, sum_of(b@, c@)),
{
    let s = sum_of(sum_of(a@, b@), c@);
    let t = sum_of(a@, sum_of(b@, c@));
    assert forall|r: int| 0 <= r < a.height implies #[trigger] s[r] =~= t[r] by {
        assert forall|k: int| 0 <= k < a.width implies #[trigger] s[r][k] == t[r][k] by {
            T::lemma_add_associative(a@[r][k], b@[r][k], c@[r][k]);
        }
    }
    assert(s =~= t);
}

} // verus!
