//! A rectangular matrix over any element type, with the structural
//! operations (construction, minor, transpose, row and column replacement)
//! and the ring operations (sum, cofactor determinant, adjugate).
use vstd::prelude::*;
use crate::algebra::{One, Ring, Zero};

verus! {

/// A `height` by `width` grid of cells, stored row by row.
pub struct Matrice<T> {
    pub height: usize,
    pub width: usize,
    pub data: Vec<Vec<T>>,
}

/// The rows of a matrix as sequences of cells.
impl<T> View for Matrice<T> {
    type V = Seq<Seq<T>>;

    open spec fn view(&self) -> Seq<Seq<T>> {
        self.data@.map_values(|row: Vec<T>| row@)
    }
}

/// `m` has exactly `h` rows of exactly `w` cells each.
pub open spec fn is_grid<T>(m: Seq<Seq<T>>, h: nat, w: nat) -> bool {
    &&& m.len() == h
    &&& forall|r: int| 0 <= r < h ==> (#[trigger] m[r]).len() == w
}

/// Every cell of the `h` by `w` grid `m` is `v`.
pub open spec fn is_filled_with<T>(m: Seq<Seq<T>>, h: nat, w: nat, v: T) -> bool {
    &&& is_grid(m, h, w)
    &&& forall|r: int, c: int| 0 <= r < h && 0 <= c < w ==> #[trigger] m[r][c] == v
}

/// Where entry `k` of a sequence stood before entry `removed` was deleted:
/// entries past the deleted one have moved up by one.
pub open spec fn source_index(k: int, removed: int) -> int {
    if k < removed {
        k
    } else {
        k + 1
    }
}

/// `m` without row `i` and without column `j`.
pub open spec fn minor_of<T>(m: Seq<Seq<T>>, i: int, j: int) -> Seq<Seq<T>> {
    Seq::new(
        (m.len() - 1) as nat,
        |r: int|
            Seq::new(
                (m[source_index(r, i)].len() - 1) as nat,
                |c: int| m[source_index(r, i)][source_index(c, j)],
            ),
    )
}

/// Laplace expansion of `m` along its first row, over the first `k`
/// columns: the sum of `m[0][x] * (-1)^x * det(minor(m, 0, x))` for `x < k`.
pub open spec fn cofactor_sum<T: Ring>(m: Seq<Seq<T>>, k: int) -> T
    decreases m.len(), k,
{
    if k <= 0 || m.len() == 0 {
        T::spec_zero()
    } else {
        let x = k - 1;
        let s = cofactor_sum(m, x);
        let t = T::spec_mul(m[0][x], det_of(minor_of(m, 0, x)));
        if x % 2 == 0 {
            T::spec_add(s, t)
        } else {
            T::spec_sub(s, t)
        }
    }
}

/// The determinant of the square matrix `m`: the single entry of a 1 by 1
/// matrix, `ad - bc` of a 2 by 2 one, and the cofactor expansion along the
/// first row otherwise. The empty matrix has determinant one, which makes
/// the adjugate of a 1 by 1 matrix the identity.
pub open spec fn det_of<T: Ring>(m: Seq<Seq<T>>) -> T
    decreases m.len(), m.len() + 1,
{
    if m.len() == 0 {
        T::spec_one()
    } else if m.len() == 1 {
        m[0][0]
    } else if m.len() == 2 {
        T::spec_sub(T::spec_mul(m[0][0], m[1][1]), T::spec_mul(m[1][0], m[0][1]))
    } else {
        cofactor_sum(m, m.len() as int)
    }
}

/// `m`, an `h` by `w` grid, with rows and columns exchanged.
pub open spec fn transpose_of<T>(m: Seq<Seq<T>>, w: nat) -> Seq<Seq<T>> {
    Seq::new(w, |c: int| Seq::new(m.len(), |r: int| m[r][c]))
}

/// The cell-wise sum of two grids of the same shape.
pub open spec fn sum_of<T: Ring>(a: Seq<Seq<T>>, b: Seq<Seq<T>>) -> Seq<Seq<T>> {
    Seq::new(a.len(), |r: int| Seq::new(a[r].len(), |c: int| T::spec_add(a[r][c], b[r][c])))
}

/// The `n` by `n` grid with one on the diagonal and zero elsewhere.
pub open spec fn identity_of<T: Ring>(n: nat) -> Seq<Seq<T>> {
    Seq::new(
        n,
        |r: int| Seq::new(n, |c: int| if r == c { T::spec_one() } else { T::spec_zero() }),
    )
}

/// `v` multiplied by `(-1)^k`.
pub open spec fn signed<T: Ring>(k: int, v: T) -> T {
    if k % 2 == 0 {
        v
    } else {
        T::spec_sub(T::spec_zero(), v)
    }
}

/// The adjugate of the `n` by `n` grid `m`: the transpose of its cofactor
/// matrix, which is the cofactor matrix of its transpose.
pub open spec fn adjugate_of<T: Ring>(m: Seq<Seq<T>>) -> Seq<Seq<T>> {
    let t = transpose_of(m, m.len());
    Seq::new(
        m.len(),
        |x: int| Seq::new(m.len(), |y: int| signed(x + y, det_of(minor_of(t, x, y)))),
    )
}

/// `m` with the first `min(height, new_column.len())` cells of column
/// `column` replaced by those of `new_column`.
pub open spec fn column_replaced<T>(m: Seq<Seq<T>>, column: int, new_column: Seq<T>) -> Seq<
    Seq<T>,
> {
    Seq::new(
        m.len(),
        |r: int|
            if r < new_column.len() {
                m[r].update(column, new_column[r])
            } else {
                m[r]
            },
    )
}

/// `m` with the first `min(width, new_line.len())` cells of row `line`
/// replaced by those of `new_line`.
pub open spec fn line_replaced<T>(m: Seq<Seq<T>>, line: int, new_line: Seq<T>) -> Seq<Seq<T>> {
    m.update(
        line,
        Seq::new(
            m[line].len(),
            |c: int|
                if c < new_line.len() {
                    new_line[c]
                } else {
                    m[line][c]
                },
        ),
    )
}

/// Seed rows fit an `h` by `w` matrix: no more than `h` of them, each of
/// exactly `w` cells.
pub open spec fn seeds_fit<T>(rows: Seq<Seq<T>>, h: nat, w: nat) -> bool {
    &&& rows.len() <= h
    &&& forall|k: int| 0 <= k < rows.len() ==> (#[trigger] rows[k]).len() == w
}

/// The seed rows followed by rows of `w` copies of `fill` up to `h` rows.
pub open spec fn padded<T>(rows: Seq<Seq<T>>, h: nat, w: nat, fill: T) -> Seq<Seq<T>> {
    rows + Seq::new((h - rows.len()) as nat, |r: int| Seq::new(w, |c: int| fill))
}

/// Why a matrix operation refused its arguments.
#[derive(Debug, Clone, Copy, PartialEq, Eq, Structural)]
pub enum MatrixError {
    /// The two operands do not have the same height and width.
    ShapeMismatch,
    /// Seed rows are more than the height, or a seed row's length is not the
    /// width.
    MalformedConstruction,
}

impl<T> Matrice<T> {
    /// The stored rows agree with `height` and `width`.
    pub open spec fn wf(&self) -> bool {
        &&& self.data@.len() == self.height
        &&& forall|r: int| 0 <= r < self.height ==> (#[trigger] self.data@[r])@.len() == self.width
    }
}

/// A row of `width` copies of `v`.
fn filled_row<T: Copy>(width: usize, v: T) -> (row: Vec<T>)
    ensures
        row@.len() == width,
        forall|c: int| 0 <= c < width ==> #[trigger] row@[c] == v,
{
    let mut row: Vec<T> = Vec::new();
    let mut c: usize = 0;
    while c < width
        invariant
            c <= width,
            row@.len() == c,
            forall|k: int| 0 <= k < c ==> #[trigger] row@[k] == v,
        decreases width - c,
    {
        row.push(v);
        c = c + 1;
    }
    row
}

/// A `height` by `width` matrix whose every cell is `v`.
fn filled<T: Copy>(height: usize, width: usize, v: T) -> (m: Matrice<T>)
    ensures
        m.wf(),
        m.height == height,
        m.width == width,
        is_filled_with(m@, height as nat, width as nat, v),
{
    let mut data: Vec<Vec<T>> = Vec::new();
    let mut r: usize = 0;
    while r < height
        invariant
            r <= height,
            data@.len() == r,
            forall|k: int| 0 <= k < r ==> (#[trigger] data@[k])@.len() == width,
            forall|k: int, c: int| 0 <= k < r && 0 <= c < width ==> #[trigger] data@[k]@[c] == v,
        decreases height - r,
    {
        let row = filled_row(width, v);
        data.push(row);
        r = r + 1;
    }
    let m = Matrice { height, width, data };
    assert(is_filled_with(m@, height as nat, width as nat, v));
    m
}

impl<T: Copy + Default> Matrice<T> {
    /// A `height` by `width` matrix filled with the element type's default
    /// value.
    pub fn new(height: usize, width: usize) -> (m: Matrice<T>)
        ensures
            m.wf(),
            m.height == height,
            m.width == width,
            exists|d: T| call_ensures(T::default, (), d) && is_filled_with(m@, height as nat, width as nat, d),
    {
        let d = T::default();
        filled(height, width, d)
    }
}

impl<T: Copy + Zero> Matrice<T> {
    /// A `height` by `width` matrix filled with the additive identity.
    pub fn new_zero(height: usize, width: usize) -> (m: Matrice<T>)
        ensures
            m.wf(),
            m.height == height,
            m.width == width,
            is_filled_with(m@, height as nat, width as nat, T::spec_zero()),
    {
        filled(height, width, T::zero())
    }
}

impl<T: Copy> Matrice<T> {
    /// The matrix without row `i` and column `j`: rows below `i` move up by
    /// one, columns right of `j` move left by one.
    pub fn minor(&self, i: usize, j: usize) -> (m: Matrice<T>)
        requires
            self.wf(),
            i < self.height,
            j < self.width,
        ensures
            m.wf(),
            m.height == self.height - 1,
            m.width == self.width - 1,
            m@ == minor_of(self@, i as int, j as int),
            forall|r: int, c: int|
                0 <= r < m.height && 0 <= c < m.width ==> #[trigger] m@[r][c] == self@[source_index(
                    r,
                    i as int,
                )][source_index(c, j as int)],
    {
        let ghost src = self@;
        let mut data: Vec<Vec<T>> = Vec::new();
        let mut x: usize = 0;
        while x < self.height
            invariant
                self.wf(),
                src == self@,
                i < self.height,
                j < self.width,
                x <= self.height,
                data@.len() == if x <= i { x as int } else { x - 1 },
                forall|r: int| 0 <= r < data@.len() ==> (#[trigger] data@[r])@.len() == self.width - 1,
                forall|r: int, c: int|
                    0 <= r < data@.len() && 0 <= c < self.width - 1 ==> #[trigger] data@[r]@[c]
                        == src[source_index(r, i as int)][source_index(c, j as int)],
            decreases self.height - x,
        {
            if x != i {
                let mut row: Vec<T> = Vec::new();
                let mut y: usize = 0;
                while y < self.width
                    invariant
                        self.wf(),
                        src == self@,
                        x < self.height,
                        j < self.width,
                        y <= self.width,
                        row@.len() == if y <= j { y as int } else { y - 1 },
                        forall|c: int| 0 <= c < row@.len() ==> #[trigger] row@[c] == src[x as int][source_index(c, j as int)],
                    decreases self.width - y,
                {
                    if y != j {
                        row.push(self.data[x][y]);
                    }
                    y = y + 1;
                }
                data.push(row);
            }
            x = x + 1;
        }
        let m = Matrice { height: self.height - 1, width: self.width - 1, data };
        assert forall|r: int| 0 <= r < m.height implies #[trigger] m@[r] =~= minor_of(
            src,
            i as int,
            j as int,
        )[r] by {
            assert(0 <= source_index(r, i as int) < self.height);
        }
        assert(m@ =~= minor_of(src, i as int, j as int));
        m
    }

    /// A `height` by `width` matrix whose first rows are `rows` and whose
    /// remaining rows are filled with `fill`. Seed data that does not fit
    /// (too many rows, or a row whose length is not `width`) is refused
    /// rather than discarded.
    pub fn from_rows(height: usize, width: usize, rows: Vec<Vec<T>>, fill: T) -> (r: Result<
        Matrice<T>,
        MatrixError,
    >)
        ensures
            match r {
                Ok(m) => {
                    &&& seeds_fit(rows@.map_values(|v: Vec<T>| v@), height as nat, width as nat)
                    &&& m.wf()
                    &&& m.height == height
                    &&& m.width == width
                    &&& m@ == padded(
                        rows@.map_values(|v: Vec<T>| v@),
                        height as nat,
                        width as nat,
                        fill,
                    )
                },
                Err(e) => {
                    &&& e == MatrixError::MalformedConstruction
                    &&& !seeds_fit(rows@.map_values(|v: Vec<T>| v@), height as nat, width as nat)
                },
            },
    {
        let ghost seeds = rows@.map_values(|v: Vec<T>| v@);
        if rows.len() > height {
            return Err(MatrixError::MalformedConstruction);
        }
        let mut k: usize = 0;
        while k < rows.len()
            invariant
                k <= rows@.len(),
                seeds == rows@.map_values(|v: Vec<T>| v@),
                forall|q: int| 0 <= q < k ==> (#[trigger] seeds[q]).len() == width,
            decreases rows@.len() - k,
        {
            if rows[k].len() != width {
                assert(seeds[k as int].len() != width);
                return Err(MatrixError::MalformedConstruction);
            }
            k = k + 1;
        }
        let mut data = rows;
        while data.len() < height
            invariant
                seeds.len() <= data@.len() <= height,
                forall|q: int|
                    0 <= q < data@.len() ==> (#[trigger] data@[q])@ == padded(
                        seeds,
                        height as nat,
                        width as nat,
                        fill,
                    )[q],
            decreases height - data@.len(),
        {
            let row = filled_row(width, fill);
            proof {
                let q = data@.len() as int;
                assert(row@ =~= padded(seeds, height as nat, width as nat, fill)[q]);
            }
            data.push(row);
        }
        let m = Matrice { height, width, data };
        assert(m@ =~= padded(seeds, height as nat, width as nat, fill));
        Ok(m)
    }

    /// The transpose: a `width` by `height` matrix whose cell `(c, r)` is
    /// cell `(r, c)` of this one.
    pub fn trans(&self) -> (t: Matrice<T>)
        requires
            self.wf(),
        ensures
            t.wf(),
            t.height == self.width,
            t.width == self.height,
            t@ == transpose_of(self@, self.width as nat),
    {
        let ghost src = self@;
        let mut data: Vec<Vec<T>> = Vec::new();
        let mut c: usize = 0;
        while c < self.width
            invariant
                self.wf(),
                src == self@,
                c <= self.width,
                data@.len() == c,
                forall|k: int| 0 <= k < c ==> (#[trigger] data@[k])@.len() == self.height,
                forall|k: int, r: int|
                    0 <= k < c && 0 <= r < self.height ==> #[trigger] data@[k]@[r] == src[r][k],
            decreases self.width - c,
        {
            let mut row: Vec<T> = Vec::new();
            let mut r: usize = 0;
            while r < self.height
                invariant
                    self.wf(),
                    src == self@,
                    c < self.width,
                    r <= self.height,
                    row@.len() == r,
                    forall|k: int| 0 <= k < r ==> #[trigger] row@[k] == src[k][c as int],
                decreases self.height - r,
            {
                row.push(self.data[r][c]);
                r = r + 1;
            }
            data.push(row);
            c = c + 1;
        }
        let t = Matrice { height: self.width, width: self.height, data };
        assert forall|k: int| 0 <= k < t.height implies #[trigger] t@[k] =~= transpose_of(
            src,
            self.width as nat,
        )[k] by {}
        assert(t@ =~= transpose_of(src, self.width as nat));
        t
    }

    /// A copy of this matrix whose column `column` holds, in its first
    /// `min(height, new_column.len())` cells, the leading values of
    /// `new_column`.
    pub fn replace_column_with(&self, column: usize, new_column: Vec<T>) -> (m: Matrice<T>)
        requires
            self.wf(),
            column < self.width,
        ensures
            m.wf(),
            m.height == self.height,
            m.width == self.width,
            m@ == column_replaced(self@, column as int, new_column@),
    {
        let ghost src = self@;
        let mut data: Vec<Vec<T>> = Vec::new();
        let mut r: usize = 0;
        while r < self.height
            invariant
                self.wf(),
                src == self@,
                column < self.width,
                r <= self.height,
                data@.len() == r,
                forall|k: int|
                    0 <= k < r ==> (#[trigger] data@[k])@ == column_replaced(
                        src,
                        column as int,
                        new_column@,
                    )[k],
            decreases self.height - r,
        {
            let mut row: Vec<T> = Vec::new();
            let mut c: usize = 0;
            while c < self.width
                invariant
                    self.wf(),
                    src == self@,
                    r < self.height,
                    column < self.width,
                    c <= self.width,
                    row@.len() == c,
                    forall|k: int|
                        0 <= k < c ==> #[trigger] row@[k] == if k == column && r
                            < new_column@.len() {
                            new_column@[r as int]
                        } else {
                            src[r as int][k]
                        },
                decreases self.width - c,
            {
                if c == column && r < new_column.len() {
                    row.push(new_column[r]);
                } else {
                    row.push(self.data[r][c]);
                }
                c = c + 1;
            }
            assert(row@ =~= column_replaced(src, column as int, new_column@)[r as int]);
            data.push(row);
            r = r + 1;
        }
        let m = Matrice { height: self.height, width: self.width, data };
        assert(m@ =~= column_replaced(src, column as int, new_column@));
        m
    }

    /// A copy of this matrix whose row `line` holds, in its first
    /// `min(width, new_line.len())` cells, the leading values of `new_line`.
    pub fn replace_line_with(&self, line: usize, new_line: Vec<T>) -> (m: Matrice<T>)
        requires
            self.wf(),
            line < self.height,
        ensures
            m.wf(),
            m.height == self.height,
            m.width == self.width,
            m@ == line_replaced(self@, line as int, new_line@),
    {
        let ghost src = self@;
        let mut data: Vec<Vec<T>> = Vec::new();
        let mut r: usize = 0;
        while r < self.height
            invariant
                self.wf(),
                src == self@,
                line < self.height,
                r <= self.height,
                data@.len() == r,
                forall|k: int|
                    0 <= k < r ==> (#[trigger] data@[k])@ == line_replaced(
                        src,
                        line as int,
                        new_line@,
                    )[k],
            decreases self.height - r,
        {
            let mut row: Vec<T> = Vec::new();
            let mut c: usize = 0;
            while c < self.width
                invariant
                    self.wf(),
                    src == self@,
                    r < self.height,
                    c <= self.width,
                    row@.len() == c,
                    forall|k: int|
                        0 <= k < c ==> #[trigger] row@[k] == if r == line && k < new_line@.len() {
                            new_line@[k]
                        } else {
                            src[r as int][k]
                        },
                decreases self.width - c,
            {
                if r == line && c < new_line.len() {
                    row.push(new_line[c]);
                } else {
                    row.push(self.data[r][c]);
                }
                c = c + 1;
            }
            assert(row@ =~= line_replaced(src, line as int, new_line@)[r as int]);
            data.push(row);
            r = r + 1;
        }
        let m = Matrice { height: self.height, width: self.width, data };
        assert(m@ =~= line_replaced(src, line as int, new_line@));
        m
    }
}

impl<T: Ring> Matrice<T> {
    /// The `n` by `n` identity matrix.
    pub fn identitymat(n: usize) -> (m: Matrice<T>)
        ensures
            m.wf(),
            m.height == n,
            m.width == n,
            m@ == identity_of::<T>(n as nat),
    {
        let mut data: Vec<Vec<T>> = Vec::new();
        let mut r: usize = 0;
        while r < n
            invariant
                r <= n,
                data@.len() == r,
                forall|k: int| 0 <= k < r ==> (#[trigger] data@[k])@ == identity_of::<T>(n as nat)[k],
            decreases n - r,
        {
            let mut row: Vec<T> = Vec::new();
            let mut c: usize = 0;
            while c < n
                invariant
                    r < n,
                    c <= n,
                    row@.len() == c,
                    forall|k: int|
                        0 <= k < c ==> #[trigger] row@[k] == if k == r {
                            T::spec_one()
                        } else {
                            T::spec_zero()
                        },
                decreases n - c,
            {
                if c == r {
                    row.push(T::one());
                } else {
                    row.push(T::zero());
                }
                c = c + 1;
            }
            assert(row@ =~= identity_of::<T>(n as nat)[r as int]);
            data.push(row);
            r = r + 1;
        }
        let m = Matrice { height: n, width: n, data };
        assert(m@ =~= identity_of::<T>(n as nat));
        m
    }

    /// The cell-wise sum of two matrices of the same shape; operands of
    /// different shapes are refused.
    pub fn add(&self, other: &Matrice<T>) -> (r: Result<Matrice<T>, MatrixError>)
        requires
            self.wf(),
            other.wf(),
        ensures
            match r {
                Ok(m) => {
                    &&& self.height == other.height
                    &&& self.width == other.width
                    &&& m.wf()
                    &&& m.height == self.height
                    &&& m.width == self.width
                    &&& m@ == sum_of(self@, other@)
                },
                Err(e) => {
                    &&& e == MatrixError::ShapeMismatch
                    &&& (self.height != other.height || self.width != other.width)
                },
            },
    {
        if self.height != other.height || self.width != other.width {
            return Err(MatrixError::ShapeMismatch);
        }
        let ghost a = self@;
        let ghost b = other@;
        let mut data: Vec<Vec<T>> = Vec::new();
        let mut x: usize = 0;
        while x < self.height
            invariant
                self.wf(),
                other.wf(),
                a == self@,
                b == other@,
                self.height == other.height,
                self.width == other.width,
                x <= self.height,
                data@.len() == x,
                forall|k: int| 0 <= k < x ==> (#[trigger] data@[k])@ == sum_of(a, b)[k],
            decreases self.height - x,
        {
            let mut row: Vec<T> = Vec::new();
            let mut y: usize = 0;
            while y < self.width
                invariant
                    self.wf(),
                    other.wf(),
                    a == self@,
                    b == other@,
                    self.height == other.height,
                    self.width == other.width,
                    x < self.height,
                    y <= self.width,
                    row@.len() == y,
                    forall|k: int|
                        0 <= k < y ==> #[trigger] row@[k] == T::spec_add(
                            a[x as int][k],
                            b[x as int][k],
                        ),
                decreases self.width - y,
            {
                row.push(self.data[x][y].plus(&other.data[x][y]));
                y = y + 1;
            }
            assert(row@ =~= sum_of(a, b)[x as int]);
            data.push(row);
            x = x + 1;
        }
        let m = Matrice { height: self.height, width: self.width, data };
        assert(m@ =~= sum_of(a, b));
        Ok(m)
    }

    /// The adjugate: cell `(x, y)` is `(-1)^(x + y)` times the determinant of
    /// the transpose without row `x` and column `y`. Dividing it by a
    /// non-zero determinant gives the inverse.
    pub fn adjugate(&self) -> (m: Matrice<T>)
        requires
            self.wf(),
            self.height == self.width,
        ensures
            m.wf(),
            m.height == self.height,
            m.width == self.width,
            m@ == adjugate_of(self@),
    {
        let ghost src = self@;
        let t = self.trans();
        let n = self.height;
        let mut data: Vec<Vec<T>> = Vec::new();
        let mut x: usize = 0;
        while x < n
            invariant
                t.wf(),
                t.height == n,
                t.width == n,
                n == src.len(),
                t@ == transpose_of(src, n as nat),
                x <= n,
                data@.len() == x,
                forall|k: int| 0 <= k < x ==> (#[trigger] data@[k])@ == adjugate_of(src)[k],
            decreases n - x,
        {
            let mut row: Vec<T> = Vec::new();
            let mut y: usize = 0;
            while y < n
                invariant
                    t.wf(),
                    t.height == n,
                    t.width == n,
                    n == src.len(),
                    t@ == transpose_of(src, n as nat),
                    x < n,
                    y <= n,
                    row@.len() == y,
                    forall|k: int|
                        0 <= k < y ==> #[trigger] row@[k] == signed(
                            x + k,
                            det_of(minor_of(t@, x as int, k)),
                        ),
                decreases n - y,
            {
                let d = t.minor(x, y).det();
                if x % 2 == y % 2 {
                    row.push(d);
                } else {
                    row.push(T::zero().minus(&d));
                }
                y = y + 1;
            }
            assert(row@ =~= adjugate_of(src)[x as int]);
            data.push(row);
            x = x + 1;
        }
        let m = Matrice { height: n, width: n, data };
        assert(m@ =~= adjugate_of(src));
        m
    }

    /// The determinant, by cofactor expansion along the first row. Entries
    /// equal to zero are skipped, which leaves the sum unchanged. The time
    /// grows with the factorial of the size.
    pub fn det(&self) -> (d: T)
        requires
            self.wf(),
            self.height == self.width,
        ensures
            d == det_of(self@),
        decreases self.height,
    {
        if self.height == 0 {
            return T::one();
        }
        if self.height == 1 {
            return self.data[0][0];
        }
        if self.height == 2 {
            let ad = self.data[0][0].times(&self.data[1][1]);
            let cb = self.data[1][0].times(&self.data[0][1]);
            return ad.minus(&cb);
        }
        let ghost m = self@;
        let mut sum = T::zero();
        let mut x: usize = 0;
        while x < self.width
            invariant
                self.wf(),
                m == self@,
                self.height == self.width,
                self.height >= 3,
                x <= self.width,
                sum == cofactor_sum(m, x as int),
            decreases self.width - x,
        {
            let a = self.data[0][x];
            if !a.is_zero() {
                let sub = self.minor(0, x);
                let d = sub.det();
                let t = a.times(&d);
                if x % 2 == 0 {
                    sum = sum.plus(&t);
                } else {
                    sum = sum.minus(&t);
                }
            } else {
                proof {
                    T::lemma_mul_zero(det_of(minor_of(m, 0, x as int)));
                    T::lemma_zero_neutral(sum);
                }
            }
            x = x + 1;
        }
        sum
    }
}

} // verus!
