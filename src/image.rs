use vstd::prelude::*;

use crate::color::Color;

verus! {

/// std's `io::Error`, carried through as an opaque value: nothing is assumed
/// of what it holds.
#[verifier::external_type_specification]
#[verifier::external_body]
pub struct ExIoError(std::io::Error);

/// Failure to write a finished image out.
pub enum Error {
    WriteIO(std::io::Error),
}

impl From<std::io::Error> for Error {
    fn from(e: std::io::Error) -> (r: Error)
        ensures
            r == Error::WriteIO(e),
    {
        Error::WriteIO(e)
    }
}

impl vstd::std_specs::convert::FromSpecImpl<std::io::Error> for Error {
    open spec fn obeys_from_spec() -> bool {
        true
    }

    open spec fn from_spec(e: std::io::Error) -> Error {
        Error::WriteIO(e)
    }
}

/// A grid is an image when it has at least one row, its first row has at
/// least one pixel, and every row is as wide as the first.
pub open spec fn is_grid(rows: Seq<Seq<Color>>) -> bool {
    &&& rows.len() > 0
    &&& rows[0].len() > 0
    &&& forall|i: int| 0 <= i < rows.len() ==> #[trigger] rows[i].len() == rows[0].len()
}

/// The three channels of one pixel, in the order red, green, blue.
pub open spec fn pixel_bytes(c: Color) -> Seq<u8> {
    seq![c.r, c.g, c.b]
}

/// The channels of a row of pixels, pixel after pixel.
pub open spec fn row_bytes(row: Seq<Color>) -> Seq<u8>
    decreases row.len(),
{
    if row.len() == 0 {
        Seq::empty()
    } else {
        row_bytes(row.drop_last()) + pixel_bytes(row.last())
    }
}

/// The channels of a grid, row after row from the top.
pub open spec fn grid_bytes(rows: Seq<Seq<Color>>) -> Seq<u8>
    decreases rows.len(),
{
    if rows.len() == 0 {
        Seq::empty()
    } else {
        grid_bytes(rows.drop_last()) + row_bytes(rows.last())
    }
}

/// A row holds three channels for each of its pixels.
pub proof fn lemma_row_bytes_len(row: Seq<Color>)
    ensures
        row_bytes(row).len() == 3 * row.len(),
    decreases row.len(),
{
    if row.len() > 0 {
        lemma_row_bytes_len(row.drop_last());
    }
}

/// Rows that are all `w` pixels wide hold three channels for each pixel.
pub proof fn lemma_grid_bytes_len(rows: Seq<Seq<Color>>, w: nat)
    requires
        forall|i: int| 0 <= i < rows.len() ==> #[trigger] rows[i].len() == w,
    ensures
        grid_bytes(rows).len() == 3 * w * rows.len(),
    decreases rows.len(),
{
    if rows.len() > 0 {
        let init = rows.drop_last();
        assert forall|i: int| 0 <= i < init.len() implies #[trigger] init[i].len() == w by {
            assert(init[i] == rows[i]);
        }
        lemma_grid_bytes_len(init, w);
        lemma_row_bytes_len(rows.last());
        assert(3 * w * rows.len() == 3 * w * init.len() + 3 * w) by (nonlinear_arith)
            requires
                rows.len() == init.len() + 1,
        ;
    }
}

/// A rectangular grid of 8-bit pixels, stored row by row from the top.
pub struct Image(Vec<Vec<Color>>);

impl View for Image {
    type V = Seq<Seq<Color>>;

    closed spec fn view(&self) -> Seq<Seq<Color>> {
        self.0@.map_values(|row: Vec<Color>| row@)
    }
}

impl Image {
    /// The rows form a grid.
    pub open spec fn wf(&self) -> bool {
        is_grid(self@)
    }

    /// A `w` by `h` image with every pixel black.
    pub fn from_size(w: usize, h: usize) -> (img: Image)
        requires
            w > 0,
            h > 0,
        ensures
            img.wf(),
            img@ == Seq::new(h as nat, |_i: int| Seq::new(w as nat, |_j: int| Color::spec_black())),
    {
        let mut rows: Vec<Vec<Color>> = Vec::new();
        let mut i: usize = 0;
        while i < h
            invariant
                i <= h,
                rows@.len() == i,
                forall|k: int| 0 <= k < i ==> #[trigger] rows@[k]@ == Seq::new(w as nat, |_j: int| Color::spec_black()),
            decreases h - i,
        {
            let mut row: Vec<Color> = Vec::new();
            let mut j: usize = 0;
            while j < w
                invariant
                    j <= w,
                    row@ == Seq::new(j as nat, |_j: int| Color::spec_black()),
                decreases w - j,
            {
                row.push(Color::black());
                j = j + 1;
                assert(row@ =~= Seq::new(j as nat, |_j: int| Color::spec_black()));
            }
            rows.push(row);
            i = i + 1;
        }
        let img = Image(rows);
        assert(img@ =~= Seq::new(h as nat, |_i: int| Seq::new(w as nat, |_j: int| Color::spec_black())));
        img
    }

    /// Number of rows.
    pub fn h(&self) -> (n: usize)
        ensures
            n == self@.len(),
    {
        self.0.len()
    }

    /// Number of pixels in a row.
    pub fn w(&self) -> (n: usize)
        requires
            self.wf(),
        ensures
            n == self@[0].len(),
    {
        self.0[0].len()
    }

    /// Replaces row `index` with `row`, which must be as wide as the image.
    pub fn set_row(&mut self, index: usize, row: Vec<Color>) -> (r: &mut Self)
        requires
            old(self).wf(),
            index < old(self)@.len(),
            row@.len() == old(self)@[0].len(),
        ensures
            r.wf(),
            r@ == old(self)@.update(index as int, row@),
            *final(self) == *final(r),
    {
        let ghost prev = self@;
        self.0.set(index, row);
        proof {
            assert(self@ =~= prev.update(index as int, row@));
            assert(forall|i: int| 0 <= i < self@.len() ==> #[trigger] self@[i].len() == self@[0].len());
        }
        self
    }

    /// The image whose rows are `rows`, where they form a grid; `None` where
    /// there is no row, the first row is empty, or the rows differ in width.
    pub fn from_rows(rows: Vec<Vec<Color>>) -> (img: Option<Image>)
        ensures
            img.is_some() <==> is_grid(rows@.map_values(|row: Vec<Color>| row@)),
            img matches Some(i) ==> i@ == rows@.map_values(|row: Vec<Color>| row@),
    {
        let ghost grid = rows@.map_values(|row: Vec<Color>| row@);
        if rows.len() == 0 || rows[0].len() == 0 {
            return None;
        }
        let w = rows[0].len();
        let mut i: usize = 1;
        while i < rows.len()
            invariant
                grid == rows@.map_values(|row: Vec<Color>| row@),
                1 <= i <= rows@.len(),
                w == grid[0].len(),
                forall|k: int| 0 <= k < i ==> #[trigger] grid[k].len() == w,
            decreases rows@.len() - i,
        {
            if rows[i].len() != w {
                assert(grid[i as int].len() != grid[0].len());
                return None;
            }
            i = i + 1;
        }
        let img = Image(rows);
        assert(img@ == grid);
        Some(img)
    }

    /// The pixel at row `i_row`, column `i_col`.
    pub fn pixel(&self, i_row: usize, i_col: usize) -> (c: Color)
        requires
            i_row < self@.len(),
            i_col < self@[i_row as int].len(),
        ensures
            c == self@[i_row as int][i_col as int],
    {
        self.0[i_row][i_col]
    }

    /// Sets the pixel at row `i_row`, column `i_col` to `c`.
    pub fn set_pixel(&mut self, i_row: usize, i_col: usize, c: Color)
        requires
            old(self).wf(),
            i_row < old(self)@.len(),
            i_col < old(self)@[i_row as int].len(),
        ensures
            final(self).wf(),
            final(self)@ == old(self)@.update(
                i_row as int,
                old(self)@[i_row as int].update(i_col as int, c),
            ),
    {
        let ghost prev = self@;
        let mut row: Vec<Color> = Vec::new();
        self.0.set_and_swap(i_row, &mut row);
        row.set(i_col, c);
        self.0.set(i_row, row);
        proof {
            assert(self@ =~= prev.update(i_row as int, prev[i_row as int].update(i_col as int, c)));
            assert(forall|i: int| 0 <= i < self@.len() ==> #[trigger] self@[i].len() == self@[0].len());
        }
    }

    /// The channels of every pixel, row after row from the top, each pixel
    /// as red, green, blue.
    pub fn linearized(&self) -> (bytes: Vec<u8>)
        ensures
            bytes@ == grid_bytes(self@),
            self.wf() ==> bytes@.len() == 3 * self@[0].len() * self@.len(),
    {
        let mut res: Vec<u8> = Vec::new();
        let mut i: usize = 0;
        while i < self.0.len()
            invariant
                i <= self@.len(),
                res@ == grid_bytes(self@.take(i as int)),
            decreases self@.len() - i,
        {
            let row = &self.0[i];
            assert(row@ == self@[i as int]);
            let mut j: usize = 0;
            while j < row.len()
                invariant
                    i < self@.len(),
                    row@ == self@[i as int],
                    j <= row@.len(),
                    res@ == grid_bytes(self@.take(i as int)) + row_bytes(row@.take(j as int)),
                decreases row@.len() - j,
            {
                let c = row[j];
                res.push(c.r);
                res.push(c.g);
                res.push(c.b);
                proof {
                    assert(row@.take(j + 1).drop_last() =~= row@.take(j as int));
                    assert(res@ =~= grid_bytes(self@.take(i as int)) + row_bytes(row@.take(j + 1)));
                }
                j = j + 1;
            }
            proof {
                assert(row@.take(j as int) =~= row@);
                assert(self@.take(i + 1).drop_last() =~= self@.take(i as int));
            }
            i = i + 1;
        }
        assert(self@.take(i as int) =~= self@);
        proof {
            if self.wf() {
                lemma_grid_bytes_len(self@, self@[0].len());
            }
        }
        res
    }
}

} // verus!
