use vstd::prelude::*;

use crate::color::Color;
use crate::image::{is_grid, Image};

verus! {

/// Finished rows as plain sequences, each with the index of the row it renders.
pub open spec fn finished_view(done: Seq<(usize, Vec<Color>)>) -> Seq<(usize, Seq<Color>)> {
    done.map_values(|p: (usize, Vec<Color>)| (p.0, p.1@))
}

/// The finished rows make up a `width` by `height` image: every index is a
/// row of the image, every row is `width` pixels wide, no index comes twice,
/// and each row of the image has come.
pub open spec fn rows_complete(done: Seq<(usize, Seq<Color>)>, width: nat, height: nat) -> bool {
    &&& width > 0
    &&& height > 0
    &&& forall|k: int| 0 <= k < done.len() ==> (#[trigger] done[k]).0 < height && done[k].1.len() == width
    &&& forall|j: int, k: int|
        0 <= j < done.len() && 0 <= k < done.len() && j != k ==> (#[trigger] done[j]).0 != (#[trigger] done[k]).0
    &&& forall|i: int| 0 <= i < height ==> #[trigger] has_row(done, i)
}

/// Some finished row carries index `i`.
pub open spec fn has_row(done: Seq<(usize, Seq<Color>)>, i: int) -> bool {
    exists|k: int| 0 <= k < done.len() && (#[trigger] done[k]).0 == i
}

/// The finished row that carries index `i`.
pub open spec fn row_tagged(done: Seq<(usize, Seq<Color>)>, i: int) -> Seq<Color> {
    done[choose|k: int| 0 <= k < done.len() && (#[trigger] done[k]).0 == i].1
}

/// The image rows, from the top, that the finished rows make up.
pub open spec fn placed_rows(done: Seq<(usize, Seq<Color>)>, height: nat) -> Seq<Seq<Color>> {
    Seq::new(height, |i: int| row_tagged(done, i))
}

/// Each finished row lands at the row of the image that its index names,
/// whatever the order in which the rows were finished.
pub proof fn lemma_row_lands_at_index(done: Seq<(usize, Seq<Color>)>, width: nat, height: nat, k: int)
    requires
        rows_complete(done, width, height),
        0 <= k < done.len(),
    ensures
        placed_rows(done, height)[done[k].0 as int] == done[k].1,
{
    let i = done[k].0 as int;
    assert(has_row(done, i));
    let c = choose|c: int| 0 <= c < done.len() && (#[trigger] done[c]).0 == i;
    assert(c == k);
}

/// Two orders of arrival of the same finished rows make up the same image.
pub proof fn lemma_arrival_order_irrelevant(
    a: Seq<(usize, Seq<Color>)>,
    b: Seq<(usize, Seq<Color>)>,
    width: nat,
    height: nat,
)
    requires
        rows_complete(a, width, height),
        rows_complete(b, width, height),
        forall|j: int| 0 <= j < b.len() ==> a.contains(#[trigger] b[j]),
    ensures
        placed_rows(a, height) == placed_rows(b, height),
{
    assert forall|i: int| 0 <= i < height implies placed_rows(a, height)[i] == placed_rows(b, height)[i] by {
        assert(has_row(b, i));
        let j = choose|j: int| 0 <= j < b.len() && (#[trigger] b[j]).0 == i;
        assert(a.contains(b[j]));
        let k = choose|k: int| 0 <= k < a.len() && a[k] == b[j];
        lemma_row_lands_at_index(a, width, height, k);
        lemma_row_lands_at_index(b, width, height, j);
    }
    assert(placed_rows(a, height) =~= placed_rows(b, height));
}

/// Puts finished rows, given in the order in which they were finished, each
/// with its row index, into a `width` by `height` image: the row with index
/// `i` becomes row `i` of the image. `None` where the rows do not make up
/// such an image.
pub fn assemble_rows(width: usize, height: usize, done: Vec<(usize, Vec<Color>)>) -> (img: Option<Image>)
    ensures
        img.is_some() <==> rows_complete(finished_view(done@), width as nat, height as nat),
        img matches Some(m) ==> m.wf() && m@ == placed_rows(finished_view(done@), height as nat),
{
    let ghost d = finished_view(done@);
    if width == 0 || height == 0 {
        return None;
    }
    let mut rows: Vec<Vec<Color>> = Vec::new();
    let mut i: usize = 0;
    while i < height
        invariant
            i <= height,
            rows@.len() == i,
            forall|r: int| 0 <= r < i ==> (#[trigger] rows@[r])@.len() == 0,
        decreases height - i,
    {
        rows.push(Vec::new());
        i = i + 1;
    }
    let mut pending = done;
    assert(finished_view(pending@) =~= d.take(pending@.len() as int));
    while pending.len() > 0
        invariant
            d == finished_view(done@),
            width > 0,
            height > 0,
            pending@.len() <= d.len(),
            finished_view(pending@) == d.take(pending@.len() as int),
            rows@.len() == height,
            forall|k: int|
                pending@.len() <= k < d.len() ==> (#[trigger] d[k]).0 < height && d[k].1.len() == width
                    && rows@[d[k].0 as int]@ == d[k].1,
            forall|j: int, k: int|
                pending@.len() <= j < d.len() && pending@.len() <= k < d.len() && j != k ==> (#[trigger] d[j]).0
                    != (#[trigger] d[k]).0,
            forall|r: int|
                0 <= r < height && (#[trigger] rows@[r])@.len() != 0 ==> exists|k: int|
                    pending@.len() <= k < d.len() && (#[trigger] d[k]).0 == r,
        decreases pending@.len(),
    {
        let ghost n = pending@.len() - 1;
        let ghost before = pending@;
        let (i, row) = pending.pop().unwrap();
        proof {
            assert(before =~= pending@.push((i, row)));
            assert(finished_view(before)[n] == d.take(n + 1)[n]);
            assert(d[n] == (i, row@));
        }
        if i >= height || row.len() != width || rows[i].len() != 0 {
            proof {
                if i < height && row@.len() == width {
                    assert(rows@[i as int]@.len() != 0);
                    let k = choose|k: int| n + 1 <= k < d.len() && (#[trigger] d[k]).0 == i;
                    assert(d[k].0 == d[n].0);
                } else {
                    assert(!(d[n].0 < height && d[n].1.len() == width));
                }
                assert(!rows_complete(d, width as nat, height as nat));
            }
            return None;
        }
        rows.set(i, row);
        assert(finished_view(pending@) =~= d.take(pending@.len() as int));
        assert forall|r: int| 0 <= r < height && (#[trigger] rows@[r])@.len() != 0 implies exists|k: int|
            pending@.len() <= k < d.len() && (#[trigger] d[k]).0 == r by {
            if r == i {
                assert(d[n].0 == r);
            }
        }
    }
    let mut r: usize = 0;
    while r < height
        invariant
            d == finished_view(done@),
            width > 0,
            height > 0,
            rows@.len() == height,
            r <= height,
            forall|k: int| 0 <= k < d.len() ==> (#[trigger] d[k]).0 < height && d[k].1.len() == width
                && rows@[d[k].0 as int]@ == d[k].1,
            forall|j: int, k: int|
                0 <= j < d.len() && 0 <= k < d.len() && j != k ==> (#[trigger] d[j]).0 != (#[trigger] d[k]).0,
            forall|q: int| 0 <= q < height && (#[trigger] rows@[q])@.len() != 0 ==> has_row(d, q),
            forall|q: int| 0 <= q < r ==> #[trigger] has_row(d, q),
        decreases height - r,
    {
        if rows[r].len() == 0 {
            proof {
                if has_row(d, r as int) {
                    let k = choose|k: int| 0 <= k < d.len() && (#[trigger] d[k]).0 == r;
                    assert(rows@[d[k].0 as int]@ == d[k].1);
                }
                assert(!rows_complete(d, width as nat, height as nat));
            }
            return None;
        }
        assert(has_row(d, r as int));
        r = r + 1;
    }
    let img = Image::from_rows(rows);
    proof {
        let grid = rows@.map_values(|row: Vec<Color>| row@);
        assert forall|q: int| 0 <= q < height implies #[trigger] grid[q] == placed_rows(d, height as nat)[q] by {
            assert(has_row(d, q));
            let k = choose|k: int| 0 <= k < d.len() && (#[trigger] d[k]).0 == q;
            lemma_row_lands_at_index(d, width as nat, height as nat, k);
        }
        assert(grid =~= placed_rows(d, height as nat));
        assert forall|q: int| 0 <= q < grid.len() implies #[trigger] grid[q].len() == width by {
            assert(has_row(d, q));
            let k = choose|k: int| 0 <= k < d.len() && (#[trigger] d[k]).0 == q;
        }
        assert(is_grid(grid));
    }
    img
}

} // verus!
