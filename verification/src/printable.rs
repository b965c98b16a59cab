//! The text of a matrix: a grid of the texts of its cells.

use crate::common::Numeric;
use crate::view::lemma_offset_in_range;
use vstd::prelude::*;
use vstd::string::StringExecFns;

verus! {

/// The text of the first `n` cells of row `y`: each cell's text, then a tab.
pub open spec fn row_text(texts: Seq<Seq<char>>, columns: nat, y: int, n: nat) -> Seq<char>
    decreases n,
{
    if n == 0 {
        Seq::empty()
    } else {
        row_text(texts, columns, y, (n - 1) as nat) + texts[y * columns + n - 1] + "\t"@
    }
}

/// The text of the first `n` rows: each row's text, then a line feed.
pub open spec fn grid_text(texts: Seq<Seq<char>>, columns: nat, n: nat) -> Seq<char>
    decreases n,
{
    if n == 0 {
        Seq::empty()
    } else {
        grid_text(texts, columns, (n - 1) as nat) + row_text(texts, columns, n - 1, columns)
            + "\n"@
    }
}

/// `texts` holds, for each of `cells`, a text that `T`'s `Display` may give
/// for it.
pub open spec fn cell_texts<T: Numeric>(cells: Seq<T>, texts: Seq<String>) -> bool {
    &&& texts.len() == cells.len()
    &&& forall|i: int|
        0 <= i < cells.len() ==> #[trigger] vstd::string::to_string_from_display_ensures::<T>(
            &cells[i],
            texts[i],
        )
}

/// Lays the texts of a matrix's cells out as a grid: one line for each row,
/// and in it each cell's text followed by a tab.
pub fn render_grid(texts: &Vec<String>, columns: usize, rows: usize) -> (out: String)
    requires
        texts@.len() == columns * rows,
    ensures
        out@ == grid_text(texts.deep_view(), columns as nat, rows as nat),
{
    let ghost views = texts.deep_view();
    let count = texts.len();
    let mut out = String::new();
    let mut y: usize = 0;
    assert(out@ =~= grid_text(views, columns as nat, 0));
    while y < rows
        invariant
            views == texts.deep_view(),
            texts@.len() == columns * rows,
            texts@.len() == count,
            y <= rows,
            out@ == grid_text(views, columns as nat, y as nat),
        decreases rows - y,
    {
        let ghost before = out@;
        let mut x: usize = 0;
        assert(out@ =~= before + row_text(views, columns as nat, y as int, 0));
        while x < columns
            invariant
                views == texts.deep_view(),
                texts@.len() == columns * rows,
                texts@.len() == count,
                y < rows,
                x <= columns,
                out@ == before + row_text(views, columns as nat, y as int, x as nat),
            decreases columns - x,
        {
            proof {
                lemma_offset_in_range(columns as nat, rows as nat, x as int, y as int);
            }
            out.append(texts[y * columns + x].as_str());
            out.append("\t");
            assert(out@ =~= before + row_text(views, columns as nat, y as int, (x + 1) as nat));
            x += 1;
        }
        out.append("\n");
        assert(out@ =~= grid_text(views, columns as nat, (y + 1) as nat));
        y += 1;
    }
    out
}

} // verus!
