//! Matrices as text: one line for each row, every number with two decimals.
use crate::matrix::Matrix;
use vstd::prelude::*;
use vstd::string::StringExecFns;

verus! {

/// The opening bar, then the first `count` cells, each behind a blank; where
/// a cell begins a new row of `cols` cells, the row before is closed and the
/// new one opened first.
pub open spec fn rows_text(cells: Seq<Seq<char>>, cols: nat, count: nat) -> Seq<char>
    decreases count,
{
    if count == 0 {
        "|"@
    } else {
        let before = rows_text(cells, cols, (count - 1) as nat);
        let i = count - 1;
        let opened = if i != 0 && i % (cols as int) == 0 {
            before + " |\n|"@
        } else {
            before
        };
        opened + " "@ + cells[i]
    }
}

/// The table of the given cells in rows of `cols` cells.
pub open spec fn table_text(cells: Seq<Seq<char>>, cols: nat) -> Seq<char> {
    rows_text(cells, cols, cells.len()) + " |"@
}

/// The texts of `cells`, in order.
pub open spec fn texts(cells: Seq<String>) -> Seq<Seq<char>> {
    cells.map_values(|cell: String| cell@)
}

/// The text of `value` with two digits behind the decimal point, as
/// `format!` of std writes it for the pattern `{:.2}`. What the text holds
/// is decided by the `Display` of `T`, so nothing is claimed of it.
#[verifier::external_body]
fn two_decimals<T: core::fmt::Display>(value: &T) -> (text: String) {
    format!("{:.2}", value)
}

/// Lays `cells` out as a table in rows of `cols` cells: a bar, the cells of
/// a row each behind a blank, a blank and a bar, and a line break between
/// rows.
pub fn lay_out(cells: &Vec<String>, cols: usize) -> (text: String)
    requires
        cells.len() > 1 ==> cols > 0,
    ensures
        text@ == table_text(texts(cells@), cols as nat),
{
    let mut out = String::from_str("|");
    let mut i: usize = 0;
    while i < cells.len()
        invariant
            cells.len() > 1 ==> cols > 0,
            0 <= i <= cells.len(),
            out@ == rows_text(texts(cells@), cols as nat, i as nat),
        decreases cells.len() - i,
    {
        if i != 0 && i % cols == 0 {
            out.append(" |\n|");
        }
        out.append(" ");
        out.append(cells[i].as_str());
        i += 1;
    }
    out.append(" |");
    out
}

/// `text` is what the library writes for `value`: a text that `format!` gave
/// for it under the pattern `{:.2}`.
pub closed spec fn written<T: core::fmt::Display>(value: T, text: String) -> bool {
    call_ensures(two_decimals::<T>, (&value,), text)
}

impl<T: Copy> Matrix<T> {
    /// The matrix as a table: one line for each `cols` elements, every
    /// element as `cell` writes it.
    pub fn render_with<F: Fn(&T) -> String>(&self, cell: F) -> (text: String)
        requires
            self.elements.len() > 1 ==> self.cols > 0,
            forall|i: int|
                0 <= i < self.elements.len() ==> call_requires(cell, (&self.elements[i],)),
        ensures
            exists|cells: Seq<String>|
                {
                    &&& cells.len() == self.elements.len()
                    &&& forall|i: int|
                        0 <= i < cells.len() ==> call_ensures(
                            cell,
                            (&self.elements[i],),
                            #[trigger] cells[i],
                        )
                    &&& text@ == #[trigger] table_text(texts(cells), self.cols as nat)
                },
    {
        let mut cells: Vec<String> = Vec::new();
        let mut i: usize = 0;
        while i < self.elements.len()
            invariant
                forall|k: int|
                    0 <= k < self.elements.len() ==> call_requires(cell, (&self.elements[k],)),
                0 <= i <= self.elements.len(),
                cells.len() == i,
                forall|k: int|
                    0 <= k < i ==> call_ensures(cell, (&self.elements[k],), #[trigger] cells[k]),
            decreases self.elements.len() - i,
        {
            cells.push(cell(&self.elements[i]));
            i += 1;
        }
        lay_out(&cells, self.cols)
    }
}

impl<T: Copy + core::fmt::Display> Matrix<T> {
    /// The matrix as a table: one line for each `cols` elements, every
    /// element with two decimals.
    pub fn render(&self) -> (text: String)
        requires
            self.elements.len() > 1 ==> self.cols > 0,
        ensures
            exists|cells: Seq<String>|
                {
                    &&& cells.len() == self.elements.len()
                    &&& forall|i: int|
                        0 <= i < cells.len() ==> written(self.elements[i], #[trigger] cells[i])
                    &&& text@ == #[trigger] table_text(texts(cells), self.cols as nat)
                },
    {
        self.render_with(two_decimals::<T>)
    }
}

} // verus!
