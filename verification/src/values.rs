//! The plain values that go to the engine and come back from it: bound
//! parameters, result cells, and a statement with its parameters.

use vstd::prelude::*;

verus! {

/// A value bound to a placeholder of a statement.
#[derive(Debug, Clone, PartialEq, Eq)]
pub enum Param {
    Integer(i64),
    Text(String),
}

/// What a [`Param`] holds.
pub ghost enum ParamView {
    Integer(int),
    Text(Seq<char>),
}

impl View for Param {
    type V = ParamView;

    open spec fn view(&self) -> ParamView {
        match self {
            Param::Integer(v) => ParamView::Integer(*v as int),
            Param::Text(s) => ParamView::Text(s@),
        }
    }
}

impl DeepView for Param {
    type V = ParamView;

    open spec fn deep_view(&self) -> ParamView {
        self@
    }
}

/// One column of one result row. What is neither empty nor an integer, text
/// or bytes is told apart from these but not kept: a floating-point number,
/// or text that is not valid UTF-8. No column of the store holds either.
#[derive(Debug, Clone, PartialEq, Eq)]
pub enum Cell {
    Null,
    Integer(i64),
    Text(String),
    Blob(Vec<u8>),
    Other,
}

/// What a [`Cell`] holds.
pub ghost enum CellView {
    Null,
    Integer(int),
    Text(Seq<char>),
    Blob(Seq<u8>),
    Other,
}

impl View for Cell {
    type V = CellView;

    open spec fn view(&self) -> CellView {
        match self {
            Cell::Null => CellView::Null,
            Cell::Integer(v) => CellView::Integer(*v as int),
            Cell::Text(s) => CellView::Text(s@),
            Cell::Blob(b) => CellView::Blob(b@),
            Cell::Other => CellView::Other,
        }
    }
}

impl DeepView for Cell {
    type V = CellView;

    open spec fn deep_view(&self) -> CellView {
        self@
    }
}

/// One column of one result row as the engine was asked for it, once as
/// each kind of value: `integer` is absent where the column holds neither
/// nothing nor an integer, and holds `None` where it holds nothing; `text`
/// is absent where it does not hold valid text; `blob` is absent where it
/// does not hold bytes.
#[derive(Debug, Clone, PartialEq, Eq)]
pub struct RawCell {
    pub integer: Option<Option<i64>>,
    pub text: Option<String>,
    pub blob: Option<Vec<u8>>,
}

/// What a [`RawCell`] holds.
pub ghost struct RawCellView {
    pub integer: Option<Option<int>>,
    pub text: Option<Seq<char>>,
    pub blob: Option<Seq<u8>>,
}

impl DeepView for RawCell {
    type V = RawCellView;

    open spec fn deep_view(&self) -> RawCellView {
        self@
    }
}

impl View for RawCell {
    type V = RawCellView;

    open spec fn view(&self) -> RawCellView {
        RawCellView {
            integer: match self.integer {
                Some(Some(v)) => Some(Some(v as int)),
                Some(None) => Some(None),
                None => None,
            },
            text: match self.text {
                Some(s) => Some(s@),
                None => None,
            },
            blob: match self.blob {
                Some(b) => Some(b@),
                None => None,
            },
        }
    }
}

/// The cell that the answers of the engine come to: the first kind that it
/// could be read as, and [`CellView::Other`] where it could be read as none.
pub open spec fn cell_of_raw(raw: RawCellView) -> CellView {
    match raw.integer {
        Some(None) => CellView::Null,
        Some(Some(v)) => CellView::Integer(v),
        None => match raw.text {
            Some(s) => CellView::Text(s),
            None => match raw.blob {
                Some(b) => CellView::Blob(b),
                None => CellView::Other,
            },
        },
    }
}

/// Makes a cell of the answers of the engine.
pub fn cell_from_raw(raw: &RawCell) -> (cell: Cell)
    ensures
        cell@ == cell_of_raw(raw@),
{
    match &raw.integer {
        Some(None) => Cell::Null,
        Some(Some(v)) => Cell::Integer(*v),
        None => match &raw.text {
            Some(s) => Cell::Text(s.clone()),
            None => match &raw.blob {
                Some(b) => {
                    let bytes = b.clone();
                    assert(bytes@ =~= b@);
                    Cell::Blob(bytes)
                },
                None => Cell::Other,
            },
        },
    }
}

/// The cells that the answers of the engine for one row come to.
pub open spec fn cells_of_raw(row: Seq<RawCellView>) -> RowView {
    Seq::new(row.len(), |i: int| cell_of_raw(row[i]))
}

/// A result row, as the contracts see it.
pub type RowView = Seq<CellView>;

/// One statement for the engine: its text, and the values bound to `?1`,
/// `?2` and so on, in that order. No caller-supplied value stands in the
/// text unless it was found in an allow-list first.
#[derive(Debug, Clone, PartialEq, Eq)]
pub struct Statement {
    pub sql: String,
    pub params: Vec<Param>,
}

/// What a [`Statement`] holds.
pub ghost struct StatementView {
    pub sql: Seq<char>,
    pub params: Seq<ParamView>,
}

impl View for Statement {
    type V = StatementView;

    open spec fn view(&self) -> StatementView {
        StatementView { sql: self.sql@, params: self.params.deep_view() }
    }
}

impl DeepView for Statement {
    type V = StatementView;

    open spec fn deep_view(&self) -> StatementView {
        self@
    }
}

/// What the engine answered to one request made through the handle.
pub ghost enum AnswerView {
    /// It failed.
    Failed,
    /// It ran a statement that changes rows, and changed this many.
    Changed(int),
    /// It ran a statement that reads rows, and found these.
    Rows(Seq<RowView>),
    /// It was asked for the row id of the latest insert, and gave this one.
    RowId(int),
}

/// The integer in a cell, if the cell holds one that fits in 32 bits.
pub open spec fn cell_as_i32(c: CellView) -> Option<int> {
    match c {
        CellView::Integer(v) => if i32::MIN <= v <= i32::MAX {
            Some(v)
        } else {
            None
        },
        _ => None,
    }
}

/// The text in a cell, if the cell holds text.
pub open spec fn cell_as_text(c: CellView) -> Option<Seq<char>> {
    match c {
        CellView::Text(s) => Some(s),
        _ => None,
    }
}

/// Reads a cell as a 32-bit integer.
pub fn read_i32(cell: &Cell) -> (r: Option<i32>)
    ensures
        r is Some == cell_as_i32(cell@) is Some,
        r matches Some(v) ==> cell_as_i32(cell@) == Some(v as int),
{
    match cell {
        Cell::Integer(v) => {
            if -2147483648 <= *v && *v <= 2147483647 {
                Some(*v as i32)
            } else {
                None
            }
        },
        _ => None,
    }
}

/// Reads a cell as text.
pub fn read_text(cell: &Cell) -> (r: Option<String>)
    ensures
        r is Some == cell_as_text(cell@) is Some,
        r matches Some(s) ==> cell_as_text(cell@) == Some(s@),
{
    match cell {
        Cell::Text(s) => Some(s.clone()),
        _ => None,
    }
}

} // verus!
