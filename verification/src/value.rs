//! Plain values that cross the boundary to the store: the parameters bound
//! to a statement and the cells of the rows that come back.

use vstd::prelude::*;

verus! {

/// One value bound to a placeholder, or one cell of a returned row.
#[derive(Debug, Clone, PartialEq, Eq)]
pub enum Value {
    /// The store's null.
    Null,
    /// A 32-bit signed integer, the type of an integer key.
    Integer(i32),
    /// A character string.
    Text(String),
}

/// Mathematical value of a [`Value`].
pub enum ValueView {
    Null,
    Integer(int),
    Text(Seq<char>),
}

impl View for Value {
    type V = ValueView;

    open spec fn view(&self) -> ValueView {
        match self {
            Value::Null => ValueView::Null,
            Value::Integer(number) => ValueView::Integer(*number as int),
            Value::Text(text) => ValueView::Text(text@),
        }
    }
}

/// One row of a result set: its cells, in the order in which the statement
/// names the columns.
pub type Row = Vec<Value>;

/// The cells of a row as mathematical values.
pub open spec fn cells(row: Seq<Value>) -> Seq<ValueView> {
    Seq::new(row.len(), |i: int| row[i]@)
}

/// The rows of a result set as mathematical values.
pub open spec fn table(rows: Seq<Row>) -> Seq<Seq<ValueView>> {
    Seq::new(rows.len(), |i: int| cells(rows[i]@))
}

/// Builds a text value from a borrowed string.
pub fn text_value(text: &String) -> (value: Value)
    ensures
        value@ == ValueView::Text(text@),
{
    Value::Text(text.clone())
}

/// The string held by a text cell, if the cell is one.
pub fn as_text(cell: &Value) -> (text: Option<String>)
    ensures
        match cell@ {
            ValueView::Text(held) => text matches Some(found) && found@ == held,
            _ => text is None,
        },
{
    match cell {
        Value::Text(held) => Some(held.clone()),
        _ => None,
    }
}

/// The number held by an integer cell, if the cell is one.
pub fn as_integer(cell: &Value) -> (number: Option<i32>)
    ensures
        match cell@ {
            ValueView::Integer(held) => number == Some(held as i32),
            _ => number is None,
        },
{
    match cell {
        Value::Integer(held) => Some(*held),
        _ => None,
    }
}

} // verus!
