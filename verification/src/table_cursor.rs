//! The cursor of the explorer's table. The cursor lives in the table widget's
//! own selection state, so that the host can hand that state to the widget when
//! it renders. This module states what the explorer relies on of that state,
//! and says where a step up or down takes the cursor.

use ratatui::widgets::TableState;
use vstd::prelude::*;

verus! {

/// `ratatui::widgets::TableState`, the table widget's selection state. Its
/// fields are not read here: what it has selected goes by the two names below.
#[verifier::external_type_specification]
#[verifier::external_body]
pub struct ExTableState(TableState);

/// The row that a table state has selected, if any: what
/// `TableState::selected` reads.
pub uninterp spec fn table_row(state: TableState) -> Option<usize>;

/// The column that a table state has selected, if any: what
/// `TableState::selected_column` reads.
pub uninterp spec fn table_column(state: TableState) -> Option<usize>;

/// `TableState::new` makes a state with no row and no column selected.
pub assume_specification[ TableState::new ]() -> (state: TableState)
    ensures
        table_row(state) == None::<usize>,
        table_column(state) == None::<usize>,
;

/// `TableState::selected_column` returns the selected column.
pub assume_specification[ TableState::selected_column ](state: &TableState) -> (column: Option<
    usize,
>)
    ensures
        column == table_column(*state),
;

/// `TableState::selected` returns the selected row.
pub assume_specification[ TableState::selected ](state: &TableState) -> (row: Option<usize>)
    ensures
        row == table_row(*state),
;

/// `TableState::select` stores `index` as the selected row. It does not touch
/// the selected column.
pub assume_specification[ TableState::select ](state: &mut TableState, index: Option<usize>)
    ensures
        table_row(*final(state)) == index,
        table_column(*final(state)) == table_column(*old(state)),
;

/// `TableState::select_first` selects row 0.
pub assume_specification[ TableState::select_first ](state: &mut TableState)
    ensures
        table_row(*final(state)) == Some(0usize),
        table_column(*final(state)) == table_column(*old(state)),
;

/// `TableState::select_next` selects the row after the selected one, stopping
/// at `usize::MAX`, or row 0 when none was selected.
pub assume_specification[ TableState::select_next ](state: &mut TableState)
    ensures
        table_row(*final(state)) == Some(
            match table_row(*old(state)) {
                Some(row) => if row < usize::MAX {
                    (row + 1) as usize
                } else {
                    usize::MAX
                },
                None => 0usize,
            },
        ),
        table_column(*final(state)) == table_column(*old(state)),
;

/// `TableState::select_previous` selects the row before the selected one,
/// stopping at 0, or row `usize::MAX` when none was selected.
pub assume_specification[ TableState::select_previous ](state: &mut TableState)
    ensures
        table_row(*final(state)) == Some(
            match table_row(*old(state)) {
                Some(row) => if row > 0 {
                    (row - 1) as usize
                } else {
                    0usize
                },
                None => usize::MAX,
            },
        ),
        table_column(*final(state)) == table_column(*old(state)),
;

/// `TableState::select_first_column` selects column 0. It does not touch the
/// selected row.
pub assume_specification[ TableState::select_first_column ](state: &mut TableState)
    ensures
        table_column(*final(state)) == Some(0usize),
        table_row(*final(state)) == table_row(*old(state)),
;

/// The row that the selection `selected` counts as in a table of `rows` rows.
/// A selection past the last row, as is left behind when a listing shrinks,
/// counts as the last row; in a table without rows nothing is selected.
pub open spec fn shown_row(selected: Option<usize>, rows: nat) -> Option<usize> {
    match selected {
        Some(row) => if rows == 0 {
            None
        } else if row < rows {
            Some(row)
        } else {
            Some((rows - 1) as usize)
        },
        None => None,
    }
}

/// The last row of a table of `rows` rows; row 0 where it has none.
pub open spec fn last_row(rows: nat) -> usize {
    if rows == 0 {
        0usize
    } else {
        (rows - 1) as usize
    }
}

/// The selection after a step down in a table of `rows` rows: the next row,
/// and the first row from the last. With nothing selected the step goes to the
/// last row.
pub open spec fn cursor_down(selected: Option<usize>, rows: nat) -> Option<usize> {
    match shown_row(selected, rows) {
        Some(row) => if row + 1 == rows {
            Some(0usize)
        } else {
            Some((row + 1) as usize)
        },
        None => Some(last_row(rows)),
    }
}

/// The selection after a step up in a table of `rows` rows: the row before,
/// and the last row from the first. With nothing selected the step goes to the
/// last row.
pub open spec fn cursor_up(selected: Option<usize>, rows: nat) -> Option<usize> {
    match shown_row(selected, rows) {
        Some(row) => if row == 0 {
            Some(last_row(rows))
        } else {
            Some((row - 1) as usize)
        },
        None => Some(last_row(rows)),
    }
}

/// The cursor wraps around. In a table of `rows` rows with the cursor on row
/// `row`, a step down puts it on the next row, and on the first row from the
/// last; a step up puts it on the row before, and on the last row from the
/// first.
pub proof fn lemma_cursor_wraps(row: usize, rows: nat)
    requires
        row < rows <= usize::MAX,
    ensures
        cursor_down(Some(row), rows) == Some(
            if row + 1 == rows {
                0usize
            } else {
                (row + 1) as usize
            },
        ),
        cursor_up(Some(row), rows) == Some(
            if row == 0 {
                (rows - 1) as usize
            } else {
                (row - 1) as usize
            },
        ),
{
}

/// A step never leaves the table. Wherever the selection was, and also where
/// there was none, after a step up or down in a table that has rows the cursor
/// is on one of them.
pub proof fn lemma_cursor_lands_on_a_row(selected: Option<usize>, rows: nat)
    requires
        1 <= rows <= usize::MAX,
    ensures
        cursor_down(selected, rows) matches Some(row) && row < rows,
        cursor_up(selected, rows) matches Some(row) && row < rows,
{
}

} // verus!
