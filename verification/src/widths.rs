//! The width of each column: the least that holds its label and every record.

use crate::models::{Column, Crate, Length, Record, Widths};
use crate::text::{measure, width};
use vstd::prelude::*;
use vstd::utf8::is_ascii_chars_encode_utf8;

verus! {

/// The width of column `col` over `records`: the greatest among the width of
/// the label and the widths of the cells of the records.
pub open spec fn column_width(records: Seq<Record>, col: Column) -> nat
    decreases records.len(),
{
    if records.len() == 0 {
        width(col.label())
    } else {
        let before = column_width(records.drop_last(), col);
        let cell = width(records.last().cell(col));
        if cell > before {
            cell
        } else {
            before
        }
    }
}

/// The widths of the table of `records`: each column as wide as the widest
/// among its label and its cells.
pub open spec fn measured(records: Seq<Record>) -> Widths {
    Widths {
        id: column_width(records, Column::Id),
        name: column_width(records, Column::Name),
        max_version: column_width(records, Column::MaxVersion),
        max_stable_version: column_width(records, Column::MaxStableVersion),
        updated_at: column_width(records, Column::UpdatedAt),
    }
}

impl Widths {
    /// Whether the label of every column that the table shows fits its width.
    pub open spec fn holds_labels(self) -> bool {
        forall|col: Column| col.shown() ==> width(col.label()) <= self.of(col)
    }

    /// Whether every cell of `record` that the table shows fits its width.
    pub open spec fn holds(self, record: Record) -> bool {
        forall|col: Column| col.shown() ==> width(record.cell(col)) <= self.of(col)
    }

    /// Whether the table of `records` can be drawn with these widths: nothing
    /// that it shows is wider than its column.
    pub open spec fn holds_all(self, records: Seq<Record>) -> bool {
        &&& self.holds_labels()
        &&& forall|i: int| 0 <= i < records.len() ==> self.holds(#[trigger] records[i])
    }
}

/// The widths of the five labels, in bytes.
pub proof fn lemma_label_widths()
    ensures
        width(Column::Id.label()) == 2,
        width(Column::Name.label()) == 4,
        width(Column::MaxVersion.label()) == 11,
        width(Column::MaxStableVersion.label()) == 18,
        width(Column::UpdatedAt.label()) == 10,
{
    reveal_strlit("id");
    reveal_strlit("name");
    reveal_strlit("max_version");
    reveal_strlit("max_stable_version");
    reveal_strlit("updated_at");
    is_ascii_chars_encode_utf8("id"@);
    is_ascii_chars_encode_utf8("name"@);
    is_ascii_chars_encode_utf8("max_version"@);
    is_ascii_chars_encode_utf8("max_stable_version"@);
    is_ascii_chars_encode_utf8("updated_at"@);
}

/// A column is as wide as its label and as each of its cells, and no wider
/// than the widest of them: its width is that of the label or of some cell.
pub proof fn lemma_column_width_is_greatest(records: Seq<Record>, col: Column)
    ensures
        column_width(records, col) >= width(col.label()),
        forall|i: int|
            0 <= i < records.len() ==> column_width(records, col) >= width(
                (#[trigger] records[i]).cell(col),
            ),
        column_width(records, col) == width(col.label()) || exists|i: int|
            0 <= i < records.len() && column_width(records, col) == width(
                (#[trigger] records[i]).cell(col),
            ),
    decreases records.len(),
{
    if records.len() > 0 {
        let front = records.drop_last();
        lemma_column_width_is_greatest(front, col);
        assert forall|i: int| 0 <= i < records.len() implies column_width(records, col) >= width(
            (#[trigger] records[i]).cell(col),
        ) by {
            if i < front.len() {
                assert(front[i] == records[i]);
            }
        }
        if column_width(records, col) == width(records.last().cell(col)) {
            let last = records.len() - 1;
            assert(column_width(records, col) == width(records[last].cell(col)));
        } else if column_width(records, col) != width(col.label()) {
            let i = choose|i: int|
                0 <= i < front.len() && column_width(front, col) == width(
                    (#[trigger] front[i]).cell(col),
                );
            assert(front[i] == records[i]);
        }
    }
}

/// With no record, every column is as wide as its label.
pub proof fn lemma_empty_widths()
    ensures
        measured(Seq::empty()) == (Widths {
            id: 2,
            name: 4,
            max_version: 11,
            max_stable_version: 18,
            updated_at: 10,
        }),
{
    lemma_label_widths();
}

/// The widths measured over `records` are never too narrow: in every column
/// the label fits, and so does the cell of every record. So the table of
/// `records` can be drawn with them.
pub proof fn lemma_measured_widths_hold(records: Seq<Record>)
    ensures
        forall|col: Column| width(col.label()) <= measured(records).of(col),
        forall|i: int, col: Column|
            0 <= i < records.len() ==> width((#[trigger] records[i]).cell(col)) <= (
            #[trigger] measured(records).of(col)),
        measured(records).holds_all(records),
{
    assert forall|col: Column| width(col.label()) <= measured(records).of(col) by {
        lemma_column_width_is_greatest(records, col);
    }
    assert forall|i: int, col: Column| 0 <= i < records.len() implies width(
        (#[trigger] records[i]).cell(col),
    ) <= (#[trigger] measured(records).of(col)) by {
        lemma_column_width_is_greatest(records, col);
    }
}

/// Measures one column over `crates`.
fn widest(crates: &Vec<Crate>, col: Column) -> (most: usize)
    ensures
        most == column_width(crates.deep_view(), col),
{
    let ghost records = crates.deep_view();
    let mut most: usize = measure(col.header());
    let mut seen: usize = 0;
    assert(records.take(0) =~= Seq::empty());
    while seen < crates.len()
        invariant
            seen <= crates.len(),
            records == crates.deep_view(),
            most == column_width(records.take(seen as int), col),
        decreases crates.len() - seen,
    {
        let cell: usize = measure(crates[seen].cell(col));
        proof {
            let next = records.take(seen + 1);
            assert(next.drop_last() =~= records.take(seen as int));
            assert(next.last() == crates[seen as int]@);
        }
        if cell > most {
            most = cell;
        }
        seen = seen + 1;
    }
    assert(records.take(seen as int) =~= records);
    most
}

/// Computes the width of every column over `crates`: for each, the greatest
/// among the width of its label and the widths of its cells, an absent stable
/// version counting as the empty text.
pub fn parse_length(crates: &Vec<Crate>) -> (length: Length)
    ensures
        length@ == measured(crates.deep_view()),
        forall|col: Column| width(col.label()) <= length@.of(col),
        forall|i: int, col: Column|
            0 <= i < crates.len() ==> width((#[trigger] crates.deep_view()[i]).cell(col)) <= (
            #[trigger] length@.of(col)),
        length@.holds_all(crates.deep_view()),
        crates.len() == 0 ==> length == (Length {
            id: 2,
            name: 4,
            max_version: 11,
            max_stable_version: 18,
            updated_at: 10,
        }),
{
    let length = Length {
        id: widest(crates, Column::Id),
        name: widest(crates, Column::Name),
        max_version: widest(crates, Column::MaxVersion),
        max_stable_version: widest(crates, Column::MaxStableVersion),
        updated_at: widest(crates, Column::UpdatedAt),
    };
    proof {
        lemma_measured_widths_hold(crates.deep_view());
        if crates.len() == 0 {
            assert(crates.deep_view() =~= Seq::empty());
            lemma_empty_widths();
        }
    }
    length
}

} // verus!
