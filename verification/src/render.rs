//! The lines of the table: a header, a separator, and one line per record.

use crate::models::{Column, Crate, Length, Record, Widths};
use crate::text::{lemma_padded, lemma_run, lemma_width_concat, padded, repeat, run, set_padding, width};
use crate::widths::{measured, parse_length};
use vstd::prelude::*;

verus! {

/// What every line starts with.
pub const ROOT_PADDING: &'static str = "  ";

/// What stands between two columns of a line.
pub const COLUMN_GAP: &'static str = "  ";

/// One line of the table, made of the three fields that it shows.
pub open spec fn row(name: Seq<char>, stable: Seq<char>, updated: Seq<char>) -> Seq<char> {
    ROOT_PADDING@ + name + COLUMN_GAP@ + stable + COLUMN_GAP@ + updated
}

/// The first line: the label of each column, right-aligned in its width.
pub open spec fn header_row(widths: Widths) -> Seq<char> {
    row(
        padded(Column::Name.label(), widths.name),
        padded(Column::MaxStableVersion.label(), widths.max_stable_version),
        padded(Column::UpdatedAt.label(), widths.updated_at),
    )
}

/// The second line: under each column a run of `=` as long as its width.
pub open spec fn separator_row(widths: Widths) -> Seq<char> {
    row(run('=', widths.name), run('=', widths.max_stable_version), run('=', widths.updated_at))
}

/// The line of one record: each cell right-aligned in the width of its column.
pub open spec fn record_row(record: Record, widths: Widths) -> Seq<char> {
    row(
        padded(record.cell(Column::Name), widths.name),
        padded(record.cell(Column::MaxStableVersion), widths.max_stable_version),
        padded(record.cell(Column::UpdatedAt), widths.updated_at),
    )
}

/// The whole table: header, separator, then the records in their order.
pub open spec fn table(records: Seq<Record>, widths: Widths) -> Seq<Seq<char>> {
    seq![header_row(widths), separator_row(widths)] + Seq::new(
        records.len(),
        |i: int| record_row(records[i], widths),
    )
}

/// The table keeps the order of the records: after the header and the
/// separator, line `n` is the line of record `n`.
pub proof fn lemma_table_keeps_order(records: Seq<Record>, widths: Widths, n: int)
    requires
        0 <= n < records.len(),
    ensures
        table(records, widths).len() == records.len() + 2,
        table(records, widths)[0] == header_row(widths),
        table(records, widths)[1] == separator_row(widths),
        table(records, widths)[n + 2] == record_row(records[n], widths),
{
}

/// The table is a function of what it shows: two lists of records that agree
/// on the cells of the three columns shown, drawn with widths that agree on
/// those columns, give the same lines. So drawing the same records with the
/// same widths a second time gives the first table again, character for
/// character.
pub proof fn lemma_table_is_determined(
    records: Seq<Record>,
    widths: Widths,
    others: Seq<Record>,
    other_widths: Widths,
)
    requires
        records.len() == others.len(),
        forall|i: int, col: Column|
            0 <= i < records.len() && col.shown() ==> (#[trigger] records[i].cell(col))
                == others[i].cell(col),
        forall|col: Column| col.shown() ==> widths.of(col) == other_widths.of(col),
    ensures
        table(records, widths) == table(others, other_widths),
{
    assert(Column::Name.shown() && Column::MaxStableVersion.shown() && Column::UpdatedAt.shown());
    assert(widths.of(Column::Name) == other_widths.of(Column::Name));
    assert(widths.of(Column::MaxStableVersion) == other_widths.of(Column::MaxStableVersion));
    assert(widths.of(Column::UpdatedAt) == other_widths.of(Column::UpdatedAt));
    assert forall|i: int| 0 <= i < records.len() implies record_row(records[i], widths)
        == record_row(others[i], other_widths) by {
        assert(records[i].cell(Column::Name) == others[i].cell(Column::Name));
    }
    assert(table(records, widths) =~= table(others, other_widths));
}

/// The separator: after the margin, under each column as many `=` as the
/// column is wide and nothing else, with the gap between two columns.
pub proof fn lemma_separator_columns(widths: Widths)
    ensures
        separator_row(widths).len() == 6 + widths.name + widths.max_stable_version
            + widths.updated_at,
        forall|i: int|
            0 <= i < separator_row(widths).len() ==> #[trigger] separator_row(widths)[i] == (if 2
                <= i < 2 + widths.name || 4 + widths.name <= i < 4 + widths.name
                + widths.max_stable_version || 6 + widths.name + widths.max_stable_version <= i {
                '='
            } else {
                ' '
            }),
{
    reveal_strlit("  ");
    lemma_run('=', widths.name);
    lemma_run('=', widths.max_stable_version);
    lemma_run('=', widths.updated_at);
}

/// A record without a stable version has, in that column, a field of spaces
/// alone, as long as the column is wide.
pub proof fn lemma_absent_version_is_blank(record: Record, widths: Widths)
    requires
        record.max_stable_version is None,
    ensures
        padded(record.cell(Column::MaxStableVersion), widths.max_stable_version) == run(
            ' ',
            widths.max_stable_version,
        ),
        record_row(record, widths) == row(
            padded(record.cell(Column::Name), widths.name),
            run(' ', widths.max_stable_version),
            padded(record.cell(Column::UpdatedAt), widths.updated_at),
        ),
        run(' ', widths.max_stable_version).len() == widths.max_stable_version,
        forall|i: int|
            0 <= i < widths.max_stable_version ==> run(' ', widths.max_stable_version)[i] == ' ',
{
    let blank = run(' ', widths.max_stable_version);
    lemma_run(' ', widths.max_stable_version);
    assert(blank + Seq::<char>::empty() =~= blank);
}

/// The width of a line, given those of its three fields.
pub proof fn lemma_row_width(name: Seq<char>, stable: Seq<char>, updated: Seq<char>)
    ensures
        width(row(name, stable, updated)) == 6 + width(name) + width(stable) + width(updated),
{
    reveal_strlit("  ");
    assert(width("  "@) == 2) by {
        vstd::utf8::is_ascii_chars_encode_utf8("  "@);
    }
    lemma_width_concat(ROOT_PADDING@, name);
    lemma_width_concat(ROOT_PADDING@ + name, COLUMN_GAP@);
    lemma_width_concat(ROOT_PADDING@ + name + COLUMN_GAP@, stable);
    lemma_width_concat(ROOT_PADDING@ + name + COLUMN_GAP@ + stable, COLUMN_GAP@);
    lemma_width_concat(ROOT_PADDING@ + name + COLUMN_GAP@ + stable + COLUMN_GAP@, updated);
}

/// The columns line up: where nothing is wider than its column, every line of
/// the table is as wide as the margin, the three columns and the two gaps
/// together.
pub proof fn lemma_lines_align(records: Seq<Record>, widths: Widths, n: int)
    requires
        widths.holds_all(records),
        0 <= n < records.len() + 2,
    ensures
        width(table(records, widths)[n]) == 6 + widths.name + widths.max_stable_version
            + widths.updated_at,
{
    assert(Column::Name.shown() && Column::MaxStableVersion.shown() && Column::UpdatedAt.shown());
    if n == 0 {
        lemma_padded(Column::Name.label(), widths.name);
        lemma_padded(Column::MaxStableVersion.label(), widths.max_stable_version);
        lemma_padded(Column::UpdatedAt.label(), widths.updated_at);
        lemma_row_width(
            padded(Column::Name.label(), widths.name),
            padded(Column::MaxStableVersion.label(), widths.max_stable_version),
            padded(Column::UpdatedAt.label(), widths.updated_at),
        );
    } else if n == 1 {
        lemma_run('=', widths.name);
        lemma_run('=', widths.max_stable_version);
        lemma_run('=', widths.updated_at);
        lemma_row_width(
            run('=', widths.name),
            run('=', widths.max_stable_version),
            run('=', widths.updated_at),
        );
    } else {
        let record = records[n - 2];
        assert(widths.holds(record));
        lemma_padded(record.cell(Column::Name), widths.name);
        lemma_padded(record.cell(Column::MaxStableVersion), widths.max_stable_version);
        lemma_padded(record.cell(Column::UpdatedAt), widths.updated_at);
        lemma_row_width(
            padded(record.cell(Column::Name), widths.name),
            padded(record.cell(Column::MaxStableVersion), widths.max_stable_version),
            padded(record.cell(Column::UpdatedAt), widths.updated_at),
        );
    }
}

/// Joins three fields into a line.
fn join(name: &str, stable: &str, updated: &str) -> (line: String)
    ensures
        line@ == row(name@, stable@, updated@),
{
    let mut line = String::new();
    line.append(ROOT_PADDING);
    line.append(name);
    line.append(COLUMN_GAP);
    line.append(stable);
    line.append(COLUMN_GAP);
    line.append(updated);
    assert(line@ =~= row(name@, stable@, updated@));
    line
}

/// Builds the two lines that head the table: the labels, then the separator.
pub fn show_columns(length: &Length) -> (lines: (String, String))
    requires
        length@.holds_labels(),
    ensures
        lines.0@ == header_row(length@),
        lines.1@ == separator_row(length@),
{
    assert(Column::Name.shown() && Column::MaxStableVersion.shown() && Column::UpdatedAt.shown());
    let name = set_padding(Column::Name.header(), length.name);
    let stable = set_padding(Column::MaxStableVersion.header(), length.max_stable_version);
    let updated = set_padding(Column::UpdatedAt.header(), length.updated_at);
    let header = join(name.as_str(), stable.as_str(), updated.as_str());
    proof {
        reveal_strlit("=");
        assert("="@ =~= seq!['=']);
    }
    let name = repeat("=", length.name);
    let stable = repeat("=", length.max_stable_version);
    let updated = repeat("=", length.updated_at);
    let separator = join(name.as_str(), stable.as_str(), updated.as_str());
    (header, separator)
}

/// Builds the line of one record.
pub fn show_crate(c: &Crate, length: &Length) -> (line: String)
    requires
        length@.holds(c@),
    ensures
        line@ == record_row(c@, length@),
{
    assert(Column::Name.shown() && Column::MaxStableVersion.shown() && Column::UpdatedAt.shown());
    let name = set_padding(c.cell(Column::Name), length.name);
    let stable = set_padding(c.cell(Column::MaxStableVersion), length.max_stable_version);
    let updated = set_padding(c.cell(Column::UpdatedAt), length.updated_at);
    join(name.as_str(), stable.as_str(), updated.as_str())
}

/// Builds the lines of the table of `crates` with the widths `length`: the
/// header, the separator, and the line of each record, in the order of
/// `crates`.
pub fn render(crates: &Vec<Crate>, length: &Length) -> (lines: Vec<String>)
    requires
        length@.holds_all(crates.deep_view()),
    ensures
        lines.deep_view() == table(crates.deep_view(), length@),
        lines.len() == crates.len() + 2,
        forall|i: int|
            0 <= i < crates.len() ==> (#[trigger] lines[i + 2])@ == record_row(
                crates[i]@,
                length@,
            ),
{
    let ghost records = crates.deep_view();
    let (header, separator) = show_columns(length);
    let mut lines: Vec<String> = Vec::new();
    lines.push(header);
    lines.push(separator);
    let mut done: usize = 0;
    while done < crates.len()
        invariant
            done <= crates.len(),
            records == crates.deep_view(),
            length@.holds_all(records),
            lines.len() == done + 2,
            lines[0]@ == header_row(length@),
            lines[1]@ == separator_row(length@),
            forall|i: int| 0 <= i < done ==> (#[trigger] lines[i + 2])@ == record_row(
                records[i],
                length@,
            ),
        decreases crates.len() - done,
    {
        assert(length@.holds(records[done as int]));
        let line = show_crate(&crates[done], length);
        lines.push(line);
        done = done + 1;
    }
    proof {
        let drawn = table(records, length@);
        assert(lines.deep_view().len() == drawn.len());
        assert forall|j: int| 0 <= j < drawn.len() implies lines.deep_view()[j] == drawn[j] by {
            if j >= 2 {
                assert(lines[(j - 2) + 2]@ == record_row(records[j - 2], length@));
            }
        }
        assert(lines.deep_view() =~= drawn);
    }
    lines
}

/// Builds the table of `crates`, each column as wide as the widest among its
/// label and its cells.
pub fn tabulate(crates: &Vec<Crate>) -> (lines: Vec<String>)
    ensures
        lines.deep_view() == table(crates.deep_view(), measured(crates.deep_view())),
        lines.len() == crates.len() + 2,
{
    let length = parse_length(crates);
    render(crates, &length)
}

} // verus!
