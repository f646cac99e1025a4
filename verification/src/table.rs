//! A two-column table drawn with box characters.
//!
//! Columns are as wide as their widest cell, measured in bytes. A value
//! that holds the mark `>` shows a change in colour; the colour codes take
//! room in the text and none on the screen, so such a value is padded
//! further by the room of the four codes.

use vstd::prelude::*;
use crate::text::{byte_len, byte_length, contains, pad_right, pad_right_wide, padded, repeat, repeated};

verus! {

/// The character that marks a value as a change.
pub const CHANGE_MARK: char = '>';

/// The room that the colour codes of a change take in the text.
pub const COLOUR_ROOM: usize = 22;

/// The horizontal stroke that rules are drawn with.
pub const BAR: &'static str = "═";

/// The views of a list of rows, one by one.
pub open spec fn row_views(rows: Seq<(String, String)>) -> Seq<(Seq<char>, Seq<char>)> {
    Seq::new(rows.len(), |i: int| (rows[i].0@, rows[i].1@))
}

/// The greatest byte length among the keys of the rows; 0 without rows.
pub open spec fn key_width(rows: Seq<(Seq<char>, Seq<char>)>) -> nat
    decreases rows.len(),
{
    if rows.len() == 0 {
        0
    } else {
        let earlier = key_width(rows.drop_last());
        if byte_len(rows.last().0) > earlier {
            byte_len(rows.last().0)
        } else {
            earlier
        }
    }
}

/// The greatest byte length among the values of the rows; 0 without rows.
pub open spec fn value_width(rows: Seq<(Seq<char>, Seq<char>)>) -> nat
    decreases rows.len(),
{
    if rows.len() == 0 {
        0
    } else {
        let earlier = value_width(rows.drop_last());
        if byte_len(rows.last().1) > earlier {
            byte_len(rows.last().1)
        } else {
            earlier
        }
    }
}

/// The rule above the rows.
pub open spec fn top_rule(kw: nat, vw: nat) -> Seq<char> {
    "╔═"@ + repeated(BAR@, kw) + "═══╦═"@ + repeated(BAR@, vw) + "═══╗\n"@
}

/// The rule below the rows.
pub open spec fn bottom_rule(kw: nat, vw: nat) -> Seq<char> {
    "╚═"@ + repeated(BAR@, kw) + "═══╩═"@ + repeated(BAR@, vw) + "═══╝\n"@
}

/// The room that a value is padded to in a column of width `vw`.
pub open spec fn value_room(value: Seq<char>, vw: nat) -> nat {
    if value.contains(CHANGE_MARK) {
        vw + COLOUR_ROOM as nat
    } else {
        vw
    }
}

/// One row of the table.
pub open spec fn row_line(row: (Seq<char>, Seq<char>), kw: nat, vw: nat) -> Seq<char> {
    "║ "@ + padded(row.0, kw) + "   ║ "@ + padded(row.1, value_room(row.1, vw)) + "   ║\n"@
}

/// The rows of the table, one line each.
pub open spec fn row_lines(rows: Seq<(Seq<char>, Seq<char>)>, kw: nat, vw: nat) -> Seq<char>
    decreases rows.len(),
{
    if rows.len() == 0 {
        Seq::empty()
    } else {
        row_lines(rows.drop_last(), kw, vw) + row_line(rows.last(), kw, vw)
    }
}

/// The whole table: rule, rows, rule.
pub open spec fn table(rows: Seq<(Seq<char>, Seq<char>)>) -> Seq<char> {
    let kw = key_width(rows);
    let vw = value_width(rows);
    top_rule(kw, vw) + row_lines(rows, kw, vw) + bottom_rule(kw, vw)
}

/// Measures both columns.
fn widths(rows: &Vec<(String, String)>) -> (r: (usize, usize))
    ensures
        r.0 == key_width(row_views(rows@)),
        r.1 == value_width(row_views(rows@)),
{
    let ghost all = row_views(rows@);
    let mut kw: usize = 0;
    let mut vw: usize = 0;
    let mut i: usize = 0;
    while i < rows.len()
        invariant
            i <= rows.len(),
            all == row_views(rows@),
            kw == key_width(all.take(i as int)),
            vw == value_width(all.take(i as int)),
        decreases rows.len() - i,
    {
        assert(all.take(i + 1).drop_last() =~= all.take(i as int));
        let k = byte_length(rows[i].0.as_str());
        let v = byte_length(rows[i].1.as_str());
        if k > kw {
            kw = k;
        }
        if v > vw {
            vw = v;
        }
        i = i + 1;
    }
    assert(all.take(rows.len() as int) =~= all);
    (kw, vw)
}

/// Draws the table of the rows.
pub fn render_table(rows: &Vec<(String, String)>) -> (r: String)
    ensures
        r@ == table(row_views(rows@)),
{
    let ghost all = row_views(rows@);
    let (kw, vw) = widths(rows);
    let key_bars = repeat(BAR, kw);
    let value_bars = repeat(BAR, vw);
    let mut out = String::from_str("╔═");
    out.append(key_bars.as_str());
    out.append("═══╦═");
    out.append(value_bars.as_str());
    out.append("═══╗\n");
    let mut i: usize = 0;
    while i < rows.len()
        invariant
            i <= rows.len(),
            all == row_views(rows@),
            out@ == top_rule(kw as nat, vw as nat) + row_lines(all.take(i as int), kw as nat, vw as nat),
        decreases rows.len() - i,
    {
        assert(all.take(i + 1).drop_last() =~= all.take(i as int));
        let key = pad_right(rows[i].0.as_str(), kw);
        let value = if contains(rows[i].1.as_str(), CHANGE_MARK) {
            pad_right_wide(rows[i].1.as_str(), vw, COLOUR_ROOM)
        } else {
            pad_right(rows[i].1.as_str(), vw)
        };
        out.append("║ ");
        out.append(key.as_str());
        out.append("   ║ ");
        out.append(value.as_str());
        out.append("   ║\n");
        assert(out@ =~= top_rule(kw as nat, vw as nat) + row_lines(
            all.take(i + 1),
            kw as nat,
            vw as nat,
        ));
        i = i + 1;
    }
    assert(all.take(rows.len() as int) =~= all);
    out.append("╚═");
    out.append(key_bars.as_str());
    out.append("═══╩═");
    out.append(value_bars.as_str());
    out.append("═══╝\n");
    out
}

} // verus!
