//! The output protocol: one record of `key|type|value` lines per reading.

use crate::decimal::{decimal, lemma_decimal_shape, push_decimal};
use crate::space::{DiskSpace, DiskSpaceView};
use vstd::prelude::*;
use vstd::string::*;

verus! {

/// One line of a record, without its line break: the key, the type of the
/// value and the value in decimal, separated by `|`.
pub open spec fn field_line(key: Seq<char>, hint: Seq<char>, value: nat) -> Seq<char> {
    key + seq!['|'] + hint + seq!['|'] + decimal(value)
}

/// The lines of the record for a reading, in the order in which they are
/// written. The empty line at the end closes the record.
pub open spec fn record_lines(space: DiskSpaceView) -> Seq<Seq<char>> {
    seq![
        field_line("free"@, "int"@, space.free),
        field_line("used"@, "int"@, space.used),
        field_line("total"@, "int"@, space.total),
        field_line("percent_free"@, "range:0-100"@, space.percent_free()),
        field_line("percent_used"@, "range:0-100"@, space.percent_used()),
        Seq::<char>::empty(),
    ]
}

/// The text that holds the given lines, each followed by a line break.
pub open spec fn terminated(lines: Seq<Seq<char>>) -> Seq<char>
    decreases lines.len(),
{
    if lines.len() == 0 {
        Seq::<char>::empty()
    } else {
        terminated(lines.drop_last()) + lines.last() + seq!['\n']
    }
}

/// The record for a reading, as it is written to the host.
pub open spec fn record_text(space: DiskSpaceView) -> Seq<char> {
    terminated(record_lines(space))
}

/// Whether `line` begins with `key` and the `|` that ends a key.
pub open spec fn has_key(line: Seq<char>, key: Seq<char>) -> bool {
    (key + seq!['|']).is_prefix_of(line)
}

/// Number of line breaks in a text.
pub open spec fn line_breaks(text: Seq<char>) -> nat {
    text.filter(|c: char| c == '\n').len()
}

/// Appends one line of a record to `out`, with its line break.
fn push_field(out: &mut String, key: &str, hint: &str, value: u64)
    ensures
        final(out)@ == old(out)@ + field_line(key@, hint@, value as nat) + seq!['\n'],
{
    proof {
        reveal_strlit("|");
        reveal_strlit("\n");
        assert("|"@ =~= seq!['|']);
        assert("\n"@ =~= seq!['\n']);
    }
    out.append(key);
    out.append("|");
    out.append(hint);
    out.append("|");
    push_decimal(out, value);
    out.append("\n");
    assert(out@ =~= old(out)@ + field_line(key@, hint@, value as nat) + seq!['\n']);
}

/// The first `n` lines in a text are the first `n - 1` of them and then the
/// last one of them.
proof fn lemma_terminated_next(lines: Seq<Seq<char>>, n: int)
    requires
        0 < n <= lines.len(),
    ensures
        terminated(lines.take(n)) == terminated(lines.take(n - 1)) + lines[n - 1] + seq!['\n'],
{
    assert(lines.take(n).drop_last() =~= lines.take(n - 1));
}

/// The record for a reading: its five fields in the order `free`, `used`,
/// `total`, `percent_free`, `percent_used`, one to a line, and an empty line.
pub fn format_disk_space(disk_space: DiskSpace) -> (text: String)
    ensures
        text@ == record_text(disk_space@),
{
    let ghost lines = record_lines(disk_space@);
    let mut text = String::new();
    assert(text@ =~= terminated(lines.take(0)));
    push_field(&mut text, "free", "int", disk_space.free());
    proof {
        lemma_terminated_next(lines, 1);
    }
    push_field(&mut text, "used", "int", disk_space.used());
    proof {
        lemma_terminated_next(lines, 2);
    }
    push_field(&mut text, "total", "int", disk_space.total());
    proof {
        lemma_terminated_next(lines, 3);
    }
    push_field(&mut text, "percent_free", "range:0-100", disk_space.percent_free());
    proof {
        lemma_terminated_next(lines, 4);
    }
    push_field(&mut text, "percent_used", "range:0-100", disk_space.percent_used());
    proof {
        lemma_terminated_next(lines, 5);
        lemma_terminated_next(lines, 6);
        reveal_strlit("\n");
        assert("\n"@ =~= seq!['\n']);
        assert(lines.take(6) =~= lines);
    }
    text.append("\n");
    assert(text@ =~= terminated(lines));
    text
}

/// The line breaks of two texts put together are those of both.
proof fn lemma_line_breaks_add(left: Seq<char>, right: Seq<char>)
    ensures
        line_breaks(left + right) == line_breaks(left) + line_breaks(right),
{
    Seq::filter_distributes_over_add(left, right, |c: char| c == '\n');
}

/// A text without a line break has none to count.
proof fn lemma_line_breaks_none(text: Seq<char>)
    requires
        !text.contains('\n'),
    ensures
        line_breaks(text) == 0,
{
    let is_break = |c: char| c == '\n';
    let kept = text.filter(is_break);
    if kept.len() > 0 {
        text.lemma_filter_pred(is_break, 0);
        assert(kept.contains(kept[0]));
        text.lemma_filter_contains_rev(is_break, kept[0]);
    }
}

/// A line break alone counts as one.
proof fn lemma_line_breaks_one()
    ensures
        line_breaks(seq!['\n']) == 1,
{
    let is_break = |c: char| c == '\n';
    let text = seq!['\n'];
    reveal_with_fuel(Seq::filter, 2);
    assert(text.drop_last() =~= Seq::<char>::empty());
    assert(text.filter(is_break) =~= seq!['\n']);
}

/// Lines without line breaks of their own give a text with one line break
/// for each line.
pub proof fn lemma_terminated_line_breaks(lines: Seq<Seq<char>>)
    requires
        forall|i: int| 0 <= i < lines.len() ==> !(#[trigger] lines[i]).contains('\n'),
    ensures
        line_breaks(terminated(lines)) == lines.len(),
    decreases lines.len(),
{
    if lines.len() == 0 {
        lemma_line_breaks_none(terminated(lines));
    } else {
        let before = lines.drop_last();
        lemma_terminated_line_breaks(before);
        lemma_line_breaks_none(lines.last());
        lemma_line_breaks_one();
        lemma_line_breaks_add(terminated(before), lines.last());
        lemma_line_breaks_add(terminated(before) + lines.last(), seq!['\n']);
    }
}

/// A line is as free of line breaks as its key and the type of its value
/// are: the separators and the digits of the value add none.
proof fn lemma_field_line_unbroken(key: Seq<char>, hint: Seq<char>, value: nat)
    requires
        !key.contains('\n'),
        !hint.contains('\n'),
    ensures
        !field_line(key, hint, value).contains('\n'),
{
    let line = field_line(key, hint, value);
    lemma_decimal_shape(value);
    assert forall|i: int| 0 <= i < line.len() implies line[i] != '\n' by {
        if i < key.len() {
            assert(line[i] == key[i]);
        } else if i == key.len() {
            assert(line[i] == '|');
        } else if i < key.len() + 1 + hint.len() {
            assert(line[i] == hint[i - key.len() - 1]);
        } else if i == key.len() + 1 + hint.len() {
            assert(line[i] == '|');
        } else {
            assert(line[i] == decimal(value)[i - key.len() - hint.len() - 2]);
        }
    }
}

/// None of the keys and types of the protocol holds a line break.
proof fn lemma_names_unbroken()
    ensures
        !"free"@.contains('\n'),
        !"used"@.contains('\n'),
        !"total"@.contains('\n'),
        !"percent_free"@.contains('\n'),
        !"percent_used"@.contains('\n'),
        !"int"@.contains('\n'),
        !"range:0-100"@.contains('\n'),
{
    reveal_strlit("free");
    reveal_strlit("used");
    reveal_strlit("total");
    reveal_strlit("percent_free");
    reveal_strlit("percent_used");
    reveal_strlit("int");
    reveal_strlit("range:0-100");
}

/// A record is six lines: the five fields `free`, `used`, `total`,
/// `percent_free` and `percent_used`, in this order, and the empty line that
/// closes it. No line holds a line break of its own, so the text of a record
/// has exactly six line breaks, one at the end of each line.
pub proof fn lemma_record_is_six_lines(space: DiskSpaceView)
    ensures
        record_lines(space).len() == 6,
        has_key(record_lines(space)[0], "free"@),
        has_key(record_lines(space)[1], "used"@),
        has_key(record_lines(space)[2], "total"@),
        has_key(record_lines(space)[3], "percent_free"@),
        has_key(record_lines(space)[4], "percent_used"@),
        record_lines(space)[5].len() == 0,
        forall|i: int| 0 <= i < 6 ==> !(#[trigger] record_lines(space)[i]).contains('\n'),
        line_breaks(record_text(space)) == 6,
{
    let lines = record_lines(space);
    lemma_names_unbroken();
    lemma_field_line_unbroken("free"@, "int"@, space.free);
    lemma_field_line_unbroken("used"@, "int"@, space.used);
    lemma_field_line_unbroken("total"@, "int"@, space.total);
    lemma_field_line_unbroken("percent_free"@, "range:0-100"@, space.percent_free());
    lemma_field_line_unbroken("percent_used"@, "range:0-100"@, space.percent_used());
    assert forall|i: int| 0 <= i < 6 implies !(#[trigger] lines[i]).contains('\n') by {}
    lemma_terminated_line_breaks(lines);
}

/// On an empty filesystem both percentages are zero, and are written so.
pub proof fn lemma_empty_filesystem_record(space: DiskSpaceView)
    requires
        space.total == 0,
    ensures
        space.percent_free() == 0,
        space.percent_used() == 0,
        record_lines(space)[3] == "percent_free|range:0-100|0"@,
        record_lines(space)[4] == "percent_used|range:0-100|0"@,
{
    reveal_strlit("percent_free");
    reveal_strlit("percent_used");
    reveal_strlit("range:0-100");
    reveal_strlit("percent_free|range:0-100|0");
    reveal_strlit("percent_used|range:0-100|0");
    assert(decimal(0) =~= seq!['0']);
    assert(record_lines(space)[3] =~= "percent_free|range:0-100|0"@);
    assert(record_lines(space)[4] =~= "percent_used|range:0-100|0"@);
}

} // verus!
