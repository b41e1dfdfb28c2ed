//! The listing of what a transfer has copied: one line per file, the sources
//! in a column of their own.

use crate::printer::Print;
use vstd::prelude::*;
use vstd::string::*;
use vstd::utf8::encode_utf8;

verus! {

/// The room that `text` takes in a column: the number of bytes of its UTF-8
/// form.
pub open spec fn width(text: Seq<char>) -> nat {
    encode_utf8(text).len()
}

/// The width of the widest source among `copied`, 0 where there is none.
pub open spec fn longest_source(copied: Seq<(Seq<char>, Seq<char>)>) -> nat
    decreases copied.len(),
{
    if copied.len() == 0 {
        0
    } else {
        let before = longest_source(copied.drop_last());
        let last = width(copied.last().0);
        if last > before {
            last
        } else {
            before
        }
    }
}

/// `n` spaces.
pub open spec fn spaces(n: nat) -> Seq<char> {
    Seq::new(n, |i: int| ' ')
}

/// One line of the listing: the source, filled up with spaces to `column`
/// and one more, then the arrow and the destination.
pub open spec fn report_line(source: Seq<char>, destination: Seq<char>, column: nat) -> Seq<char> {
    source + spaces((column - width(source) + 1) as nat) + "-> "@ + destination
}

/// The listing of `copied`: its records in their order, each source filled up
/// to the width of the widest.
pub open spec fn report_lines(copied: Seq<(Seq<char>, Seq<char>)>) -> Seq<Seq<char>> {
    Seq::new(
        copied.len(),
        |i: int| report_line(copied[i].0, copied[i].1, longest_source(copied)),
    )
}

/// No source is wider than the widest, and where there is a record, one of
/// them is exactly that wide.
pub proof fn lemma_longest_source(copied: Seq<(Seq<char>, Seq<char>)>)
    ensures
        forall|i: int| 0 <= i < copied.len() ==> width(#[trigger] copied[i].0) <= longest_source(copied),
        copied.len() > 0 ==> exists|i: int|
            0 <= i < copied.len() && width(#[trigger] copied[i].0) == longest_source(copied),
    decreases copied.len(),
{
    if copied.len() > 0 {
        let before = copied.drop_last();
        lemma_longest_source(before);
        assert forall|i: int| 0 <= i < copied.len() implies width(#[trigger] copied[i].0)
            <= longest_source(copied) by {
            if i < before.len() {
                assert(before[i] == copied[i]);
            }
        }
        if before.len() > 0 && width(copied.last().0) <= longest_source(before) {
            let i = choose|i: int|
                0 <= i < before.len() && width(#[trigger] before[i].0) == longest_source(before);
            assert(before[i] == copied[i]);
            assert(width(copied[i].0) == longest_source(copied));
        } else {
            let last = copied.len() - 1;
            assert(copied[last] == copied.last());
            assert(width(copied[last].0) == longest_source(copied));
        }
    }
}

/// The number of bytes of `text`.
fn byte_len(text: &str) -> (n: usize)
    ensures
        n == width(text@),
{
    text.as_bytes().len()
}

/// The width of the widest source among `copied`.
fn longest_from(copied: &Vec<(String, String)>) -> (longest: usize)
    ensures
        longest == longest_source(copied.deep_view()),
{
    let mut longest: usize = 0;
    for i in 0..copied.len()
        invariant
            longest == longest_source(copied.deep_view().take(i as int)),
    {
        let here: usize = byte_len(copied[i].0.as_str());
        proof {
            let upto = copied.deep_view().take(i + 1);
            assert(upto.drop_last() == copied.deep_view().take(i as int));
        }
        if here > longest {
            longest = here;
        }
    }
    assert(copied.deep_view().take(copied.len() as int) == copied.deep_view());
    longest
}

/// One line of the listing, for a source that is no wider than `column`.
fn line_of(from: &str, to: &str, column: usize) -> (line: String)
    requires
        width(from@) <= column,
    ensures
        line@ == report_line(from@, to@, column as nat),
{
    let gap: usize = column - byte_len(from);
    let mut line = String::from_str(from);
    let mut added: usize = 0;
    proof {
        reveal_strlit(" ");
    }
    while added < gap
        invariant
            added <= gap,
            line@ == from@ + spaces(added as nat),
            " "@ == seq![' '],
        decreases gap - added,
    {
        line.append(" ");
        added += 1;
    }
    line.append(" ");
    line.append("-> ");
    line.append(to);
    line
}

/// Writes the listing of `copied` to `stdout`, line by line behind what it
/// has taken before, and then has it printed, once.
pub fn print_copied(copied: Vec<(String, String)>, stdout: &mut impl Print)
    ensures
        final(stdout).taken() == old(stdout).taken() + report_lines(copied.deep_view()),
        final(stdout).printed() == final(stdout).taken(),
        final(stdout).prints() == old(stdout).prints() + 1,
{
    let longest: usize = longest_from(&copied);
    proof {
        lemma_longest_source(copied.deep_view());
    }
    for i in 0..copied.len()
        invariant
            longest == longest_source(copied.deep_view()),
            forall|k: int|
                0 <= k < copied.len() ==> width(#[trigger] copied.deep_view()[k].0) <= longest,
            stdout.taken() == old(stdout).taken() + report_lines(copied.deep_view()).take(i as int),
            stdout.prints() == old(stdout).prints(),
    {
        assert(copied.deep_view()[i as int].0 == copied[i as int].0@);
        let line = line_of(copied[i].0.as_str(), copied[i].1.as_str(), longest);
        stdout.writeln(line.as_str());
    }
    stdout.print();
}

} // verus!
