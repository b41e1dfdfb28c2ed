//! Where the report of a transfer goes.

use vstd::prelude::*;

verus! {

/// An output for line-oriented text, which the caller of an operation
/// supplies: it takes lines, and prints what it has taken when it is told to.
///
/// The three spec methods say what an output has been handed. An output that
/// is defined in verified code gives them their meaning and is held to the
/// contracts below; the bodies given here stand for no output at all, and an
/// output from elsewhere, of which nothing can be proved, is taken at its
/// word.
pub trait Print {
    /// The lines taken so far, oldest first.
    open spec fn taken(&self) -> Seq<Seq<char>> {
        Seq::empty()
    }

    /// The lines that had been taken when the output was last printed.
    open spec fn printed(&self) -> Seq<Seq<char>> {
        Seq::empty()
    }

    /// How often the output was printed.
    open spec fn prints(&self) -> nat {
        0
    }

    /// Takes `s` as one line, behind the lines taken before.
    fn writeln(&mut self, s: &str)
        ensures
            final(self).taken() == old(self).taken().push(s@),
            final(self).printed() == old(self).printed(),
            final(self).prints() == old(self).prints(),
    ;

    /// Prints every line taken so far.
    fn print(&mut self)
        ensures
            final(self).taken() == old(self).taken(),
            final(self).printed() == old(self).taken(),
            final(self).prints() == old(self).prints() + 1,
    ;
}

/// A copy of `lines`.
pub fn clone_lines(lines: &Vec<String>) -> (copy: Vec<String>)
    ensures
        copy.deep_view() == lines.deep_view(),
{
    let mut copy: Vec<String> = Vec::new();
    for i in 0..lines.len()
        invariant
            copy.deep_view() == lines.deep_view().take(i as int),
    {
        copy.push(lines[i].clone());
        assert(copy.deep_view() == lines.deep_view().take(i as int).push(lines[i as int]@));
        assert(lines.deep_view().take(i + 1) == lines.deep_view().take(i as int).push(
            lines[i as int]@,
        ));
    }
    assert(lines.deep_view().take(lines.len() as int) == lines.deep_view());
    copy
}

/// An output that keeps its lines in memory: those it has taken, and those
/// that it held when it was last printed.
pub struct Transcript {
    lines: Vec<String>,
    shown: Vec<String>,
    prints: Ghost<nat>,
}

impl Transcript {
    /// An output that has taken nothing and was never printed.
    pub fn new() -> (output: Transcript)
        ensures
            output.taken() == Seq::<Seq<char>>::empty(),
            output.printed() == Seq::<Seq<char>>::empty(),
            output.prints() == 0,
    {
        Transcript { lines: Vec::new(), shown: Vec::new(), prints: Ghost(0) }
    }

    /// The lines taken so far, oldest first.
    pub fn into_lines(self) -> (lines: Vec<String>)
        ensures
            lines.deep_view() == self.taken(),
    {
        self.lines
    }

    /// The lines that had been taken when the output was last printed.
    pub fn into_printed(self) -> (lines: Vec<String>)
        ensures
            lines.deep_view() == self.printed(),
    {
        self.shown
    }
}

impl Print for Transcript {
    closed spec fn taken(&self) -> Seq<Seq<char>> {
        self.lines.deep_view()
    }

    closed spec fn printed(&self) -> Seq<Seq<char>> {
        self.shown.deep_view()
    }

    closed spec fn prints(&self) -> nat {
        self.prints@
    }

    fn writeln(&mut self, s: &str) {
        let line = s.to_owned();
        self.lines.push(line);
        assert(self.lines.deep_view() == old(self).lines.deep_view().push(s@));
    }

    fn print(&mut self) {
        self.shown = clone_lines(&self.lines);
        proof {
            self.prints@ = self.prints@ + 1;
        }
    }
}

} // verus!
