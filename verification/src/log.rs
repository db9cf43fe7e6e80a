//! The diagnostic record a handler emits on success.
//!
//! Logging is an observational side channel, not a return value: the hosting
//! runtime prints the lines, while the dispatcher only appends to them. The
//! log is modelled as the ordered sequence of emitted lines, so contracts can
//! say exactly which lines a call appends.

use vstd::prelude::*;
use vstd::assert_seqs_equal;

verus! {

/// The ordered diagnostic lines emitted so far, newest last.
pub struct Log {
    lines: Vec<String>,
}

impl View for Log {
    type V = Seq<Seq<char>>;

    closed spec fn view(&self) -> Seq<Seq<char>> {
        self.lines@.map_values(|s: String| s@)
    }
}

impl Log {
    /// An empty log.
    pub fn new() -> (r: Log)
        ensures
            r@ == Seq::<Seq<char>>::empty(),
    {
        let lines: Vec<String> = Vec::new();
        proof {
            assert_seqs_equal!(lines@.map_values(|s: String| s@) == Seq::<Seq<char>>::empty());
        }
        Log { lines }
    }

    /// Appends one line to the log.
    pub fn emit(&mut self, line: String)
        ensures
            final(self)@ == old(self)@.push(line@),
    {
        let ghost pre = self.lines@;
        let ghost l = line@;
        self.lines.push(line);
        proof {
            assert_seqs_equal!(
                self.lines@.map_values(|s: String| s@) == pre.map_values(|s: String| s@).push(l)
            );
        }
    }

    /// How many lines have been emitted.
    pub fn len(&self) -> (r: usize)
        ensures
            r == self@.len(),
    {
        self.lines.len()
    }

    /// The `i`th emitted line, oldest first.
    pub fn line(&self, i: usize) -> (r: &String)
        requires
            i < self@.len(),
        ensures
            r@ == self@[i as int],
    {
        &self.lines[i]
    }
}

} // verus!
