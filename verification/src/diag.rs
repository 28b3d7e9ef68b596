//! The diagnostic side-channel, as an injectable sink.
//!
//! Captured trace text is routed through a sink rather than written
//! directly, so the embedding can direct it to the process's diagnostic
//! stream while tests substitute a capturing sink and inspect exactly what
//! was emitted.

use vstd::prelude::*;

verus! {

/// A capturing diagnostic sink: an ordered log of every emitted payload.
///
/// Its view is the sequence of emitted payloads, each as a sequence of
/// characters, oldest first.
pub struct DiagnosticLog {
    entries: Vec<String>,
}

impl View for DiagnosticLog {
    type V = Seq<Seq<char>>;

    closed spec fn view(&self) -> Seq<Seq<char>> {
        self.entries.deep_view()
    }
}

impl DiagnosticLog {
    /// An empty sink: nothing has been emitted.
    pub fn new() -> (log: DiagnosticLog)
        ensures
            log@ == Seq::<Seq<char>>::empty(),
    {
        let log = DiagnosticLog { entries: Vec::new() };
        proof {
            assert(log@ =~= Seq::<Seq<char>>::empty());
        }
        log
    }

    /// Emit one diagnostic payload: it is appended after everything emitted
    /// before, and nothing already emitted is altered.
    pub fn emit(&mut self, text: String)
        ensures
            final(self)@ == old(self)@.push(text@),
    {
        self.entries.push(text);
        proof {
            assert(self@ =~= old(self)@.push(text@));
        }
    }

    /// How many payloads have been emitted.
    pub fn len(&self) -> (n: usize)
        ensures
            n == self@.len(),
    {
        self.entries.len()
    }

    /// Whether nothing has been emitted.
    pub fn is_empty(&self) -> (b: bool)
        ensures
            b == (self@.len() == 0),
    {
        self.entries.len() == 0
    }

    /// The `i`th emitted payload, oldest first.
    pub fn entry(&self, i: usize) -> (text: &String)
        requires
            i < self@.len(),
        ensures
            text@ == self@[i as int],
    {
        &self.entries[i]
    }
}

} // verus!
