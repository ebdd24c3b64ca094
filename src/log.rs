//! Raw event log entries as fetched from the chain.
use vstd::prelude::*;
use crate::words::{words_equal, Address, Word};

verus! {

/// Which of the two supported pool protocol versions a record comes from.
#[derive(Clone, Copy, Debug, PartialEq, Eq, Structural)]
pub enum Protocol {
    V2,
    V3,
}

/// An event log entry: the emitting contract, up to four topic words and an
/// opaque payload.
#[derive(Clone, Debug)]
pub struct RawLog {
    pub address: Address,
    pub topics: Vec<Word>,
    pub data: Vec<u8>,
}

/// The sequence holding `o`'s value, if any.
pub open spec fn opt_seq<T>(o: Option<T>) -> Seq<T> {
    match o {
        Some(x) => seq![x],
        None => Seq::empty(),
    }
}

impl RawLog {
    /// The log's first topic is `id`.
    pub open spec fn selects(&self, id: Word) -> bool {
        self.topics@.len() > 0 && self.topics@[0]@ == id@
    }

    /// The log's first topic, its selector, if it has one.
    pub fn topic0(&self) -> (r: Option<Word>)
        ensures
            r == (if self.topics@.len() > 0 {
                Some(self.topics@[0])
            } else {
                None::<Word>
            }),
    {
        if self.topics.len() > 0 {
            Some(self.topics[0])
        } else {
            None
        }
    }

    /// Whether the log's first topic is `id`.
    pub fn has_selector(&self, id: &Word) -> (r: bool)
        ensures
            r == self.selects(*id),
    {
        match self.topic0() {
            Some(t) => words_equal(&t, id),
            None => false,
        }
    }
}

} // verus!
