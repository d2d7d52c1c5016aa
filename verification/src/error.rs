//! Why a read can fail.

use vstd::prelude::*;

verus! {

/// What a [`ReadError`] stands for.
pub enum ReadErrorView {
    Malformed(Seq<char>),
    Incomplete,
}

/// The failures of a read. Each of them ends the read: nothing is retried and
/// no partial ontology is handed out.
#[derive(Debug)]
pub enum ReadError {
    /// The source of the triples reported a syntax error; this is its message.
    Malformed(String),
    /// A recognizer was finalized before it had seen the triples it requires.
    Incomplete,
}

impl View for ReadError {
    type V = ReadErrorView;

    open spec fn view(&self) -> ReadErrorView {
        match *self {
            ReadError::Malformed(m) => ReadErrorView::Malformed(m@),
            ReadError::Incomplete => ReadErrorView::Incomplete,
        }
    }
}

impl ReadError {
    /// The text shown for the failure of a recognizer that lacks triples.
    pub open spec fn incomplete_text() -> Seq<char> {
        "a recognizer was finalized before it had seen the triples it requires"@
    }

    /// A description of the failure.
    pub fn message(&self) -> (r: String)
        ensures
            r@ == match *self {
                ReadError::Malformed(m) => m@,
                ReadError::Incomplete => Self::incomplete_text(),
            },
    {
        match self {
            ReadError::Malformed(m) => m.clone(),
            ReadError::Incomplete => {
                "a recognizer was finalized before it had seen the triples it requires".to_owned()
            },
        }
    }
}

} // verus!
