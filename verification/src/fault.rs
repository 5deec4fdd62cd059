//! What can go wrong between the service and its store.

use vstd::prelude::*;

verus! {

/// The mathematical value of a [`Fault`].
pub enum FaultView {
    Storage(Seq<char>),
    Decode(Seq<char>),
}

/// A failure of the store or of what it holds. Each carries the text that the
/// failing layer reported.
#[derive(Debug, PartialEq, Eq)]
pub enum Fault {
    /// The store could not be read or written.
    Storage(String),
    /// Stored or streamed bytes do not have the shape of a record.
    Decode(String),
}

impl View for Fault {
    type V = FaultView;

    open spec fn view(&self) -> FaultView {
        match self {
            Fault::Storage(detail) => FaultView::Storage(detail@),
            Fault::Decode(detail) => FaultView::Decode(detail@),
        }
    }
}

impl Clone for Fault {
    fn clone(&self) -> (copy: Self)
        ensures
            copy@ == self@,
    {
        match self {
            Fault::Storage(detail) => Fault::Storage(detail.clone()),
            Fault::Decode(detail) => Fault::Decode(detail.clone()),
        }
    }
}

impl Fault {
    /// The text that the failing layer reported.
    pub fn detail(&self) -> (text: &String)
        ensures
            text@ == match self@ {
                FaultView::Storage(detail) => detail,
                FaultView::Decode(detail) => detail,
            },
    {
        match self {
            Fault::Storage(detail) => detail,
            Fault::Decode(detail) => detail,
        }
    }

    /// Whether the fault lies in the stored data rather than in reaching it.
    pub fn is_integrity_fault(&self) -> (yes: bool)
        ensures
            yes == (self@ is Decode),
    {
        match self {
            Fault::Storage(_) => false,
            Fault::Decode(_) => true,
        }
    }
}

} // verus!
