//! The record that is stored and streamed, and what a client supplies for one.

use vstd::prelude::*;

verus! {

/// The mathematical value of a [`TransactionInput`].
pub struct TransactionInputView {
    pub description: Seq<char>,
    pub amount: Seq<char>,
}

/// What a client supplies to have a transaction created. Neither text is
/// examined: the amount is kept as written, so that no digit is lost.
#[derive(Debug, PartialEq, Eq)]
pub struct TransactionInput {
    description: String,
    amount: String,
}

impl View for TransactionInput {
    type V = TransactionInputView;

    closed spec fn view(&self) -> TransactionInputView {
        TransactionInputView { description: self.description@, amount: self.amount@ }
    }
}

impl Clone for TransactionInput {
    fn clone(&self) -> (copy: Self)
        ensures
            copy@ == self@,
    {
        TransactionInput { description: self.description.clone(), amount: self.amount.clone() }
    }
}

impl TransactionInput {
    pub fn new(description: String, amount: String) -> (input: Self)
        ensures
            input@ == (TransactionInputView { description: description@, amount: amount@ }),
    {
        TransactionInput { description, amount }
    }

    pub fn description(&self) -> (text: &String)
        ensures
            text@ == self@.description,
    {
        &self.description
    }

    pub fn amount(&self) -> (text: &String)
        ensures
            text@ == self@.amount,
    {
        &self.amount
    }
}

/// The mathematical value of a [`Transaction`].
pub struct TransactionView {
    pub id: u128,
    pub description: Seq<char>,
    pub amount: Seq<char>,
}

/// One stored transaction. The identifier is the 128-bit value of a UUID; it
/// is fixed when the record is made and no method changes it.
#[derive(Debug, PartialEq, Eq)]
pub struct Transaction {
    id: u128,
    description: String,
    amount: String,
}

impl View for Transaction {
    type V = TransactionView;

    closed spec fn view(&self) -> TransactionView {
        TransactionView { id: self.id, description: self.description@, amount: self.amount@ }
    }
}

impl Clone for Transaction {
    fn clone(&self) -> (copy: Self)
        ensures
            copy@ == self@,
    {
        Transaction {
            id: self.id,
            description: self.description.clone(),
            amount: self.amount.clone(),
        }
    }
}

/// The record that carries `input` under the identifier `id`.
pub open spec fn record_of(id: u128, input: TransactionInputView) -> TransactionView {
    TransactionView { id, description: input.description, amount: input.amount }
}

impl Transaction {
    pub fn new(id: u128, description: String, amount: String) -> (record: Self)
        ensures
            record@ == (TransactionView { id, description: description@, amount: amount@ }),
    {
        Transaction { id, description, amount }
    }

    /// Gives `input` the identifier `id`, keeping both texts as they are.
    pub fn from_input(id: u128, input: TransactionInput) -> (record: Self)
        ensures
            record@ == record_of(id, input@),
    {
        Transaction { id, description: input.description, amount: input.amount }
    }

    pub fn id(&self) -> (id: u128)
        ensures
            id == self@.id,
    {
        self.id
    }

    pub fn description(&self) -> (text: &String)
        ensures
            text@ == self@.description,
    {
        &self.description
    }

    pub fn amount(&self) -> (text: &String)
        ensures
            text@ == self@.amount,
    {
        &self.amount
    }
}

} // verus!
