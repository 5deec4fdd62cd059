//! Listing and creating records.
//!
//! The store is reached by the caller. For a listing the caller scans the
//! store and hands over what each key gave; for a creation it performs the
//! write that is returned to it and hands back how the write ended.

use crate::fault::{Fault, FaultView};
use crate::key::{is_random_id, key_of, key_text, random_id};
use crate::record::{record_of, Transaction, TransactionInput, TransactionView};
use vstd::prelude::*;

verus! {

/// The mathematical value of what a scan gave for one key: the record stored
/// there, or the fault met in reading or decoding it.
pub open spec fn entry_view(entry: Result<Transaction, Fault>) -> Result<
    TransactionView,
    FaultView,
> {
    match entry {
        Ok(record) => Ok(record@),
        Err(fault) => Err(fault@),
    }
}

/// The mathematical value of a scan, in the store's key order.
pub open spec fn scan_view(entries: Seq<Result<Transaction, Fault>>) -> Seq<
    Result<TransactionView, FaultView>,
> {
    entries.map_values(|entry: Result<Transaction, Fault>| entry_view(entry))
}

/// The mathematical value of a list of records.
pub open spec fn records_view(records: Seq<Transaction>) -> Seq<TransactionView> {
    records.map_values(|record: Transaction| record@)
}

/// No key of the scan gave a fault.
pub open spec fn faultless(scan: Seq<Result<TransactionView, FaultView>>) -> bool {
    forall|i: int| 0 <= i < scan.len() ==> (#[trigger] scan[i]) is Ok
}

/// The scan's first fault is at position `i`.
pub open spec fn is_first_fault(scan: Seq<Result<TransactionView, FaultView>>, i: int) -> bool {
    &&& 0 <= i < scan.len()
    &&& scan[i] is Err
    &&& faultless(scan.take(i))
}

/// The records of a faultless scan, in the scan's order.
pub open spec fn records_of(scan: Seq<Result<TransactionView, FaultView>>) -> Seq<
    TransactionView,
> {
    Seq::new(scan.len(), |i: int| scan[i]->Ok_0)
}

/// What a listing returns for a scan: every record, in the scan's order, when
/// no key gave a fault; otherwise the first fault, and no record at all.
pub open spec fn listing_of(scan: Seq<Result<TransactionView, FaultView>>) -> Result<
    Seq<TransactionView>,
    FaultView,
> {
    if faultless(scan) {
        Ok(records_of(scan))
    } else {
        Err(scan[choose|i: int| is_first_fault(scan, i)]->Err_0)
    }
}

/// The mathematical value of a listing.
pub open spec fn listing_view(listing: Result<Vec<Transaction>, Fault>) -> Result<
    Seq<TransactionView>,
    FaultView,
> {
    match listing {
        Ok(records) => Ok(records_view(records@)),
        Err(fault) => Err(fault@),
    }
}

/// A scan has at most one first fault.
proof fn lemma_first_fault_unique(scan: Seq<Result<TransactionView, FaultView>>, i: int, j: int)
    requires
        is_first_fault(scan, i),
        is_first_fault(scan, j),
    ensures
        i == j,
{
    if i < j {
        assert(scan.take(j)[i] is Ok);
    } else if j < i {
        assert(scan.take(i)[j] is Ok);
    }
}

/// Lists the records of a scan of the whole store. One key that could not be
/// read or decoded fails the listing: it is not passed over.
pub fn list_transactions(entries: Vec<Result<Transaction, Fault>>) -> (listing: Result<
    Vec<Transaction>,
    Fault,
>)
    ensures
        listing_view(listing) == listing_of(scan_view(entries@)),
{
    let ghost scan = scan_view(entries@);
    let mut records: Vec<Transaction> = Vec::new();
    for entry in it: entries
        invariant
            scan_view(it.seq()) == scan,
            records@.len() == it.index(),
            forall|i: int| 0 <= i < it.index() ==> (#[trigger] scan[i]) == Ok::<TransactionView, FaultView>(records@[i]@),
    {
        let ghost at = it.index();
        assert(scan[at] == entry_view(entry));
        match entry {
            Ok(record) => {
                records.push(record);
            },
            Err(fault) => {
                proof {
                    assert(is_first_fault(scan, at));
                    let first = choose|i: int| is_first_fault(scan, i);
                    lemma_first_fault_unique(scan, first, at);
                }
                return Err(fault);
            },
        }
    }
    proof {
        assert(faultless(scan));
        assert(records_view(records@) =~= records_of(scan));
    }
    Ok(records)
}

/// A listing of an empty store succeeds and holds no record.
pub proof fn lemma_empty_store_lists_nothing()
    ensures
        listing_of(Seq::empty()) == Ok::<Seq<TransactionView>, FaultView>(Seq::empty()),
{
    let scan = Seq::<Result<TransactionView, FaultView>>::empty();
    assert(faultless(scan));
    assert(records_of(scan) =~= Seq::empty());
}

/// A listing succeeds exactly when no key of the scan gave a fault. It then
/// holds as many records as the scan has keys, each at the position of its
/// key: a record that the store returns under its key is in the listing.
pub proof fn lemma_listing_holds_every_record(scan: Seq<Result<TransactionView, FaultView>>)
    ensures
        listing_of(scan) is Ok <==> faultless(scan),
        faultless(scan) ==> listing_of(scan)->Ok_0.len() == scan.len(),
        forall|i: int|
            faultless(scan) && 0 <= i < scan.len() ==> (#[trigger] scan[i]) == Ok::<
                TransactionView,
                FaultView,
            >(listing_of(scan)->Ok_0[i]),
{
}

/// A listing that fails reports the fault of the first key that gave one.
pub proof fn lemma_listing_reports_first_fault(
    scan: Seq<Result<TransactionView, FaultView>>,
    i: int,
)
    requires
        is_first_fault(scan, i),
    ensures
        listing_of(scan) == Err::<Seq<TransactionView>, FaultView>(scan[i]->Err_0),
{
    let first = choose|j: int| is_first_fault(scan, j);
    lemma_first_fault_unique(scan, first, i);
}

/// A write for the store to perform: one record, to be put under its key.
#[derive(Debug)]
pub struct Put {
    key: String,
    record: Transaction,
}

impl View for Put {
    type V = TransactionView;

    /// The record to be written.
    closed spec fn view(&self) -> TransactionView {
        self.record@
    }
}

impl Put {
    #[verifier::type_invariant]
    spec fn keyed_by_id(self) -> bool {
        self.key@ == key_text(self.record@.id)
    }

    /// The key to write under: the canonical text of the record's identifier.
    pub fn key(&self) -> (key: &String)
        ensures
            key@ == key_text(self@.id),
    {
        proof {
            use_type_invariant(self);
        }
        &self.key
    }

    /// The record to write.
    pub fn record(&self) -> (record: &Transaction)
        ensures
            record@ == self@,
    {
        &self.record
    }
}

/// The write that stores `input` under the identifier `id`.
pub fn stage_transaction(id: u128, input: TransactionInput) -> (put: Put)
    ensures
        put@ == record_of(id, input@),
{
    let key = key_of(id);
    let record = Transaction::from_input(id, input);
    Put { key, record }
}

/// Begins the creation of a transaction: draws a fresh identifier and gives
/// back the write that stores `input` under it, both texts as they came.
/// Nothing is validated, so this cannot fail; the caller performs the write
/// and ends with [`conclude_create`].
pub fn create_transaction(input: TransactionInput) -> (put: Put)
    ensures
        put@ == record_of(put@.id, input@),
        is_random_id(put@.id),
{
    let id = random_id();
    stage_transaction(id, input)
}

/// The mathematical value of how a write ended.
pub open spec fn outcome_view(outcome: Result<(), Fault>) -> Result<(), FaultView> {
    match outcome {
        Ok(_) => Ok(()),
        Err(fault) => Err(fault@),
    }
}

/// What a creation returns once the store has answered the write: the record
/// as it was written, or the store's fault and no record.
pub open spec fn creation_result(record: TransactionView, outcome: Result<(), FaultView>) -> Result<
    TransactionView,
    FaultView,
> {
    match outcome {
        Ok(_) => Ok(record),
        Err(fault) => Err(fault),
    }
}

/// Ends the creation of a transaction with the outcome of its write. The
/// record is returned only if it was stored.
pub fn conclude_create(put: Put, outcome: Result<(), Fault>) -> (created: Result<
    Transaction,
    Fault,
>)
    ensures
        entry_view(created) == creation_result(put@, outcome_view(outcome)),
{
    match outcome {
        Ok(_) => Ok(put.record),
        Err(fault) => Err(fault),
    }
}

} // verus!
