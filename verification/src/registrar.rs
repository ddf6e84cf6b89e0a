//! Materialization of entry lists and the ownership hand-off protocol of
//! the registration call.
//!
//! Materialization appends the registrar's own terminator record — never
//! trusting a caller-supplied one — and lays the records out as one block.
//! From then on the block lives behind move-only handle types: whoever
//! holds the value owns the memory, and consuming operations model the
//! irreversible transfer to the foreign runtime.

use vstd::prelude::*;

use crate::entry::EntryData;
use crate::entry::IniEntryDef;
use crate::entry::zero_entry;

verus! {

/// The views of a sequence of records, in order.
pub open spec fn views_of(entries: Seq<IniEntryDef>) -> Seq<EntryData> {
    Seq::new(entries.len(), |i: int| entries[i]@)
}

/// What materializing a list yields: the caller's records, in their order,
/// with exactly one more terminator record at the end.
pub open spec fn materialized_views(entries: Seq<EntryData>) -> Seq<EntryData> {
    entries.push(zero_entry())
}

/// Materialization never deduplicates a caller-built terminator: a record
/// that is already all-zero stays where the caller put it, and the
/// registrar's own terminator is an additional record at a later position.
pub proof fn lemma_no_terminator_dedup(entries: Seq<EntryData>, i: int)
    requires
        0 <= i < entries.len(),
        entries[i] == zero_entry(),
    ensures
        materialized_views(entries).len() == entries.len() + 1,
        materialized_views(entries)[i] == zero_entry(),
        materialized_views(entries)[entries.len() as int] == zero_entry(),
        i != entries.len() as int,
{
}

/// A single record released to the foreign world. The handle is move-only
/// and exposes nothing: once an entry is turned into it, no local operation
/// can read, change or free the record again.
pub struct RawEntry {
    record: IniEntryDef,
}

impl View for RawEntry {
    type V = EntryData;

    closed spec fn view(&self) -> EntryData {
        self.record@
    }
}

/// The materialized entry list: the caller's records in order, closed by
/// exactly one all-zero terminator, as the foreign runtime expects to find
/// them in one contiguous block. The value is move-only; handing it to the
/// registration call consumes the only handle.
pub struct RawEntryList {
    records: Vec<IniEntryDef>,
}

impl View for RawEntryList {
    type V = Seq<EntryData>;

    closed spec fn view(&self) -> Seq<EntryData> {
        views_of(self.records@)
    }
}

impl RawEntryList {
    /// Every record is consumable by the foreign runtime and the block ends
    /// with the terminator.
    pub open spec fn wf(self) -> bool {
        &&& self@.len() >= 1
        &&& self@.last() == zero_entry()
        &&& forall|i: int| 0 <= i < self@.len() ==> (#[trigger] self@[i]).wf()
    }

    /// Appends the registrar's own terminator to the given records — even
    /// if the caller already built one — and materializes them as one
    /// block, in the caller's order.
    pub fn materialize(entries: Vec<IniEntryDef>) -> (r: Self)
        requires
            forall|i: int| 0 <= i < entries@.len() ==> (#[trigger] entries@[i])@.wf(),
        ensures
            r@ == materialized_views(views_of(entries@)),
            r@.len() == entries@.len() + 1,
            forall|i: int| 0 <= i < entries@.len() ==> r@[i] == (#[trigger] entries@[i])@,
            r@[entries@.len() as int] == zero_entry(),
            r.wf(),
    {
        let ghost orig = entries@;
        let mut records = entries;
        records.push(IniEntryDef::end());
        let r = RawEntryList { records };
        proof {
            assert(r@ =~= materialized_views(views_of(orig)));
        }
        r
    }

    /// The number of records in the block, terminator included.
    pub fn len(&self) -> (n: usize)
        ensures
            n == self@.len(),
    {
        self.records.len()
    }

    /// The record at the given position.
    pub fn record(&self, index: usize) -> (r: &IniEntryDef)
        requires
            index < self@.len(),
        ensures
            r@ == self@[index as int],
    {
        &self.records[index]
    }
}

/// The foreign runtime's rejection of a registration call, carrying the
/// status the runtime returned. The already-transferred block is not freed
/// locally on this account: it belongs to the runtime.
#[derive(Clone, Copy, PartialEq, Eq, Structural, Debug)]
pub struct RegistrationError {
    pub code: i32,
}

/// A prepared registration: the one handle to the materialized block,
/// together with the module identifier the entries are registered under.
/// The unverified boundary passes the block and the module identifier to
/// the foreign registration entry point, then consumes this value with
/// [`RegistrationRequest::complete`], so no second handle to the block
/// survives the call.
pub struct RegistrationRequest {
    block: RawEntryList,
    module_number: i32,
}

impl RegistrationRequest {
    /// The records of the materialized block.
    pub closed spec fn spec_block(self) -> Seq<EntryData> {
        self.block@
    }

    /// The module identifier the registration is issued under.
    pub closed spec fn spec_module_number(self) -> i32 {
        self.module_number
    }

    /// The materialized block, to be passed to the foreign entry point.
    pub fn block(&self) -> (b: &RawEntryList)
        ensures
            b@ == self.spec_block(),
    {
        &self.block
    }

    /// The module identifier, to be passed unchanged beside the block.
    pub fn module_number(&self) -> (n: i32)
        ensures
            n == self.spec_module_number(),
    {
        self.module_number
    }

    /// Consumes the request, interpreting the status the foreign
    /// registration entry point returned: zero means the runtime accepted
    /// the entries and now owns the block; anything else is surfaced
    /// unchanged as a [`RegistrationError`]. Either way the registrar keeps
    /// no handle that could touch the block again.
    pub fn complete(self, status: i32) -> (r: Result<(), RegistrationError>)
        ensures
            r is Ok <==> status == 0,
            (r matches Err(e) ==> e.code == status),
    {
        if status == 0 {
            Ok(())
        } else {
            Err(RegistrationError { code: status })
        }
    }
}

impl IniEntryDef {
    /// Releases one entry to the foreign world, forfeiting every local way
    /// to touch it again.
    pub fn into_raw(self) -> (r: RawEntry)
        ensures
            r@ == self@,
    {
        RawEntry { record: self }
    }

    /// Prepares the one-shot registration of a list of entries: appends the
    /// terminator, materializes the block, and binds it to the module
    /// identifier. The request holds the only handle to the block; the
    /// caller performs the foreign call with the block's records and the
    /// module identifier, and accounts for its outcome with
    /// [`RegistrationRequest::complete`].
    pub fn register(entries: Vec<Self>, module_number: i32) -> (r: RegistrationRequest)
        requires
            forall|i: int| 0 <= i < entries@.len() ==> (#[trigger] entries@[i])@.wf(),
        ensures
            r.spec_block() == materialized_views(views_of(entries@)),
            r.spec_block().len() == entries@.len() + 1,
            forall|i: int|
                0 <= i < entries@.len() ==> r.spec_block()[i] == (#[trigger] entries@[i])@,
            r.spec_block()[entries@.len() as int] == zero_entry(),
            r.spec_module_number() == module_number,
    {
        let block = RawEntryList::materialize(entries);
        RegistrationRequest { block, module_number }
    }
}

} // verus!
