//! The ledger of one program: the records of all owners, each at the address
//! derived from its owner's key.

use vstd::prelude::*;
use crate::pubkey::Pubkey;
use crate::state::data_account::{DataAccount, Record};
use crate::utils::is_data_account_address;

verus! {

/// What holds of the records of a ledger at all times: every record is
/// valid and lies at the address derived from its owner's key.
pub open spec fn valid_records(records: Map<Seq<u8>, Record>, program_id: Seq<u8>) -> bool {
    forall|address: Seq<u8>| #[trigger]
        records.contains_key(address) ==> records[address].valid() && is_data_account_address(
            address,
            records[address].owner,
            program_id,
        )
}

/// One occupied address with the record that lies there.
struct Slot {
    address: Pubkey,
    account: DataAccount,
}

/// No address occurs twice among the slots.
spec fn distinct_addresses(slots: Seq<Slot>) -> bool {
    forall|i: int, j: int|
        0 <= i < j < slots.len() ==> (#[trigger] slots[i]).address@ != (#[trigger] slots[j]).address@
}

/// True where a slot with this address exists.
spec fn occupied(slots: Seq<Slot>, address: Seq<u8>) -> bool {
    exists|i: int| 0 <= i < slots.len() && (#[trigger] slots[i]).address@ == address
}

/// Position of a slot with this address.
spec fn slot_of(slots: Seq<Slot>, address: Seq<u8>) -> int {
    choose|i: int| 0 <= i < slots.len() && (#[trigger] slots[i]).address@ == address
}

/// The records of the slots by their addresses.
spec fn records_of(slots: Seq<Slot>) -> Map<Seq<u8>, Record> {
    Map::new(
        |address: Seq<u8>| occupied(slots, address),
        |address: Seq<u8>| slots[slot_of(slots, address)].account@,
    )
}

/// Among slots with distinct addresses the position of an address is the
/// only one that holds it.
proof fn lemma_slot_of(slots: Seq<Slot>, i: int)
    requires
        distinct_addresses(slots),
        0 <= i < slots.len(),
    ensures
        occupied(slots, slots[i].address@),
        slot_of(slots, slots[i].address@) == i,
        records_of(slots).contains_key(slots[i].address@),
        records_of(slots)[slots[i].address@] == slots[i].account@,
{
    let address = slots[i].address@;
    let j = slot_of(slots, address);
    assert(0 <= j < slots.len() && slots[j].address@ == address);
    if j < i {
        assert(slots[j].address@ != slots[i].address@);
    }
    if i < j {
        assert(slots[i].address@ != slots[j].address@);
    }
}

/// Every slot holds a valid record at the address derived from its owner's
/// key.
spec fn valid_slots(slots: Seq<Slot>, program_id: Seq<u8>) -> bool {
    forall|i: int|
        0 <= i < slots.len() ==> (#[trigger] slots[i]).account@.valid() && is_data_account_address(
            slots[i].address@,
            slots[i].account@.owner,
            program_id,
        )
}

/// The records of valid slots are valid records.
proof fn lemma_valid_records(slots: Seq<Slot>, program_id: Seq<u8>)
    requires
        distinct_addresses(slots),
        valid_slots(slots, program_id),
    ensures
        valid_records(records_of(slots), program_id),
{
    assert forall|address: Seq<u8>| #[trigger] records_of(slots).contains_key(address) implies records_of(
        slots,
    )[address].valid() && is_data_account_address(
        address,
        records_of(slots)[address].owner,
        program_id,
    ) by {
        let i = slot_of(slots, address);
        assert(slots[i].account@.valid());
    }
}

/// The records of all owners under one program.
pub struct Ledger {
    program_id: Pubkey,
    slots: Vec<Slot>,
}

impl View for Ledger {
    type V = Map<Seq<u8>, Record>;

    closed spec fn view(&self) -> Map<Seq<u8>, Record> {
        records_of(self.slots@)
    }
}

impl Ledger {
    #[verifier::type_invariant]
    spec fn well_formed(self) -> bool {
        &&& distinct_addresses(self.slots@)
        &&& valid_slots(self.slots@, self.program_id@)
    }

    /// Key of the program that the ledger belongs to.
    pub closed spec fn spec_program_id(&self) -> Pubkey {
        self.program_id
    }

    /// The ledger of a program with no record in it.
    pub fn new(program_id: Pubkey) -> (ledger: Ledger)
        ensures
            ledger@ == Map::<Seq<u8>, Record>::empty(),
            ledger.program_id()@ == program_id@,
            valid_records(ledger@, program_id@),
    {
        let ledger = Ledger { program_id, slots: Vec::new() };
        assert(ledger@ =~= Map::<Seq<u8>, Record>::empty());
        ledger
    }

    /// Key of the program that the ledger belongs to.
    #[verifier::when_used_as_spec(spec_program_id)]
    pub fn program_id(&self) -> (id: Pubkey)
        ensures
            id == self.program_id(),
            valid_records(self@, self.program_id()@),
    {
        proof {
            use_type_invariant(self);
            lemma_valid_records(self.slots@, self.program_id@);
        }
        self.program_id
    }

    /// The position of the slot with this address, if there is one.
    fn find(&self, address: &Pubkey) -> (found: Option<usize>)
        ensures
            match found {
                Some(i) => i < self.slots.len() && self.slots[i as int].address@ == address@,
                None => !occupied(self.slots@, address@),
            },
    {
        let mut i: usize = 0;
        while i < self.slots.len()
            invariant
                i <= self.slots.len(),
                forall|j: int| 0 <= j < i ==> (#[trigger] self.slots[j]).address@ != address@,
            decreases self.slots.len() - i,
        {
            if self.slots[i].address == *address {
                return Some(i);
            }
            i += 1;
        }
        None
    }

    /// True where a record lies at `address`.
    pub fn contains(&self, address: &Pubkey) -> (present: bool)
        ensures
            present == self@.contains_key(address@),
            valid_records(self@, self.program_id()@),
    {
        proof {
            use_type_invariant(self);
            lemma_valid_records(self.slots@, self.program_id@);
        }
        self.find(address).is_some()
    }

    /// The record at `address`, if one lies there.
    pub fn get(&self, address: &Pubkey) -> (record: Option<&DataAccount>)
        ensures
            match record {
                Some(account) => self@.contains_key(address@) && account@ == self@[address@],
                None => !self@.contains_key(address@),
            },
            valid_records(self@, self.program_id()@),
    {
        proof {
            use_type_invariant(self);
            lemma_valid_records(self.slots@, self.program_id@);
        }
        match self.find(address) {
            Some(i) => {
                proof {
                    lemma_slot_of(self.slots@, i as int);
                }
                Some(&self.slots[i].account)
            },
            None => None,
        }
    }

    /// Number of records on the ledger.
    pub fn len(&self) -> (count: usize)
        ensures
            count == self@.len(),
            self@.dom().finite(),
    {
        proof {
            use_type_invariant(self);
            lemma_records_len(self.slots@);
        }
        self.slots.len()
    }

    /// Puts a record at a free address.
    pub(crate) fn insert(&mut self, address: Pubkey, account: DataAccount)
        requires
            !old(self)@.contains_key(address@),
            account@.valid(),
            is_data_account_address(address@, account@.owner, old(self).program_id()@),
        ensures
            final(self)@ == old(self)@.insert(address@, account@),
            final(self).program_id() == old(self).program_id(),
            valid_records(final(self)@, final(self).program_id()@),
    {
        proof {
            use_type_invariant(&*self);
        }
        let ghost before = self.slots@;
        let mut slots = Vec::new();
        std::mem::swap(&mut slots, &mut self.slots);
        slots.push(Slot { address, account });
        let ghost after = slots@;
        proof {
            assert(distinct_addresses(after)) by {
                assert forall|i: int, j: int| 0 <= i < j < after.len() implies (#[trigger] after[i]).address@
                    != (#[trigger] after[j]).address@ by {
                    if j == before.len() {
                        assert(before[i].address@ != address@) by {
                            if before[i].address@ == address@ {
                                assert(occupied(before, address@));
                            }
                        }
                    } else {
                        assert(before[i].address@ != before[j].address@);
                    }
                }
            }
            assert(records_of(after) =~= records_of(before).insert(address@, account@)) by {
                assert forall|a: Seq<u8>| occupied(after, a) <==> (a == address@ || occupied(before, a)) by {
                    if occupied(after, a) {
                        let i = slot_of(after, a);
                        if i < before.len() {
                            assert(before[i].address@ == a);
                        }
                    }
                    if a == address@ {
                        assert(after[before.len() as int].address@ == a);
                    }
                    if occupied(before, a) {
                        let i = slot_of(before, a);
                        assert(after[i].address@ == a);
                    }
                }
                assert forall|a: Seq<u8>| occupied(after, a) implies records_of(after)[a] == records_of(
                    before,
                ).insert(address@, account@)[a] by {
                    if a == address@ {
                        lemma_slot_of(after, before.len() as int);
                    } else {
                        let i = slot_of(before, a);
                        lemma_slot_of(before, i);
                        assert(after[i] == before[i]);
                        lemma_slot_of(after, i);
                    }
                }
            }
        }
        proof {
            assert(valid_slots(after, self.program_id@)) by {
                assert forall|i: int| 0 <= i < after.len() implies (#[trigger] after[i]).account@.valid()
                    && is_data_account_address(
                    after[i].address@,
                    after[i].account@.owner,
                    self.program_id@,
                ) by {
                    if i < before.len() {
                        assert(before[i].account@.valid());
                    }
                }
            }
            lemma_valid_records(after, self.program_id@);
        }
        self.slots = slots;
    }

    /// Takes the record at `address` off the ledger and hands it out; `None`
    /// where no record lies there.
    pub(crate) fn remove(&mut self, address: &Pubkey) -> (taken: Option<DataAccount>)
        ensures
            match taken {
                Some(account) => old(self)@.contains_key(address@) && account@ == old(self)@[address@]
                    && account@.valid() && is_data_account_address(
                    address@,
                    account@.owner,
                    old(self).program_id()@,
                ),
                None => !old(self)@.contains_key(address@),
            },
            final(self)@ == old(self)@.remove(address@),
            final(self).program_id() == old(self).program_id(),
            valid_records(final(self)@, final(self).program_id()@),
    {
        proof {
            use_type_invariant(&*self);
            lemma_valid_records(self.slots@, self.program_id@);
        }
        let ghost before = self.slots@;
        match self.find(address) {
            None => {
                assert(self@ =~= self@.remove(address@));
                None
            },
            Some(i) => {
                let mut slots = Vec::new();
                std::mem::swap(&mut slots, &mut self.slots);
                let slot = slots.remove(i);
                let ghost after = slots@;
                proof {
                    lemma_slot_of(before, i as int);
                    assert forall|k: int| 0 <= k < after.len() implies #[trigger] after[k] == before[if k < i {
                        k
                    } else {
                        k + 1
                    }] by {}
                    assert(distinct_addresses(after)) by {
                        assert forall|k: int, l: int| 0 <= k < l < after.len() implies (#[trigger] after[k]).address@
                            != (#[trigger] after[l]).address@ by {
                            let bk = if k < i { k } else { k + 1 };
                            let bl = if l < i { l } else { l + 1 };
                            assert(before[bk].address@ != before[bl].address@);
                        }
                    }
                    assert(valid_slots(after, self.program_id@)) by {
                        assert forall|k: int| 0 <= k < after.len() implies (#[trigger] after[k]).account@.valid()
                            && is_data_account_address(
                            after[k].address@,
                            after[k].account@.owner,
                            self.program_id@,
                        ) by {
                            let bk = if k < i { k } else { k + 1 };
                            assert(before[bk].account@.valid());
                        }
                    }
                    assert(records_of(after) =~= records_of(before).remove(address@)) by {
                        assert forall|a: Seq<u8>| occupied(after, a) <==> (a != address@ && occupied(before, a)) by {
                            if occupied(after, a) {
                                let k = slot_of(after, a);
                                let bk = if k < i { k } else { k + 1 };
                                assert(before[bk].address@ == a);
                                assert(before[bk].address@ != before[i as int].address@);
                            }
                            if a != address@ && occupied(before, a) {
                                let bk = slot_of(before, a);
                                let k = if bk < i { bk } else { bk - 1 };
                                assert(after[k].address@ == a);
                            }
                        }
                        assert forall|a: Seq<u8>| occupied(after, a) implies records_of(after)[a] == records_of(
                            before,
                        )[a] by {
                            let k = slot_of(after, a);
                            let bk = if k < i { k } else { k + 1 };
                            lemma_slot_of(after, k);
                            lemma_slot_of(before, bk);
                        }
                    }
                    lemma_valid_records(after, self.program_id@);
                }
                self.slots = slots;
                Some(slot.account)
            },
        }
    }
}

/// Slots with distinct addresses hold as many records as there are slots.
proof fn lemma_records_len(slots: Seq<Slot>)
    requires
        distinct_addresses(slots),
    ensures
        records_of(slots).dom().finite(),
        records_of(slots).len() == slots.len(),
    decreases slots.len(),
{
    if slots.len() == 0 {
        assert(records_of(slots).dom() =~= Set::<Seq<u8>>::empty());
    } else {
        let front = slots.drop_last();
        let last = slots.last();
        assert forall|i: int, j: int| 0 <= i < j < front.len() implies (#[trigger] front[i]).address@
            != (#[trigger] front[j]).address@ by {
            assert(slots[i].address@ != slots[j].address@);
        }
        lemma_records_len(front);
        assert(!occupied(front, last.address@)) by {
            if occupied(front, last.address@) {
                let i = slot_of(front, last.address@);
                assert(slots[i].address@ != slots[slots.len() - 1].address@);
            }
        }
        assert(records_of(slots).dom() =~= records_of(front).dom().insert(last.address@)) by {
            assert forall|a: Seq<u8>| occupied(slots, a) <==> (a == last.address@ || occupied(front, a)) by {
                if occupied(slots, a) {
                    let i = slot_of(slots, a);
                    if i < front.len() {
                        assert(front[i].address@ == a);
                    }
                }
                if a == last.address@ {
                    assert(slots[slots.len() - 1].address@ == a);
                }
                if occupied(front, a) {
                    let i = slot_of(front, a);
                    assert(slots[i].address@ == a);
                }
            }
        }
    }
}

} // verus!
