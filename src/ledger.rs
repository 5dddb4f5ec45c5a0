//! The record store: slots addressed by public keys, each created at most
//! once and then read, replaced or taken out whole.
use vstd::prelude::*;
use crate::keys::Pubkey;
use crate::records::{Record, RecordView};

verus! {

struct Slot {
    address: Pubkey,
    record: Record,
}

/// The slots of one program, with the program id that their addresses are
/// derived under.
pub struct Ledger {
    program_id: Pubkey,
    slots: Vec<Slot>,
    contents: Ghost<Map<Seq<u8>, RecordView>>,
}

impl View for Ledger {
    type V = Map<Seq<u8>, RecordView>;

    /// The record held at each occupied address.
    closed spec fn view(&self) -> Map<Seq<u8>, RecordView> {
        self.contents@
    }
}

impl Ledger {
    pub closed spec fn program(&self) -> Seq<u8> {
        self.program_id@
    }

    /// Slot addresses are distinct, and the slots hold exactly the view.
    pub closed spec fn wf(&self) -> bool {
        &&& forall|i: int, j: int|
            0 <= i < self.slots@.len() && 0 <= j < self.slots@.len() && i != j
                ==> #[trigger] self.slots@[i].address@ != #[trigger] self.slots@[j].address@
        &&& forall|i: int|
            0 <= i < self.slots@.len() ==> {
                &&& self.contents@.contains_key(#[trigger] self.slots@[i].address@)
                &&& self.contents@[self.slots@[i].address@] == self.slots@[i].record@
            }
        &&& forall|k: Seq<u8>|
            #[trigger] self.contents@.contains_key(k) ==> exists|i: int|
                0 <= i < self.slots@.len() && #[trigger] self.slots@[i].address@ == k
    }

    /// An empty ledger for the program `program_id`.
    pub fn new(program_id: Pubkey) -> (r: Ledger)
        ensures
            r.wf(),
            r@ == Map::<Seq<u8>, RecordView>::empty(),
            r.program() == program_id@,
    {
        Ledger { program_id, slots: Vec::new(), contents: Ghost(Map::empty()) }
    }

    pub fn program_id(&self) -> (r: Pubkey)
        ensures
            r@ == self.program(),
    {
        self.program_id
    }

    /// The number of occupied slots.
    pub fn len(&self) -> (r: usize)
        requires
            self.wf(),
        ensures
            r == self@.len(),
    {
        proof {
            self.lemma_dom_is_addresses();
        }
        self.slots.len()
    }

    proof fn lemma_dom_is_addresses(&self)
        requires
            self.wf(),
        ensures
            self@.dom() == Set::new(|k: Seq<u8>| exists|i: int| 0 <= i < self.slots@.len() && self.slots@[i].address@ == k),
            self@.dom().finite(),
            self@.len() == self.slots@.len(),
        decreases self.slots@.len(),
    {
        let addrs = self.slots@.map_values(|s: Slot| s.address@);
        assert(self@.dom() =~= Set::new(|k: Seq<u8>| exists|i: int| 0 <= i < self.slots@.len() && self.slots@[i].address@ == k)) by {
            assert forall|k: Seq<u8>| self@.dom().contains(k) implies exists|i: int| 0 <= i < self.slots@.len() && self.slots@[i].address@ == k by {
                let i = choose|i: int| 0 <= i < self.slots@.len() && #[trigger] self.slots@[i].address@ == k;
            }
        }
        assert(addrs.no_duplicates()) by {
            assert forall|i: int, j: int| 0 <= i < addrs.len() && 0 <= j < addrs.len() && i != j implies addrs[i] != addrs[j] by {
                assert(self.slots@[i].address@ != self.slots@[j].address@);
            }
        }
        assert(addrs.to_set() =~= self@.dom()) by {
            assert forall|k: Seq<u8>| self@.dom().contains(k) implies addrs.to_set().contains(k) by {
                let i = choose|i: int| 0 <= i < self.slots@.len() && #[trigger] self.slots@[i].address@ == k;
                assert(addrs[i] == k);
            }
            assert forall|k: Seq<u8>| addrs.to_set().contains(k) implies self@.dom().contains(k) by {
                let i = choose|i: int| 0 <= i < addrs.len() && addrs[i] == k;
                assert(self.slots@[i].address@ == k);
            }
        }
        addrs.unique_seq_to_set();
    }

    /// Where `address` sits among the slots, if it is occupied.
    fn position(&self, address: &Pubkey) -> (r: Option<usize>)
        requires
            self.wf(),
        ensures
            match r {
                Some(i) => i < self.slots@.len() && self.slots@[i as int].address@ == address@,
                None => !self@.contains_key(address@),
            },
    {
        let mut i: usize = 0;
        while i < self.slots.len()
            invariant
                self.wf(),
                0 <= i <= self.slots@.len(),
                forall|j: int| 0 <= j < i ==> self.slots@[j].address@ != address@,
            decreases self.slots@.len() - i,
        {
            if self.slots[i].address.same_as(address) {
                return Some(i);
            }
            i = i + 1;
        }
        None
    }

    /// The record at `address`, if any.
    pub fn lookup(&self, address: &Pubkey) -> (r: Option<&Record>)
        requires
            self.wf(),
        ensures
            r is Some <==> self@.contains_key(address@),
            r matches Some(rec) ==> rec@ == self@[address@],
    {
        match self.position(address) {
            Some(i) => Some(&self.slots[i].record),
            None => None,
        }
    }

    /// Creates a record at a free address.
    pub fn create(&mut self, address: Pubkey, record: Record)
        requires
            old(self).wf(),
            !old(self)@.contains_key(address@),
        ensures
            final(self).wf(),
            final(self)@ == old(self)@.insert(address@, record@),
            final(self).program() == old(self).program(),
    {
        let ghost a = address@;
        let ghost rec = record@;
        self.slots.push(Slot { address, record });
        self.contents = Ghost(self.contents@.insert(a, rec));
        proof {
            let n = self.slots@.len() - 1;
            assert(self.slots@[n].address@ == a);
            assert forall|k: Seq<u8>| #[trigger] self.contents@.contains_key(k) implies exists|i: int|
                0 <= i < self.slots@.len() && #[trigger] self.slots@[i].address@ == k by {
                if k != a {
                    assert(old(self).contents@.contains_key(k));
                    let i = choose|i: int| 0 <= i < old(self).slots@.len() && #[trigger] old(self).slots@[i].address@ == k;
                    assert(self.slots@[i] == old(self).slots@[i]);
                } else {
                    assert(self.slots@[n].address@ == k);
                }
            }
            assert forall|i: int| 0 <= i < self.slots@.len() implies {
                &&& self.contents@.contains_key(#[trigger] self.slots@[i].address@)
                &&& self.contents@[self.slots@[i].address@] == self.slots@[i].record@
            } by {
                if i < n {
                    assert(self.slots@[i] == old(self).slots@[i]);
                    assert(old(self).contents@.contains_key(old(self).slots@[i].address@));
                }
            }
        }
    }

    /// Takes the record at `address` out of the ledger, leaving the slot free.
    pub fn take(&mut self, address: &Pubkey) -> (r: Option<Record>)
        requires
            old(self).wf(),
        ensures
            final(self).wf(),
            final(self)@ == old(self)@.remove(address@),
            final(self).program() == old(self).program(),
            r is Some <==> old(self)@.contains_key(address@),
            r matches Some(rec) ==> rec@ == old(self)@[address@],
    {
        match self.position(address) {
            None => {
                assert(self@ =~= old(self)@.remove(address@));
                None
            },
            Some(p) => {
                let ghost a = address@;
                let slot = self.slots.remove(p);
                self.contents = Ghost(self.contents@.remove(a));
                proof {
                    let os = old(self).slots@;
                    assert forall|i: int| 0 <= i < self.slots@.len() implies #[trigger] self.slots@[i]
                        == if i < p { os[i] } else { os[i + 1] } by {}
                    assert forall|k: Seq<u8>| #[trigger] self.contents@.contains_key(k) implies exists|i: int|
                        0 <= i < self.slots@.len() && #[trigger] self.slots@[i].address@ == k by {
                        assert(old(self).contents@.contains_key(k));
                        let i = choose|i: int| 0 <= i < os.len() && #[trigger] os[i].address@ == k;
                        assert(i != p);
                        if i < p {
                            assert(self.slots@[i].address@ == k);
                        } else {
                            assert(self.slots@[i - 1].address@ == k);
                        }
                    }
                    assert forall|i: int| 0 <= i < self.slots@.len() implies {
                        &&& self.contents@.contains_key(#[trigger] self.slots@[i].address@)
                        &&& self.contents@[self.slots@[i].address@] == self.slots@[i].record@
                    } by {
                        let oi = if i < p { i } else { i + 1 };
                        assert(self.slots@[i] == os[oi]);
                        assert(os[oi].address@ != os[p as int].address@);
                        assert(old(self).contents@.contains_key(os[oi].address@));
                    }
                    assert forall|i: int, j: int|
                        0 <= i < self.slots@.len() && 0 <= j < self.slots@.len() && i != j
                            implies #[trigger] self.slots@[i].address@ != #[trigger] self.slots@[j].address@ by {
                        let oi = if i < p { i } else { i + 1 };
                        let oj = if j < p { j } else { j + 1 };
                        assert(self.slots@[i] == os[oi]);
                        assert(self.slots@[j] == os[oj]);
                    }
                }
                Some(slot.record)
            },
        }
    }
}

} // verus!
