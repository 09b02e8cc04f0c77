//! The transparent addresses that are to be marked as exposed.

use crate::transparent;
use crate::transparent::{from_pubkey, PublicKey, TransparentAddress};
use crate::watchonly;
use vstd::prelude::*;

verus! {

/// A set of transparent addresses.
#[derive(Debug)]
pub struct AddressSet {
    pub items: Vec<TransparentAddress>,
}

impl View for AddressSet {
    type V = Set<TransparentAddress>;

    open spec fn view(&self) -> Set<TransparentAddress> {
        self.items@.to_set()
    }
}

/// The addresses of the public keys with the given compressed forms.
pub open spec fn key_addresses(keys: Seq<Seq<u8>>) -> Set<TransparentAddress> {
    Set::new(
        |address: TransparentAddress|
            exists|i: int|
                0 <= i < keys.len() && #[trigger] transparent::addresses_key(address, keys[i]),
    )
}

/// Whether `address` is among `addresses`.
fn find(addresses: &Vec<TransparentAddress>, address: &TransparentAddress) -> (r: bool)
    ensures
        r == addresses@.contains(*address),
{
    let mut i: usize = 0;
    while i < addresses.len()
        invariant
            i <= addresses@.len(),
            forall|j: int| 0 <= j < i ==> addresses@[j] != *address,
        decreases addresses@.len() - i,
    {
        if addresses[i].same(address) {
            return true;
        }
        i = i + 1;
    }
    false
}

impl AddressSet {
    /// No address is held twice.
    pub open spec fn wf(&self) -> bool {
        self.items@.no_duplicates()
    }

    /// The set without addresses.
    pub fn new() -> (r: AddressSet)
        ensures
            r.wf(),
            r@ == Set::<TransparentAddress>::empty(),
    {
        let r = AddressSet { items: Vec::new() };
        proof {
            assert(r@ =~= Set::<TransparentAddress>::empty());
        }
        r
    }

    /// How many of the addresses are not among those of the wallet.
    pub fn untracked(&self, known: &Vec<TransparentAddress>) -> (r: usize)
        requires
            self.wf(),
        ensures
            r == self@.difference(known@.to_set()).len(),
    {
        let ghost all = self.items@;
        let ghost ours = known@.to_set();
        let mut r: usize = 0;
        let mut i: usize = 0;
        proof {
            assert(all.take(0).to_set().difference(ours) =~= Set::empty());
        }
        while i < self.items.len()
            invariant
                i <= self.items@.len(),
                all == self.items@,
                all.no_duplicates(),
                ours == known@.to_set(),
                r <= i,
                all.take(i as int).to_set().difference(ours).finite(),
                r == all.take(i as int).to_set().difference(ours).len(),
            decreases self.items@.len() - i,
        {
            let address = self.items[i];
            let is_known: bool = find(known, &address);
            proof {
                let before = all.take(i as int);
                let after = all.take(i + 1);
                assert(!before.contains(address));
                assert(ours.contains(address) == is_known);
                assert forall|a: TransparentAddress| #[trigger]
                    after.to_set().contains(a) <==> before.to_set().contains(a) || a == address by {
                    if before.contains(a) {
                        let j = choose|j: int| 0 <= j < before.len() && before[j] == a;
                        assert(after[j] == a);
                    }
                    assert(after[i as int] == address);
                    if after.contains(a) {
                        let j = choose|j: int| 0 <= j < after.len() && after[j] == a;
                        if j < i {
                            assert(before[j] == a);
                        }
                    }
                }
                assert(after.to_set().difference(ours) =~= if is_known {
                    before.to_set().difference(ours)
                } else {
                    before.to_set().difference(ours).insert(address)
                });
            }
            if !is_known {
                r = r + 1;
            }
            i = i + 1;
        }
        proof {
            assert(all.take(i as int) =~= all);
        }
        r
    }

    /// Whether the set has no address.
    pub fn is_empty(&self) -> (r: bool)
        ensures
            r == (self@ == Set::<TransparentAddress>::empty()),
    {
        proof {
            if self.items@.len() > 0 {
                assert(self@.contains(self.items@[0]));
            } else {
                assert(self@ =~= Set::<TransparentAddress>::empty());
            }
        }
        self.items.len() == 0
    }

    /// How many addresses the set has.
    pub fn len(&self) -> (r: usize)
        requires
            self.wf(),
        ensures
            r == self@.len(),
    {
        proof {
            self.items@.unique_seq_to_set();
        }
        self.items.len()
    }

    /// Whether the set has the address.
    pub fn contains(&self, address: &TransparentAddress) -> (r: bool)
        ensures
            r == self@.contains(*address),
    {
        find(&self.items, address)
    }

    /// Adds an address.
    pub fn insert(&mut self, address: TransparentAddress)
        requires
            old(self).wf(),
        ensures
            final(self).wf(),
            final(self)@ == old(self)@.insert(address),
    {
        let ghost before = self.items@;
        if !self.contains(&address) {
            self.items.push(address);
            proof {
                assert forall|a: TransparentAddress|
                    self.items@.contains(a) <==> before.contains(a) || a == address by {
                    if before.contains(a) {
                        assert(self.items@[before.index_of(a)] == a);
                    }
                    assert(self.items@[before.len() as int] == address);
                }
            }
        }
        proof {
            assert(self@ =~= before.to_set().insert(address));
        }
    }

    /// Adds the addresses of another set.
    pub fn insert_all(&mut self, other: &AddressSet)
        requires
            old(self).wf(),
        ensures
            final(self).wf(),
            final(self)@ == old(self)@.union(other@),
    {
        let ghost before = self@;
        let mut i: usize = 0;
        proof {
            assert(self@ =~= before.union(other.items@.take(0).to_set()));
        }
        while i < other.items.len()
            invariant
                i <= other.items@.len(),
                self.wf(),
                self@ == before.union(other.items@.take(i as int).to_set()),
            decreases other.items@.len() - i,
        {
            let ghost seen = other.items@.take(i as int);
            let ghost now = other.items@.take(i + 1);
            self.insert(other.items[i]);
            proof {
                assert(now =~= seen.push(other.items@[i as int]));
                assert forall|a: TransparentAddress|
                    #[trigger] now.to_set().contains(a) <==> seen.to_set().contains(a) || a
                        == other.items@[i as int] by {
                    if seen.contains(a) {
                        assert(now[seen.index_of(a)] == a);
                    }
                    assert(now[i as int] == other.items@[i as int]);
                }
                assert(self@ =~= before.union(now.to_set()));
            }
            i = i + 1;
        }
        proof {
            assert(other.items@.take(i as int) =~= other.items@);
        }
    }

    /// Adds the addresses of public keys.
    pub fn insert_keys(&mut self, keys: &Vec<PublicKey>)
        requires
            old(self).wf(),
        ensures
            final(self).wf(),
            final(self)@ == old(self)@.union(key_addresses(watchonly::key_views(keys@))),
    {
        let ghost all = watchonly::key_views(keys@);
        let ghost before = self@;
        let mut i: usize = 0;
        proof {
            assert(self@ =~= before.union(key_addresses(all.take(0))));
        }
        while i < keys.len()
            invariant
                i <= keys@.len(),
                all == watchonly::key_views(keys@),
                self.wf(),
                self@ == before.union(key_addresses(all.take(i as int))),
            decreases keys@.len() - i,
        {
            let address = from_pubkey(&keys[i]);
            proof {
                assert(all[i as int] == keys@[i as int]@);
                key_addresses_step(all, i as int, address);
            }
            self.insert(address);
            proof {
                assert(self@ =~= before.union(key_addresses(all.take(i + 1))));
            }
            i = i + 1;
        }
        proof {
            assert(all.take(i as int) =~= all);
        }
    }
}

/// A key has one address.
proof fn one_address(a: TransparentAddress, b: TransparentAddress, key: Seq<u8>)
    requires
        transparent::addresses_key(a, key),
        transparent::addresses_key(b, key),
    ensures
        a == b,
{
    assert(a->PublicKeyHash_0 =~= b->PublicKeyHash_0);
}

proof fn key_addresses_step(keys: Seq<Seq<u8>>, i: int, address: TransparentAddress)
    requires
        0 <= i < keys.len(),
        transparent::addresses_key(address, keys[i]),
    ensures
        key_addresses(keys.take(i + 1)) == key_addresses(keys.take(i)).insert(address),
{
    let before = keys.take(i);
    let after = keys.take(i + 1);
    assert forall|a: TransparentAddress|
        key_addresses(after).contains(a) <==> #[trigger] key_addresses(before).insert(
            address,
        ).contains(a) by {
        if key_addresses(after).contains(a) {
            let j = choose|j: int|
                0 <= j < after.len() && #[trigger] transparent::addresses_key(a, after[j]);
            if j == i {
                one_address(a, address, keys[i]);
            } else {
                assert(transparent::addresses_key(a, before[j]));
            }
        }
        if key_addresses(before).contains(a) {
            let j = choose|j: int|
                0 <= j < before.len() && #[trigger] transparent::addresses_key(a, before[j]);
            assert(transparent::addresses_key(a, after[j]));
        }
        assert(transparent::addresses_key(address, after[i]));
    }
    assert(key_addresses(after) =~= key_addresses(before).insert(address));
}

/// The addresses of the given marks.
pub open spec fn marked(marks: Seq<(TransparentAddress, u32)>) -> Seq<TransparentAddress> {
    marks.map_values(|mark: (TransparentAddress, u32)| mark.0)
}

/// Whether `marks` are those of the addresses that are both to be exposed and known: one mark for
/// each of them, all of the given height.
pub open spec fn are_marks(
    marks: Seq<(TransparentAddress, u32)>,
    to_expose: Set<TransparentAddress>,
    known: Set<TransparentAddress>,
    height: u32,
) -> bool {
    &&& marked(marks).no_duplicates()
    &&& marked(marks).to_set() == to_expose.intersect(known)
    &&& forall|i: int| 0 <= i < marks.len() ==> (#[trigger] marks[i]).1 == height
}

/// The marks of the addresses that are both to be exposed and known to the wallet.
pub fn exposure_marks(
    to_expose: &AddressSet,
    known: &Vec<TransparentAddress>,
    height: u32,
) -> (r: Vec<(TransparentAddress, u32)>)
    requires
        to_expose.wf(),
    ensures
        are_marks(r@, to_expose@, known@.to_set(), height),
{
    let ghost all = to_expose.items@;
    let mut r: Vec<(TransparentAddress, u32)> = Vec::new();
    let mut i: usize = 0;
    while i < to_expose.items.len()
        invariant
            i <= to_expose.items@.len(),
            all == to_expose.items@,
            all.no_duplicates(),
            marked(r@).no_duplicates(),
            forall|a: TransparentAddress|
                #[trigger] marked(r@).contains(a) <==> all.take(i as int).contains(a)
                    && known@.contains(a),
            forall|j: int| 0 <= j < r@.len() ==> (#[trigger] r@[j]).1 == height,
        decreases to_expose.items@.len() - i,
    {
        let address = to_expose.items[i];
        let ghost before = marked(r@);
        let ghost seen = all.take(i as int);
        let ghost now = all.take(i + 1);
        proof {
            assert forall|a: TransparentAddress|
                #[trigger] now.contains(a) <==> seen.contains(a) || a == address by {
                if seen.contains(a) {
                    assert(now[seen.index_of(a)] == a);
                }
                if now.contains(a) {
                    let j = now.index_of(a);
                    if j < i {
                        assert(seen[j] == a);
                    }
                }
                assert(now[i as int] == address);
            }
            assert(!seen.contains(address)) by {
                if seen.contains(address) {
                    assert(all[seen.index_of(address)] == all[i as int]);
                }
            }
        }
        if find(known, &address) {
            r.push((address, height));
            proof {
                assert(marked(r@) =~= before.push(address));
                assert(!before.contains(address));
                assert forall|a: TransparentAddress|
                    #[trigger] before.push(address).contains(a) <==> before.contains(a) || a
                        == address by {
                    if before.contains(a) {
                        assert(before.push(address)[before.index_of(a)] == a);
                    }
                    assert(before.push(address)[before.len() as int] == address);
                }
            }
        }
        i = i + 1;
    }
    proof {
        assert(all.take(i as int) =~= all);
        assert forall|a: TransparentAddress|
            marked(r@).to_set().contains(a) <==> #[trigger] to_expose@.intersect(
                known@.to_set(),
            ).contains(a) by {
            assert(marked(r@).to_set().contains(a) <==> marked(r@).contains(a));
        }
        assert(marked(r@).to_set() =~= to_expose@.intersect(known@.to_set()));
    }
    r
}

/// There are no more marks than addresses to expose.
pub proof fn marks_are_among_exposed(
    marks: Seq<(TransparentAddress, u32)>,
    to_expose: Seq<TransparentAddress>,
    known: Set<TransparentAddress>,
    height: u32,
)
    requires
        to_expose.no_duplicates(),
        are_marks(marks, to_expose.to_set(), known, height),
    ensures
        marks.len() <= to_expose.len(),
{
    marked(marks).unique_seq_to_set();
    to_expose.unique_seq_to_set();
    vstd::set_lib::lemma_len_intersect(to_expose.to_set(), known);
}

} // verus!
