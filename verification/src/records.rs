//! The `wallet.dat` records that could not be interpreted, and which of them carry spend authority.

use crate::text;
use crate::text::{same_text, text_order, TextOrder};
use vstd::prelude::*;

verus! {

/// What a record of the given name holds, for the record types that carry spend authority.
pub open spec fn spend_authority_label(keyname: Seq<char>) -> Option<Seq<char>> {
    if keyname == "ckey"@ {
        Some("encrypted transparent spending keys (ckey)"@)
    } else if keyname == "csapzkey"@ {
        Some("encrypted Sapling spending keys (csapzkey)"@)
    } else if keyname == "czkey"@ {
        Some("encrypted Sprout spending keys (czkey)"@)
    } else if keyname == "chdseed"@ {
        Some("encrypted legacy HD seed (chdseed)"@)
    } else if keyname == "cmnemonicphrase"@ {
        Some("encrypted mnemonic phrase (cmnemonicphrase)"@)
    } else if keyname == "mkey"@ {
        Some("wallet master encryption key (mkey)"@)
    } else {
        None
    }
}

/// Maps the name of a record that was not interpreted to a human description when records of that
/// name carry spend authority, and so stand for funds that could be lost.
pub fn dropped_spend_authority_label(keyname: &str) -> (r: Option<&'static str>)
    ensures
        spend_authority_label(keyname@) == (match r {
            Some(label) => Some(label@),
            None => None,
        }),
{
    if same_text(keyname, "ckey") {
        Some("encrypted transparent spending keys (ckey)")
    } else if same_text(keyname, "csapzkey") {
        Some("encrypted Sapling spending keys (csapzkey)")
    } else if same_text(keyname, "czkey") {
        Some("encrypted Sprout spending keys (czkey)")
    } else if same_text(keyname, "chdseed") {
        Some("encrypted legacy HD seed (chdseed)")
    } else if same_text(keyname, "cmnemonicphrase") {
        Some("encrypted mnemonic phrase (cmnemonicphrase)")
    } else if same_text(keyname, "mkey") {
        Some("wallet master encryption key (mkey)")
    } else {
        None
    }
}

/// How many records there are of each name, in the order of the names.
#[derive(Debug)]
pub struct RecordTally {
    pub entries: Vec<(String, usize)>,
}

impl View for RecordTally {
    type V = Seq<(Seq<char>, usize)>;

    open spec fn view(&self) -> Seq<(Seq<char>, usize)> {
        self.entries@.map_values(|entry: (String, usize)| (entry.0@, entry.1))
    }
}

/// The names in ascending order, so that none occurs twice.
pub open spec fn ascending(entries: Seq<(Seq<char>, usize)>) -> bool {
    forall|i: int, j: int|
        0 <= i < j < entries.len() ==> text::text_before(
            #[trigger] entries[i].0,
            #[trigger] entries[j].0,
        )
}

/// Whether there is an entry for `keyname`.
pub open spec fn names(entries: Seq<(Seq<char>, usize)>, keyname: Seq<char>) -> bool {
    exists|i: int| 0 <= i < entries.len() && #[trigger] entries[i].0 == keyname
}

/// The entries as a map from name to count.
pub open spec fn as_map(entries: Seq<(Seq<char>, usize)>) -> Map<Seq<char>, usize> {
    Map::new(
        |keyname: Seq<char>| names(entries, keyname),
        |keyname: Seq<char>|
            entries[choose|i: int| 0 <= i < entries.len() && #[trigger] entries[i].0 == keyname].1,
    )
}

/// How many records the entries count in all.
pub open spec fn total(entries: Seq<(Seq<char>, usize)>) -> nat
    decreases entries.len(),
{
    if entries.len() == 0 {
        0
    } else {
        total(entries.drop_last()) + entries.last().1 as nat
    }
}

proof fn total_update(entries: Seq<(Seq<char>, usize)>, i: int, entry: (Seq<char>, usize))
    requires
        0 <= i < entries.len(),
    ensures
        total(entries.update(i, entry)) + entries[i].1 == total(entries) + entry.1,
    decreases entries.len(),
{
    let after = entries.update(i, entry);
    if i == entries.len() - 1 {
        assert(after.drop_last() =~= entries.drop_last());
    } else {
        assert(after.drop_last() =~= entries.drop_last().update(i, entry));
        total_update(entries.drop_last(), i, entry);
    }
}

proof fn total_insert(entries: Seq<(Seq<char>, usize)>, i: int, entry: (Seq<char>, usize))
    requires
        0 <= i <= entries.len(),
    ensures
        total(entries.insert(i, entry)) == total(entries) + entry.1,
    decreases entries.len(),
{
    let after = entries.insert(i, entry);
    if i == entries.len() {
        assert(after.drop_last() =~= entries);
    } else {
        assert(after.drop_last() =~= entries.drop_last().insert(i, entry));
        assert(after.last() == entries.last());
        total_insert(entries.drop_last(), i, entry);
    }
}

/// In ascending entries the map gives each name the count that stands beside it.
proof fn as_map_at(entries: Seq<(Seq<char>, usize)>, i: int)
    requires
        ascending(entries),
        0 <= i < entries.len(),
    ensures
        as_map(entries).contains_key(entries[i].0),
        as_map(entries)[entries[i].0] == entries[i].1,
{
    let k = choose|k: int| 0 <= k < entries.len() && #[trigger] entries[k].0 == entries[i].0;
    text::text_before_irreflexive(entries[i].0);
    assert(k == i);
}

/// Replacing a count replaces it in the map, and leaves the names ascending.
proof fn as_map_update(entries: Seq<(Seq<char>, usize)>, i: int, n: usize)
    requires
        ascending(entries),
        0 <= i < entries.len(),
    ensures
        ascending(entries.update(i, (entries[i].0, n))),
        as_map(entries.update(i, (entries[i].0, n))) == as_map(entries).insert(entries[i].0, n),
{
    let after = entries.update(i, (entries[i].0, n));
    assert(ascending(after));
    assert forall|k: Seq<char>|
        as_map(after).contains_key(k) <==> #[trigger] as_map(entries).insert(
            entries[i].0,
            n,
        ).contains_key(k) by {
        if names(after, k) {
            let j = choose|j: int| 0 <= j < after.len() && #[trigger] after[j].0 == k;
            assert(entries[j].0 == k);
        }
        if names(entries, k) {
            let j = choose|j: int| 0 <= j < entries.len() && #[trigger] entries[j].0 == k;
            assert(after[j].0 == k);
        }
        assert(after[i].0 == entries[i].0);
    }
    assert forall|k: Seq<char>| #[trigger] as_map(after).contains_key(k) implies as_map(after)[k]
        == as_map(entries).insert(entries[i].0, n)[k] by {
        let j = choose|j: int| 0 <= j < after.len() && #[trigger] after[j].0 == k;
        as_map_at(after, j);
        as_map_at(entries, j);
        if j != i {
            text::text_before_irreflexive(k);
        }
    }
    assert(as_map(after) =~= as_map(entries).insert(entries[i].0, n));
}

/// Inserting a new name where it belongs adds it to the map, and leaves the names ascending.
proof fn as_map_insert(entries: Seq<(Seq<char>, usize)>, i: int, keyname: Seq<char>, n: usize)
    requires
        ascending(entries),
        0 <= i <= entries.len(),
        forall|j: int| 0 <= j < i ==> text::text_before(#[trigger] entries[j].0, keyname),
        forall|j: int|
            i <= j < entries.len() ==> text::text_before(keyname, #[trigger] entries[j].0),
    ensures
        ascending(entries.insert(i, (keyname, n))),
        as_map(entries.insert(i, (keyname, n))) == as_map(entries).insert(keyname, n),
        !as_map(entries).contains_key(keyname),
{
    let after = entries.insert(i, (keyname, n));
    assert forall|a: int, b: int| 0 <= a < b < after.len() implies text::text_before(
        #[trigger] after[a].0,
        #[trigger] after[b].0,
    ) by {
        let x = if a < i { a } else { a - 1 };
        let y = if b < i { b } else { b - 1 };
        if a != i {
            assert(after[a] == entries[x]);
        }
        if b != i {
            assert(after[b] == entries[y]);
        }
    }
    assert(!names(entries, keyname)) by {
        text::text_before_irreflexive(keyname);
    }
    assert(after[i].0 == keyname);
    assert forall|k: Seq<char>|
        as_map(after).contains_key(k) <==> #[trigger] as_map(entries).insert(
            keyname,
            n,
        ).contains_key(k) by {
        if names(after, k) {
            let j = choose|j: int| 0 <= j < after.len() && #[trigger] after[j].0 == k;
            if j < i {
                assert(entries[j].0 == k);
            } else if j > i {
                assert(entries[j - 1].0 == k);
            }
        }
        if names(entries, k) {
            let j = choose|j: int| 0 <= j < entries.len() && #[trigger] entries[j].0 == k;
            if j < i {
                assert(after[j].0 == k);
            } else {
                assert(after[j + 1].0 == k);
            }
        }
    }
    assert forall|k: Seq<char>| #[trigger] as_map(after).contains_key(k) implies as_map(after)[k]
        == as_map(entries).insert(keyname, n)[k] by {
        let j = choose|j: int| 0 <= j < after.len() && #[trigger] after[j].0 == k;
        as_map_at(after, j);
        if j < i {
            assert(after[j] == entries[j]);
            as_map_at(entries, j);
        } else if j > i {
            assert(after[j] == entries[j - 1]);
            as_map_at(entries, j - 1);
        }
    }
    assert(as_map(after) =~= as_map(entries).insert(keyname, n));
}

impl RecordTally {
    /// The names are in ascending order, and none occurs twice.
    pub open spec fn wf(&self) -> bool {
        ascending(self@)
    }

    /// The counts by name.
    pub open spec fn counts(&self) -> Map<Seq<char>, usize> {
        as_map(self@)
    }

    /// A tally of no records.
    pub fn new() -> (r: RecordTally)
        ensures
            r.wf(),
            r@ == Seq::<(Seq<char>, usize)>::empty(),
            r.counts() == Map::<Seq<char>, usize>::empty(),
    {
        let r = RecordTally { entries: Vec::new() };
        proof {
            assert(r@ =~= Seq::<(Seq<char>, usize)>::empty());
            assert(r.counts() =~= Map::<Seq<char>, usize>::empty());
        }
        r
    }

    /// The index at which `keyname` stands or belongs, and whether it stands there.
    fn position(&self, keyname: &str) -> (r: (usize, bool))
        requires
            self.wf(),
        ensures
            r.0 <= self@.len(),
            r.1 ==> r.0 < self@.len() && self@[r.0 as int].0 == keyname@,
            !r.1 ==> forall|j: int|
                r.0 <= j < self@.len() ==> text::text_before(keyname@, #[trigger] self@[j].0),
            forall|j: int| 0 <= j < r.0 ==> text::text_before(#[trigger] self@[j].0, keyname@),
    {
        let mut i: usize = 0;
        while i < self.entries.len()
            invariant
                self.wf(),
                self@.len() == self.entries@.len(),
                i <= self@.len(),
                forall|j: int| 0 <= j < i ==> text::text_before(#[trigger] self@[j].0, keyname@),
            decreases self@.len() - i,
        {
            assert(self@[i as int].0 == self.entries@[i as int].0@);
            match text_order(self.entries[i].0.as_str(), keyname) {
                TextOrder::Before => {
                    i = i + 1;
                },
                TextOrder::Same => {
                    return (i, true);
                },
                TextOrder::After => {
                    proof {
                        assert forall|j: int| i <= j < self@.len() implies text::text_before(
                            keyname@,
                            #[trigger] self@[j].0,
                        ) by {
                            if j > i {
                                text::text_before_transitive(
                                    keyname@,
                                    self@[i as int].0,
                                    self@[j].0,
                                );
                            }
                        }
                    }
                    return (i, false);
                },
            }
        }
        (i, false)
    }

    /// Sets the count of `keyname`, and returns the count that it had.
    pub fn insert(&mut self, keyname: String, n: usize) -> (r: Option<usize>)
        requires
            old(self).wf(),
        ensures
            final(self).wf(),
            final(self).counts() == old(self).counts().insert(keyname@, n),
            total(final(self)@) + (match r {
                Some(previous) => previous as nat,
                None => 0,
            }) == total(old(self)@) + n,
            r == (if old(self).counts().contains_key(keyname@) {
                Some(old(self).counts()[keyname@])
            } else {
                None
            }),
    {
        let (i, found) = self.position(keyname.as_str());
        let ghost before = self@;
        let ghost name = keyname@;
        if found {
            let previous: usize = self.entries[i].1;
            proof {
                as_map_at(before, i as int);
                as_map_update(before, i as int, n);
                total_update(before, i as int, (name, n));
            }
            self.entries.set(i, (keyname, n));
            proof {
                assert(self@ =~= before.update(i as int, (name, n)));
            }
            Some(previous)
        } else {
            proof {
                as_map_insert(before, i as int, name, n);
                total_insert(before, i as int, (name, n));
            }
            self.entries.insert(i, (keyname, n));
            proof {
                assert(self@ =~= before.insert(i as int, (name, n)));
            }
            None
        }
    }

    /// The count of `keyname`, which is zero for a name that has no entry.
    pub fn get(&self, keyname: &str) -> (r: usize)
        requires
            self.wf(),
        ensures
            r == (if self.counts().contains_key(keyname@) {
                self.counts()[keyname@]
            } else {
                0
            }),
    {
        let (i, found) = self.position(keyname);
        if found {
            proof {
                as_map_at(self@, i as int);
            }
            self.entries[i].1
        } else {
            proof {
                as_map_insert(self@, i as int, keyname@, 0);
            }
            0
        }
    }
}

/// The tally has an entry for each name that occurs, with the number of its occurrences, and so
/// counts all of them.
pub open spec fn tallies(tally: RecordTally, keynames: Seq<Seq<char>>) -> bool {
    &&& total(tally@) == keynames.len()
    &&& forall|keyname: Seq<char>|
        #[trigger] tally.counts().contains_key(keyname) <==> keynames.contains(keyname)
    &&& forall|keyname: Seq<char>| #[trigger]
        tally.counts().contains_key(keyname) ==> tally.counts()[keyname]
            == keynames.to_multiset().count(keyname)
}

/// Counts the records of each name.
pub fn tally_records(keynames: &Vec<String>) -> (r: RecordTally)
    ensures
        r.wf(),
        tallies(r, text::texts(keynames@)),
{
    let mut tally: RecordTally = RecordTally::new();
    let ghost all = text::texts(keynames@);
    let mut i: usize = 0;
    while i < keynames.len()
        invariant
            i <= keynames@.len(),
            all == text::texts(keynames@),
            tally.wf(),
            total(tally@) == i,
            forall|keyname: Seq<char>|
                #[trigger] tally.counts().contains_key(keyname) <==> all.take(i as int).contains(
                    keyname,
                ),
            forall|keyname: Seq<char>| #[trigger]
                tally.counts().contains_key(keyname) ==> tally.counts()[keyname] == all.take(
                    i as int,
                ).to_multiset().count(keyname),
        decreases keynames@.len() - i,
    {
        let name: String = keynames[i].clone();
        let ghost seen = all.take(i as int);
        proof {
            broadcast use vstd::seq_lib::group_to_multiset_ensures;
            broadcast use vstd::multiset::group_multiset_axioms;

            assert(all.take(i + 1) =~= seen.push(name@));
            assert(seen.push(name@).to_multiset() =~= seen.to_multiset().insert(name@));
            assert(seen.to_multiset().len() == seen.len());
            assert(seen.to_multiset().count(name@) <= seen.to_multiset().len());
            assert(seen.contains(name@) <==> seen.to_multiset().count(name@) > 0);
            assert forall|keyname: Seq<char>| #[trigger]
                seen.push(name@).contains(keyname) <==> seen.contains(keyname) || keyname
                    == name@ by {
                if seen.contains(keyname) {
                    let j = seen.index_of(keyname);
                    assert(seen.push(name@)[j] == keyname);
                }
                assert(seen.push(name@)[seen.len() as int] == name@);
            }
        }
        let n: usize = tally.get(name.as_str());
        tally.insert(name, n + 1);
        i = i + 1;
    }
    proof {
        assert(all.take(i as int) =~= all);
    }
    tally
}

/// Whether records of the given name carry spend authority: they hold encrypted keys, an encrypted
/// seed, or the key that these are encrypted to.
pub open spec fn carries_spend_authority(keyname: Seq<char>) -> bool {
    ||| keyname == "ckey"@
    ||| keyname == "csapzkey"@
    ||| keyname == "czkey"@
    ||| keyname == "chdseed"@
    ||| keyname == "cmnemonicphrase"@
    ||| keyname == "mkey"@
}

/// The records that have a label are those that carry spend authority.
pub proof fn labels_are_by_name()
    ensures
        forall|keyname: Seq<char>| #[trigger]
            spend_authority_label(keyname) is Some <==> carries_spend_authority(keyname),
{
}

/// A record is labelled exactly if it carries spend authority, and its label names the record.
pub proof fn labels_are_of_spend_authority(keyname: &str, r: Option<&'static str>)
    requires
        call_ensures(dropped_spend_authority_label, (keyname,), r),
    ensures
        r is Some <==> carries_spend_authority(keyname@),
        r matches Some(label) ==> (seq!['('] + keyname@ + seq![')']).is_suffix_of(label@),
        keyname@ == "ckey"@ ==> r.unwrap()@ == "encrypted transparent spending keys (ckey)"@,
        keyname@ == "csapzkey"@ ==> r.unwrap()@ == "encrypted Sapling spending keys (csapzkey)"@,
        keyname@ == "czkey"@ ==> r.unwrap()@ == "encrypted Sprout spending keys (czkey)"@,
        keyname@ == "chdseed"@ ==> r.unwrap()@ == "encrypted legacy HD seed (chdseed)"@,
        keyname@ == "cmnemonicphrase"@ ==> r.unwrap()@ == "encrypted mnemonic phrase (cmnemonicphrase)"@,
        keyname@ == "mkey"@ ==> r.unwrap()@ == "wallet master encryption key (mkey)"@,
{
    let tail = seq!['('] + keyname@ + seq![')'];
    reveal_strlit("ckey");
    reveal_strlit("encrypted transparent spending keys (ckey)");
    reveal_strlit("csapzkey");
    reveal_strlit("encrypted Sapling spending keys (csapzkey)");
    reveal_strlit("czkey");
    reveal_strlit("encrypted Sprout spending keys (czkey)");
    reveal_strlit("chdseed");
    reveal_strlit("encrypted legacy HD seed (chdseed)");
    reveal_strlit("cmnemonicphrase");
    reveal_strlit("encrypted mnemonic phrase (cmnemonicphrase)");
    reveal_strlit("mkey");
    reveal_strlit("wallet master encryption key (mkey)");
    assert("ckey"@[0] == 'c' && "mkey"@[0] == 'm');
    if r is Some {
        let label = r.unwrap()@;
        assert(label.subrange(label.len() - tail.len(), label.len() as int) =~= tail);
    }
}

/// A tally has one entry for each name, in the order of the names, with the number of records of
/// that name.
pub proof fn tallies_count_each_name(keynames: Vec<String>, r: RecordTally)
    requires
        call_ensures(tally_records, (&keynames,), r),
    ensures
        forall|i: int|
            0 <= i < r@.len() ==> (#[trigger] r@[i]).1 == text::texts(
                keynames@,
            ).to_multiset().count(r@[i].0) && text::texts(keynames@).contains(r@[i].0),
        forall|i: int, j: int|
            0 <= i < j < r@.len() ==> text::text_before(
                (#[trigger] r@[i]).0,
                (#[trigger] r@[j]).0,
            ),
        forall|k: int|
            0 <= k < keynames@.len() ==> exists|i: int|
                0 <= i < r@.len() && (#[trigger] r@[i]).0 == (#[trigger] keynames@[k])@,
{
    assert forall|i: int| 0 <= i < r@.len() implies (#[trigger] r@[i]).1 == text::texts(
        keynames@,
    ).to_multiset().count(r@[i].0) && text::texts(keynames@).contains(r@[i].0) by {
        as_map_at(r@, i);
        assert(r.counts().contains_key(r@[i].0));
    }
    assert forall|k: int| 0 <= k < keynames@.len() implies exists|i: int|
        0 <= i < r@.len() && (#[trigger] r@[i]).0 == (#[trigger] keynames@[k])@ by {
        let name = keynames@[k]@;
        assert(text::texts(keynames@)[k] == name);
        assert(r.counts().contains_key(name));
        assert(names(r@, name));
    }
}

} // verus!
