//! The watch-only entries of a zcashd wallet: which can be imported, and why the others cannot.

use crate::sequences;
use crate::transparent;
use crate::transparent::{redeem_address, PublicKey, RedeemScript, TransparentAddress};
use vstd::prelude::*;

verus! {

/// A script that a zcashd wallet watches. A `P2PK` script comes with the public key that it holds,
/// in the bytes in which it is written there, and a `P2SH` script with the hash of the script that
/// it pays to; from the others no more than their form is read.
#[derive(Debug)]
pub enum WatchScriptKind {
    P2PK(Vec<u8>),
    P2PKH,
    P2SH([u8; 20]),
    Other,
}

/// What becomes of a watched script.
#[derive(Clone, Copy, Debug, PartialEq, Eq, Structural)]
pub enum WatchOutcome {
    /// The public key is imported.
    Imported,
    /// The public key is not in compressed form. Only the address of the compressed form could be
    /// tracked, which is not the one that zcashd had on chain.
    Uncompressed,
    /// The public key cannot be read.
    Malformed,
    /// Only the hash of a public key is known.
    PublicKeyHashOnly,
    /// The script whose hash is written there is one of the redeem scripts of the wallet, and comes
    /// in as such.
    Redeemed,
    /// Only the hash of a script is known.
    ScriptHashOnly,
    /// The script is of no standard form.
    Nonstandard,
}

/// Whether one of the redeem scripts has the given hash.
pub open spec fn is_redeemed(hash: [u8; 20], scripts: Seq<Seq<u8>>) -> bool {
    exists|i: int|
        0 <= i < scripts.len() && #[trigger] transparent::addresses_redeem_script(
            TransparentAddress::ScriptHash(hash),
            scripts[i],
        )
}

/// What becomes of a watched script, where `reads` says whether its public key can be read, and
/// `redeemed` whether the script that it pays to is a redeem script of the wallet.
pub open spec fn outcome_given(
    kind: WatchScriptKind,
    reads: bool,
    redeemed: bool,
) -> WatchOutcome {
    match kind {
        WatchScriptKind::P2PK(key) => {
            if key@.len() != 33 {
                WatchOutcome::Uncompressed
            } else if reads {
                WatchOutcome::Imported
            } else {
                WatchOutcome::Malformed
            }
        },
        WatchScriptKind::P2PKH => WatchOutcome::PublicKeyHashOnly,
        WatchScriptKind::P2SH(_) => {
            if redeemed {
                WatchOutcome::Redeemed
            } else {
                WatchOutcome::ScriptHashOnly
            }
        },
        WatchScriptKind::Other => WatchOutcome::Nonstandard,
    }
}

/// The bytes of the public key of a watched script.
pub open spec fn key_bytes(kind: WatchScriptKind) -> Seq<u8> {
    match kind {
        WatchScriptKind::P2PK(key) => key@,
        _ => Seq::empty(),
    }
}

/// What becomes of a watched script of a wallet with the given redeem scripts.
pub open spec fn watch_outcome(kind: WatchScriptKind, scripts: Seq<Seq<u8>>) -> WatchOutcome {
    outcome_given(
        kind,
        transparent::public_key_of(key_bytes(kind)) is Ok,
        kind matches WatchScriptKind::P2SH(hash) && is_redeemed(hash, scripts),
    )
}

/// How many of the watched scripts come to the given end.
pub open spec fn count_outcome(
    kinds: Seq<WatchScriptKind>,
    scripts: Seq<Seq<u8>>,
    outcome: WatchOutcome,
) -> nat {
    kinds.filter(|kind: WatchScriptKind| watch_outcome(kind, scripts) == outcome).len()
}

/// The public keys that are imported from the watched scripts, in their order.
pub open spec fn imported_keys(
    kinds: Seq<WatchScriptKind>,
    scripts: Seq<Seq<u8>>,
) -> Seq<Seq<u8>> {
    kinds.filter(
        |kind: WatchScriptKind| watch_outcome(kind, scripts) is Imported,
    ).map_values(|kind: WatchScriptKind| key_bytes(kind))
}

/// The compressed forms of the given keys.
pub open spec fn key_views(keys: Seq<PublicKey>) -> Seq<Seq<u8>> {
    keys.map_values(|key: PublicKey| key@)
}

/// What becomes of a watched script, where `reads` says whether its public key can be read, and
/// `redeemed` whether the script that it pays to is a redeem script of the wallet.
pub fn classify(kind: &WatchScriptKind, reads: bool, redeemed: bool) -> (r: WatchOutcome)
    ensures
        r == outcome_given(*kind, reads, redeemed),
{
    match kind {
        WatchScriptKind::P2PK(key) => {
            if key.len() != 33 {
                WatchOutcome::Uncompressed
            } else if reads {
                WatchOutcome::Imported
            } else {
                WatchOutcome::Malformed
            }
        },
        WatchScriptKind::P2PKH => WatchOutcome::PublicKeyHashOnly,
        WatchScriptKind::P2SH(_) => {
            if redeemed {
                WatchOutcome::Redeemed
            } else {
                WatchOutcome::ScriptHashOnly
            }
        },
        WatchScriptKind::Other => WatchOutcome::Nonstandard,
    }
}

/// The public keys to import from the watched scripts, how many scripts come in as redeem scripts,
/// and how many were left out for which reason.
#[derive(Debug)]
pub struct WatchScripts {
    pub pubkeys: Vec<PublicKey>,
    pub uncompressed: usize,
    pub malformed: usize,
    pub public_key_hash_only: usize,
    pub redeemed: usize,
    pub script_hash_only: usize,
    pub nonstandard: usize,
}

impl WatchScripts {
    /// The keys and counts are those of the given watched scripts, in a wallet with the given
    /// redeem scripts.
    pub open spec fn of(&self, kinds: Seq<WatchScriptKind>, scripts: Seq<Seq<u8>>) -> bool {
        &&& key_views(self.pubkeys@) == imported_keys(kinds, scripts)
        &&& self.uncompressed == count_outcome(kinds, scripts, WatchOutcome::Uncompressed)
        &&& self.malformed == count_outcome(kinds, scripts, WatchOutcome::Malformed)
        &&& self.public_key_hash_only == count_outcome(kinds, scripts, WatchOutcome::PublicKeyHashOnly)
        &&& self.redeemed == count_outcome(kinds, scripts, WatchOutcome::Redeemed)
        &&& self.script_hash_only == count_outcome(kinds, scripts, WatchOutcome::ScriptHashOnly)
        &&& self.nonstandard == count_outcome(kinds, scripts, WatchOutcome::Nonstandard)
    }
}

proof fn count_step(
    kinds: Seq<WatchScriptKind>,
    scripts: Seq<Seq<u8>>,
    i: int,
    outcome: WatchOutcome,
)
    requires
        0 <= i < kinds.len(),
    ensures
        count_outcome(kinds.take(i + 1), scripts, outcome) == count_outcome(
            kinds.take(i),
            scripts,
            outcome,
        ) + (if watch_outcome(kinds[i], scripts) == outcome {
            1nat
        } else {
            0nat
        }),
        count_outcome(kinds.take(i), scripts, outcome) <= i,
{
    let pred = |kind: WatchScriptKind| watch_outcome(kind, scripts) == outcome;
    sequences::filter_step(kinds, i, pred);
    sequences::filter_len(kinds.take(i), pred);
}

proof fn imported_keys_step(kinds: Seq<WatchScriptKind>, scripts: Seq<Seq<u8>>, i: int)
    requires
        0 <= i < kinds.len(),
    ensures
        imported_keys(kinds.take(i + 1), scripts) == if watch_outcome(
            kinds[i],
            scripts,
        ) is Imported {
            imported_keys(kinds.take(i), scripts).push(key_bytes(kinds[i]))
        } else {
            imported_keys(kinds.take(i), scripts)
        },
{
    let pred = |kind: WatchScriptKind| watch_outcome(kind, scripts) is Imported;
    sequences::filter_step(kinds, i, pred);
    assert(imported_keys(kinds.take(i + 1), scripts) =~= if watch_outcome(
        kinds[i],
        scripts,
    ) is Imported {
        imported_keys(kinds.take(i), scripts).push(key_bytes(kinds[i]))
    } else {
        imported_keys(kinds.take(i), scripts)
    });
}

/// The address of each redeem script.
fn redeem_addresses(scripts: &Vec<RedeemScript>) -> (r: Vec<TransparentAddress>)
    ensures
        r@.len() == scripts@.len(),
        forall|i: int|
            0 <= i < r@.len() ==> transparent::addresses_redeem_script(
                #[trigger] r@[i],
                scripts@[i]@,
            ),
{
    let mut r: Vec<TransparentAddress> = Vec::new();
    let mut i: usize = 0;
    while i < scripts.len()
        invariant
            i <= scripts@.len(),
            r@.len() == i,
            forall|j: int|
                0 <= j < i ==> transparent::addresses_redeem_script(
                    #[trigger] r@[j],
                    scripts@[j]@,
                ),
        decreases scripts@.len() - i,
    {
        r.push(redeem_address(&scripts[i]).unwrap());
        i = i + 1;
    }
    r
}

/// Whether one of the redeem scripts, whose addresses are given too, has the given hash.
fn redeemed(
    hash: &[u8; 20],
    addresses: &Vec<TransparentAddress>,
    Ghost(scripts): Ghost<Seq<RedeemScript>>,
) -> (r: bool)
    requires
        addresses@.len() == scripts.len(),
        forall|i: int|
            0 <= i < addresses@.len() ==> transparent::addresses_redeem_script(
                #[trigger] addresses@[i],
                scripts[i]@,
            ),
    ensures
        r == is_redeemed(*hash, script_views(scripts)),
{
    let address = TransparentAddress::ScriptHash(*hash);
    let mut i: usize = 0;
    while i < addresses.len()
        invariant
            i <= addresses@.len(),
            address == TransparentAddress::ScriptHash(*hash),
            addresses@.len() == scripts.len(),
            forall|j: int|
                0 <= j < addresses@.len() ==> transparent::addresses_redeem_script(
                    #[trigger] addresses@[j],
                    scripts[j]@,
                ),
            forall|j: int|
                0 <= j < i ==> !transparent::addresses_redeem_script(
                    address,
                    #[trigger] script_views(scripts)[j],
                ),
        decreases addresses@.len() - i,
    {
        let found: bool = addresses[i].same(&address);
        proof {
            assert(script_views(scripts)[i as int] == scripts[i as int]@);
            assert(transparent::addresses_redeem_script(addresses@[i as int], scripts[i as int]@));
            if transparent::addresses_redeem_script(address, scripts[i as int]@) {
                assert(addresses@[i as int]->ScriptHash_0 =~= *hash);
            }
        }
        if found {
            return true;
        }
        i = i + 1;
    }
    false
}

/// Reads the public keys of the watched scripts of a wallet with the given redeem scripts.
pub fn collect_watch_scripts(kinds: &Vec<WatchScriptKind>, scripts: &Vec<RedeemScript>) -> (r:
    WatchScripts)
    ensures
        r.of(kinds@, script_views(scripts@)),
{
    let ghost views = script_views(scripts@);
    let addresses: Vec<TransparentAddress> = redeem_addresses(scripts);
    let mut r = WatchScripts {
        pubkeys: Vec::new(),
        uncompressed: 0,
        malformed: 0,
        public_key_hash_only: 0,
        redeemed: 0,
        script_hash_only: 0,
        nonstandard: 0,
    };
    let mut i: usize = 0;
    proof {
        assert(key_views(r.pubkeys@) =~= imported_keys(kinds@.take(0), views));
    }
    while i < kinds.len()
        invariant
            i <= kinds@.len(),
            views == script_views(scripts@),
            addresses@.len() == scripts@.len(),
            forall|j: int|
                0 <= j < addresses@.len() ==> transparent::addresses_redeem_script(
                    #[trigger] addresses@[j],
                    scripts@[j]@,
                ),
            r.of(kinds@.take(i as int), views),
        decreases kinds@.len() - i,
    {
        let ghost before = key_views(r.pubkeys@);
        proof {
            count_step(kinds@, views, i as int, WatchOutcome::Uncompressed);
            count_step(kinds@, views, i as int, WatchOutcome::Malformed);
            count_step(kinds@, views, i as int, WatchOutcome::PublicKeyHashOnly);
            count_step(kinds@, views, i as int, WatchOutcome::Redeemed);
            count_step(kinds@, views, i as int, WatchOutcome::ScriptHashOnly);
            count_step(kinds@, views, i as int, WatchOutcome::Nonstandard);
            imported_keys_step(kinds@, views, i as int);
        }
        let key = match &kinds[i] {
            WatchScriptKind::P2PK(bytes) => match PublicKey::from_slice(bytes.as_slice()) {
                Ok(key) => Some(key),
                Err(_) => None,
            },
            _ => None,
        };
        let is_redeemed: bool = match &kinds[i] {
            WatchScriptKind::P2SH(hash) => redeemed(hash, &addresses, Ghost(scripts@)),
            _ => false,
        };
        match classify(&kinds[i], key.is_some(), is_redeemed) {
            WatchOutcome::Imported => match key {
                Some(key) => {
                    r.pubkeys.push(key);
                    proof {
                        assert(key_views(r.pubkeys@) =~= before.push(key@));
                    }
                },
                None => {},
            },
            WatchOutcome::Uncompressed => {
                r.uncompressed = r.uncompressed + 1;
            },
            WatchOutcome::Malformed => {
                r.malformed = r.malformed + 1;
            },
            WatchOutcome::PublicKeyHashOnly => {
                r.public_key_hash_only = r.public_key_hash_only + 1;
            },
            WatchOutcome::Redeemed => {
                r.redeemed = r.redeemed + 1;
            },
            WatchOutcome::ScriptHashOnly => {
                r.script_hash_only = r.script_hash_only + 1;
            },
            WatchOutcome::Nonstandard => {
                r.nonstandard = r.nonstandard + 1;
            },
        }
        i = i + 1;
    }
    proof {
        assert(kinds@.take(i as int) =~= kinds@);
    }
    r
}

/// Every watched script comes to exactly one end, so the counts add up to the number of scripts.
pub proof fn watch_outcomes_add_up(kinds: Seq<WatchScriptKind>, scripts: Seq<Seq<u8>>)
    ensures
        imported_keys(kinds, scripts).len()
            + count_outcome(kinds, scripts, WatchOutcome::Uncompressed)
            + count_outcome(kinds, scripts, WatchOutcome::Malformed)
            + count_outcome(kinds, scripts, WatchOutcome::PublicKeyHashOnly)
            + count_outcome(kinds, scripts, WatchOutcome::Redeemed)
            + count_outcome(kinds, scripts, WatchOutcome::ScriptHashOnly)
            + count_outcome(kinds, scripts, WatchOutcome::Nonstandard)
            == kinds.len(),
    decreases kinds.len(),
{
    reveal_with_fuel(Seq::filter, 2);
    if kinds.len() > 0 {
        let n = kinds.len() - 1;
        watch_outcomes_add_up(kinds.take(n), scripts);
        count_step(kinds, scripts, n, WatchOutcome::Uncompressed);
        count_step(kinds, scripts, n, WatchOutcome::Malformed);
        count_step(kinds, scripts, n, WatchOutcome::PublicKeyHashOnly);
        count_step(kinds, scripts, n, WatchOutcome::Redeemed);
        count_step(kinds, scripts, n, WatchOutcome::ScriptHashOnly);
        count_step(kinds, scripts, n, WatchOutcome::Nonstandard);
        imported_keys_step(kinds, scripts, n);
        assert(kinds.take(n + 1) =~= kinds);
    }
}

/// The bytes of each redeem script.
pub open spec fn script_views(scripts: Seq<RedeemScript>) -> Seq<Seq<u8>> {
    scripts.map_values(|script: RedeemScript| script@)
}

/// The scripts that can be read as redeem scripts, in their order.
pub open spec fn readable_scripts(scripts: Seq<Seq<u8>>) -> Seq<Seq<u8>> {
    scripts.filter(|script: Seq<u8>| transparent::is_redeem_script(script))
}

/// The scripts that cannot be read as redeem scripts, in their order.
pub open spec fn unreadable_scripts(scripts: Seq<Seq<u8>>) -> Seq<Seq<u8>> {
    scripts.filter(|script: Seq<u8>| !transparent::is_redeem_script(script))
}

/// The redeem scripts of a wallet: those that can be read, and the bytes of those that cannot.
#[derive(Debug)]
pub struct RedeemScripts {
    pub parsed: Vec<RedeemScript>,
    pub unparseable: Vec<Vec<u8>>,
}

impl RedeemScripts {
    /// The two parts are those of the given scripts.
    pub open spec fn of(&self, scripts: Seq<Seq<u8>>) -> bool {
        &&& script_views(self.parsed@) == readable_scripts(scripts)
        &&& transparent::script_bytes(self.unparseable@) == unreadable_scripts(scripts)
    }
}

/// Reads redeem scripts.
pub fn collect_redeem_scripts(scripts: &Vec<Vec<u8>>) -> (r: RedeemScripts)
    ensures
        r.of(transparent::script_bytes(scripts@)),
{
    let ghost all = transparent::script_bytes(scripts@);
    let mut r = RedeemScripts { parsed: Vec::new(), unparseable: Vec::new() };
    let mut i: usize = 0;
    proof {
        assert(script_views(r.parsed@) =~= readable_scripts(all.take(0)));
        assert(transparent::script_bytes(r.unparseable@) =~= unreadable_scripts(all.take(0)));
    }
    while i < scripts.len()
        invariant
            i <= scripts@.len(),
            all == transparent::script_bytes(scripts@),
            r.of(all.take(i as int)),
        decreases scripts@.len() - i,
    {
        let ghost parsed = script_views(r.parsed@);
        let ghost unparseable = transparent::script_bytes(r.unparseable@);
        proof {
            sequences::filter_step(
                all,
                i as int,
                |script: Seq<u8>| transparent::is_redeem_script(script),
            );
            sequences::filter_step(
                all,
                i as int,
                |script: Seq<u8>| !transparent::is_redeem_script(script),
            );
            assert(all[i as int] == scripts@[i as int]@);
        }
        match RedeemScript::parse(scripts[i].as_slice()) {
            Some(script) => {
                r.parsed.push(script);
                proof {
                    assert(script_views(r.parsed@) =~= parsed.push(all[i as int]));
                }
            },
            None => {
                let bytes: Vec<u8> = vstd::slice::slice_to_vec(scripts[i].as_slice());
                r.unparseable.push(bytes);
                proof {
                    assert(transparent::script_bytes(r.unparseable@) =~= unparseable.push(all[i as int]));
                }
            },
        }
        i = i + 1;
    }
    proof {
        assert(all.take(i as int) =~= all);
    }
    r
}

/// Every redeem script either can be read or cannot.
pub proof fn redeem_scripts_add_up(scripts: Seq<Seq<u8>>)
    ensures
        readable_scripts(scripts).len() + unreadable_scripts(scripts).len() == scripts.len(),
    decreases scripts.len(),
{
    reveal_with_fuel(Seq::filter, 2);
    if scripts.len() > 0 {
        redeem_scripts_add_up(scripts.drop_last());
    }
}

/// The keys that are imported are those of the P2PK entries whose keys are compressed and readable,
/// in their order.
pub proof fn imported_keys_are_readable(kinds: Seq<WatchScriptKind>, scripts: Seq<Seq<u8>>)
    ensures
        imported_keys(kinds, scripts) == kinds.filter(
            |kind: WatchScriptKind|
                kind is P2PK && kind->P2PK_0@.len() == 33 && transparent::public_key_of(
                    kind->P2PK_0@,
                ) is Ok,
        ).map_values(|kind: WatchScriptKind| kind->P2PK_0@),
    decreases kinds.len(),
{
    let readable = |kind: WatchScriptKind|
        kind is P2PK && kind->P2PK_0@.len() == 33 && transparent::public_key_of(
            kind->P2PK_0@,
        ) is Ok;
    let keys = kinds.filter(readable).map_values(|kind: WatchScriptKind| kind->P2PK_0@);
    reveal_with_fuel(Seq::filter, 2);
    if kinds.len() > 0 {
        let n = kinds.len() - 1;
        imported_keys_are_readable(kinds.take(n), scripts);
        imported_keys_step(kinds, scripts, n);
        sequences::filter_step(kinds, n, readable);
        assert(kinds.take(n + 1) =~= kinds);
        let before = kinds.take(n).filter(readable).map_values(
            |kind: WatchScriptKind| kind->P2PK_0@,
        );
        if readable(kinds[n]) {
            assert(keys =~= before.push(kinds[n]->P2PK_0@));
        } else {
            assert(keys =~= before);
        }
    } else {
        assert(imported_keys(kinds, scripts) =~= keys);
    }
}

/// Which watched scripts are counted for which reason.
pub proof fn counts_are_by_kind(kinds: Seq<WatchScriptKind>, scripts: Seq<Seq<u8>>)
    ensures
        count_outcome(kinds, scripts, WatchOutcome::Uncompressed) == kinds.filter(
            |kind: WatchScriptKind|
                kind is P2PK && kind->P2PK_0@.len() != 33,
        ).len(),
        count_outcome(kinds, scripts, WatchOutcome::Malformed) == kinds.filter(
            |kind: WatchScriptKind|
                kind is P2PK && kind->P2PK_0@.len() == 33 && transparent::public_key_of(
                    kind->P2PK_0@,
                ) is Err,
        ).len(),
        count_outcome(kinds, scripts, WatchOutcome::PublicKeyHashOnly) == kinds.filter(
            |kind: WatchScriptKind|
                kind is P2PKH,
        ).len(),
        count_outcome(kinds, scripts, WatchOutcome::Redeemed) == kinds.filter(
            |kind: WatchScriptKind|
                kind is P2SH && exists|i: int|
                    0 <= i < scripts.len() && #[trigger] transparent::addresses_redeem_script(
                        TransparentAddress::ScriptHash(kind->P2SH_0),
                        scripts[i],
                    ),
        ).len(),
        count_outcome(kinds, scripts, WatchOutcome::ScriptHashOnly) == kinds.filter(
            |kind: WatchScriptKind|
                kind is P2SH && forall|i: int|
                    0 <= i < scripts.len() ==> !#[trigger] transparent::addresses_redeem_script(
                        TransparentAddress::ScriptHash(kind->P2SH_0),
                        scripts[i],
                    ),
        ).len(),
        count_outcome(kinds, scripts, WatchOutcome::Nonstandard) == kinds.filter(
            |kind: WatchScriptKind|
                kind is Other,
        ).len(),
{
    assert((|kind: WatchScriptKind| watch_outcome(kind, scripts) == WatchOutcome::Uncompressed) =~= (
    |kind: WatchScriptKind|
                kind is P2PK && kind->P2PK_0@.len() != 33));
    assert((|kind: WatchScriptKind| watch_outcome(kind, scripts) == WatchOutcome::Malformed) =~= (
    |kind: WatchScriptKind|
                kind is P2PK && kind->P2PK_0@.len() == 33 && transparent::public_key_of(
                    kind->P2PK_0@,
                ) is Err));
    assert((|kind: WatchScriptKind| watch_outcome(kind, scripts) == WatchOutcome::PublicKeyHashOnly) =~= (
    |kind: WatchScriptKind|
                kind is P2PKH));
    assert((|kind: WatchScriptKind| watch_outcome(kind, scripts) == WatchOutcome::Redeemed) =~= (
    |kind: WatchScriptKind|
                kind is P2SH && exists|i: int|
                    0 <= i < scripts.len() && #[trigger] transparent::addresses_redeem_script(
                        TransparentAddress::ScriptHash(kind->P2SH_0),
                        scripts[i],
                    )));
    assert((|kind: WatchScriptKind| watch_outcome(kind, scripts) == WatchOutcome::ScriptHashOnly) =~= (
    |kind: WatchScriptKind|
                kind is P2SH && forall|i: int|
                    0 <= i < scripts.len() ==> !#[trigger] transparent::addresses_redeem_script(
                        TransparentAddress::ScriptHash(kind->P2SH_0),
                        scripts[i],
                    )));
    assert((|kind: WatchScriptKind| watch_outcome(kind, scripts) == WatchOutcome::Nonstandard) =~= (
    |kind: WatchScriptKind|
                kind is Other));
}

/// The redeem scripts that are kept are those that can be read, and the others are set aside.
pub proof fn redeem_scripts_are_kept_if_readable(scripts: Seq<Seq<u8>>, r: RedeemScripts, i: int)
    requires
        r.of(scripts),
        0 <= i < scripts.len(),
    ensures
        transparent::is_redeem_script(scripts[i]) <==> script_views(r.parsed@).contains(scripts[i]),
        !transparent::is_redeem_script(scripts[i]) <==> transparent::script_bytes(
            r.unparseable@,
        ).contains(scripts[i]),
        r.parsed@.len() + r.unparseable@.len() == scripts.len(),
{
    let readable = |script: Seq<u8>| transparent::is_redeem_script(script);
    let unreadable = |script: Seq<u8>| !transparent::is_redeem_script(script);
    redeem_scripts_add_up(scripts);
    assert(script_views(r.parsed@).len() == r.parsed@.len());
    assert(transparent::script_bytes(r.unparseable@).len() == r.unparseable@.len());
    if transparent::is_redeem_script(scripts[i]) {
        sequences::filter_keeps(scripts, readable, scripts[i]);
    } else {
        sequences::filter_keeps(scripts, unreadable, scripts[i]);
    }
    if readable_scripts(scripts).contains(scripts[i]) {
        sequences::filtered_passes(scripts, readable, scripts[i]);
    }
    if unreadable_scripts(scripts).contains(scripts[i]) {
        sequences::filtered_passes(scripts, unreadable, scripts[i]);
    }
}

/// Every watched script is of one kind.
pub proof fn kinds_add_up(kinds: Seq<WatchScriptKind>)
    ensures
        kinds.filter(
            |kind: WatchScriptKind|
                kind is P2PK && kind->P2PK_0@.len() == 33 && transparent::public_key_of(
                    kind->P2PK_0@,
                ) is Ok,
        ).len() + kinds.filter(
            |kind: WatchScriptKind| kind is P2PK && kind->P2PK_0@.len() != 33,
        ).len() + kinds.filter(
            |kind: WatchScriptKind|
                kind is P2PK && kind->P2PK_0@.len() == 33 && transparent::public_key_of(
                    kind->P2PK_0@,
                ) is Err,
        ).len() + kinds.filter(|kind: WatchScriptKind| kind is P2PKH).len() + kinds.filter(
            |kind: WatchScriptKind| kind is P2SH,
        ).len() + kinds.filter(|kind: WatchScriptKind| kind is Other).len() == kinds.len(),
    decreases kinds.len(),
{
    reveal_with_fuel(Seq::filter, 2);
    if kinds.len() > 0 {
        kinds_add_up(kinds.drop_last());
    }
}

} // verus!
