//! Reading a `wallet.dat` file: where it is, which tool dumps it, and how strictly it is read.

use crate::error;
use crate::error::{CommandError, Message, MigrateError, ZewifError};
use vstd::prelude::*;

verus! {

/// What the path of the wallet is relative to.
#[derive(Clone, Copy, Debug, PartialEq, Eq, Structural)]
pub enum PathBase {
    /// The path is absolute, and taken as it was given.
    AsGiven,
    /// The data directory of zcashd that was given.
    Datadir,
    /// The default data directory of zcashd.
    DefaultDatadir,
}

/// What the path of the wallet is relative to. There may be no default data directory, in which
/// case the failure has no words of its own.
pub fn wallet_path_base(is_relative: bool, has_datadir: bool, has_default_datadir: bool) -> (r:
    Result<PathBase, MigrateError>)
    ensures
        match r {
            Ok(base) => base == if !is_relative {
                PathBase::AsGiven
            } else if has_datadir {
                PathBase::Datadir
            } else {
                PathBase::DefaultDatadir
            },
            Err(e) => e == MigrateError::Wrapped(CommandError::Generic),
        },
        r is Err <==> is_relative && !has_datadir && !has_default_datadir,
{
    if !is_relative {
        Ok(PathBase::AsGiven)
    } else if has_datadir {
        Ok(PathBase::Datadir)
    } else if has_default_datadir {
        Ok(PathBase::DefaultDatadir)
    } else {
        Err(MigrateError::Wrapped(CommandError::Generic))
    }
}

/// The directories below an installation of zcashd in which its `db_dump` lies, and its name.
pub open spec fn db_dump_steps() -> Seq<Seq<char>> {
    seq!["zcutil"@, "bin"@, "db_dump"@]
}

/// The directories below an installation of zcashd in which its `db_dump` lies, and its name.
pub fn db_dump_location() -> (r: [&'static str; 3])
    ensures
        r@.map_values(|step: &'static str| step@) == db_dump_steps(),
{
    let r: [&'static str; 3] = ["zcutil", "bin", "db_dump"];
    proof {
        assert(r@.map_values(|step: &'static str| step@) =~= db_dump_steps());
    }
    r
}

/// The failure to find a `db_dump`.
pub open spec fn no_db_dump() -> error::MessageModel {
    error::plain("err-migrate-wallet-db-dump-not-found"@)
}

fn db_dump_unavailable() -> (r: MigrateError)
    ensures
        error::raises(r, no_db_dump()),
{
    MigrateError::raise(Message::plain("err-migrate-wallet-db-dump-not-found"))
}

/// Which `db_dump` is used.
#[derive(Clone, Copy, Debug, PartialEq, Eq, Structural)]
pub enum DumpTool {
    /// That of the installation of zcashd that was given.
    Installed,
    /// The one that is at hand: vendored, or else on the search path.
    AtHand,
}

/// Which `db_dump` is used. Where an installation of zcashd was given, it has to have one.
pub fn choose_db_dump(installation_given: bool, is_installed: bool) -> (r: Result<
    DumpTool,
    MigrateError,
>)
    ensures
        match r {
            Ok(tool) => tool == if installation_given {
                DumpTool::Installed
            } else {
                DumpTool::AtHand
            },
            Err(e) => error::raises(e, no_db_dump()),
        },
        r is Err <==> installation_given && !is_installed,
{
    if installation_given {
        if is_installed {
            Ok(DumpTool::Installed)
        } else {
            Err(db_dump_unavailable())
        }
    } else {
        Ok(DumpTool::AtHand)
    }
}

/// Why the wallet could not be dumped. Where no particular `db_dump` was to be used and there is
/// none on the search path either, that is the reason.
pub fn dump_failure(
    tool: DumpTool,
    on_search_path: bool,
    wallet_path: Option<String>,
    error: String,
) -> (r: MigrateError)
    ensures
        if tool is AtHand && !on_search_path {
            error::raises(r, no_db_dump())
        } else {
            r == (MigrateError::Zewif { error_type: ZewifError::BdbDump, wallet_path, error })
        },
{
    match tool {
        DumpTool::AtHand if !on_search_path => db_dump_unavailable(),
        _ => MigrateError::Zewif { error_type: ZewifError::BdbDump, wallet_path, error },
    }
}

/// The records of a wallet, as they come out of the database.
#[verifier::external_type_specification]
#[verifier::external_body]
pub struct ExBdbDump(zewif_zcashd::BDBDump);

/// The records of a wallet, by their names.
#[verifier::external_type_specification]
#[verifier::external_body]
pub struct ExZcashdDump(zewif_zcashd::ZcashdDump);

/// The keys of the records of a dump.
pub uninterp spec fn dump_keys(dump: zewif_zcashd::BDBDump) -> Set<Seq<u8>>;

/// The byte strings, each as a sequence.
pub open spec fn byte_strings(strings: Seq<Vec<u8>>) -> Seq<Seq<u8>> {
    strings.map_values(|string: Vec<u8>| string@)
}

/// Calls `keys` of the map `zewif_zcashd::BDBDump::data_records`, and copies them. Their order is
/// left open.
#[verifier::external_body]
fn record_keys(dump: &zewif_zcashd::BDBDump) -> (r: Vec<Vec<u8>>)
    ensures
        byte_strings(r@).to_set() == dump_keys(*dump),
{
    dump.data_records.keys().map(|key| key.to_vec()).collect()
}

/// The number that four bytes of a key hold, from the given place on, the least byte first.
pub open spec fn number32(key: Seq<u8>, i: int) -> int {
    key[i] + 0x100 * key[i + 1] + 0x1_0000 * key[i + 2] + 0x100_0000 * key[i + 3]
}

/// The number that eight bytes of a key hold, from the given place on, the least byte first.
pub open spec fn number64(key: Seq<u8>, i: int) -> int {
    number32(key, i) + 0x1_0000_0000 * number32(key, i + 4)
}

/// Whether the place at which the name in a key would end is beyond what the machine can count to.
/// A name comes after its length, which is written in the five bytes that start with 0xfe or in the
/// nine that start with 0xff if it is large. The reader has no answer for such a key.
pub open spec fn name_overflows(key: Seq<u8>) -> bool {
    ||| {
        &&& key.len() >= 5
        &&& key[0] == 0xfe
        &&& 5 + number32(key, 1) > usize::MAX
    }
    ||| {
        &&& key.len() >= 9
        &&& key[0] == 0xff
        &&& number64(key, 1) >= 0x1_0000_0000
        &&& 9 + number64(key, 1) % (usize::MAX + 1) > usize::MAX
    }
}

fn read32(key: &[u8], i: usize) -> (r: u64)
    requires
        i + 4 <= key@.len(),
    ensures
        r == number32(key@, i as int),
        r < 0x1_0000_0000,
{
    key[i] as u64 + 0x100 * key[i + 1] as u64 + 0x1_0000 * key[i + 2] as u64 + 0x100_0000 * key[i
        + 3] as u64
}

/// Whether the place at which the name in a key would end is beyond what the machine can count to.
pub fn overflowing_name(key: &[u8]) -> (r: bool)
    ensures
        r == name_overflows(key@),
{
    let largest: u128 = usize::MAX as u128;
    if key.len() >= 5 && key[0] == 0xfe {
        return 5 + read32(key, 1) as u128 > largest;
    }
    if key.len() >= 9 && key[0] == 0xff {
        let n: u128 = read32(key, 1) as u128 + 0x1_0000_0000 * read32(key, 5) as u128;
        return n >= 0x1_0000_0000 && 9 + n % (largest + 1) > largest;
    }
    false
}

/// Whether a dump has a record whose name would end beyond what the machine can count to.
pub open spec fn has_overflow(dump: zewif_zcashd::BDBDump) -> bool {
    exists|key: Seq<u8>| #[trigger] dump_keys(dump).contains(key) && name_overflows(key)
}

/// Whether a dump has a record whose name would end beyond what the machine can count to.
fn overflowing_dump(dump: &zewif_zcashd::BDBDump) -> (r: bool)
    ensures
        r == has_overflow(*dump),
{
    let keys: Vec<Vec<u8>> = record_keys(dump);
    let mut i: usize = 0;
    while i < keys.len()
        invariant
            i <= keys@.len(),
            byte_strings(keys@).to_set() == dump_keys(*dump),
            forall|j: int| 0 <= j < i ==> !name_overflows(#[trigger] byte_strings(keys@)[j]),
        decreases keys@.len() - i,
    {
        let found: bool = overflowing_name(keys[i].as_slice());
        proof {
            assert(byte_strings(keys@)[i as int] == keys@[i as int]@);
            assert(byte_strings(keys@).to_set().contains(keys@[i as int]@));
        }
        if found {
            return true;
        }
        i = i + 1;
    }
    proof {
        assert forall|key: Seq<u8>| #[trigger] dump_keys(*dump).contains(key) implies
            !name_overflows(key) by {
            let j = choose|j: int| 0 <= j < keys@.len() && byte_strings(keys@)[j] == key;
            assert(!name_overflows(byte_strings(keys@)[j]));
        }
    }
    false
}

/// Why a key does not hold a name, if it does not, where `largest` is what the machine can count
/// to.
pub uninterp spec fn nameless(key: Seq<u8>, largest: usize) -> Option<Seq<char>>;

/// The records of a dump by their names, where `largest` is what the machine can count to.
/// Strictly, every record has to have a name.
pub uninterp spec fn records_of(
    dump: zewif_zcashd::BDBDump,
    strict: bool,
    largest: usize,
) -> Option<zewif_zcashd::ZcashdDump>;

/// Whether a dump has a record without a name.
pub open spec fn has_nameless(dump: zewif_zcashd::BDBDump) -> bool {
    exists|key: Seq<u8>| #[trigger] dump_keys(dump).contains(key) && nameless(key, usize::MAX) is Some
}

/// Whether `text` says why some record of the dump has no name.
pub open spec fn blames_a_record(dump: zewif_zcashd::BDBDump, text: Seq<char>) -> bool {
    exists|key: Seq<u8>| #[trigger]
        dump_keys(dump).contains(key) && nameless(key, usize::MAX) == Some(text)
}

/// Calls `zewif_zcashd::ZcashdDump::from_bdb_dump`, and gives the text of its failure. With which
/// records it succeeds is determined by the dump, the flag and the width of machine words. It fails
/// exactly if it has to be strict and some record has no name, and then says why, as
/// `zewif_zcashd::DBKey::parse_data` does of the key of the record; which of several such records
/// it speaks of is left open. It panics or not, depending on how it is built, where a name would
/// end beyond what the machine can count to.
#[verifier::external_body]
fn named_records(dump: &zewif_zcashd::BDBDump, strict: bool) -> (r: Result<
    zewif_zcashd::ZcashdDump,
    String,
>)
    requires
        !has_overflow(*dump),
    ensures
        records_of(*dump, strict, usize::MAX) == (match r {
            Ok(records) => Some(records),
            Err(_) => None,
        }),
        (r is Err) == (strict && has_nameless(*dump)),
        r is Err ==> (exists|key: Seq<u8>| #[trigger]
            dump_keys(*dump).contains(key) && nameless(key, usize::MAX) == Some(r->Err_0@)),
{
    zewif_zcashd::ZcashdDump::from_bdb_dump(dump, strict).map_err(|e| e.to_string())
}

/// How strictly the names of the records are read, and how strictly the records themselves.
#[derive(Clone, Copy, Debug, PartialEq, Eq, Structural)]
pub struct Strictness {
    pub names: bool,
    pub records: bool,
}

/// How strictly a wallet is read: with warnings allowed the names strictly and the records not, and
/// otherwise the other way round.
pub fn strictness(allow_warnings: bool) -> (r: Strictness)
    ensures
        r.names == allow_warnings,
        r.records == !allow_warnings,
{
    Strictness { names: allow_warnings, records: !allow_warnings }
}

/// The failure to read the records of a wallet.
pub fn records_failure(wallet_path: Option<String>, error: String) -> (r: MigrateError)
    ensures
        r == (MigrateError::Zewif { error_type: ZewifError::ZcashdDump, wallet_path, error }),
{
    MigrateError::Zewif { error_type: ZewifError::ZcashdDump, wallet_path, error }
}

/// Names the records of a dump, as strictly as they have to be named.
pub fn name_records(
    dump: &zewif_zcashd::BDBDump,
    allow_warnings: bool,
    wallet_path: Option<String>,
) -> (r: Result<zewif_zcashd::ZcashdDump, MigrateError>)
    ensures
        r is Ok <==> !has_overflow(*dump) && !(allow_warnings && has_nameless(*dump)),
        match r {
            Ok(named) => records_of(*dump, allow_warnings, usize::MAX) == Some(named),
            Err(e) => {
                &&& e is Zewif
                &&& e->error_type is ZcashdDump
                &&& e->wallet_path == wallet_path
                &&& if has_overflow(*dump) {
                    e->Zewif_error@ == "the length of a record name is out of range"@
                } else {
                    blames_a_record(*dump, e->Zewif_error@)
                }
            },
        },
{
    if overflowing_dump(dump) {
        return Err(
            records_failure(wallet_path, "the length of a record name is out of range".to_owned()),
        );
    }
    match named_records(dump, strictness(allow_warnings).names) {
        Ok(records) => Ok(records),
        Err(error) => Err(records_failure(wallet_path, error)),
    }
}

} // verus!
