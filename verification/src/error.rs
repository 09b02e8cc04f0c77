//! The ways in which a migration fails, and the message that each of them is reported with.

use crate::fingerprint;
use crate::fingerprint::SeedFingerprint;
use crate::network::{Network, NetworkType};
use shardtree::error::ShardTreeError;
use vstd::prelude::*;
use zcash_client_sqlite::error::SqliteClientError;
use zcash_transparent::keys::TransparentKeyScope;

verus! {

/// A failure to read a mnemonic phrase.
#[verifier::external_type_specification]
#[verifier::external_body]
pub struct ExMnemonicError(bip0039::Error);

/// A failure to read a transparent key.
#[verifier::external_type_specification]
#[verifier::external_body]
pub struct ExKeyError(secp256k1::Error);

/// A failure to derive a key.
#[verifier::external_type_specification]
#[verifier::external_body]
pub struct ExDerivationError(zcash_keys::keys::DerivationError);

/// A failure to read a key path.
#[verifier::external_type_specification]
#[verifier::external_body]
pub struct ExPathParseError(zcash_keys::keys::zcashd::PathParseError);

/// A failure to read or write.
#[verifier::external_type_specification]
#[verifier::external_body]
pub struct ExIoError(std::io::Error);

/// A failure of the wallet database.
#[verifier::external_type_specification]
#[verifier::external_body]
pub struct ExDatabaseError(SqliteClientError);

/// A failure of the store that holds note commitment trees.
#[verifier::external_type_specification]
#[verifier::external_body]
pub struct ExTreeStoreError(zcash_client_sqlite::wallet::commitment_tree::Error);

/// A failure of a note commitment tree, or of its store.
#[verifier::external_type_specification]
#[verifier::external_body]
#[verifier::reject_recursive_types(S)]
pub struct ExTreeError<S>(ShardTreeError<S>);

/// The text of a failure to read a mnemonic phrase.
pub uninterp spec fn mnemonic_error_text(error: bip0039::Error) -> Seq<char>;

/// The text of a failure to read a transparent key.
pub uninterp spec fn key_error_text(error: secp256k1::Error) -> Seq<char>;

/// The text of a failure to derive a key.
pub uninterp spec fn derivation_error_text(error: zcash_keys::keys::DerivationError) -> Seq<char>;

/// The programmer-facing text of a failure to read a key path.
pub uninterp spec fn path_error_text(error: zcash_keys::keys::zcashd::PathParseError) -> Seq<char>;

/// Calls the `Display` implementation of `bip0039::Error`: its text is determined by the error.
#[verifier::external_body]
fn show_mnemonic_error(error: &bip0039::Error) -> (r: String)
    ensures
        r@ == mnemonic_error_text(*error),
{
    error.to_string()
}

/// Calls the `Display` implementation of `secp256k1::Error`: its text is determined by the error.
#[verifier::external_body]
fn show_key_error(error: &secp256k1::Error) -> (r: String)
    ensures
        r@ == key_error_text(*error),
{
    error.to_string()
}

/// Calls the `Display` implementation of `zcash_keys::keys::DerivationError`: its text is
/// determined by the error.
#[verifier::external_body]
fn show_derivation_error(error: &zcash_keys::keys::DerivationError) -> (r: String)
    ensures
        r@ == derivation_error_text(*error),
{
    error.to_string()
}

/// Calls the `Debug` implementation of `zcash_keys::keys::zcashd::PathParseError`: its text is
/// determined by the error.
#[verifier::external_body]
fn show_path_error(error: &zcash_keys::keys::zcashd::PathParseError) -> (r: String)
    ensures
        r@ == path_error_text(*error),
{
    format!("{:?}", error)
}

/// Whether `text` is how a failure to read or write is shown. An error of the operating system is
/// shown in the system's own words, so that the error alone does not settle the text.
pub uninterp spec fn io_error_words(error: std::io::Error, text: Seq<char>) -> bool;

/// Whether `text` is how a failure of the wallet database is shown. It can hold words of the
/// system, of the database engine and of an error beneath, so that the error alone does not settle
/// the text.
pub uninterp spec fn database_error_words(error: SqliteClientError, text: Seq<char>) -> bool;

/// Whether `text` is how a failure of a note commitment tree is shown. It can hold words of the
/// system and of the database engine, so that the error alone does not settle the text.
pub uninterp spec fn tree_error_words(
    error: ShardTreeError<zcash_client_sqlite::wallet::commitment_tree::Error>,
    text: Seq<char>,
) -> bool;

/// Calls the `Display` implementation of `std::io::Error`: its text is one that the error is shown
/// with.
#[verifier::external_body]
fn show_io_error(error: &std::io::Error) -> (r: String)
    ensures
        io_error_words(*error, r@),
{
    error.to_string()
}

/// The key scope whose gap limit was reached.
#[derive(Clone, Copy, Debug, PartialEq, Eq, Structural)]
pub enum GapScope {
    External,
    Internal,
    Ephemeral,
    /// A scope that has no name.
    Unnamed,
}

/// The key scope that a failure of the wallet database speaks of, where the gap limit was reached.
pub uninterp spec fn gap_scope(error: SqliteClientError) -> Option<GapScope>;

/// Reads the key scope in `zcash_client_sqlite::error::SqliteClientError::ReachedGapLimit`, which
/// is one of the constants of `zcash_transparent::keys::TransparentKeyScope` or has no name. The
/// other failures hold none.
#[verifier::external_body]
fn gap_limit_scope(error: &SqliteClientError) -> (r: Option<GapScope>)
    ensures
        r == gap_scope(*error),
{
    match error {
        SqliteClientError::ReachedGapLimit(TransparentKeyScope::EXTERNAL, _) => {
            Some(GapScope::External)
        },
        SqliteClientError::ReachedGapLimit(TransparentKeyScope::INTERNAL, _) => {
            Some(GapScope::Internal)
        },
        SqliteClientError::ReachedGapLimit(TransparentKeyScope::EPHEMERAL, _) => {
            Some(GapScope::Ephemeral)
        },
        SqliteClientError::ReachedGapLimit(_, _) => Some(GapScope::Unnamed),
        _ => None,
    }
}

/// Whether a failure of the wallet database can be put into words. It cannot where it speaks of a
/// key scope that has no name.
pub open spec fn has_words(error: SqliteClientError) -> bool {
    gap_scope(error) != Some(GapScope::Unnamed)
}

/// Whether a failure of the wallet database can be put into words.
fn database_error_has_words(error: &SqliteClientError) -> (r: bool)
    ensures
        r == has_words(*error),
{
    match gap_limit_scope(error) {
        Some(GapScope::Unnamed) => false,
        _ => true,
    }
}

/// Calls the `Display` implementation of `zcash_client_sqlite::error::SqliteClientError`, which
/// panics on a key scope that has no name. Its text is one that the error is shown with.
#[verifier::external_body]
fn show_database_error(error: &SqliteClientError) -> (r: String)
    requires
        has_words(*error),
    ensures
        database_error_words(*error, r@),
{
    error.to_string()
}

/// Calls the `Display` implementation of `shardtree::error::ShardTreeError` with failures of the
/// store of the wallet database. Its text is one that the error is shown with.
#[verifier::external_body]
fn show_tree_error(
    error: &ShardTreeError<zcash_client_sqlite::wallet::commitment_tree::Error>,
) -> (r: String)
    ensures
        tree_error_words(*error, r@),
{
    error.to_string()
}

/// A value that a message speaks of.
#[derive(Debug)]
pub enum ArgValue {
    Text(String),
    Number(u32),
    Absent,
}

/// The mathematical form of `ArgValue`.
pub enum ArgModel {
    Text(Seq<char>),
    Number(u32),
    Absent,
}

impl View for ArgValue {
    type V = ArgModel;

    open spec fn view(&self) -> ArgModel {
        match self {
            ArgValue::Text(text) => ArgModel::Text(text@),
            ArgValue::Number(n) => ArgModel::Number(*n),
            ArgValue::Absent => ArgModel::Absent,
        }
    }
}

/// A message to the operator: the identifier of the sentence in the message catalogue, and the
/// values that the sentence speaks of, by name.
#[derive(Debug)]
pub struct Message {
    pub id: &'static str,
    pub args: Vec<(&'static str, ArgValue)>,
}

/// The mathematical form of `Message`.
pub struct MessageModel {
    pub id: Seq<char>,
    pub args: Seq<(Seq<char>, ArgModel)>,
}

impl View for Message {
    type V = MessageModel;

    open spec fn view(&self) -> MessageModel {
        MessageModel {
            id: self.id@,
            args: self.args@.map_values(|arg: (&'static str, ArgValue)| (arg.0@, arg.1@)),
        }
    }
}

/// The message that only names its sentence.
pub open spec fn plain(id: Seq<char>) -> MessageModel {
    MessageModel { id, args: Seq::empty() }
}

/// The message whose sentence speaks of one text.
pub open spec fn with_text(id: Seq<char>, name: Seq<char>, text: Seq<char>) -> MessageModel {
    MessageModel { id, args: seq![(name, ArgModel::Text(text))] }
}

impl Message {
    /// The message that only names its sentence.
    pub fn plain(id: &'static str) -> (r: Message)
        ensures
            r@ == plain(id@),
    {
        let r = Message { id, args: Vec::new() };
        proof {
            assert(r@.args =~= plain(id@).args);
        }
        r
    }

    /// The message whose sentence speaks of one text.
    pub fn with_text(id: &'static str, name: &'static str, text: String) -> (r: Message)
        ensures
            r@ == with_text(id@, name@, text@),
    {
        Message::with_value(id, name, ArgValue::Text(text))
    }

    /// The message whose sentence speaks of one value.
    pub fn with_value(id: &'static str, name: &'static str, value: ArgValue) -> (r: Message)
        ensures
            r@ == (MessageModel { id: id@, args: seq![(name@, value@)] }),
    {
        let mut args: Vec<(&'static str, ArgValue)> = Vec::new();
        let ghost shown = value@;
        args.push((name, value));
        let r = Message { id, args };
        proof {
            assert(r@.args =~= seq![(name@, shown)]);
        }
        r
    }

    /// The message whose sentence speaks of two values.
    pub fn with_values(
        id: &'static str,
        name: &'static str,
        value: ArgValue,
        other_name: &'static str,
        other_value: ArgValue,
    ) -> (r: Message)
        ensures
            r@ == (MessageModel {
                id: id@,
                args: seq![(name@, value@), (other_name@, other_value@)],
            }),
    {
        let mut args: Vec<(&'static str, ArgValue)> = Vec::new();
        let ghost shown = value@;
        let ghost other_shown = other_value@;
        args.push((name, value));
        args.push((other_name, other_value));
        let r = Message { id, args };
        proof {
            assert(r@.args =~= seq![(name@, shown), (other_name@, other_shown)]);
        }
        r
    }
}

/// A failure as it is reported to the operator: without a word, or with a message.
#[derive(Debug)]
pub enum CommandError {
    Generic,
    Message(Message),
}

/// The mathematical form of `CommandError`.
pub enum CommandErrorModel {
    Generic,
    Message(MessageModel),
}

impl View for CommandError {
    type V = CommandErrorModel;

    open spec fn view(&self) -> CommandErrorModel {
        match self {
            CommandError::Generic => CommandErrorModel::Generic,
            CommandError::Message(message) => CommandErrorModel::Message(message@),
        }
    }
}

/// The step in reading a `wallet.dat` file that failed.
#[derive(Clone, Copy, Debug, PartialEq, Eq, Structural)]
pub enum ZewifError {
    BdbDump,
    ZcashdDump,
}

/// The ways in which a migration fails.
///
/// The path of the wallet is absent from `Zewif` where it is not valid Unicode.
#[derive(Debug)]
pub enum MigrateError {
    Wrapped(CommandError),
    Zewif { error_type: ZewifError, wallet_path: Option<String>, error: String },
    SeedNotAvailable,
    MnemonicInvalid(bip0039::Error),
    KeyError(secp256k1::Error),
    NetworkMismatch { wallet_network: Network, db_network: NetworkType },
    NetworkNotSupported(NetworkType),
    Database(SqliteClientError),
    Tree(ShardTreeError<zcash_client_sqlite::wallet::commitment_tree::Error>),
    Io(std::io::Error),
    KeyDerivation(zcash_keys::keys::DerivationError),
    HdPath(zcash_keys::keys::zcashd::PathParseError),
    AccountIdInvalid(u32),
    MultiImportDisabled,
    DuplicateImport(SeedFingerprint),
}

/// Whether `error` is the failure that is reported with `message`, raised by the migration itself.
pub open spec fn raises(error: MigrateError, message: MessageModel) -> bool {
    error matches MigrateError::Wrapped(wrapped) && wrapped@ == CommandErrorModel::Message(message)
}

/// The path of the wallet in a message.
pub open spec fn path_arg(wallet_path: Option<String>) -> ArgModel {
    match wallet_path {
        Some(path) => ArgModel::Text(path@),
        None => ArgModel::Absent,
    }
}

impl MigrateError {
    /// The text of the failure that lies beneath this one, where it has a text of its own. That of
    /// a failure to read or write is the system's, and that of a failure of the database can be.
    pub open spec fn has_cause_text(self, text: Seq<char>) -> bool {
        match self {
            MigrateError::Zewif { error, .. } => text == error@,
            MigrateError::MnemonicInvalid(error) => text == mnemonic_error_text(error),
            MigrateError::KeyError(error) => text == key_error_text(error),
            MigrateError::Database(error) => database_error_words(error, text),
            MigrateError::Tree(error) => tree_error_words(error, text),
            MigrateError::Io(error) => io_error_words(error, text),
            MigrateError::KeyDerivation(error) => text == derivation_error_text(error),
            MigrateError::HdPath(error) => text == path_error_text(error),
            _ => text == ""@,
        }
    }

    /// Whether the failure that lies beneath this one can be put into words.
    pub open spec fn is_reportable(self) -> bool {
        self matches MigrateError::Database(error) ==> has_words(error)
    }

    /// Whether the failure that lies beneath this one can be put into words.
    pub fn can_be_reported(&self) -> (r: bool)
        ensures
            r == self.is_reportable(),
    {
        match self {
            MigrateError::Database(error) => database_error_has_words(error),
            _ => true,
        }
    }

    /// How the failure is reported, where `cause` is the text of the failure beneath it.
    pub open spec fn reported(self, cause: Seq<char>) -> CommandErrorModel {
        match self {
            MigrateError::Wrapped(error) => error@,
            MigrateError::Zewif { error_type, wallet_path, .. } => CommandErrorModel::Message(
                MessageModel {
                    id: match error_type {
                        ZewifError::BdbDump => "err-migrate-wallet-bdb-parse"@,
                        ZewifError::ZcashdDump => "err-migrate-wallet-db-dump"@,
                    },
                    args: seq![
                        ("path"@, path_arg(wallet_path)),
                        ("err"@, ArgModel::Text(cause)),
                    ],
                },
            ),
            MigrateError::SeedNotAvailable => CommandErrorModel::Message(
                plain("err-migrate-wallet-seed-absent"@),
            ),
            MigrateError::MnemonicInvalid(_) => CommandErrorModel::Message(
                with_text("err-migrate-wallet-invalid-mnemonic"@, "err"@, cause),
            ),
            MigrateError::KeyError(_) => CommandErrorModel::Message(
                with_text("err-migrate-wallet-key-decoding"@, "err"@, cause),
            ),
            MigrateError::NetworkMismatch { wallet_network, db_network } => CommandErrorModel::Message(
                MessageModel {
                    id: "err-migrate-wallet-network-mismatch"@,
                    args: seq![
                        ("wallet_network"@, ArgModel::Text(wallet_network.name())),
                        ("zallet_network"@, ArgModel::Text(db_network.name())),
                    ],
                },
            ),
            MigrateError::NetworkNotSupported(_) => CommandErrorModel::Message(
                plain("err-migrate-wallet-regtest"@),
            ),
            MigrateError::Database(_) => CommandErrorModel::Message(
                with_text("err-migrate-wallet-storage"@, "err"@, cause),
            ),
            MigrateError::Tree(_) | MigrateError::Io(_) | MigrateError::HdPath(_) => {
                CommandErrorModel::Message(with_text("err-migrate-wallet-data-parse"@, "err"@, cause))
            },
            MigrateError::KeyDerivation(_) => CommandErrorModel::Message(
                with_text("err-migrate-wallet-key-data"@, "err"@, cause),
            ),
            MigrateError::AccountIdInvalid(id) => CommandErrorModel::Message(
                MessageModel {
                    id: "err-migrate-wallet-invalid-account-id"@,
                    args: seq![("account_id"@, ArgModel::Number(id))],
                },
            ),
            MigrateError::MultiImportDisabled => CommandErrorModel::Message(
                plain("err-migrate-wallet-multi-import-disabled"@),
            ),
            MigrateError::DuplicateImport(seed_fingerprint) => CommandErrorModel::Message(
                with_text(
                    "err-migrate-wallet-duplicate-import"@,
                    "seed_fp"@,
                    fingerprint::fingerprint_text(seed_fingerprint@),
                ),
            ),
        }
    }

    /// The failure that the migration itself raises, reported with the given message.
    pub fn raise(message: Message) -> (r: MigrateError)
        ensures
            raises(r, message@),
    {
        MigrateError::from(message)
    }

    /// The text of the failure that lies beneath this one; empty where there is none.
    pub fn cause_text(&self) -> (r: String)
        requires
            self.is_reportable(),
        ensures
            self.has_cause_text(r@),
    {
        match self {
            MigrateError::Zewif { error, .. } => error.clone(),
            MigrateError::MnemonicInvalid(error) => show_mnemonic_error(error),
            MigrateError::KeyError(error) => show_key_error(error),
            MigrateError::Database(error) => show_database_error(error),
            MigrateError::Tree(error) => show_tree_error(error),
            MigrateError::Io(error) => show_io_error(error),
            MigrateError::KeyDerivation(error) => show_derivation_error(error),
            MigrateError::HdPath(error) => show_path_error(error),
            _ => "".to_owned(),
        }
    }

    /// How the failure is reported, where `cause` is the text of the failure beneath it.
    pub fn report(self, cause: String) -> (r: CommandError)
        ensures
            r@ == self.reported(cause@),
    {
        match self {
            MigrateError::Wrapped(error) => error,
            MigrateError::Zewif { error_type, wallet_path, .. } => {
                let path = match wallet_path {
                    Some(path) => ArgValue::Text(path),
                    None => ArgValue::Absent,
                };
                let id: &'static str = match error_type {
                    ZewifError::BdbDump => "err-migrate-wallet-bdb-parse",
                    ZewifError::ZcashdDump => "err-migrate-wallet-db-dump",
                };
                CommandError::Message(Message::with_values(id, "path", path, "err", ArgValue::Text(cause)))
            },
            MigrateError::SeedNotAvailable => CommandError::Message(
                Message::plain("err-migrate-wallet-seed-absent"),
            ),
            MigrateError::MnemonicInvalid(_) => CommandError::Message(
                Message::with_text("err-migrate-wallet-invalid-mnemonic", "err", cause),
            ),
            MigrateError::KeyError(_) => CommandError::Message(
                Message::with_text("err-migrate-wallet-key-decoding", "err", cause),
            ),
            MigrateError::NetworkMismatch { wallet_network, db_network } => CommandError::Message(
                Message::with_values(
                    "err-migrate-wallet-network-mismatch",
                    "wallet_network",
                    ArgValue::Text(wallet_network.text().to_owned()),
                    "zallet_network",
                    ArgValue::Text(db_network.text().to_owned()),
                ),
            ),
            MigrateError::NetworkNotSupported(_) => CommandError::Message(
                Message::plain("err-migrate-wallet-regtest"),
            ),
            MigrateError::Database(_) => CommandError::Message(
                Message::with_text("err-migrate-wallet-storage", "err", cause),
            ),
            MigrateError::Tree(_) | MigrateError::Io(_) | MigrateError::HdPath(_) => CommandError::Message(
                Message::with_text("err-migrate-wallet-data-parse", "err", cause),
            ),
            MigrateError::KeyDerivation(_) => CommandError::Message(
                Message::with_text("err-migrate-wallet-key-data", "err", cause),
            ),
            MigrateError::AccountIdInvalid(id) => CommandError::Message(
                Message::with_value(
                    "err-migrate-wallet-invalid-account-id",
                    "account_id",
                    ArgValue::Number(id),
                ),
            ),
            MigrateError::MultiImportDisabled => CommandError::Message(
                Message::plain("err-migrate-wallet-multi-import-disabled"),
            ),
            MigrateError::DuplicateImport(seed_fingerprint) => CommandError::Message(
                Message::with_text(
                    "err-migrate-wallet-duplicate-import",
                    "seed_fp",
                    seed_fingerprint.to_text(),
                ),
            ),
        }
    }
}

impl From<bip0039::Error> for MigrateError {
    fn from(value: bip0039::Error) -> (r: MigrateError) {
        MigrateError::MnemonicInvalid(value)
    }
}

impl vstd::std_specs::convert::FromSpecImpl<bip0039::Error> for MigrateError {
    open spec fn obeys_from_spec() -> bool {
        true
    }

    open spec fn from_spec(value: bip0039::Error) -> MigrateError {
        MigrateError::MnemonicInvalid(value)
    }
}

impl From<secp256k1::Error> for MigrateError {
    fn from(value: secp256k1::Error) -> (r: MigrateError) {
        MigrateError::KeyError(value)
    }
}

impl vstd::std_specs::convert::FromSpecImpl<secp256k1::Error> for MigrateError {
    open spec fn obeys_from_spec() -> bool {
        true
    }

    open spec fn from_spec(value: secp256k1::Error) -> MigrateError {
        MigrateError::KeyError(value)
    }
}

impl From<std::io::Error> for MigrateError {
    fn from(value: std::io::Error) -> (r: MigrateError) {
        MigrateError::Io(value)
    }
}

impl vstd::std_specs::convert::FromSpecImpl<std::io::Error> for MigrateError {
    open spec fn obeys_from_spec() -> bool {
        true
    }

    open spec fn from_spec(value: std::io::Error) -> MigrateError {
        MigrateError::Io(value)
    }
}

impl From<zcash_keys::keys::DerivationError> for MigrateError {
    fn from(value: zcash_keys::keys::DerivationError) -> (r: MigrateError) {
        MigrateError::KeyDerivation(value)
    }
}

impl vstd::std_specs::convert::FromSpecImpl<zcash_keys::keys::DerivationError> for MigrateError {
    open spec fn obeys_from_spec() -> bool {
        true
    }

    open spec fn from_spec(value: zcash_keys::keys::DerivationError) -> MigrateError {
        MigrateError::KeyDerivation(value)
    }
}

impl From<zcash_keys::keys::zcashd::PathParseError> for MigrateError {
    fn from(value: zcash_keys::keys::zcashd::PathParseError) -> (r: MigrateError) {
        MigrateError::HdPath(value)
    }
}

impl vstd::std_specs::convert::FromSpecImpl<zcash_keys::keys::zcashd::PathParseError> for MigrateError {
    open spec fn obeys_from_spec() -> bool {
        true
    }

    open spec fn from_spec(value: zcash_keys::keys::zcashd::PathParseError) -> MigrateError {
        MigrateError::HdPath(value)
    }
}

impl From<CommandError> for MigrateError {
    fn from(value: CommandError) -> (r: MigrateError) {
        MigrateError::Wrapped(value)
    }
}

impl vstd::std_specs::convert::FromSpecImpl<CommandError> for MigrateError {
    open spec fn obeys_from_spec() -> bool {
        true
    }

    open spec fn from_spec(value: CommandError) -> MigrateError {
        MigrateError::Wrapped(value)
    }
}

impl From<Message> for MigrateError {
    fn from(value: Message) -> (r: MigrateError) {
        MigrateError::Wrapped(CommandError::Message(value))
    }
}

impl vstd::std_specs::convert::FromSpecImpl<Message> for MigrateError {
    open spec fn obeys_from_spec() -> bool {
        true
    }

    open spec fn from_spec(value: Message) -> MigrateError {
        MigrateError::Wrapped(CommandError::Message(value))
    }
}

impl From<SqliteClientError> for MigrateError {
    fn from(value: SqliteClientError) -> (r: MigrateError) {
        MigrateError::Database(value)
    }
}

impl vstd::std_specs::convert::FromSpecImpl<SqliteClientError> for MigrateError {
    open spec fn obeys_from_spec() -> bool {
        true
    }

    open spec fn from_spec(value: SqliteClientError) -> MigrateError {
        MigrateError::Database(value)
    }
}

impl From<ShardTreeError<zcash_client_sqlite::wallet::commitment_tree::Error>> for MigrateError {
    fn from(value: ShardTreeError<zcash_client_sqlite::wallet::commitment_tree::Error>) -> (r: MigrateError) {
        MigrateError::Tree(value)
    }
}

impl vstd::std_specs::convert::FromSpecImpl<ShardTreeError<zcash_client_sqlite::wallet::commitment_tree::Error>> for MigrateError {
    open spec fn obeys_from_spec() -> bool {
        true
    }

    open spec fn from_spec(value: ShardTreeError<zcash_client_sqlite::wallet::commitment_tree::Error>) -> MigrateError {
        MigrateError::Tree(value)
    }
}

impl CommandError {
    /// How a failed migration is reported.
    pub fn from(value: MigrateError) -> (r: CommandError)
        requires
            value.is_reportable(),
        ensures
            exists|cause: Seq<char>| #[trigger]
                value.has_cause_text(cause) && r@ == value.reported(cause),
    {
        let cause: String = value.cause_text();
        proof {
            assert(value.has_cause_text(cause@));
        }
        value.report(cause)
    }

    /// How a failed migration is reported, or nothing where the failure beneath has no words.
    pub fn from_if_possible(value: MigrateError) -> (r: Option<CommandError>)
        ensures
            r is Some <==> value.is_reportable(),
            r matches Some(error) ==> exists|cause: Seq<char>| #[trigger]
                value.has_cause_text(cause) && error@ == value.reported(cause),
    {
        if value.can_be_reported() {
            Some(CommandError::from(value))
        } else {
            None
        }
    }
}

/// How a failure is reported is settled by the failure, except where the system or the database
/// failed and gave its own words.
pub proof fn report_is_settled(value: MigrateError, cause: Seq<char>, other: Seq<char>)
    requires
        value.has_cause_text(cause),
        value.has_cause_text(other),
        !(value is Io || value is Database || value is Tree),
    ensures
        value.reported(cause) == value.reported(other),
{
}

/// A failure that was wrapped is reported as it was raised.
pub proof fn wrapped_is_reported_as_raised(
    value: MigrateError,
    message: MessageModel,
    cause: Seq<char>,
)
    requires
        raises(value, message),
    ensures
        value.reported(cause) == CommandErrorModel::Message(message),
{
}

} // verus!
