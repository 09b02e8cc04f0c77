# zallet_migrate

The migration of a `zcashd` wallet into a Zallet wallet, and the export of a mnemonic from one, as a
library that is verified with [Verus](https://github.com/verus-lang/verus).

A migration is a machine. It says what it asks to be done next: to read where the accounts of the
wallet database come from, to look up the height of a block, to import an account, to mark addresses
as exposed. It is then told the outcome, and goes on from there or fails. The library does no I/O of
its own.

- `migrator` is the entry: `Migrator::start`, `action`, `accepts`, `advance` and `summary` can be
  called at any time, with anything.
- `migration` holds the state and what is true of it at every stage, `steps` the contract of each
  step, `action` what is asked for and what is told, and `laws` what holds of every migration.
- `records` and `summary` say what was migrated, what was left out, and which spend authority was
  lost.
- `transparent`, `transparent_keys`, `watchonly`, `sapling`, `mnemonic`, `fingerprint` and
  `accounts` deal with keys, scripts, seeds and the accounts that are made of them.
- `transactions`, `consensus`, `exposure` and `network` deal with heights, birthdays, the rules that
  a transaction is read under, and the addresses that are marked as exposed.
- `dump` and `command` hold the decisions around the two commands, `error` the failures and the
  messages they are reported with.

Cryptography and the formats of Zcash come from the crates that define them. Each call, and each
look into a value of theirs, stands in a small function marked `external_body`, whose contract is
trusted; its comment names what it calls or reads and says what is claimed of it.

`app/` is ordinary Rust around the library: it reads the wallet file, runs the machine against the
wallet database, the key store and the chain, and prints what there is to print. `tests/` holds the
tests of the library.
