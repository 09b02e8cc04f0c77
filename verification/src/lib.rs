//! Migration of a `zcashd` wallet into a Zallet wallet: every decision that the migration and the
//! mnemonic export take, apart from the reading and writing that they ask for.

pub mod accounts;
pub mod action;
pub mod answers;
pub mod command;
pub mod consensus;
pub mod dump;
pub mod error;
pub mod exposure;
pub mod fingerprint;
pub mod laws;
pub mod migration;
pub mod migrator;
pub mod mnemonic;
pub mod network;
pub mod outcomes;
pub mod questions;
pub mod records;
pub mod run;
pub mod sapling;
pub mod sequences;
pub mod steps;
pub mod summary;
pub mod text;
pub mod transactions;
pub mod transparent;
pub mod transparent_keys;
pub mod wallet;
pub mod watchonly;
