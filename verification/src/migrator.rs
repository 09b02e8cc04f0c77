//! A migration as its callers see it: what they can do with it keeps it in order.

use crate::action::{Action, Event, Stage};
use crate::consensus::NetworkUpgrades;
use crate::error::MigrateError;
use crate::migration::{Migration, MigrationOptions, Plan, Progress};
use crate::network;
use crate::network::NetworkType;
use crate::summary::MigrationSummary;
use crate::wallet::Wallet;
use vstd::prelude::*;

verus! {

/// A migration of a zcashd wallet.
///
/// Ask for the next action, perform it, and tell the outcome, until there is nothing left to do.
pub struct Migrator {
    state: Migration,
}

impl View for Migrator {
    type V = Migration;

    closed spec fn view(&self) -> Migration {
        self.state
    }
}

/// What came of telling a migration the outcome of an action.
pub enum Advance {
    /// The migration has moved on.
    Moved(Migrator),
    /// The migration has failed.
    Failed(MigrateError),
    /// The migration cannot go on from this outcome, and stays where it is.
    NotAwaited(Migrator),
}

impl Migrator {
    /// The migration is in order.
    #[verifier::type_invariant]
    spec fn in_order(self) -> bool {
        self.state.wf()
    }

    /// Begins the migration of a wallet, which has to belong to the network of the Zallet wallet.
    pub fn start(
        wallet: Wallet,
        unparsed_records: Vec<String>,
        options: MigrationOptions,
        network: NetworkType,
        upgrades: NetworkUpgrades,
    ) -> (r: Result<Migrator, MigrateError>)
        ensures
            match r {
                Ok(migrator) => {
                    &&& network::same_network(wallet.network, network)
                    &&& migrator@.wf()
                    &&& migrator@.is_new()
                    &&& migrator@.plan == Plan {
                        wallet,
                        unparsed_records,
                        options,
                        network,
                        upgrades,
                        watch: migrator@.plan.watch,
                        scripts: migrator@.plan.scripts,
                    }
                },
                Err(e) => {
                    &&& !network::same_network(wallet.network, network)
                    &&& e == MigrateError::NetworkMismatch {
                        wallet_network: wallet.network,
                        db_network: network,
                    }
                },
            },
    {
        match Migration::start(wallet, unparsed_records, options, network, upgrades) {
            Ok(state) => Ok(Migrator { state }),
            Err(e) => Err(e),
        }
    }

    /// What the migration asks to be done.
    pub fn action(&self) -> (r: Action<'_>)
        ensures
            self@.wf(),
            r == self@.pending(),
    {
        proof {
            use_type_invariant(self);
        }
        self.state.action()
    }

    /// Whether the migration can go on from `event`.
    pub fn accepts(&self, event: &Event) -> (r: bool)
        ensures
            self@.wf(),
            r == self@.awaits(*event),
    {
        proof {
            use_type_invariant(self);
        }
        self.state.accepts(event)
    }

    /// Goes on from the outcome of what the migration asked for.
    pub fn advance(self, event: Event) -> (r: Advance)
        ensures
            self@.wf(),
            match r {
                Advance::Moved(next) => {
                    &&& self@.awaits(event)
                    &&& next@.wf()
                    &&& Migration::step(self@, event, Ok(()), next@)
                },
                Advance::Failed(e) => {
                    &&& self@.awaits(event)
                    &&& Migration::step(self@, event, Err(e), self@)
                },
                Advance::NotAwaited(same) => !self@.awaits(event) && same@ == self@,
            },
    {
        proof {
            use_type_invariant(&self);
        }
        let mut state = self.state;
        let ghost before = state;
        match state.try_advance(event) {
            Some(Ok(())) => Advance::Moved(Migrator { state }),
            Some(Err(e)) => {
                proof {
                    crate::laws::step_keeps(before, event, Err(e), state);
                }
                Advance::Failed(e)
            },
            None => Advance::NotAwaited(Migrator { state }),
        }
    }

    /// What the migration is about.
    pub fn plan(&self) -> (r: &Plan)
        ensures
            *r == self@.plan,
    {
        &self.state.plan
    }

    /// How far the migration has come.
    pub fn stage(&self) -> (r: Stage)
        ensures
            r == self@.progress.stage,
    {
        self.state.progress.stage
    }

    /// What the migration has come to know and to do.
    pub fn progress(&self) -> (r: &Progress)
        ensures
            *r == self@.progress,
            self@.wf(),
    {
        proof {
            use_type_invariant(self);
        }
        &self.state.progress
    }

    /// The summary of the migration, once it is complete.
    pub fn summary(&self) -> (r: Option<MigrationSummary>)
        ensures
            r is Some <==> self@.progress.stage == Stage::Finished,
            r matches Some(summary) ==> summary.wf() && self@.wf() && self@.summarizes(summary),
    {
        proof {
            use_type_invariant(self);
        }
        match self.state.progress.stage {
            Stage::Finished => Some(self.state.summary()),
            _ => None,
        }
    }
}

} // verus!
