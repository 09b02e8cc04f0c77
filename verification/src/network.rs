//! The network that a wallet belongs to, and the check that it is the right one.

use crate::error::MigrateError;
use vstd::prelude::*;

verus! {

/// The network that a zcashd wallet was used on.
#[derive(Clone, Copy, Debug, PartialEq, Eq, Structural)]
pub enum Network {
    Main,
    Test,
    Regtest,
}

/// The network that the Zallet wallet is configured for.
#[derive(Clone, Copy, Debug, PartialEq, Eq, Structural)]
pub enum NetworkType {
    Main,
    Test,
    Regtest,
}

impl Network {
    /// The name of the network.
    pub open spec fn name(self) -> Seq<char> {
        match self {
            Network::Main => "main"@,
            Network::Test => "test"@,
            Network::Regtest => "regtest"@,
        }
    }

    /// The name of the network.
    pub fn text(self) -> (r: &'static str)
        ensures
            r@ == self.name(),
    {
        match self {
            Network::Main => "main",
            Network::Test => "test",
            Network::Regtest => "regtest",
        }
    }
}

impl NetworkType {
    /// The name of the network.
    pub open spec fn name(self) -> Seq<char> {
        match self {
            NetworkType::Main => "main"@,
            NetworkType::Test => "test"@,
            NetworkType::Regtest => "regtest"@,
        }
    }

    /// The name of the network.
    pub fn text(self) -> (r: &'static str)
        ensures
            r@ == self.name(),
    {
        match self {
            NetworkType::Main => "main",
            NetworkType::Test => "test",
            NetworkType::Regtest => "regtest",
        }
    }
}

/// Whether a zcashd wallet of the first network can be migrated into a Zallet wallet of the second.
pub open spec fn same_network(wallet_network: Network, db_network: NetworkType) -> bool {
    match wallet_network {
        Network::Main => db_network is Main,
        Network::Test => db_network is Test,
        Network::Regtest => db_network is Regtest,
    }
}

/// Checks that the zcashd wallet and the Zallet wallet belong to the same network.
pub fn check_network(wallet_network: Network, db_network: NetworkType) -> (r: Result<
    NetworkType,
    MigrateError,
>)
    ensures
        r == (if same_network(wallet_network, db_network) {
            Ok(db_network)
        } else {
            Err(MigrateError::NetworkMismatch { wallet_network, db_network })
        }),
{
    match (wallet_network, db_network) {
        (Network::Main, NetworkType::Main) => Ok(db_network),
        (Network::Test, NetworkType::Test) => Ok(db_network),
        (Network::Regtest, NetworkType::Regtest) => Ok(db_network),
        _ => Err(MigrateError::NetworkMismatch { wallet_network, db_network }),
    }
}

/// A mismatch of networks is reported with two different names, and nothing else is a mismatch.
pub proof fn mismatch_names_differ(wallet_network: Network, db_network: NetworkType)
    ensures
        same_network(wallet_network, db_network) <==> wallet_network.name() == db_network.name(),
{
    reveal_strlit("main");
    reveal_strlit("test");
    reveal_strlit("regtest");
    assert("main"@[0] == 'm');
    assert("test"@[0] == 't');
    assert("regtest"@[0] == 'r');
}

} // verus!
