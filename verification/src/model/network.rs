//! Blockchain networks supported by the tracker, with their wire identifiers.

use vstd::prelude::*;
use crate::text::str_equal;

verus! {

/// A blockchain network on which an asset lives.
#[derive(Debug, Clone, Copy, PartialEq, Eq, Hash, Structural)]
pub enum Network {
    Bitcoin,
    Ethereum,
    Solana,
    Base,
    Sonic,
    Sui,
    Mode,
    Aptos,
    Polygon,
    Linea,
    Avalanche,
}

/// The identifier of each network as used by the price provider and in storage.
pub open spec fn network_id(n: Network) -> Seq<char> {
    match n {
        Network::Bitcoin => "bitcoin"@,
        Network::Ethereum => "eth"@,
        Network::Solana => "solana"@,
        Network::Base => "base"@,
        Network::Sonic => "sonic"@,
        Network::Sui => "sui-network"@,
        Network::Mode => "mode"@,
        Network::Aptos => "aptos"@,
        Network::Polygon => "polygon_pos"@,
        Network::Linea => "linea"@,
        Network::Avalanche => "avax"@,
    }
}

/// The displayed name of each network.
pub open spec fn network_display_name(n: Network) -> Seq<char> {
    match n {
        Network::Bitcoin => "Bitcoin"@,
        Network::Ethereum => "Ethereum"@,
        Network::Solana => "Solana"@,
        Network::Base => "Base"@,
        Network::Sonic => "Sonic"@,
        Network::Sui => "Sui"@,
        Network::Mode => "Mode"@,
        Network::Aptos => "Aptos"@,
        Network::Polygon => "Polygon"@,
        Network::Linea => "Linea"@,
        Network::Avalanche => "Avalanche"@,
    }
}

/// Every network, in declaration order.
pub open spec fn all_networks() -> Seq<Network> {
    seq![
        Network::Bitcoin,
        Network::Ethereum,
        Network::Solana,
        Network::Base,
        Network::Sonic,
        Network::Sui,
        Network::Mode,
        Network::Aptos,
        Network::Polygon,
        Network::Linea,
        Network::Avalanche,
    ]
}

/// The network whose identifier is `id`, if there is one.
pub open spec fn network_from_id(id: Seq<char>) -> Option<Network> {
    if exists|n: Network| network_id(n) == id {
        Some(choose|n: Network| network_id(n) == id)
    } else {
        None
    }
}

/// No two networks share an identifier.
pub proof fn lemma_network_id_injective(a: Network, b: Network)
    ensures
        network_id(a) == network_id(b) ==> a == b,
{
    reveal_strlit("bitcoin");
    reveal_strlit("eth");
    reveal_strlit("solana");
    reveal_strlit("base");
    reveal_strlit("sonic");
    reveal_strlit("sui-network");
    reveal_strlit("mode");
    reveal_strlit("aptos");
    reveal_strlit("polygon_pos");
    reveal_strlit("linea");
    reveal_strlit("avax");
    if network_id(a) == network_id(b) && a != b {
        let x = network_id(a);
        let y = network_id(b);
        assert(x.len() != y.len() || x[0] != y[0] || x[1] != y[1] || x[2] != y[2]);
    }
}

/// `s` with each ASCII capital letter replaced by its small letter.
pub open spec fn ascii_lowercase(s: Seq<char>) -> Seq<char> {
    s.map_values(|c: char| if 'A' <= c && c <= 'Z' { ((c as u32) + 32) as char } else { c })
}

/// The identifier of a network is its displayed name in lower case, except
/// for the four networks whose provider identifiers are abbreviated or carry
/// a suffix: Ethereum is `eth`, Sui is `sui-network`, Polygon is
/// `polygon_pos` and Avalanche is `avax`.
pub proof fn lemma_network_id_is_lowercase_name(n: Network)
    ensures
        n != Network::Ethereum && n != Network::Sui && n != Network::Polygon && n != Network::Avalanche
            ==> network_id(n) == ascii_lowercase(network_display_name(n)),
        n == Network::Ethereum ==> network_id(n) == "eth"@,
        n == Network::Sui ==> network_id(n) == "sui-network"@,
        n == Network::Polygon ==> network_id(n) == "polygon_pos"@,
        n == Network::Avalanche ==> network_id(n) == "avax"@,
{
    match n {
        Network::Bitcoin => {
            reveal_strlit("bitcoin");
            reveal_strlit("Bitcoin");
            assert(network_id(n) =~= ascii_lowercase(network_display_name(n)));
        },
        Network::Solana => {
            reveal_strlit("solana");
            reveal_strlit("Solana");
            assert(network_id(n) =~= ascii_lowercase(network_display_name(n)));
        },
        Network::Base => {
            reveal_strlit("base");
            reveal_strlit("Base");
            assert(network_id(n) =~= ascii_lowercase(network_display_name(n)));
        },
        Network::Sonic => {
            reveal_strlit("sonic");
            reveal_strlit("Sonic");
            assert(network_id(n) =~= ascii_lowercase(network_display_name(n)));
        },
        Network::Mode => {
            reveal_strlit("mode");
            reveal_strlit("Mode");
            assert(network_id(n) =~= ascii_lowercase(network_display_name(n)));
        },
        Network::Aptos => {
            reveal_strlit("aptos");
            reveal_strlit("Aptos");
            assert(network_id(n) =~= ascii_lowercase(network_display_name(n)));
        },
        Network::Linea => {
            reveal_strlit("linea");
            reveal_strlit("Linea");
            assert(network_id(n) =~= ascii_lowercase(network_display_name(n)));
        },
        _ => {},
    }
}

/// Every network occurs in `all_networks`.
pub proof fn lemma_all_networks_complete(n: Network)
    ensures
        all_networks().contains(n),
{
    let s = all_networks();
    match n {
        Network::Bitcoin => assert(s[0] == n),
        Network::Ethereum => assert(s[1] == n),
        Network::Solana => assert(s[2] == n),
        Network::Base => assert(s[3] == n),
        Network::Sonic => assert(s[4] == n),
        Network::Sui => assert(s[5] == n),
        Network::Mode => assert(s[6] == n),
        Network::Aptos => assert(s[7] == n),
        Network::Polygon => assert(s[8] == n),
        Network::Linea => assert(s[9] == n),
        Network::Avalanche => assert(s[10] == n),
    }
}

/// Reading back the identifier of a network gives that network.
pub proof fn lemma_network_id_round_trip(n: Network)
    ensures
        network_from_id(network_id(n)) == Some(n),
{
    let c = choose|m: Network| network_id(m) == network_id(n);
    lemma_network_id_injective(c, n);
}

/// A network read from an identifier has that identifier.
pub proof fn lemma_network_from_id_sound(id: Seq<char>)
    ensures
        network_from_id(id) matches Some(n) ==> network_id(n) == id,
        network_from_id(id) is None ==> forall|n: Network| network_id(n) != id,
{
}

impl Network {
    /// The network's identifier.
    pub fn to_id(&self) -> (id: &'static str)
        ensures
            id@ == network_id(*self),
    {
        match self {
            Network::Bitcoin => "bitcoin",
            Network::Ethereum => "eth",
            Network::Solana => "solana",
            Network::Base => "base",
            Network::Sonic => "sonic",
            Network::Sui => "sui-network",
            Network::Mode => "mode",
            Network::Aptos => "aptos",
            Network::Polygon => "polygon_pos",
            Network::Linea => "linea",
            Network::Avalanche => "avax",
        }
    }

    /// The network's displayed name.
    pub fn display_name(&self) -> (name: &'static str)
        ensures
            name@ == network_display_name(*self),
    {
        match self {
            Network::Bitcoin => "Bitcoin",
            Network::Ethereum => "Ethereum",
            Network::Solana => "Solana",
            Network::Base => "Base",
            Network::Sonic => "Sonic",
            Network::Sui => "Sui",
            Network::Mode => "Mode",
            Network::Aptos => "Aptos",
            Network::Polygon => "Polygon",
            Network::Linea => "Linea",
            Network::Avalanche => "Avalanche",
        }
    }

    /// Every network, in declaration order.
    pub fn all() -> (v: Vec<Network>)
        ensures
            v@ == all_networks(),
    {
        let v = vec![
            Network::Bitcoin,
            Network::Ethereum,
            Network::Solana,
            Network::Base,
            Network::Sonic,
            Network::Sui,
            Network::Mode,
            Network::Aptos,
            Network::Polygon,
            Network::Linea,
            Network::Avalanche,
        ];
        assert(v@ =~= all_networks());
        v
    }

    /// The network whose identifier is `id`, or `None` when no network has it.
    pub fn from_id(id: &str) -> (res: Option<Network>)
        ensures
            res == network_from_id(id@),
            res matches Some(n) ==> network_id(n) == id@,
            res is None <==> forall|n: Network| network_id(n) != id@,
    {
        let networks = Network::all();
        let mut i: usize = 0;
        while i < networks.len()
            invariant
                networks@ == all_networks(),
                i <= networks.len(),
                forall|j: int| 0 <= j < i ==> network_id(#[trigger] networks@[j]) != id@,
            decreases networks.len() - i,
        {
            let n = networks[i];
            if str_equal(n.to_id(), id) {
                proof {
                    assert(network_id(n) == id@);
                    let c = choose|m: Network| network_id(m) == id@;
                    lemma_network_id_injective(c, n);
                }
                return Some(n);
            }
            i = i + 1;
        }
        proof {
            assert forall|n: Network| network_id(n) != id@ by {
                lemma_all_networks_complete(n);
                let j = choose|j: int| 0 <= j < all_networks().len() && all_networks()[j] == n;
                assert(network_id(networks@[j]) != id@);
            }
        }
        None
    }
}

} // verus!
