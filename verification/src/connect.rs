//! The connection orchestrator: whom a connection attempt may reach.
//!
//! A connection is attempted once, towards one device. The attempt carries an
//! accept list that holds the target and nothing else, so that no other
//! advertiser can be connected to while it runs. A failed attempt is not
//! repeated: the next attempt follows the next scan.

use crate::address::Address;
use vstd::prelude::*;

verus! {

/// What a connection attempt is made with.
#[derive(Clone, Copy, Debug, PartialEq, Eq)]
pub struct ConnectConfig {
    /// The devices that the link layer may connect to.
    pub filter_accept_list: [Address; 1],
}

/// Whether an attempt made with `config` may connect to `peer`.
pub open spec fn admits(config: ConnectConfig, peer: Address) -> bool {
    exists|i: int|
        0 <= i < config.filter_accept_list@.len() && #[trigger] config.filter_accept_list@[i]
            == peer
}

/// The configuration whose accept list holds `target` and nothing else.
pub open spec fn accept_only(target: Address) -> ConnectConfig {
    ConnectConfig { filter_accept_list: [target] }
}

/// The configuration for a connection to `target`: the accept list holds the
/// target, kind and bytes, and nothing else.
pub fn connect_config(target: Address) -> (config: ConnectConfig)
    ensures
        config == accept_only(target),
        config.filter_accept_list@ == seq![target],
        forall|peer: Address| admits(config, peer) <==> peer == target,
{
    let config = ConnectConfig { filter_accept_list: [target] };
    proof {
        law_only_the_target_is_admitted(target);
        assert(config.filter_accept_list =~= accept_only(target).filter_accept_list);
    }
    config
}

/// An attempt configured for one target can reach that device and no other.
pub proof fn law_only_the_target_is_admitted(target: Address)
    ensures
        accept_only(target).filter_accept_list@ == seq![target],
        forall|peer: Address| admits(accept_only(target), peer) <==> peer == target,
{
    let list = accept_only(target).filter_accept_list;
    assert(list@ =~= seq![target]);
    assert(list@[0] == target);
}

} // verus!
