//! The type of the active network.
use vstd::prelude::*;

verus! {

/// Broad categorization of the active network interface.
#[derive(Debug, Clone, Copy, PartialEq, Eq, Structural)]
pub enum NetworkType {
    /// No active network connection.
    Disconnected,
    /// Connected via Wi-Fi (includes Wi-Fi Aware).
    Wifi,
    /// Connected via mobile data (cellular).
    Mobile,
    /// Connected via Ethernet.
    Ethernet,
    /// Connected via VPN (often active even when physical radios are off).
    Vpn,
    /// Connected via some other transport (Bluetooth, USB, LoWPAN, ...).
    Other,
}

/// `NetworkCapabilities.TRANSPORT_CELLULAR`.
pub const TRANSPORT_CELLULAR: i32 = 0;
/// `NetworkCapabilities.TRANSPORT_WIFI`.
pub const TRANSPORT_WIFI: i32 = 1;
/// `NetworkCapabilities.TRANSPORT_ETHERNET`.
pub const TRANSPORT_ETHERNET: i32 = 3;
/// `NetworkCapabilities.TRANSPORT_VPN`.
pub const TRANSPORT_VPN: i32 = 4;

/// What is asked of the Java side next.
#[derive(Debug, Clone, Copy, PartialEq, Eq, Structural)]
pub enum NetQuery {
    /// `getSystemService("connectivity")`: answered by whether it is non-null.
    ConnectivityService,
    /// `ConnectivityManager.getActiveNetwork()`: answered by whether it is non-null.
    ActiveNetwork,
    /// `ConnectivityManager.getNetworkCapabilities(network)`: answered by whether it is non-null.
    Capabilities,
    /// `NetworkCapabilities.hasTransport(t)`: answered by its result.
    HasTransport(i32),
}

/// The next step of finding the active network type.
#[derive(Debug, Clone, Copy, PartialEq, Eq, Structural)]
pub enum NetStep {
    Ask(NetQuery),
    Done(NetworkType),
}

/// The step after probing transport `t` without finding it.
pub open spec fn spec_after_missing_transport(t: i32) -> NetStep {
    if t == TRANSPORT_WIFI {
        NetStep::Ask(NetQuery::HasTransport(TRANSPORT_CELLULAR))
    } else if t == TRANSPORT_CELLULAR {
        NetStep::Ask(NetQuery::HasTransport(TRANSPORT_ETHERNET))
    } else if t == TRANSPORT_ETHERNET {
        NetStep::Ask(NetQuery::HasTransport(TRANSPORT_VPN))
    } else {
        NetStep::Done(NetworkType::Other)
    }
}

/// The network type transport `t` stands for.
pub open spec fn spec_transport_type(t: i32) -> NetworkType {
    if t == TRANSPORT_WIFI {
        NetworkType::Wifi
    } else if t == TRANSPORT_CELLULAR {
        NetworkType::Mobile
    } else if t == TRANSPORT_ETHERNET {
        NetworkType::Ethernet
    } else if t == TRANSPORT_VPN {
        NetworkType::Vpn
    } else {
        NetworkType::Other
    }
}

/// The step after `q` was answered with `answer`.
pub open spec fn spec_active_type_next(q: NetQuery, answer: bool) -> NetStep {
    match q {
        NetQuery::ConnectivityService => if answer { NetStep::Ask(NetQuery::ActiveNetwork) } else { NetStep::Done(NetworkType::Disconnected) },
        NetQuery::ActiveNetwork => if answer { NetStep::Ask(NetQuery::Capabilities) } else { NetStep::Done(NetworkType::Disconnected) },
        NetQuery::Capabilities => if answer { NetStep::Ask(NetQuery::HasTransport(TRANSPORT_WIFI)) } else { NetStep::Done(NetworkType::Disconnected) },
        NetQuery::HasTransport(t) => if answer { NetStep::Done(spec_transport_type(t)) } else { spec_after_missing_transport(t) },
    }
}

/// The first question.
pub fn active_type_start() -> (r: NetStep)
    ensures
        r == NetStep::Ask(NetQuery::ConnectivityService),
{
    NetStep::Ask(NetQuery::ConnectivityService)
}

/// The step after `q` was answered with `answer`: a missing service, network or
/// capabilities object means no network; transports are probed Wi-Fi, cellular,
/// Ethernet, VPN, and the first one present decides; with none present the type is `Other`.
pub fn active_type_next(q: NetQuery, answer: bool) -> (r: NetStep)
    ensures
        r == spec_active_type_next(q, answer),
{
    match q {
        NetQuery::ConnectivityService => if answer { NetStep::Ask(NetQuery::ActiveNetwork) } else { NetStep::Done(NetworkType::Disconnected) },
        NetQuery::ActiveNetwork => if answer { NetStep::Ask(NetQuery::Capabilities) } else { NetStep::Done(NetworkType::Disconnected) },
        NetQuery::Capabilities => if answer { NetStep::Ask(NetQuery::HasTransport(TRANSPORT_WIFI)) } else { NetStep::Done(NetworkType::Disconnected) },
        NetQuery::HasTransport(t) => if answer {
            let ty = if t == TRANSPORT_WIFI {
                NetworkType::Wifi
            } else if t == TRANSPORT_CELLULAR {
                NetworkType::Mobile
            } else if t == TRANSPORT_ETHERNET {
                NetworkType::Ethernet
            } else if t == TRANSPORT_VPN {
                NetworkType::Vpn
            } else {
                NetworkType::Other
            };
            NetStep::Done(ty)
        } else if t == TRANSPORT_WIFI {
            NetStep::Ask(NetQuery::HasTransport(TRANSPORT_CELLULAR))
        } else if t == TRANSPORT_CELLULAR {
            NetStep::Ask(NetQuery::HasTransport(TRANSPORT_ETHERNET))
        } else if t == TRANSPORT_ETHERNET {
            NetStep::Ask(NetQuery::HasTransport(TRANSPORT_VPN))
        } else {
            NetStep::Done(NetworkType::Other)
        },
    }
}

/// Whether a network of type `t` is a connection of any kind.
pub fn is_connected_type(t: NetworkType) -> (r: bool)
    ensures
        r == (t != NetworkType::Disconnected),
{
    t != NetworkType::Disconnected
}

/// The answers the Java side gives: whether the connectivity service, the active network
/// and its capabilities exist, and which transports the capabilities have.
pub struct NetFacts {
    pub service: bool,
    pub network: bool,
    pub capabilities: bool,
    pub has_transport: spec_fn(i32) -> bool,
}

/// The answer to `q` under `f`.
pub open spec fn net_answer(f: NetFacts, q: NetQuery) -> bool {
    match q {
        NetQuery::ConnectivityService => f.service,
        NetQuery::ActiveNetwork => f.network,
        NetQuery::Capabilities => f.capabilities,
        NetQuery::HasTransport(t) => (f.has_transport)(t),
    }
}

/// Where `n` more steps lead from `s` under `f`.
pub open spec fn net_run(f: NetFacts, s: NetStep, n: nat) -> NetStep
    decreases n,
{
    if n == 0 {
        s
    } else {
        match s {
            NetStep::Done(_) => s,
            NetStep::Ask(q) => net_run(f, spec_active_type_next(q, net_answer(f, q)), (n - 1) as nat),
        }
    }
}

/// The network type under `f`: none without service, network or capabilities; otherwise the
/// first of Wi-Fi, cellular, Ethernet, VPN that is present; otherwise `Other`.
pub open spec fn spec_active_type(f: NetFacts) -> NetworkType {
    if !f.service || !f.network || !f.capabilities {
        NetworkType::Disconnected
    } else if (f.has_transport)(TRANSPORT_WIFI) {
        NetworkType::Wifi
    } else if (f.has_transport)(TRANSPORT_CELLULAR) {
        NetworkType::Mobile
    } else if (f.has_transport)(TRANSPORT_ETHERNET) {
        NetworkType::Ethernet
    } else if (f.has_transport)(TRANSPORT_VPN) {
        NetworkType::Vpn
    } else {
        NetworkType::Other
    }
}

/// Asking from the start, at most seven questions give the network type, and it is the
/// first transport present in the order Wi-Fi, cellular, Ethernet, VPN.
pub proof fn lemma_active_type_run(f: NetFacts)
    ensures
        net_run(f, NetStep::Ask(NetQuery::ConnectivityService), 7) == NetStep::Done(spec_active_type(f)),
{
    reveal_with_fuel(net_run, 8);
}

} // verus!
