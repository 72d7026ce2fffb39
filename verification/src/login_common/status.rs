//! The three states of the network as seen by the probes.
use vstd::prelude::*;

verus! {

/// Reachability of the outside network.
#[derive(PartialEq, Eq, Structural, Debug, Clone, Copy)]
pub enum NetStatus {
    Connected,
    Restricted,
    Disconnected,
}

/// The label shown for each status.
pub open spec fn status_label(s: NetStatus) -> Seq<char> {
    match s {
        NetStatus::Connected => "已连接"@,
        NetStatus::Restricted => "网络受限"@,
        NetStatus::Disconnected => "未连接"@,
    }
}

impl NetStatus {
    /// Human readable label of the status.
    pub fn display(&self) -> (r: &'static str)
        ensures
            r@ == status_label(*self),
    {
        match self {
            NetStatus::Connected => "已连接",
            NetStatus::Restricted => "网络受限",
            NetStatus::Disconnected => "未连接",
        }
    }
}

} // verus!
