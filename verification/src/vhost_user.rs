//! Devices that are served over vhost-user: what every such device offers,
//! and the features of the network device.

use vstd::prelude::*;
use crate::executor::ExecutorKind;
use crate::text::push_hex;
use crate::text::spec_hex;

verus! {

/// A device that can be served over vhost-user. It is turned into the
/// handler of its requests only inside the process that serves it, so that
/// it starts its work there and not in the main process.
pub trait VhostUserDevice: Sized {
    /// The executor on which the device runs its tasks.
    type Executor;

    /// What handles the requests to the device.
    type Handler;

    /// The most queues that the device can manage.
    fn max_queue_num(&self) -> usize;

    /// Turns the device into the handler of its requests.
    fn into_req_handler(self, ex: &Self::Executor) -> Result<Self::Handler, String>;

    /// The kind of executor that the device prefers, if it prefers one.
    fn executor_kind(&self) -> (kind: Option<ExecutorKind>)
        default_ensures
            kind is None,
    {
        None
    }
}

/// The queues of the network device: to receive, to transmit, to control.
pub const MAX_QUEUE_NUM: usize = 3;

/// What is saved of the network device.
#[derive(Clone, Copy, Debug, PartialEq, Eq, Structural)]
pub struct NetBackendSnapshot {
    pub acked_feature: u64,
}

/// The features of the network device.
#[derive(Clone, Copy, Debug, PartialEq, Eq, Structural)]
pub struct NetBackend {
    pub avail_features: u64,
    pub acked_features: u64,
    pub mtu: u16,
}

/// The text that says that the driver accepted features that were not
/// offered.
pub open spec fn spec_invalid_features(unrequested_features: u64) -> Seq<char> {
    "invalid features are given: 0x"@ + spec_hex(unrequested_features as nat)
}

impl NetBackend {
    /// The most pairs of queues to receive and to transmit.
    pub fn max_vq_pairs() -> (pairs: usize)
        ensures
            pairs == 1,
    {
        MAX_QUEUE_NUM / 2
    }

    /// Takes note of the features that the driver accepts. Features that
    /// were not offered are refused, and nothing changes.
    pub fn ack_features(&mut self, value: u64) -> (r: Result<(), String>)
        ensures
            final(self).avail_features == old(self).avail_features,
            final(self).mtu == old(self).mtu,
            match r {
                Ok(()) => value & !old(self).avail_features == 0 && final(self).acked_features
                    == old(self).acked_features | value,
                Err(e) => value & !old(self).avail_features != 0 && final(self).acked_features
                    == old(self).acked_features && e@ == spec_invalid_features(
                    value & !old(self).avail_features,
                ),
            },
    {
        let unrequested_features = value & !self.avail_features;
        if unrequested_features != 0 {
            let mut e = "invalid features are given: 0x".to_owned();
            push_hex(&mut e, unrequested_features);
            return Err(e);
        }
        self.acked_features |= value;
        Ok(())
    }

    /// What is saved of the device.
    pub fn snapshot(&self) -> (snapshot: NetBackendSnapshot)
        ensures
            snapshot.acked_feature == self.acked_features,
    {
        NetBackendSnapshot { acked_feature: self.acked_features }
    }

    /// Loads what was saved of a device.
    pub fn restore(&mut self, net_backend_snapshot: NetBackendSnapshot)
        ensures
            *final(self) == (NetBackend {
                acked_features: net_backend_snapshot.acked_feature,
                ..*old(self)
            }),
    {
        self.acked_features = net_backend_snapshot.acked_feature;
    }
}

} // verus!
