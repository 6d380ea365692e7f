use vstd::prelude::*;
use crate::gatt::{
    check_service, find_characteristics, can_subscribe, first_status_at, first_write_at,
    has_status_char, has_write_char, CharInfo, SERVICE_UUID,
};
use crate::retry::{connect_policy, Attempt, Retrier};

verus! {

/// Pause after service discovery before characteristics are looked up.
pub const SETTLE_MS: u64 = 200;

/// Where one connection attempt stands.
#[derive(Clone, Copy, Debug, PartialEq, Eq)]
pub enum ConnPhase {
    Disconnected,
    Connecting,
    ServiceDiscovery,
    Ready,
    Failed,
}

/// What the caller does next while connecting.
#[derive(Clone, Debug, PartialEq, Eq)]
pub enum ConnectAction {
    /// Try to connect now.
    Connect,
    /// The try failed: wait this long, then try to connect again.
    RetryAfter(u64),
    /// Run service discovery, then wait `settle_ms` before reporting it.
    Discover { settle_ms: u64 },
    /// Give up with this error.
    Fail(String),
}

/// The characteristics a ready connection works with.
#[derive(Clone, Copy, Debug, PartialEq, Eq)]
pub struct LinkSetup {
    pub write: CharInfo,
    pub status: CharInfo,
    /// The status characteristic pushes values, so subscribe to it;
    /// otherwise the connection runs without status feedback.
    pub subscribe: bool,
}

/// Decisions of one connection attempt to a peripheral. The caller performs
/// the link check, the connects, the discovery and the waits.
pub struct ConnectSession {
    pub phase: ConnPhase,
    pub retry: Retrier,
}

impl ConnectSession {
    pub open spec fn wf(self) -> bool {
        &&& self.retry.policy.max_attempts == 3
        &&& self.retry.policy.delay_ms == 500
        &&& self.phase == ConnPhase::Connecting ==> self.retry.may_try()
    }

    pub fn new() -> (r: ConnectSession)
        ensures
            r.wf(),
            r.phase == ConnPhase::Disconnected,
            r.retry.failures == 0,
    {
        ConnectSession { phase: ConnPhase::Disconnected, retry: Retrier::new(connect_policy()) }
    }

    /// Starts from whether the link is already up: if so the connect step is
    /// skipped.
    pub fn on_link_checked(&mut self, link_up: bool) -> (r: ConnectAction)
        requires
            old(self).wf(),
            old(self).phase == ConnPhase::Disconnected,
        ensures
            final(self).wf(),
            link_up ==> (final(self).phase == ConnPhase::ServiceDiscovery && r
                == (ConnectAction::Discover { settle_ms: SETTLE_MS })),
            !link_up ==> (final(self).phase == ConnPhase::Connecting && r == ConnectAction::Connect
                && final(self).retry.failures == 0),
    {
        if link_up {
            self.phase = ConnPhase::ServiceDiscovery;
            ConnectAction::Discover { settle_ms: SETTLE_MS }
        } else {
            self.phase = ConnPhase::Connecting;
            self.retry = Retrier::new(connect_policy());
            ConnectAction::Connect
        }
    }

    /// Takes the outcome of one connect try: up to three tries, 500 ms apart;
    /// the first success goes on to discovery, the third failure gives up
    /// with its error.
    pub fn on_connect_result(&mut self, result: Result<(), String>) -> (r: ConnectAction)
        requires
            old(self).wf(),
            old(self).phase == ConnPhase::Connecting,
        ensures
            final(self).wf(),
            match result {
                Ok(()) => (final(self).phase == ConnPhase::ServiceDiscovery && r
                    == (ConnectAction::Discover { settle_ms: SETTLE_MS })),
                Err(e) => {
                    &&& final(self).retry.failures == old(self).retry.failures + 1
                    &&& old(self).retry.failures + 1 < 3 ==> final(self).phase
                        == ConnPhase::Connecting && r == ConnectAction::RetryAfter(500)
                    &&& old(self).retry.failures + 1 >= 3 ==> final(self).phase == ConnPhase::Failed
                        && (r matches ConnectAction::Fail(f) && f@ == e@)
                },
            },
    {
        match self.retry.record(result) {
            Attempt::Succeeded => {
                self.phase = ConnPhase::ServiceDiscovery;
                ConnectAction::Discover { settle_ms: SETTLE_MS }
            },
            Attempt::RetryAfter(ms) => ConnectAction::RetryAfter(ms),
            Attempt::GaveUp(e) => {
                self.phase = ConnPhase::Failed;
                ConnectAction::Fail(e)
            },
        }
    }

    /// Takes what discovery found. The provisioning service and both
    /// characteristics must be there; missing ones fail the connection for
    /// good.
    pub fn on_discovered(&mut self, services: &Vec<u128>, chars: &Vec<CharInfo>) -> (r: Result<
        LinkSetup,
        String,
    >)
        requires
            old(self).wf(),
            old(self).phase == ConnPhase::ServiceDiscovery,
        ensures
            final(self).wf(),
            r is Ok <==> services@.contains(SERVICE_UUID) && has_write_char(chars@)
                && has_status_char(chars@),
            r is Ok ==> final(self).phase == ConnPhase::Ready,
            r is Err ==> final(self).phase == ConnPhase::Failed,
            !services@.contains(SERVICE_UUID) ==> (r matches Err(e) && e@
                == "NETCFG_BLE service not found"@),
            services@.contains(SERVICE_UUID) && !has_write_char(chars@) ==> (r matches Err(e) && e@
                == "Write characteristic not found"@),
            services@.contains(SERVICE_UUID) && has_write_char(chars@) && !has_status_char(chars@)
                ==> (r matches Err(e) && e@ == "Status characteristic not found"@),
            r matches Ok(s) ==> {
                &&& exists|i: int, k: int|
                    first_write_at(chars@, i) && first_status_at(chars@, k) && s.write == chars@[i]
                        && s.status == chars@[k]
                &&& s.subscribe == (s.status.notify || s.status.indicate)
            },
    {
        if let Err(e) = check_service(services) {
            self.phase = ConnPhase::Failed;
            return Err(e);
        }
        match find_characteristics(chars) {
            Ok((write, status)) => {
                self.phase = ConnPhase::Ready;
                Ok(LinkSetup { write, status, subscribe: can_subscribe(&status) })
            },
            Err(e) => {
                self.phase = ConnPhase::Failed;
                Err(e)
            },
        }
    }
}

} // verus!
