//! The order in which service states are reported: what registration, the
//! supervisor's answers and its control codes lead to next.
use vstd::prelude::*;
use crate::status::ServiceState;

verus! {

pub const SERVICE_CONTROL_STOP: u32 = 1;
pub const SERVICE_CONTROL_SHUTDOWN: u32 = 5;

/// The control codes that end the service.
pub open spec fn is_stop_control(code: u32) -> bool {
    code == SERVICE_CONTROL_STOP || code == SERVICE_CONTROL_SHUTDOWN
}

/// Whether a control code asks the service to stop.
pub fn stop_requested(code: u32) -> (r: bool)
    ensures
        r == is_stop_control(code),
{
    code == SERVICE_CONTROL_STOP || code == SERVICE_CONTROL_SHUTDOWN
}

/// What happens to a registered service.
#[derive(Debug, Clone, Copy, PartialEq, Eq, Structural)]
pub enum LifecycleEvent {
    /// The control handler was registered and its handle published.
    Registered,
    /// The report of `state` was submitted; `accepted` is the supervisor's answer.
    Reported { state: ServiceState, accepted: bool },
    /// The supervisor delivered control code `code`.
    Control { code: u32 },
}

/// The report owed after `event`, when `last` is the latest state reported.
///
/// Registration starts the service; an accepted start is followed by
/// `Running`; a stop or shutdown control of a started service asks for
/// `StopPending`, and `Stopped` follows that report whatever its outcome.
pub open spec fn next_report(last: Option<ServiceState>, event: LifecycleEvent) -> Option<
    ServiceState,
> {
    match event {
        LifecycleEvent::Registered => {
            if last is None {
                Some(ServiceState::StartPending)
            } else {
                None
            }
        },
        LifecycleEvent::Reported { state, accepted } => {
            if last == Some(state) && state == ServiceState::StartPending && accepted {
                Some(ServiceState::Running)
            } else if last == Some(state) && state == ServiceState::StopPending {
                Some(ServiceState::Stopped)
            } else {
                None
            }
        },
        LifecycleEvent::Control { code } => {
            if is_stop_control(code) && (last == Some(ServiceState::StartPending) || last == Some(
                ServiceState::Running,
            )) {
                Some(ServiceState::StopPending)
            } else {
                None
            }
        },
    }
}

/// The states reported so far come in lifecycle order, none twice; `Running`
/// comes right after `StartPending` and `Stopped` right after `StopPending`.
pub open spec fn reports_in_order(h: Seq<ServiceState>) -> bool {
    &&& forall|i: int, j: int| 0 <= i < j < h.len() ==> #[trigger] h[i].rank() < #[trigger] h[j].rank()
    &&& forall|i: int|
        0 <= i < h.len() && #[trigger] h[i] == ServiceState::Running ==> i == 1 && h[0]
            == ServiceState::StartPending
    &&& forall|i: int|
        0 <= i < h.len() && #[trigger] h[i] == ServiceState::Stopped ==> i == h.len() - 1 && i
            >= 1 && h[h.len() - 2] == ServiceState::StopPending
}

/// The reporting state of one registered service.
pub struct Lifecycle {
    /// The latest state reported, if any.
    pub last: Option<ServiceState>,
    /// Every state reported, in order.
    pub history: Ghost<Seq<ServiceState>>,
}

impl Lifecycle {
    pub open spec fn wf(&self) -> bool {
        &&& reports_in_order(self.history@)
        &&& self.last == if self.history@.len() == 0 {
            None::<ServiceState>
        } else {
            Some(self.history@.last())
        }
    }

    /// A service that has reported nothing yet.
    pub fn new() -> (r: Lifecycle)
        ensures
            r.wf(),
            r.last is None,
            r.history@ == Seq::<ServiceState>::empty(),
    {
        Lifecycle { last: None, history: Ghost(Seq::empty()) }
    }

    /// Takes in `event` and returns the report to submit now, if any; that
    /// report is recorded as the latest.
    pub fn step(&mut self, event: LifecycleEvent) -> (r: Option<ServiceState>)
        requires
            old(self).wf(),
        ensures
            final(self).wf(),
            r == next_report(old(self).last, event),
            r matches Some(s) ==> final(self).last == Some(s) && final(self).history@ == old(
                self,
            ).history@.push(s),
            r is None ==> *final(self) == *old(self),
    {
        let next: Option<ServiceState> = match event {
            LifecycleEvent::Registered => {
                if self.last.is_none() {
                    Some(ServiceState::StartPending)
                } else {
                    None
                }
            },
            LifecycleEvent::Reported { state, accepted } => {
                let same = match self.last {
                    Some(l) => l == state,
                    None => false,
                };
                if same && state == ServiceState::StartPending && accepted {
                    Some(ServiceState::Running)
                } else if same && state == ServiceState::StopPending {
                    Some(ServiceState::Stopped)
                } else {
                    None
                }
            },
            LifecycleEvent::Control { code } => {
                let started = match self.last {
                    Some(ServiceState::StartPending) | Some(ServiceState::Running) => true,
                    _ => false,
                };
                if stop_requested(code) && started {
                    Some(ServiceState::StopPending)
                } else {
                    None
                }
            },
        };
        if let Some(s) = next {
            let ghost h = self.history@;
            self.history = Ghost(h.push(s));
            self.last = Some(s);
            proof {
                let h2 = h.push(s);
                if h.len() > 1 {
                    assert(h[0].rank() < h[h.len() - 1].rank());
                }
                assert forall|i: int, j: int| 0 <= i < j < h2.len() implies h2[i].rank()
                    < h2[j].rank() by {
                    if j == h.len() && i < h.len() - 1 {
                        assert(h[i].rank() < h[h.len() - 1].rank());
                    }
                }
            }
        }
        next
    }
}

/// Every history of reports that a lifecycle can hold is in lifecycle order:
/// `Running` never before `StartPending`, `Stopped` never without
/// `StopPending` just before it, and no state twice.
pub proof fn lemma_reports_follow_lifecycle(l: Lifecycle, i: int, j: int)
    requires
        l.wf(),
        0 <= i < j < l.history@.len(),
    ensures
        l.history@[i] != l.history@[j],
        l.history@[i].rank() < l.history@[j].rank(),
        l.history@[j] == ServiceState::Running ==> j == i + 1 && l.history@[i]
            == ServiceState::StartPending,
        l.history@[j] == ServiceState::Stopped ==> (l.history@[i] == ServiceState::StopPending
            <==> j == i + 1),
{
}

/// Once a stop or shutdown control has led to the `StopPending` report, the
/// `Stopped` report is owed next, whether the supervisor accepted the first
/// or not.
pub proof fn lemma_stop_always_reaches_stopped(l: Lifecycle, code: u32, accepted: bool)
    requires
        l.wf(),
        is_stop_control(code),
        l.last == Some(ServiceState::StartPending) || l.last == Some(ServiceState::Running),
    ensures
        next_report(l.last, LifecycleEvent::Control { code }) == Some(ServiceState::StopPending),
        next_report(
            Some(ServiceState::StopPending),
            LifecycleEvent::Reported { state: ServiceState::StopPending, accepted },
        ) == Some(ServiceState::Stopped),
{
}

} // verus!
