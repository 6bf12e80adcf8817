//! The shutdown policy: a caller-supplied list of shutdown methods is tried
//! strictly in order, each attempt bounded by the caller's timeout, and the
//! first success ends the walk.

use vstd::prelude::*;

use crate::vm::api::{ApiRequest, ApiRequestBody, UpdatedVmState, VmActionType};

verus! {

/// One way of asking the VMM to go away. Methods that act on the guest or
/// the API socket may fail or time out; a later method in the caller's list
/// is then tried.
#[derive(Debug, Clone, Copy, PartialEq, Eq, Structural)]
pub enum VmShutdownMethod {
    /// Ask the guest to shut down by injecting Ctrl+Alt+Del.
    CtrlAltDel,
    /// Pause the VM through the API, then kill the VMM process.
    PauseThenKill,
    /// Write a reboot request to the VMM's standard input (requires attached
    /// pipes).
    WriteRebootToStdin,
    /// Kill the VMM process outright.
    Kill,
}

impl VmShutdownMethod {
    /// The API request this method starts with, when it speaks to the API.
    pub fn api_request(&self) -> (r: Option<ApiRequest>)
        ensures
            match *self {
                VmShutdownMethod::CtrlAltDel => r matches Some(q) && q.deep_view().method
                    == "PUT"@ && q.deep_view().route == "/actions"@ && q.body
                    == ApiRequestBody::Action(VmActionType::SendCtrlAltDel),
                VmShutdownMethod::PauseThenKill => r matches Some(q) && q.deep_view().method
                    == "PATCH"@ && q.deep_view().route == "/vm"@ && q.body
                    == ApiRequestBody::UpdateState(UpdatedVmState::Paused),
                _ => r is None,
            },
    {
        match self {
            VmShutdownMethod::CtrlAltDel => Some(
                ApiRequest {
                    method: "PUT".to_owned(),
                    route: "/actions".to_owned(),
                    body: ApiRequestBody::Action(VmActionType::SendCtrlAltDel),
                },
            ),
            VmShutdownMethod::PauseThenKill => Some(
                ApiRequest {
                    method: "PATCH".to_owned(),
                    route: "/vm".to_owned(),
                    body: ApiRequestBody::UpdateState(UpdatedVmState::Paused),
                },
            ),
            VmShutdownMethod::WriteRebootToStdin => None,
            VmShutdownMethod::Kill => None,
        }
    }

    /// What this method writes to the VMM's standard input, if anything.
    pub fn stdin_payload(&self) -> (r: Option<&'static str>)
        ensures
            match *self {
                VmShutdownMethod::WriteRebootToStdin => r matches Some(s) && s@ == "reboot\n"@,
                _ => r is None,
            },
    {
        match self {
            VmShutdownMethod::WriteRebootToStdin => Some("reboot\n"),
            _ => None,
        }
    }

    /// Whether this method ends by killing the VMM process.
    pub fn kills_process(&self) -> (r: bool)
        ensures
            r == (*self == VmShutdownMethod::PauseThenKill || *self == VmShutdownMethod::Kill),
    {
        match self {
            VmShutdownMethod::PauseThenKill | VmShutdownMethod::Kill => true,
            _ => false,
        }
    }
}

/// The walk through a shutdown method list. The driver asks for the current
/// method, carries out its action bounded by the caller's timeout, and
/// records whether the VMM was seen to exit; a success ends the walk.
#[derive(Debug)]
pub struct VmShutdownState {
    pub methods: Vec<VmShutdownMethod>,
    pub next_index: usize,
    pub succeeded: bool,
}

/// The method that a shutdown walk attempts next, if any: none after a
/// success and none once the list is exhausted.
pub open spec fn current_method_spec(s: VmShutdownState) -> Option<VmShutdownMethod> {
    if s.succeeded || s.next_index >= s.methods@.len() {
        None
    } else {
        Some(s.methods@[s.next_index as int])
    }
}

/// How recording an attempt's outcome moves the walk: a success ends it, a
/// failure moves it to the next method.
pub open spec fn record_attempt_spec(s: VmShutdownState, attempt_succeeded: bool) -> VmShutdownState {
    if attempt_succeeded {
        VmShutdownState { succeeded: true, ..s }
    } else {
        VmShutdownState { next_index: (s.next_index + 1) as usize, ..s }
    }
}

impl VmShutdownState {
    /// A fresh walk over the given methods, none attempted yet.
    pub fn new(methods: Vec<VmShutdownMethod>) -> (r: Self)
        ensures
            r == (VmShutdownState { methods, next_index: 0, succeeded: false }),
    {
        VmShutdownState { methods, next_index: 0, succeeded: false }
    }

    /// The method to attempt next, if any.
    pub fn current_method(&self) -> (r: Option<VmShutdownMethod>)
        ensures
            r == current_method_spec(*self),
    {
        if self.succeeded || self.next_index >= self.methods.len() {
            None
        } else {
            Some(self.methods[self.next_index])
        }
    }

    /// Records the outcome of the current attempt.
    pub fn record_attempt(&mut self, attempt_succeeded: bool)
        requires
            !old(self).succeeded,
            old(self).next_index < old(self).methods@.len(),
        ensures
            *final(self) == record_attempt_spec(*old(self), attempt_succeeded),
    {
        if attempt_succeeded {
            self.succeeded = true;
        } else {
            let method_count = self.methods.len();
            assert(self.next_index < method_count);
            self.next_index = self.next_index + 1;
        }
    }

    /// Whether the walk ended with the VMM seen to exit.
    pub fn has_succeeded(&self) -> (r: bool)
        ensures
            r == self.succeeded,
    {
        self.succeeded
    }

    /// Whether the walk is over: a success, or every method attempted.
    pub fn is_finished(&self) -> (r: bool)
        ensures
            r == (current_method_spec(*self) is None),
    {
        self.succeeded || self.next_index >= self.methods.len()
    }
}

/// The walk after a given number of failed attempts from the start.
pub open spec fn after_failed_attempts(s: VmShutdownState, failures: nat) -> VmShutdownState
    decreases failures,
{
    if failures == 0 {
        s
    } else {
        record_attempt_spec(after_failed_attempts(s, (failures - 1) as nat), false)
    }
}

/// Shutdown ordering: in a fresh walk over a method list, the method at a
/// position is attempted exactly when every earlier method has been
/// attempted and failed; and once an attempt succeeds, no further method is
/// attempted.
pub proof fn lemma_shutdown_ordering(methods: Vec<VmShutdownMethod>, k: nat)
    requires
        k <= methods@.len(),
        methods@.len() <= usize::MAX,
    ensures
        ({
            let fresh = VmShutdownState { methods, next_index: 0, succeeded: false };
            let walked = after_failed_attempts(fresh, k);
            &&& walked.methods == methods
            &&& !walked.succeeded
            &&& walked.next_index == k
            &&& current_method_spec(walked) == (if k < methods@.len() {
                Some(methods@[k as int])
            } else {
                None::<VmShutdownMethod>
            })
            &&& current_method_spec(record_attempt_spec(walked, true))
                is None
        }),
    decreases k,
{
    if k > 0 {
        lemma_shutdown_ordering(methods, (k - 1) as nat);
    }
}

} // verus!
