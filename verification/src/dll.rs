use vstd::prelude::*;
use crate::hooks::Hook;
use crate::install::HookRequest;

verus! {

/// `fdwReason` of `DllMain`: the DLL is being unloaded from the process.
pub const DLL_PROCESS_DETACH: u32 = 0;

/// `fdwReason` of `DllMain`: the DLL is being loaded into the process.
pub const DLL_PROCESS_ATTACH: u32 = 1;

/// The `BOOL` value `TRUE`.
pub const TRUE: i32 = 1;

/// What the DLL entry point does for one notification.
#[derive(Debug, Clone, Copy, PartialEq, Eq, Structural)]
pub struct EntryDecision {
    /// Whether to set up the monitor: stop thread notifications, open the
    /// log and install the hooks.
    pub attach: bool,
    /// The value the entry point returns.
    pub result: i32,
}

/// The decision of the DLL entry point for the notification `call_reason`:
/// the monitor is set up when the DLL is loaded into a process, and nothing
/// is done otherwise. The entry point always reports success.
pub fn entry_decision(call_reason: u32) -> (d: EntryDecision)
    ensures
        d.attach <==> call_reason == DLL_PROCESS_ATTACH,
        d.result == TRUE,
{
    match call_reason {
        DLL_PROCESS_ATTACH => EntryDecision { attach: true, result: TRUE },
        _ => EntryDecision { attach: false, result: TRUE },
    }
}

/// The hooks the DLL installs when it is loaded, in order.
pub open spec fn spec_attached_hooks() -> Seq<Hook> {
    seq![
        Hook::ReadFile,
        Hook::GetFinalPathNameByHandleA,
        Hook::LoadLibraryA,
        Hook::LoadLibraryW,
        Hook::GetProcAddress,
        Hook::CreateFileA,
    ]
}

/// The `i`-th request the DLL carries out when it is loaded: a hook of
/// [`spec_attached_hooks`] with the library's own hook procedure, enabled.
pub open spec fn spec_attach_request(i: int) -> HookRequest {
    HookRequest { hook: spec_attached_hooks()[i], custom: false, enable: true }
}

/// The requests the DLL carries out, in order, when it is loaded: each hook
/// of [`spec_attached_hooks`] with the library's own hook procedure, enabled.
pub fn attach_plan() -> (plan: Vec<HookRequest>)
    ensures
        plan@.len() == spec_attached_hooks().len(),
        forall|i: int|
            0 <= i < plan@.len() ==> #[trigger] plan@[i] == spec_attach_request(i),
{
    let hooks = [
        Hook::ReadFile,
        Hook::GetFinalPathNameByHandleA,
        Hook::LoadLibraryA,
        Hook::LoadLibraryW,
        Hook::GetProcAddress,
        Hook::CreateFileA,
    ];
    let mut plan: Vec<HookRequest> = Vec::new();
    let mut i: usize = 0;
    while i < 6
        invariant
            i <= 6,
            hooks@ == spec_attached_hooks(),
            plan@.len() == i,
            forall|j: int|
                0 <= j < i ==> #[trigger] plan@[j] == (HookRequest {
                    hook: spec_attached_hooks()[j],
                    custom: false,
                    enable: true,
                }),
        decreases 6 - i,
    {
        plan.push(HookRequest { hook: hooks[i], custom: false, enable: true });
        i = i + 1;
    }
    plan
}

/// What the setup of the monitor does next.
#[derive(Debug)]
pub enum AttachStep<E> {
    /// Carry out this hook request and report its outcome.
    Install(HookRequest),
    /// The setup is over: every request succeeded, or the first failure's
    /// error.
    Finished(Result<(), E>),
}

/// The setup of the monitor when the DLL is loaded: the requests of
/// [`attach_plan`] are carried out in order, and the first that fails ends
/// the setup with its error.
pub struct AttachSetup {
    plan: Vec<HookRequest>,
    next: usize,
    finished: bool,
}

impl AttachSetup {
    /// How many requests have succeeded so far.
    pub closed spec fn succeeded(&self) -> nat {
        self.next as nat
    }

    /// Whether the setup is over.
    pub closed spec fn is_finished(&self) -> bool {
        self.finished
    }

    /// The invariant of the setup: it follows the plan, and an unfinished
    /// setup waits for the outcome of the request after those that succeeded.
    pub closed spec fn wf(&self) -> bool {
        &&& self.plan@.len() == spec_attached_hooks().len()
        &&& forall|i: int| 0 <= i < self.plan@.len() ==> #[trigger] self.plan@[i] == spec_attach_request(i)
        &&& self.next <= self.plan@.len()
        &&& !self.finished ==> self.next < self.plan@.len()
    }

    /// Starts the setup: the first request of the plan is carried out first.
    pub fn start<E>() -> (r: (AttachSetup, AttachStep<E>))
        ensures
            r.0.wf(),
            !r.0.is_finished(),
            r.0.succeeded() == 0,
            r.1 matches AttachStep::Install(req) && req == spec_attach_request(0),
    {
        let plan = attach_plan();
        let first = plan[0];
        (AttachSetup { plan, next: 0, finished: false }, AttachStep::Install(first))
    }

    /// Takes the outcome of the request being carried out. A failure ends the
    /// setup with its error; a success leads to the next request, or ends
    /// the setup successfully after the last.
    pub fn on_installed<E>(&mut self, outcome: Result<(), E>) -> (step: AttachStep<E>)
        requires
            old(self).wf(),
            !old(self).is_finished(),
        ensures
            final(self).wf(),
            outcome matches Err(e) ==> {
                &&& final(self).is_finished()
                &&& final(self).succeeded() == old(self).succeeded()
                &&& step matches AttachStep::Finished(Err(f))
                &&& f == e
            },
            outcome is Ok && old(self).succeeded() + 1 < spec_attached_hooks().len() ==> {
                &&& !final(self).is_finished()
                &&& final(self).succeeded() == old(self).succeeded() + 1
                &&& step matches AttachStep::Install(req)
                &&& req == spec_attach_request(old(self).succeeded() + 1int)
            },
            outcome is Ok && old(self).succeeded() + 1 == spec_attached_hooks().len() ==> {
                &&& final(self).is_finished()
                &&& final(self).succeeded() == spec_attached_hooks().len()
                &&& step matches AttachStep::Finished(Ok(()))
            },
    {
        match outcome {
            Err(e) => {
                self.finished = true;
                AttachStep::Finished(Err(e))
            },
            Ok(()) => {
                self.next = self.next + 1;
                if self.next < self.plan.len() {
                    AttachStep::Install(self.plan[self.next])
                } else {
                    self.finished = true;
                    AttachStep::Finished(Ok(()))
                }
            },
        }
    }
}

} // verus!
