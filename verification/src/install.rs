use vstd::prelude::*;
use crate::error::{DetourFailure, HookError};
use crate::hooks::{
    lemma_names_plain_ascii, lemma_plain_ascii_has_no_nul, spec_module_name, spec_symbol_name, Hook,
};
use crate::lookup::{LookupStage, LookupStep, ProcAddressLookup};
use crate::wide::encode_utf16;

verus! {

/// A request to hook a function. `custom` asks for the caller's own hook
/// procedure in place of the library's logging one; `enable` asks for the
/// detour to be enabled as soon as it is made.
#[derive(Debug, Clone, Copy, PartialEq, Eq, Structural)]
pub struct HookRequest {
    pub hook: Hook,
    pub custom: bool,
    pub enable: bool,
}

/// What an installation waits for next.
#[derive(Debug, Clone, Copy, PartialEq, Eq, Structural)]
pub enum InstallStage {
    /// The handle of the module, from `GetModuleHandleW`.
    ModuleHandle,
    /// The address of the function, from `GetProcAddress`.
    ProcAddress,
    /// Whether the detour was made.
    DetourCreated,
    /// Whether the detour was enabled.
    Enabled,
    /// Whether the detour was stored in its slot.
    Stored,
    /// Nothing: the installation has its result.
    Finished,
}

/// A reply to an installation step, as the installation records it.
#[derive(Debug, Clone, Copy)]
pub enum InstallReply {
    ModuleHandle(usize),
    ProcAddress(usize),
    DetourCreated(Result<(), DetourFailure>),
    Enabled(Result<(), DetourFailure>),
    Stored(bool),
}

/// The next thing an installation needs done, or its result.
#[derive(Debug)]
pub enum InstallStep {
    /// Call `GetModuleHandleW` on this NUL-terminated wide module name.
    QueryModuleHandle { module: Vec<u16> },
    /// Call `GetProcAddress` on this module handle and NUL-terminated symbol.
    QueryProcAddress { module_handle: usize, symbol: Vec<u8> },
    /// Make a detour of the function at `target`, to the caller's own hook
    /// procedure when `custom` holds, else to the library's.
    CreateDetour { target: usize, custom: bool },
    /// Enable the detour just made.
    EnableDetour,
    /// Put the detour in the hook's slot, which must still be empty.
    StoreDetour,
    /// The installation is over.
    Finished(Result<(), HookError>),
}

/// The stage a reply answers.
pub open spec fn reply_stage(reply: InstallReply) -> InstallStage {
    match reply {
        InstallReply::ModuleHandle(_) => InstallStage::ModuleHandle,
        InstallReply::ProcAddress(_) => InstallStage::ProcAddress,
        InstallReply::DetourCreated(_) => InstallStage::DetourCreated,
        InstallReply::Enabled(_) => InstallStage::Enabled,
        InstallReply::Stored(_) => InstallStage::Stored,
    }
}

/// True when a reply reports success: a non-null handle or address, a detour
/// made or enabled, an empty slot filled.
pub open spec fn is_success(reply: InstallReply) -> bool {
    match reply {
        InstallReply::ModuleHandle(h) => h != 0,
        InstallReply::ProcAddress(a) => a != 0,
        InstallReply::DetourCreated(r) => r is Ok,
        InstallReply::Enabled(r) => r is Ok,
        InstallReply::Stored(b) => b,
    }
}

/// The stages of an installation, in order. Enabling is a stage only when
/// the request asks for it.
pub open spec fn stages(enable: bool) -> Seq<InstallStage> {
    if enable {
        seq![
            InstallStage::ModuleHandle,
            InstallStage::ProcAddress,
            InstallStage::DetourCreated,
            InstallStage::Enabled,
            InstallStage::Stored,
        ]
    } else {
        seq![
            InstallStage::ModuleHandle,
            InstallStage::ProcAddress,
            InstallStage::DetourCreated,
            InstallStage::Stored,
        ]
    }
}

/// True when `history` answers the first `history.len()` stages in order,
/// each with success.
pub open spec fn successful_prefix(history: Seq<InstallReply>, enable: bool) -> bool {
    &&& history.len() <= stages(enable).len()
    &&& forall|i: int|
        0 <= i < history.len() ==> reply_stage(#[trigger] history[i]) == stages(enable)[i]
            && is_success(history[i])
}

/// True when `history` answers every stage in order, each with success.
pub open spec fn successful_history(history: Seq<InstallReply>, enable: bool) -> bool {
    &&& successful_prefix(history, enable)
    &&& history.len() == stages(enable).len()
}

/// The installation of a hook: the function is looked up, a detour made,
/// enabled when asked for, and stored in the hook's slot.
pub struct HookInstall {
    request: HookRequest,
    lookup: ProcAddressLookup,
    stage: InstallStage,
    history: Ghost<Seq<InstallReply>>,
}

impl HookInstall {
    /// What the installation waits for.
    pub closed spec fn stage(&self) -> InstallStage {
        self.stage
    }

    /// The request being carried out.
    pub closed spec fn request(&self) -> HookRequest {
        self.request
    }

    /// The replies taken so far, in order.
    pub closed spec fn history(&self) -> Seq<InstallReply> {
        self.history@
    }

    /// The invariant of an unfinished installation: the replies so far
    /// answered the stages before the current one, each with success.
    pub closed spec fn wf(&self) -> bool {
        &&& self.stage != InstallStage::Finished ==> {
            &&& successful_prefix(self.history@, self.request.enable)
            &&& self.history@.len() < stages(self.request.enable).len()
            &&& stages(self.request.enable)[self.history@.len() as int] == self.stage
        }
        &&& self.stage == InstallStage::ModuleHandle ==> self.lookup.stage()
            == LookupStage::ModuleHandle
        &&& self.stage == InstallStage::ProcAddress ==> self.lookup.stage()
            == LookupStage::ProcAddress
        &&& self.lookup.symbol() == encode_utf8_of(spec_symbol_name(self.request.hook)).push(0u8)
    }

    /// What the installation waits for.
    pub fn current_stage(&self) -> (s: InstallStage)
        ensures
            s == self.stage(),
    {
        self.stage
    }

    /// Starts installing the hook that `request` names: its module is looked
    /// up first.
    pub fn start(request: HookRequest) -> (r: (HookInstall, InstallStep))
        ensures
            r.0.wf(),
            r.0.request() == request,
            r.0.history() == Seq::<InstallReply>::empty(),
            r.0.stage() == InstallStage::ModuleHandle,
            r.1 matches InstallStep::QueryModuleHandle { module: w } && w@ == encode_utf16(
                spec_module_name(request.hook),
            ).push(0u16),
    {
        let module = request.hook.module_name();
        let symbol = request.hook.symbol_name();
        proof {
            lemma_names_plain_ascii(request.hook);
            lemma_plain_ascii_has_no_nul(symbol@);
        }
        let (lookup, step) = ProcAddressLookup::start(module, symbol);
        let install = HookInstall {
            request,
            lookup,
            stage: InstallStage::ModuleHandle,
            history: Ghost(Seq::empty()),
        };
        let step = match step {
            LookupStep::QueryModuleHandle { module } => InstallStep::QueryModuleHandle { module },
            LookupStep::QueryProcAddress { module_handle, symbol } => InstallStep::QueryProcAddress {
                module_handle,
                symbol,
            },
            LookupStep::Finished(Err(e)) => InstallStep::Finished(Err(e)),
            LookupStep::Finished(Ok(_)) => InstallStep::Finished(Err(HookError::SymbolNotFound)),
        };
        (install, step)
    }

    /// Takes the module handle. A null handle means the module is not loaded.
    pub fn on_module_handle(&mut self, handle: usize) -> (step: InstallStep)
        requires
            old(self).wf(),
            old(self).stage() == InstallStage::ModuleHandle,
        ensures
            final(self).wf(),
            final(self).request() == old(self).request(),
            final(self).history() == old(self).history().push(InstallReply::ModuleHandle(handle)),
            handle == 0 ==> {
                &&& final(self).stage() == InstallStage::Finished
                &&& step matches InstallStep::Finished(Err(HookError::ModuleNotFound))
            },
            handle != 0 ==> {
                &&& final(self).stage() == InstallStage::ProcAddress
                &&& step matches InstallStep::QueryProcAddress { module_handle, symbol }
                &&& module_handle == handle
                &&& symbol@ == encode_utf8_of(spec_symbol_name(old(self).request().hook)).push(0u8)
            },
            step matches InstallStep::Finished(res) ==> (res is Ok <==> successful_history(
                final(self).history(),
                final(self).request().enable,
            )),
    {
        let ghost h = self.history@.push(InstallReply::ModuleHandle(handle));
        self.history = Ghost(h);
        match self.lookup.on_module_handle(handle) {
            LookupStep::QueryProcAddress { module_handle, symbol } => {
                self.stage = InstallStage::ProcAddress;
                assert(reply_stage(h[0]) == stages(self.request.enable)[0]);
                InstallStep::QueryProcAddress { module_handle, symbol }
            },
            _ => {
                self.stage = InstallStage::Finished;
                assert(!is_success(h[0]));
                InstallStep::Finished(Err(HookError::ModuleNotFound))
            },
        }
    }

    /// Takes the function's address. A null address means the module does
    /// not export the function.
    pub fn on_proc_address(&mut self, address: usize) -> (step: InstallStep)
        requires
            old(self).wf(),
            old(self).stage() == InstallStage::ProcAddress,
        ensures
            final(self).wf(),
            final(self).request() == old(self).request(),
            final(self).history() == old(self).history().push(InstallReply::ProcAddress(address)),
            address == 0 ==> {
                &&& final(self).stage() == InstallStage::Finished
                &&& step matches InstallStep::Finished(Err(HookError::SymbolNotFound))
            },
            address != 0 ==> {
                &&& final(self).stage() == InstallStage::DetourCreated
                &&& step matches InstallStep::CreateDetour { target, custom }
                &&& target == address
                &&& custom == old(self).request().custom
            },
            step matches InstallStep::Finished(res) ==> (res is Ok <==> successful_history(
                final(self).history(),
                final(self).request().enable,
            )),
    {
        let ghost old_h = self.history@;
        let ghost h = old_h.push(InstallReply::ProcAddress(address));
        self.history = Ghost(h);
        assert(h[old_h.len() as int] == InstallReply::ProcAddress(address));
        match self.lookup.on_proc_address(address) {
            LookupStep::Finished(Ok(Some(target))) => {
                self.stage = InstallStage::DetourCreated;
                assert forall|i: int| 0 <= i < h.len() implies reply_stage(#[trigger] h[i])
                    == stages(self.request.enable)[i] && is_success(h[i]) by {
                    if i < old_h.len() {
                        assert(h[i] == old_h[i]);
                    }
                }
                InstallStep::CreateDetour { target, custom: self.request.custom }
            },
            _ => {
                self.stage = InstallStage::Finished;
                assert(!is_success(h[old_h.len() as int]));
                InstallStep::Finished(Err(HookError::SymbolNotFound))
            },
        }
    }

    /// Takes the outcome of making the detour. Once made, the detour is
    /// enabled when the request asks for it, and stored otherwise.
    pub fn on_detour_created(&mut self, created: Result<(), DetourFailure>) -> (step: InstallStep)
        requires
            old(self).wf(),
            old(self).stage() == InstallStage::DetourCreated,
        ensures
            final(self).wf(),
            final(self).request() == old(self).request(),
            final(self).history() == old(self).history().push(
                InstallReply::DetourCreated(created),
            ),
            created matches Err(f) ==> {
                &&& final(self).stage() == InstallStage::Finished
                &&& step matches InstallStep::Finished(Err(HookError::Detour(g)))
                &&& g == f
            },
            created is Ok && old(self).request().enable ==> {
                &&& final(self).stage() == InstallStage::Enabled
                &&& step matches InstallStep::EnableDetour
            },
            created is Ok && !old(self).request().enable ==> {
                &&& final(self).stage() == InstallStage::Stored
                &&& step matches InstallStep::StoreDetour
            },
            step matches InstallStep::Finished(res) ==> (res is Ok <==> successful_history(
                final(self).history(),
                final(self).request().enable,
            )),
    {
        let ghost old_h = self.history@;
        let ghost h = old_h.push(InstallReply::DetourCreated(created));
        self.history = Ghost(h);
        assert(h[old_h.len() as int] == InstallReply::DetourCreated(created));
        match created {
            Ok(()) => {
                self.stage = if self.request.enable {
                    InstallStage::Enabled
                } else {
                    InstallStage::Stored
                };
                assert forall|i: int| 0 <= i < h.len() implies reply_stage(#[trigger] h[i])
                    == stages(self.request.enable)[i] && is_success(h[i]) by {
                    if i < old_h.len() {
                        assert(h[i] == old_h[i]);
                    }
                }
                if self.request.enable {
                    InstallStep::EnableDetour
                } else {
                    InstallStep::StoreDetour
                }
            },
            Err(f) => {
                self.stage = InstallStage::Finished;
                assert(!is_success(h[old_h.len() as int]));
                InstallStep::Finished(Err(HookError::Detour(f)))
            },
        }
    }

    /// Takes the outcome of enabling the detour.
    pub fn on_enabled(&mut self, enabled: Result<(), DetourFailure>) -> (step: InstallStep)
        requires
            old(self).wf(),
            old(self).stage() == InstallStage::Enabled,
        ensures
            final(self).wf(),
            final(self).request() == old(self).request(),
            final(self).history() == old(self).history().push(InstallReply::Enabled(enabled)),
            enabled matches Err(f) ==> {
                &&& final(self).stage() == InstallStage::Finished
                &&& step matches InstallStep::Finished(Err(HookError::Detour(g)))
                &&& g == f
            },
            enabled is Ok ==> {
                &&& final(self).stage() == InstallStage::Stored
                &&& step matches InstallStep::StoreDetour
            },
            step matches InstallStep::Finished(res) ==> (res is Ok <==> successful_history(
                final(self).history(),
                final(self).request().enable,
            )),
    {
        let ghost old_h = self.history@;
        let ghost h = old_h.push(InstallReply::Enabled(enabled));
        self.history = Ghost(h);
        assert(h[old_h.len() as int] == InstallReply::Enabled(enabled));
        match enabled {
            Ok(()) => {
                self.stage = InstallStage::Stored;
                assert forall|i: int| 0 <= i < h.len() implies reply_stage(#[trigger] h[i])
                    == stages(self.request.enable)[i] && is_success(h[i]) by {
                    if i < old_h.len() {
                        assert(h[i] == old_h[i]);
                    }
                }
                InstallStep::StoreDetour
            },
            Err(f) => {
                self.stage = InstallStage::Finished;
                assert(!is_success(h[old_h.len() as int]));
                InstallStep::Finished(Err(HookError::Detour(f)))
            },
        }
    }

    /// Takes whether the detour went into the hook's slot. A slot that was
    /// filled before means the function was hooked already.
    pub fn on_stored(&mut self, stored: bool) -> (step: InstallStep)
        requires
            old(self).wf(),
            old(self).stage() == InstallStage::Stored,
        ensures
            final(self).wf(),
            final(self).request() == old(self).request(),
            final(self).history() == old(self).history().push(InstallReply::Stored(stored)),
            final(self).stage() == InstallStage::Finished,
            stored ==> step matches InstallStep::Finished(Ok(())),
            !stored ==> step matches InstallStep::Finished(Err(HookError::AlreadyHooked)),
            step matches InstallStep::Finished(res) ==> (res is Ok <==> successful_history(
                final(self).history(),
                final(self).request().enable,
            )),
    {
        let ghost old_h = self.history@;
        let ghost h = old_h.push(InstallReply::Stored(stored));
        self.history = Ghost(h);
        self.stage = InstallStage::Finished;
        assert(h[old_h.len() as int] == InstallReply::Stored(stored));
        if stored {
            assert forall|i: int| 0 <= i < h.len() implies reply_stage(#[trigger] h[i])
                == stages(self.request.enable)[i] && is_success(h[i]) by {
                if i < old_h.len() {
                    assert(h[i] == old_h[i]);
                }
            }
            InstallStep::Finished(Ok(()))
        } else {
            assert(!is_success(h[old_h.len() as int]));
            InstallStep::Finished(Err(HookError::AlreadyHooked))
        }
    }
}

/// A successful installation enabled its detour exactly when the request
/// asked for it; either way the detour was made before it was stored, and
/// stored last.
pub proof fn law_successful_install(history: Seq<InstallReply>, enable: bool)
    requires
        successful_history(history, enable),
    ensures
        (exists|i: int|
            0 <= i < history.len() && reply_stage(#[trigger] history[i]) == InstallStage::Enabled)
            <==> enable,
        history[2] matches InstallReply::DetourCreated(Ok(_)),
        history.last() == InstallReply::Stored(true),
{
    assert(reply_stage(history[2]) == InstallStage::DetourCreated && is_success(history[2]));
    let last = history.len() - 1;
    assert(reply_stage(history[last]) == InstallStage::Stored && is_success(history[last]));
    if enable {
        assert(reply_stage(history[3]) == InstallStage::Enabled);
    } else {
        assert forall|i: int| 0 <= i < history.len() implies reply_stage(#[trigger] history[i])
            != InstallStage::Enabled by {
            assert(reply_stage(history[i]) == stages(enable)[i]);
        }
    }
}

/// The UTF-8 bytes of a text.
pub open spec fn encode_utf8_of(text: Seq<char>) -> Seq<u8> {
    vstd::utf8::encode_utf8(text)
}

} // verus!
