use vstd::prelude::*;
use vstd::string::StringSliceAdditionalSpecFns;
use crate::cstr::{c_string, has_no_nul, is_first_nul};
use crate::error::HookError;
use crate::wide::{encode_utf16, to_wide_nul};

verus! {

/// What a lookup waits for next.
#[derive(Debug, Clone, Copy, PartialEq, Eq, Structural)]
pub enum LookupStage {
    /// The handle of the module, from `GetModuleHandleW`.
    ModuleHandle,
    /// The address of the symbol, from `GetProcAddress`.
    ProcAddress,
    /// Nothing: the lookup has its result.
    Finished,
}

/// The next thing a lookup needs done, or its result.
#[derive(Debug)]
pub enum LookupStep {
    /// Call `GetModuleHandleW` on this NUL-terminated wide module name.
    QueryModuleHandle { module: Vec<u16> },
    /// Call `GetProcAddress` on this module handle and NUL-terminated symbol.
    QueryProcAddress { module_handle: usize, symbol: Vec<u8> },
    /// The address of the symbol (`None` when the module does not export it),
    /// or why it could not be looked up.
    Finished(Result<Option<usize>, HookError>),
}

/// The address of `symbol` in the loaded module `module`: the symbol is made
/// a C string, the module's handle is looked up, then the symbol's address.
pub struct ProcAddressLookup {
    symbol: Vec<u8>,
    stage: LookupStage,
}

impl ProcAddressLookup {
    /// What the lookup waits for.
    pub closed spec fn stage(&self) -> LookupStage {
        self.stage
    }

    /// The symbol as a C string.
    pub closed spec fn symbol(&self) -> Seq<u8> {
        self.symbol@
    }

    /// What the lookup waits for.
    pub fn current_stage(&self) -> (s: LookupStage)
        ensures
            s == self.stage(),
    {
        self.stage
    }

    /// Starts looking up `symbol` in `module`. A symbol that holds a NUL byte
    /// is refused at once, before the module is looked up.
    pub fn start(module: &str, symbol: &str) -> (r: (ProcAddressLookup, LookupStep))
        ensures
            has_no_nul(symbol.spec_bytes()) ==> {
                &&& r.0.stage() == LookupStage::ModuleHandle
                &&& r.0.symbol() == symbol.spec_bytes().push(0u8)
                &&& r.1 matches LookupStep::QueryModuleHandle { module: w }
                &&& w@ == encode_utf16(module@).push(0u16)
            },
            !has_no_nul(symbol.spec_bytes()) ==> {
                &&& r.0.stage() == LookupStage::Finished
                &&& r.1 matches LookupStep::Finished(Err(HookError::NulInSymbol(e)))
                &&& is_first_nul(symbol.spec_bytes(), e.position as int)
            },
    {
        match c_string(symbol) {
            Ok(c) => {
                let w = to_wide_nul(module);
                (
                    ProcAddressLookup { symbol: c, stage: LookupStage::ModuleHandle },
                    LookupStep::QueryModuleHandle { module: w },
                )
            },
            Err(e) => (
                ProcAddressLookup { symbol: Vec::new(), stage: LookupStage::Finished },
                LookupStep::Finished(Err(HookError::NulInSymbol(e))),
            ),
        }
    }

    /// Takes the module handle. A null handle means the module is not loaded.
    pub fn on_module_handle(&mut self, handle: usize) -> (step: LookupStep)
        requires
            old(self).stage() == LookupStage::ModuleHandle,
        ensures
            final(self).symbol() == old(self).symbol(),
            handle == 0 ==> {
                &&& final(self).stage() == LookupStage::Finished
                &&& step matches LookupStep::Finished(Err(HookError::ModuleNotFound))
            },
            handle != 0 ==> {
                &&& final(self).stage() == LookupStage::ProcAddress
                &&& step matches LookupStep::QueryProcAddress { module_handle, symbol }
                &&& module_handle == handle
                &&& symbol@ == old(self).symbol()
            },
    {
        if handle == 0 {
            self.stage = LookupStage::Finished;
            LookupStep::Finished(Err(HookError::ModuleNotFound))
        } else {
            self.stage = LookupStage::ProcAddress;
            LookupStep::QueryProcAddress { module_handle: handle, symbol: self.symbol.clone() }
        }
    }

    /// Takes the symbol's address. A null address means the module does not
    /// export the symbol, which is no error.
    pub fn on_proc_address(&mut self, address: usize) -> (step: LookupStep)
        requires
            old(self).stage() == LookupStage::ProcAddress,
        ensures
            final(self).symbol() == old(self).symbol(),
            final(self).stage() == LookupStage::Finished,
            address == 0 ==> step matches LookupStep::Finished(Ok(None)),
            address != 0 ==> (step matches LookupStep::Finished(Ok(Some(a))) && a == address),
    {
        self.stage = LookupStage::Finished;
        if address == 0 {
            LookupStep::Finished(Ok(None))
        } else {
            LookupStep::Finished(Ok(Some(address)))
        }
    }
}

} // verus!
