use vstd::prelude::*;
use vstd::string::StringExecFns;
use crate::cstr::NulError;
use crate::decimal::{append_decimal, decimal};

verus! {

/// Why the detour library refused to create or enable a detour.
#[derive(Debug, Clone, Copy, PartialEq, Eq, Structural)]
pub enum DetourFailure {
    SameAddress,
    InvalidCode,
    NoPatchArea,
    NotExecutable,
    NotInitialized,
    AlreadyInitialized,
    OutOfMemory,
    UnsupportedInstruction,
    RegionFailure,
}

/// Why a function could not be found or hooked.
#[derive(Debug, Clone, Copy, PartialEq, Eq, Structural)]
pub enum HookError {
    /// The symbol name holds a NUL byte and cannot be passed as a C string.
    NulInSymbol(NulError),
    /// The module is not loaded in this process.
    ModuleNotFound,
    /// The module does not export the symbol.
    SymbolNotFound,
    /// The detour could not be created or enabled.
    Detour(DetourFailure),
    /// The function was hooked before: its detour slot is already filled.
    AlreadyHooked,
}

/// The text reported when a module is not loaded.
pub open spec fn module_not_found_text(module: Seq<char>) -> Seq<char> {
    "module "@ + module + " not found! (GetModuleHandleW)"@
}

/// The text reported when a module does not export a symbol.
pub open spec fn symbol_not_found_text(module: Seq<char>, symbol: Seq<char>) -> Seq<char> {
    module + "::"@ + symbol + " not found!"@
}

/// The text reported when a symbol name holds a NUL byte at `position`.
pub open spec fn nul_in_symbol_text(position: nat) -> Seq<char> {
    "nul byte found in provided data at position: "@ + decimal(position)
}

/// The text reported when a function was hooked before.
pub open spec fn already_hooked_text() -> Seq<char> {
    "Failed to initialize once cell."@
}

impl HookError {
    /// The message reported for this error when hooking `module::symbol`.
    /// A refusal of the detour library has its own text, none here.
    pub fn message(&self, module: &str, symbol: &str) -> (text: Option<String>)
        ensures
            match *self {
                HookError::ModuleNotFound => text matches Some(t) && t@ == module_not_found_text(
                    module@,
                ),
                HookError::SymbolNotFound => text matches Some(t) && t@ == symbol_not_found_text(
                    module@,
                    symbol@,
                ),
                HookError::AlreadyHooked => text matches Some(t) && t@ == already_hooked_text(),
                HookError::NulInSymbol(e) => text matches Some(t) && t@ == nul_in_symbol_text(
                    e.position as nat,
                ),
                HookError::Detour(_) => text is None,
            },
    {
        match self {
            HookError::ModuleNotFound => {
                let mut t = String::from_str("module ");
                t.append(module);
                t.append(" not found! (GetModuleHandleW)");
                Some(t)
            },
            HookError::SymbolNotFound => {
                let mut t = String::from_str(module);
                t.append("::");
                t.append(symbol);
                t.append(" not found!");
                Some(t)
            },
            HookError::AlreadyHooked => Some(String::from_str("Failed to initialize once cell.")),
            HookError::NulInSymbol(e) => {
                let mut t = String::from_str("nul byte found in provided data at position: ");
                append_decimal(&mut t, e.position);
                Some(t)
            },
            HookError::Detour(_) => None,
        }
    }
}

} // verus!
