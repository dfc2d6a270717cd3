use vstd::prelude::*;
use vstd::utf8::{encode_utf8, is_ascii_chars, is_ascii_chars_encode_utf8};
use crate::cstr::has_no_nul;

verus! {

/// The Windows API functions that this library can hook.
#[derive(Debug, Clone, Copy, PartialEq, Eq, Structural)]
pub enum Hook {
    CreateFileA,
    GetFinalPathNameByHandleA,
    ReadFile,
    LoadLibraryA,
    LoadLibraryW,
    GetProcAddress,
    CreateThread,
    Sleep,
    DispatchMessageA,
    DispatchMessageW,
}

/// The module that exports the hooked function.
pub open spec fn spec_module_name(hook: Hook) -> Seq<char> {
    match hook {
        Hook::DispatchMessageA | Hook::DispatchMessageW => "USER32"@,
        _ => "kernel32"@,
    }
}

/// The exported symbol of the hooked function: the function's own name.
pub open spec fn spec_symbol_name(hook: Hook) -> Seq<char> {
    match hook {
        Hook::CreateFileA => "CreateFileA"@,
        Hook::GetFinalPathNameByHandleA => "GetFinalPathNameByHandleA"@,
        Hook::ReadFile => "ReadFile"@,
        Hook::LoadLibraryA => "LoadLibraryA"@,
        Hook::LoadLibraryW => "LoadLibraryW"@,
        Hook::GetProcAddress => "GetProcAddress"@,
        Hook::CreateThread => "CreateThread"@,
        Hook::Sleep => "Sleep"@,
        Hook::DispatchMessageA => "DispatchMessageA"@,
        Hook::DispatchMessageW => "DispatchMessageW"@,
    }
}

/// True when every character is ASCII and none is NUL.
pub open spec fn is_plain_ascii(text: Seq<char>) -> bool {
    forall|i: int| 0 <= i < text.len() ==> '\u{1}' <= #[trigger] text[i] <= '\u{7f}'
}

/// The UTF-8 bytes of plain ASCII text hold no zero byte.
pub proof fn lemma_plain_ascii_has_no_nul(text: Seq<char>)
    requires
        is_plain_ascii(text),
    ensures
        has_no_nul(encode_utf8(text)),
{
    assert(is_ascii_chars(text));
    is_ascii_chars_encode_utf8(text);
    assert forall|i: int| 0 <= i < encode_utf8(text).len() implies encode_utf8(text)[i] != 0 by {
        let c = text[i];
        assert(1 <= c as u32 <= 0x7f);
        assert((c as u32) as u8 == c as u8);
    }
}

/// Module and symbol names of every hook are plain ASCII.
pub proof fn lemma_names_plain_ascii(hook: Hook)
    ensures
        is_plain_ascii(spec_module_name(hook)),
        is_plain_ascii(spec_symbol_name(hook)),
{
    reveal_strlit("USER32");
    reveal_strlit("kernel32");
    reveal_strlit("CreateFileA");
    reveal_strlit("GetFinalPathNameByHandleA");
    reveal_strlit("ReadFile");
    reveal_strlit("LoadLibraryA");
    reveal_strlit("LoadLibraryW");
    reveal_strlit("GetProcAddress");
    reveal_strlit("CreateThread");
    reveal_strlit("Sleep");
    reveal_strlit("DispatchMessageA");
    reveal_strlit("DispatchMessageW");
}

/// Distinct hooks hook distinct functions: no two hooks name the same
/// exported symbol.
pub proof fn law_symbol_names_distinct(a: Hook, b: Hook)
    requires
        a != b,
    ensures
        spec_symbol_name(a) != spec_symbol_name(b),
{
    lemma_names_plain_ascii(a);
    reveal_strlit("CreateFileA");
    reveal_strlit("GetFinalPathNameByHandleA");
    reveal_strlit("ReadFile");
    reveal_strlit("LoadLibraryA");
    reveal_strlit("LoadLibraryW");
    reveal_strlit("GetProcAddress");
    reveal_strlit("CreateThread");
    reveal_strlit("Sleep");
    reveal_strlit("DispatchMessageA");
    reveal_strlit("DispatchMessageW");
    let x = spec_symbol_name(a);
    let y = spec_symbol_name(b);
    if x.len() == y.len() {
        assert(x[x.len() - 1] != y[y.len() - 1] || x[0] != y[0]);
    }
}

/// The ANSI and wide forms of a function share one name and differ only in
/// its last letter: `A` for the ANSI form, `W` for the wide one.
pub proof fn law_ansi_wide_pairs(ansi: Hook, wide: Hook)
    requires
        (ansi == Hook::LoadLibraryA && wide == Hook::LoadLibraryW) || (ansi
            == Hook::DispatchMessageA && wide == Hook::DispatchMessageW),
    ensures
        spec_symbol_name(ansi).len() == spec_symbol_name(wide).len(),
        spec_symbol_name(ansi).drop_last() == spec_symbol_name(wide).drop_last(),
        spec_symbol_name(ansi).last() == 'A',
        spec_symbol_name(wide).last() == 'W',
        spec_module_name(ansi) == spec_module_name(wide),
{
    reveal_strlit("LoadLibraryA");
    reveal_strlit("LoadLibraryW");
    reveal_strlit("DispatchMessageA");
    reveal_strlit("DispatchMessageW");
    assert(spec_symbol_name(ansi).drop_last() =~= spec_symbol_name(wide).drop_last());
}

/// Every hooked function lives in one of two system modules: the window
/// message functions (those whose name starts with `DispatchMessage`) in
/// `USER32`, every other one in `kernel32`.
pub proof fn law_module_of_function(hook: Hook)
    ensures
        spec_module_name(hook) == "USER32"@ || spec_module_name(hook) == "kernel32"@,
        spec_module_name(hook) == "USER32"@ <==> "DispatchMessage"@.is_prefix_of(
            spec_symbol_name(hook),
        ),
{
    reveal_strlit("USER32");
    reveal_strlit("kernel32");
    reveal_strlit("DispatchMessage");
    reveal_strlit("CreateFileA");
    reveal_strlit("GetFinalPathNameByHandleA");
    reveal_strlit("ReadFile");
    reveal_strlit("LoadLibraryA");
    reveal_strlit("LoadLibraryW");
    reveal_strlit("GetProcAddress");
    reveal_strlit("CreateThread");
    reveal_strlit("Sleep");
    reveal_strlit("DispatchMessageA");
    reveal_strlit("DispatchMessageW");
    let p = "DispatchMessage"@;
    let sym = spec_symbol_name(hook);
    if hook == Hook::DispatchMessageA || hook == Hook::DispatchMessageW {
        assert(p =~= sym.subrange(0, p.len() as int));
    } else {
        if sym.len() >= p.len() {
            assert(sym[0] != p[0] || sym[1] != p[1]);
        }
        assert(!p.is_prefix_of(sym));
    }
    assert("USER32"@ != "kernel32"@) by {
        assert("USER32"@.len() != "kernel32"@.len());
    }
}

/// Each hook looks up the function it is named after: the symbol asked of
/// `GetProcAddress` is the Windows function's own name.
pub proof fn law_symbol_is_function_name()
    ensures
        spec_symbol_name(Hook::CreateFileA) == "CreateFileA"@,
        spec_symbol_name(Hook::GetFinalPathNameByHandleA) == "GetFinalPathNameByHandleA"@,
        spec_symbol_name(Hook::ReadFile) == "ReadFile"@,
        spec_symbol_name(Hook::LoadLibraryA) == "LoadLibraryA"@,
        spec_symbol_name(Hook::LoadLibraryW) == "LoadLibraryW"@,
        spec_symbol_name(Hook::GetProcAddress) == "GetProcAddress"@,
        spec_symbol_name(Hook::CreateThread) == "CreateThread"@,
        spec_symbol_name(Hook::Sleep) == "Sleep"@,
        spec_symbol_name(Hook::DispatchMessageA) == "DispatchMessageA"@,
        spec_symbol_name(Hook::DispatchMessageW) == "DispatchMessageW"@,
{
}

impl Hook {
    /// Name of the module that exports the hooked function.
    pub fn module_name(&self) -> (name: &'static str)
        ensures
            name@ == spec_module_name(*self),
    {
        match self {
            Hook::DispatchMessageA | Hook::DispatchMessageW => "USER32",
            _ => "kernel32",
        }
    }

    /// Name of the exported symbol of the hooked function.
    pub fn symbol_name(&self) -> (name: &'static str)
        ensures
            name@ == spec_symbol_name(*self),
    {
        match self {
            Hook::CreateFileA => "CreateFileA",
            Hook::GetFinalPathNameByHandleA => "GetFinalPathNameByHandleA",
            Hook::ReadFile => "ReadFile",
            Hook::LoadLibraryA => "LoadLibraryA",
            Hook::LoadLibraryW => "LoadLibraryW",
            Hook::GetProcAddress => "GetProcAddress",
            Hook::CreateThread => "CreateThread",
            Hook::Sleep => "Sleep",
            Hook::DispatchMessageA => "DispatchMessageA",
            Hook::DispatchMessageW => "DispatchMessageW",
        }
    }
}

} // verus!
