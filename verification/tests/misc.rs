use winapi_mon::dll::{
    attach_plan, entry_decision, AttachSetup, AttachStep, DLL_PROCESS_ATTACH, DLL_PROCESS_DETACH,
    TRUE,
};
use winapi_mon::error::{DetourFailure, HookError};
use winapi_mon::hooks::Hook;
use winapi_mon::install::HookRequest;
use winapi_mon::thread::creation_flag_name;
use winapi_mon::cstr::NulError;

#[test]
fn creation_flag_names() {
    assert_eq!(creation_flag_name(0), "0");
    assert_eq!(creation_flag_name(0x4), "CREATE_SUSPENDED");
    assert_eq!(creation_flag_name(0x10000), "STACK_SIZE_PARAM_IS_A_RESERVATION");
    assert_eq!(creation_flag_name(0x10004), "Unknown");
    assert_eq!(creation_flag_name(1), "Unknown");
}

#[test]
fn entry_point_attaches_only_on_process_attach() {
    assert_eq!(DLL_PROCESS_ATTACH, 1);
    assert_eq!(DLL_PROCESS_DETACH, 0);
    let attach = entry_decision(DLL_PROCESS_ATTACH);
    assert!(attach.attach);
    assert_eq!(attach.result, TRUE);
    for reason in [DLL_PROCESS_DETACH, 2, 3, 77] {
        let d = entry_decision(reason);
        assert!(!d.attach);
        assert_eq!(d.result, 1);
    }
}

#[test]
fn attach_plan_hooks_in_order() {
    let hooks: Vec<Hook> = attach_plan().iter().map(|r| r.hook).collect();
    assert_eq!(
        hooks,
        vec![
            Hook::ReadFile,
            Hook::GetFinalPathNameByHandleA,
            Hook::LoadLibraryA,
            Hook::LoadLibraryW,
            Hook::GetProcAddress,
            Hook::CreateFileA,
        ]
    );
    for r in attach_plan() {
        assert_eq!(r, HookRequest { hook: r.hook, custom: false, enable: true });
    }
}

#[test]
fn hook_names() {
    assert_eq!(Hook::Sleep.module_name(), "kernel32");
    assert_eq!(Hook::Sleep.symbol_name(), "Sleep");
    assert_eq!(Hook::DispatchMessageA.module_name(), "USER32");
    assert_eq!(Hook::DispatchMessageW.symbol_name(), "DispatchMessageW");
    assert_eq!(Hook::GetFinalPathNameByHandleA.symbol_name(), "GetFinalPathNameByHandleA");
    assert_eq!(Hook::CreateThread.module_name(), "kernel32");
}

#[test]
fn error_messages() {
    assert_eq!(
        HookError::ModuleNotFound.message("kernel32", "Sleep"),
        Some("module kernel32 not found! (GetModuleHandleW)".to_string())
    );
    assert_eq!(
        HookError::SymbolNotFound.message("USER32", "DispatchMessageA"),
        Some("USER32::DispatchMessageA not found!".to_string())
    );
    assert_eq!(
        HookError::AlreadyHooked.message("kernel32", "Sleep"),
        Some("Failed to initialize once cell.".to_string())
    );
    assert_eq!(HookError::Detour(DetourFailure::OutOfMemory).message("a", "b"), None);
    assert_eq!(
        HookError::NulInSymbol(NulError { position: 1 }).message("a", "b"),
        Some("nul byte found in provided data at position: 1".to_string())
    );
}

#[test]
fn nul_message_positions_in_decimal() {
    for position in [0usize, 9, 10, 42, 100, 1907, usize::MAX] {
        assert_eq!(
            HookError::NulInSymbol(NulError { position }).message("m", "s"),
            Some(format!("nul byte found in provided data at position: {}", position))
        );
    }
}

#[test]
fn setup_installs_plan_in_order_until_done() {
    let plan = attach_plan();
    let (mut setup, mut step) = AttachSetup::start::<String>();
    let mut issued = Vec::new();
    loop {
        step = match step {
            AttachStep::Install(request) => {
                issued.push(request);
                setup.on_installed(Ok(()))
            }
            AttachStep::Finished(result) => {
                assert_eq!(result, Ok(()));
                break;
            }
        };
    }
    assert_eq!(issued, plan);
}

#[test]
fn setup_stops_at_first_failure_with_its_error() {
    let (mut setup, step) = AttachSetup::start::<String>();
    let mut issued = Vec::new();
    if let AttachStep::Install(r) = step {
        issued.push(r);
    }
    match setup.on_installed::<String>(Ok(())) {
        AttachStep::Install(r) => issued.push(r),
        other => panic!("unexpected step {:?}", other),
    }
    match setup.on_installed(Err("LoadLibraryA failed".to_string())) {
        AttachStep::Finished(Err(e)) => assert_eq!(e, "LoadLibraryA failed"),
        other => panic!("unexpected step {:?}", other),
    }
    assert_eq!(issued.len(), 2);
    assert_eq!(issued[0].hook, Hook::ReadFile);
    assert_eq!(issued[1].hook, Hook::GetFinalPathNameByHandleA);
}
