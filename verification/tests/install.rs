use winapi_mon::error::{DetourFailure, HookError};
use winapi_mon::hooks::Hook;
use winapi_mon::install::{HookInstall, HookRequest, InstallStage, InstallStep};

fn request(hook: Hook, custom: bool, enable: bool) -> HookRequest {
    HookRequest { hook, custom, enable }
}

fn wide(s: &str) -> Vec<u16> {
    let mut w: Vec<u16> = s.encode_utf16().collect();
    w.push(0);
    w
}

#[test]
fn install_queries_module_of_hook() {
    let (install, step) = HookInstall::start(request(Hook::DispatchMessageW, false, true));
    assert_eq!(install.current_stage(), InstallStage::ModuleHandle);
    match step {
        InstallStep::QueryModuleHandle { module } => assert_eq!(module, wide("USER32")),
        other => panic!("unexpected step {:?}", other),
    }
}

#[test]
fn install_full_run_with_enable() {
    let (mut install, _) = HookInstall::start(request(Hook::Sleep, false, true));
    match install.on_module_handle(0x10) {
        InstallStep::QueryProcAddress { module_handle, symbol } => {
            assert_eq!(module_handle, 0x10);
            assert_eq!(symbol, b"Sleep\0".to_vec());
        }
        other => panic!("unexpected step {:?}", other),
    }
    match install.on_proc_address(0x2000) {
        InstallStep::CreateDetour { target, custom } => {
            assert_eq!(target, 0x2000);
            assert!(!custom);
        }
        other => panic!("unexpected step {:?}", other),
    }
    assert!(matches!(install.on_detour_created(Ok(())), InstallStep::EnableDetour));
    assert_eq!(install.current_stage(), InstallStage::Enabled);
    assert!(matches!(install.on_enabled(Ok(())), InstallStep::StoreDetour));
    assert!(matches!(install.on_stored(true), InstallStep::Finished(Ok(()))));
    assert_eq!(install.current_stage(), InstallStage::Finished);
}

#[test]
fn install_without_enable_skips_enabling() {
    let (mut install, _) = HookInstall::start(request(Hook::ReadFile, false, false));
    install.on_module_handle(0x10);
    install.on_proc_address(0x2000);
    assert!(matches!(install.on_detour_created(Ok(())), InstallStep::StoreDetour));
    assert_eq!(install.current_stage(), InstallStage::Stored);
    assert!(matches!(install.on_stored(true), InstallStep::Finished(Ok(()))));
}

#[test]
fn install_custom_hook_is_passed_on() {
    let (mut install, _) = HookInstall::start(request(Hook::CreateThread, true, true));
    install.on_module_handle(0x10);
    match install.on_proc_address(0x3000) {
        InstallStep::CreateDetour { target, custom } => {
            assert_eq!(target, 0x3000);
            assert!(custom);
        }
        other => panic!("unexpected step {:?}", other),
    }
}

#[test]
fn install_module_not_loaded() {
    let (mut install, _) = HookInstall::start(request(Hook::LoadLibraryA, false, true));
    assert!(matches!(
        install.on_module_handle(0),
        InstallStep::Finished(Err(HookError::ModuleNotFound))
    ));
    assert_eq!(install.current_stage(), InstallStage::Finished);
}

#[test]
fn install_symbol_not_exported() {
    let (mut install, _) = HookInstall::start(request(Hook::GetProcAddress, false, true));
    install.on_module_handle(0x10);
    assert!(matches!(
        install.on_proc_address(0),
        InstallStep::Finished(Err(HookError::SymbolNotFound))
    ));
}

#[test]
fn install_detour_creation_failure() {
    let (mut install, _) = HookInstall::start(request(Hook::CreateFileA, false, true));
    install.on_module_handle(0x10);
    install.on_proc_address(0x20);
    match install.on_detour_created(Err(DetourFailure::NotExecutable)) {
        InstallStep::Finished(Err(HookError::Detour(f))) => {
            assert_eq!(f, DetourFailure::NotExecutable)
        }
        other => panic!("unexpected step {:?}", other),
    }
}

#[test]
fn install_enable_failure() {
    let (mut install, _) = HookInstall::start(request(Hook::LoadLibraryW, false, true));
    install.on_module_handle(0x10);
    install.on_proc_address(0x20);
    install.on_detour_created(Ok(()));
    match install.on_enabled(Err(DetourFailure::RegionFailure)) {
        InstallStep::Finished(Err(HookError::Detour(f))) => {
            assert_eq!(f, DetourFailure::RegionFailure)
        }
        other => panic!("unexpected step {:?}", other),
    }
}

#[test]
fn install_twice_is_already_hooked() {
    let (mut install, _) = HookInstall::start(request(Hook::DispatchMessageA, false, true));
    install.on_module_handle(0x10);
    install.on_proc_address(0x20);
    install.on_detour_created(Ok(()));
    install.on_enabled(Ok(()));
    assert!(matches!(
        install.on_stored(false),
        InstallStep::Finished(Err(HookError::AlreadyHooked))
    ));
}
