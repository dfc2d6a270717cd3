use winapi_mon::error::HookError;
use winapi_mon::lookup::{LookupStage, LookupStep, ProcAddressLookup};

#[test]
fn lookup_starts_with_module_query() {
    let (lookup, step) = ProcAddressLookup::start("kernel32", "Sleep");
    assert_eq!(lookup.current_stage(), LookupStage::ModuleHandle);
    match step {
        LookupStep::QueryModuleHandle { module } => {
            let mut expected: Vec<u16> = "kernel32".encode_utf16().collect();
            expected.push(0);
            assert_eq!(module, expected);
        }
        other => panic!("unexpected step {:?}", other),
    }
}

#[test]
fn lookup_refuses_symbol_with_nul_before_module_query() {
    let (lookup, step) = ProcAddressLookup::start("kernel32", "Sl\0eep");
    assert_eq!(lookup.current_stage(), LookupStage::Finished);
    match step {
        LookupStep::Finished(Err(HookError::NulInSymbol(e))) => assert_eq!(e.position, 2),
        other => panic!("unexpected step {:?}", other),
    }
}

#[test]
fn lookup_null_module_handle_is_module_not_found() {
    let (mut lookup, _) = ProcAddressLookup::start("nosuch", "Sleep");
    let step = lookup.on_module_handle(0);
    assert_eq!(lookup.current_stage(), LookupStage::Finished);
    assert!(matches!(step, LookupStep::Finished(Err(HookError::ModuleNotFound))));
}

#[test]
fn lookup_queries_address_with_handle_and_c_symbol() {
    let (mut lookup, _) = ProcAddressLookup::start("kernel32", "Sleep");
    let step = lookup.on_module_handle(0x7ff0_0000);
    assert_eq!(lookup.current_stage(), LookupStage::ProcAddress);
    match step {
        LookupStep::QueryProcAddress { module_handle, symbol } => {
            assert_eq!(module_handle, 0x7ff0_0000);
            assert_eq!(symbol, b"Sleep\0".to_vec());
        }
        other => panic!("unexpected step {:?}", other),
    }
}

#[test]
fn lookup_null_address_is_none() {
    let (mut lookup, _) = ProcAddressLookup::start("kernel32", "NoSuchExport");
    lookup.on_module_handle(0x1000);
    let step = lookup.on_proc_address(0);
    assert_eq!(lookup.current_stage(), LookupStage::Finished);
    assert!(matches!(step, LookupStep::Finished(Ok(None))));
}

#[test]
fn lookup_non_null_address_is_some() {
    let (mut lookup, _) = ProcAddressLookup::start("kernel32", "Sleep");
    lookup.on_module_handle(0x1000);
    match lookup.on_proc_address(0x7ffa_1234) {
        LookupStep::Finished(Ok(Some(a))) => assert_eq!(a, 0x7ffa_1234),
        other => panic!("unexpected step {:?}", other),
    }
}
