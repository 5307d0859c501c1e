use gear_logic::lazy_pages::{
    check_loaded_page, fault_in_wasm_memory, fault_region, handler_step, page_key_in_storage,
    page_loads, record_access, reprotect_for_read, ExceptionInfo, FaultRegion, HandlerAction,
    HandlerEvent, HandlerState, LazyPagesError, LazyPagesExecutionContext, PageNumber,
    GEAR_PAGE_SIZE,
};
use std::collections::{BTreeMap, BTreeSet};

fn ctx(addr: Option<usize>, size: Option<usize>) -> LazyPagesExecutionContext {
    LazyPagesExecutionContext {
        wasm_mem_addr: addr,
        wasm_mem_size: size,
        program_storage_prefix: Some(vec![1, 2, 3]),
        accessed_native_pages: BTreeSet::new(),
        released_lazy_pages: BTreeMap::new(),
    }
}

fn info(is_write: Option<bool>) -> ExceptionInfo {
    ExceptionInfo { fault_addr: 0x10_0000 + 0x2100, is_write }
}

#[test]
fn fault_region_errors() {
    let i = info(None);
    assert_eq!(
        fault_region(&ctx(None, Some(0x1_0000)), &i, 0x10_2000, 4096),
        Err(LazyPagesError::WasmMemAddrIsNotSet)
    );
    assert_eq!(
        fault_region(&ctx(Some(0x10_0000), None), &i, 0x10_2000, 4096),
        Err(LazyPagesError::WasmMemSizeIsNotSet)
    );
    assert_eq!(
        fault_region(&ctx(Some(usize::MAX - 10), Some(11)), &i, 0x10_2000, 4096),
        Err(LazyPagesError::WasmMemEndOverflow)
    );
    assert_eq!(
        fault_region(&ctx(Some(0x10_0000), Some(0x1_0000)), &i, 0x11_0000, 4096),
        Err(LazyPagesError::SignalFromUnknownMemory {
            wasm_mem_addr: 0x10_0000,
            wasm_mem_end_addr: 0x11_0000,
            native_page_addr: 0x11_0000,
        })
    );
    assert_eq!(
        fault_region(&ctx(Some(0x10_0000), Some(0x1_0000)), &i, 0x0F_F000, 4096),
        Err(LazyPagesError::SignalFromUnknownMemory {
            wasm_mem_addr: 0x10_0000,
            wasm_mem_end_addr: 0x11_0000,
            native_page_addr: 0x0F_F000,
        })
    );
}

#[test]
fn fault_region_with_small_native_pages() {
    let c = ctx(Some(0x10_0000), Some(0x1_0000));
    let fr = fault_region(&c, &info(Some(true)), 0x10_2000, 4096).unwrap();
    assert_eq!(
        fr,
        FaultRegion {
            native_page_addr: 0x10_2000,
            gear_page: PageNumber(2),
            gear_pages_num: 1,
            unprot_addr: 0x10_2000,
            unprot_size: 4096,
            is_write: true,
        }
    );
    // A native page of 1 KiB inside gear page 2.
    let fr = fault_region(&c, &info(None), 0x10_2400, 1024).unwrap();
    assert_eq!(fr.gear_page, PageNumber(2));
    assert_eq!(fr.unprot_addr, 0x10_2000);
    assert_eq!(fr.unprot_size, GEAR_PAGE_SIZE);
    assert!(!fr.is_write);
}

#[test]
fn fault_region_with_large_native_pages() {
    let c = ctx(Some(0x10_0000), Some(0x10_0000));
    let fr = fault_region(&c, &info(Some(false)), 0x10_4000, 0x4000).unwrap();
    assert_eq!(fr.gear_page, PageNumber(4));
    assert_eq!(fr.gear_pages_num, 4);
    assert_eq!(fr.unprot_addr, 0x10_4000);
    assert_eq!(fr.unprot_size, 0x4000);
    assert_eq!(fr.nth_page(3), PageNumber(7));
}

#[test]
fn second_access_keeps_saved_pages() {
    let mut c = ctx(Some(0x10_0000), Some(0x10_0000));
    let fr = fault_region(&c, &info(Some(false)), 0x10_4000, 0x4000).unwrap();
    assert!(record_access(&mut c, &fr));
    assert!(c.accessed_native_pages.contains(&0x10_4000));
    assert!(c.released_lazy_pages.is_empty());
    for p in 4..8 {
        assert_eq!(check_loaded_page(&mut c, PageNumber(p), Some(4096), vec![p as u8; 4096]), Ok(()));
    }
    assert!(!record_access(&mut c, &fr));
    assert!(!record_access(&mut c, &fr));
    assert_eq!(c.released_lazy_pages.len(), 4);
    assert_eq!(c.released_lazy_pages.get(&6), Some(&Some(vec![6u8; 4096])));
}

#[test]
fn fault_location_check() {
    let c = ctx(Some(0x10_0000), Some(0x1_0000));
    assert!(fault_in_wasm_memory(&c, 0x10_0000));
    assert!(fault_in_wasm_memory(&c, 0x10_FFFF));
    assert!(!fault_in_wasm_memory(&c, 0x11_0000));
    assert!(!fault_in_wasm_memory(&ctx(None, Some(1)), 0));
    assert!(!fault_in_wasm_memory(&ctx(Some(usize::MAX), Some(2)), usize::MAX));
}

#[test]
fn handler_runs_first_read_access() {
    let mut c = ctx(Some(0x10_0000), Some(0x10_0000));
    let ev = HandlerEvent::Fault { info: info(None), native_page_addr: 0x10_4000, native_ps: 0x2000 };
    let (st, a) = handler_step(&mut c, HandlerState::Idle, ev);
    assert!(matches!(a, Ok(HandlerAction::Protect { addr: 0x10_4000, size: 0x2000, read_only: false })));
    let (st, a) = handler_step(&mut c, st, HandlerEvent::Protected);
    match a {
        Ok(HandlerAction::ReadPage { key, addr }) => {
            assert_eq!(key, vec![1, 2, 3, 4, 0, 0, 0]);
            assert_eq!(addr, 0x10_4000);
        }
        _ => panic!("expected a page read"),
    }
    let (st, a) = handler_step(&mut c, st, HandlerEvent::PageRead { read: Some(4096), data: vec![7; 4096] });
    match a {
        Ok(HandlerAction::ReadPage { key, addr }) => {
            assert_eq!(key, vec![1, 2, 3, 5, 0, 0, 0]);
            assert_eq!(addr, 0x10_5000);
        }
        _ => panic!("expected a page read"),
    }
    let (st, a) = handler_step(&mut c, st, HandlerEvent::PageRead { read: None, data: vec![0; 4096] });
    assert!(matches!(a, Ok(HandlerAction::Protect { addr: 0x10_4000, size: 0x2000, read_only: true })));
    let (st, a) = handler_step(&mut c, st, HandlerEvent::Protected);
    assert!(matches!(a, Ok(HandlerAction::Finish)));
    assert!(matches!(st, HandlerState::Idle));
    assert_eq!(c.released_lazy_pages.get(&4), Some(&Some(vec![7; 4096])));
    assert_eq!(c.released_lazy_pages.get(&5), Some(&None));
    assert!(c.accessed_native_pages.contains(&0x10_4000));

    // A later write to the page only lifts the protection.
    let ev = HandlerEvent::Fault { info: info(Some(true)), native_page_addr: 0x10_4000, native_ps: 0x2000 };
    let (st, a) = handler_step(&mut c, HandlerState::Idle, ev);
    assert!(matches!(a, Ok(HandlerAction::Protect { read_only: false, .. })));
    let (st, a) = handler_step(&mut c, st, HandlerEvent::Protected);
    assert!(matches!(a, Ok(HandlerAction::Finish)));
    assert!(matches!(st, HandlerState::Idle));
    assert_eq!(c.released_lazy_pages.get(&4), Some(&Some(vec![7; 4096])));
}

#[test]
fn handler_stops_on_errors() {
    let mut c = ctx(Some(0x10_0000), Some(0x10_0000));
    let ev = HandlerEvent::Fault { info: info(Some(true)), native_page_addr: 0x30_0000, native_ps: 4096 };
    let (st, a) = handler_step(&mut c, HandlerState::Idle, ev);
    assert!(matches!(a, Err(LazyPagesError::SignalFromUnknownMemory { .. })));
    assert!(matches!(st, HandlerState::Idle));

    let ev = HandlerEvent::Fault { info: info(Some(true)), native_page_addr: 0x10_1000, native_ps: 4096 };
    let (st, _) = handler_step(&mut c, HandlerState::Idle, ev);
    let (st, _) = handler_step(&mut c, st, HandlerEvent::Protected);
    let (st, a) = handler_step(&mut c, st, HandlerEvent::PageRead { read: Some(10), data: vec![] });
    assert_eq!(a.err(), Some(LazyPagesError::InvalidPageSize { expected: 4096, actual: 10 }));
    assert!(matches!(st, HandlerState::Idle));
    assert!(c.released_lazy_pages.is_empty());

    let mut c2 = ctx(Some(0x10_0000), Some(0x10_0000));
    c2.program_storage_prefix = None;
    let ev = HandlerEvent::Fault { info: info(None), native_page_addr: 0x10_1000, native_ps: 4096 };
    let (st, _) = handler_step(&mut c2, HandlerState::Idle, ev);
    let (st, a) = handler_step(&mut c2, st, HandlerEvent::Protected);
    assert_eq!(a.err(), Some(LazyPagesError::ProgramPrefixIsNotSet));
    assert!(matches!(st, HandlerState::Idle));
    assert!(c2.accessed_native_pages.contains(&0x10_1000));
}

#[test]
fn page_keys() {
    assert_eq!(
        page_key_in_storage(&vec![0xAA, 0xBB], PageNumber(0x0102_0304)),
        vec![0xAA, 0xBB, 0x04, 0x03, 0x02, 0x01]
    );
    let c = ctx(Some(0x10_0000), Some(0x10_0000));
    let fr = fault_region(&c, &info(Some(true)), 0x10_4000, 0x2000).unwrap();
    let loads = page_loads(&c, &fr).unwrap();
    assert_eq!(loads.len(), 2);
    assert_eq!(loads[0].page, PageNumber(4));
    assert_eq!(loads[0].key, vec![1, 2, 3, 4, 0, 0, 0]);
    assert_eq!(loads[0].addr, 0x10_4000);
    assert_eq!(loads[1].page, PageNumber(5));
    assert_eq!(loads[1].key, vec![1, 2, 3, 5, 0, 0, 0]);
    assert_eq!(loads[1].addr, 0x10_5000);
    assert!(!reprotect_for_read(&fr));
    let mut c2 = ctx(Some(0x10_0000), Some(0x10_0000));
    c2.program_storage_prefix = None;
    assert!(matches!(page_loads(&c2, &fr), Err(LazyPagesError::ProgramPrefixIsNotSet)));
    let fr_read = fault_region(&c, &info(None), 0x10_4000, 0x2000).unwrap();
    assert!(reprotect_for_read(&fr_read));
}

#[test]
fn loaded_pages_are_checked() {
    let mut c = ctx(Some(0), Some(0x1_0000));
    assert_eq!(
        check_loaded_page(&mut c, PageNumber(3), Some(100), vec![1; 100]),
        Err(LazyPagesError::InvalidPageSize { expected: 4096, actual: 100 })
    );
    assert!(c.released_lazy_pages.is_empty());
    assert_eq!(check_loaded_page(&mut c, PageNumber(2), None, vec![0; 4096]), Ok(()));
    assert_eq!(c.released_lazy_pages.get(&2), Some(&None));
    assert_eq!(check_loaded_page(&mut c, PageNumber(3), Some(4096), vec![5; 4096]), Ok(()));
    assert_eq!(c.released_lazy_pages.get(&3), Some(&Some(vec![5; 4096])));
    assert_eq!(
        check_loaded_page(&mut c, PageNumber(3), None, vec![0; 4096]),
        Err(LazyPagesError::DoubleRelease(PageNumber(3)))
    );
    assert_eq!(PageNumber(3).offset(), 3 * 4096);
    assert_eq!(PageNumber::size(), 4096);
}
