//! Decisions of the lazy-pages memory-fault handler.
//!
//! Before a program runs, the pages of its wasm memory are protected. The
//! first access to a protected native page raises a fault; the handler then
//! lifts the protection of the gear pages that the native page covers, loads
//! their data from storage, and saves each page's data in the released pages,
//! so that it can later be told whether the page changed during execution.
//! After a read the pages are protected again for reads only; a later write
//! then faults once more and only lifts the protection, keeping the saved
//! data.
//!
//! The memory protection calls and the storage reads are done by the caller,
//! which runs the handler as a state machine: `handler_step` takes the state
//! and what the caller observed, updates the execution context, and says what
//! to do next.

use std::collections::BTreeMap;
use std::collections::BTreeSet;
use vstd::bytes::spec_u32_to_le_bytes;
use vstd::prelude::*;

verus! {

/// Size in bytes of a gear page.
pub const GEAR_PAGE_SIZE: usize = 4096;

/// Number of a gear page inside a program's wasm memory.
#[derive(Clone, Copy, Debug, PartialEq, Eq, Structural)]
pub struct PageNumber(pub u32);

impl PageNumber {
    /// Size in bytes of a gear page.
    pub fn size() -> (r: usize)
        ensures
            r == GEAR_PAGE_SIZE,
    {
        GEAR_PAGE_SIZE
    }

    /// Offset in bytes of the page from the start of wasm memory.
    pub fn offset(&self) -> (r: usize)
        requires
            self.0 * GEAR_PAGE_SIZE <= usize::MAX,
        ensures
            r == self.0 * GEAR_PAGE_SIZE,
    {
        self.0 as usize * GEAR_PAGE_SIZE
    }
}

/// What the operating system reports about a memory fault.
pub struct ExceptionInfo {
    /// Address where the fault occurred.
    pub fault_addr: usize,
    /// Whether the access was a write, where the system tells.
    pub is_write: Option<bool>,
}

/// Errors of the lazy-pages fault handler.
#[derive(Clone, Debug, PartialEq, Eq, Structural)]
pub enum LazyPagesError {
    /// The wasm memory address has not been set in the context.
    WasmMemAddrIsNotSet,
    /// The wasm memory size has not been set in the context.
    WasmMemSizeIsNotSet,
    /// Wasm memory address plus its size overflows.
    WasmMemEndOverflow,
    /// The faulting native page lies outside wasm memory.
    SignalFromUnknownMemory { wasm_mem_addr: usize, wasm_mem_end_addr: usize, native_page_addr: usize },
    /// The program's storage prefix has not been set in the context.
    ProgramPrefixIsNotSet,
    /// Storage holds page data of an unexpected size.
    InvalidPageSize { expected: usize, actual: u32 },
    /// A page was released twice.
    DoubleRelease(PageNumber),
}

/// State that the handler keeps for the program being executed.
pub struct LazyPagesExecutionContext {
    /// Start address of wasm memory.
    pub wasm_mem_addr: Option<usize>,
    /// Size in bytes of wasm memory.
    pub wasm_mem_size: Option<usize>,
    /// Prefix of the storage keys of the program's pages.
    pub program_storage_prefix: Option<Vec<u8>>,
    /// Native pages that have been accessed at least once.
    pub accessed_native_pages: BTreeSet<usize>,
    /// Gear pages that have been released, by page number.
    pub released_lazy_pages: BTreeMap<u32, Option<Vec<u8>>>,
}

/// The part of wasm memory that a fault concerns.
#[derive(Clone, Copy, Debug, PartialEq, Eq, Structural)]
pub struct FaultRegion {
    /// Start of the faulting native page.
    pub native_page_addr: usize,
    /// First gear page whose protection is lifted.
    pub gear_page: PageNumber,
    /// Number of gear pages whose protection is lifted.
    pub gear_pages_num: u32,
    /// Address from which protection is lifted.
    pub unprot_addr: usize,
    /// Length in bytes of the interval whose protection is lifted.
    pub unprot_size: usize,
    /// Whether the fault was a write.
    pub is_write: bool,
}

/// The relation that the handler requires between the native page size and
/// the gear page size: one of them divides the other.
pub open spec fn page_sizes_compatible(native_ps: usize) -> bool {
    &&& native_ps > 0
    &&& if native_ps > GEAR_PAGE_SIZE {
        native_ps % GEAR_PAGE_SIZE == 0
    } else {
        GEAR_PAGE_SIZE % native_ps == 0
    }
}

/// The gear page number of the page at `native_page_addr` in wasm memory
/// that starts at `wasm_mem_addr` (truncated to 32 bits, as a page number is).
pub open spec fn gear_page_of(native_page_addr: usize, wasm_mem_addr: usize) -> u32 {
    ((native_page_addr - wasm_mem_addr) / (GEAR_PAGE_SIZE as int)) as u32
}

proof fn lemma_u32_truncation_le(x: usize)
    ensures
        (x as u32) as usize <= x,
{
    assert((x as u32) as usize <= x) by (bit_vector);
}

/// The fault at native page `native_page_addr` lies in wasm memory: the
/// context gives its start and size, their sum does not overflow, and the page
/// lies between them.
pub open spec fn fault_in_memory(
    wasm_mem_addr: Option<usize>,
    wasm_mem_size: Option<usize>,
    native_page_addr: usize,
) -> bool {
    match (wasm_mem_addr, wasm_mem_size) {
        (Some(a), Some(s)) => a + s <= usize::MAX && a <= native_page_addr < a + s,
        _ => false,
    }
}

/// Where a fault at native page `native_page_addr` is handled, given the
/// wasm memory of the context and the native page size: the errors in the
/// order in which they are checked, or the region whose protection is lifted.
pub open spec fn locate_fault(
    wasm_mem_addr: Option<usize>,
    wasm_mem_size: Option<usize>,
    is_write: Option<bool>,
    native_page_addr: usize,
    native_ps: usize,
) -> Result<FaultRegion, LazyPagesError> {
    match (wasm_mem_addr, wasm_mem_size) {
        (None, _) => Err(LazyPagesError::WasmMemAddrIsNotSet),
        (Some(_), None) => Err(LazyPagesError::WasmMemSizeIsNotSet),
        (Some(a), Some(s)) => if a + s > usize::MAX {
            Err(LazyPagesError::WasmMemEndOverflow)
        } else if native_page_addr < a || native_page_addr >= a + s {
            Err(
                LazyPagesError::SignalFromUnknownMemory {
                    wasm_mem_addr: a,
                    wasm_mem_end_addr: (a + s) as usize,
                    native_page_addr,
                },
            )
        } else {
            let gp = gear_page_of(native_page_addr, a);
            let num: u32 = if native_ps > GEAR_PAGE_SIZE {
                (native_ps / GEAR_PAGE_SIZE) as u32
            } else {
                1
            };
            Ok(
                FaultRegion {
                    native_page_addr,
                    gear_page: PageNumber(gp),
                    gear_pages_num: num,
                    unprot_addr: if native_ps > GEAR_PAGE_SIZE {
                        native_page_addr
                    } else {
                        (a + gp * GEAR_PAGE_SIZE) as usize
                    },
                    unprot_size: (num * GEAR_PAGE_SIZE) as usize,
                    is_write: is_write == Some(true),
                },
            )
        },
    }
}

/// Whether a fault at native page `native_page_addr` lies in the context's
/// wasm memory.
pub fn fault_in_wasm_memory(ctx: &LazyPagesExecutionContext, native_page_addr: usize) -> (r: bool)
    ensures
        r == fault_in_memory(ctx.wasm_mem_addr, ctx.wasm_mem_size, native_page_addr),
{
    match (ctx.wasm_mem_addr, ctx.wasm_mem_size) {
        (Some(a), Some(s)) => match a.checked_add(s) {
            Some(end) => a <= native_page_addr && native_page_addr < end,
            None => false,
        },
        _ => false,
    }
}

/// Locates a fault in wasm memory: checks the context and the address, and
/// computes the gear pages and the address interval whose protection is to
/// be lifted. The page sizes must be compatible where the fault lies in
/// wasm memory (the handler stops otherwise).
pub fn fault_region(
    ctx: &LazyPagesExecutionContext,
    info: &ExceptionInfo,
    native_page_addr: usize,
    native_ps: usize,
) -> (r: Result<FaultRegion, LazyPagesError>)
    requires
        fault_in_memory(ctx.wasm_mem_addr, ctx.wasm_mem_size, native_page_addr)
            ==> page_sizes_compatible(native_ps),
    ensures
        r == locate_fault(ctx.wasm_mem_addr, ctx.wasm_mem_size, info.is_write, native_page_addr, native_ps),
        r matches Ok(fr) ==> ctx.wasm_mem_addr->0 <= fr.unprot_addr,
        r matches Ok(fr) ==> fr.is_write == (info.is_write == Some(true)),
        r matches Ok(fr) ==> fr.native_page_addr == native_page_addr,
        r matches Ok(fr) ==> fr.unprot_size == fr.gear_pages_num * GEAR_PAGE_SIZE,
        r is Ok <==> fault_in_memory(ctx.wasm_mem_addr, ctx.wasm_mem_size, native_page_addr),
        r matches Ok(fr) ==> (native_ps / GEAR_PAGE_SIZE <= u32::MAX && (native_page_addr
            - ctx.wasm_mem_addr->0) / (GEAR_PAGE_SIZE as int) <= u32::MAX) ==> fr.unprot_addr
            <= native_page_addr < fr.unprot_addr + fr.unprot_size,
{
    let wasm_mem_addr = match ctx.wasm_mem_addr {
        Some(a) => a,
        None => return Err(LazyPagesError::WasmMemAddrIsNotSet),
    };
    let wasm_mem_size = match ctx.wasm_mem_size {
        Some(s) => s,
        None => return Err(LazyPagesError::WasmMemSizeIsNotSet),
    };
    let wasm_mem_end_addr = match wasm_mem_addr.checked_add(wasm_mem_size) {
        Some(e) => e,
        None => return Err(LazyPagesError::WasmMemEndOverflow),
    };
    if native_page_addr < wasm_mem_addr || native_page_addr >= wasm_mem_end_addr {
        return Err(LazyPagesError::SignalFromUnknownMemory { wasm_mem_addr, wasm_mem_end_addr, native_page_addr });
    }
    let diff_pages = (native_page_addr - wasm_mem_addr) / GEAR_PAGE_SIZE;
    let gear_page = PageNumber(#[verifier::truncate] (diff_pages as u32));
    let is_write = match info.is_write {
        Some(w) => w,
        None => false,
    };
    let (gear_pages_num, unprot_addr) = if native_ps > GEAR_PAGE_SIZE {
        proof {
            lemma_u32_truncation_le(native_ps / GEAR_PAGE_SIZE);
        }
        (#[verifier::truncate] ((native_ps / GEAR_PAGE_SIZE) as u32), native_page_addr)
    } else {
        proof {
            lemma_u32_truncation_le(diff_pages);
            assert(gear_page.0 * GEAR_PAGE_SIZE <= diff_pages * GEAR_PAGE_SIZE) by (nonlinear_arith)
                requires
                    gear_page.0 <= diff_pages,
            ;
            assert(diff_pages * GEAR_PAGE_SIZE <= native_page_addr - wasm_mem_addr) by (nonlinear_arith)
                requires
                    diff_pages == (native_page_addr - wasm_mem_addr) / (GEAR_PAGE_SIZE as int),
                    native_page_addr >= wasm_mem_addr,
            ;
        }
        (1u32, wasm_mem_addr + gear_page.offset())
    };
    proof {
        if native_ps > GEAR_PAGE_SIZE {
            let n = native_ps / GEAR_PAGE_SIZE;
            assert(gear_pages_num * GEAR_PAGE_SIZE <= n * GEAR_PAGE_SIZE) by (nonlinear_arith)
                requires
                    gear_pages_num <= n,
            ;
            assert(n * GEAR_PAGE_SIZE <= native_ps) by (nonlinear_arith)
                requires
                    n == native_ps / GEAR_PAGE_SIZE,
            ;
        }
    }
    let unprot_size = gear_pages_num as usize * GEAR_PAGE_SIZE;
    Ok(FaultRegion { native_page_addr, gear_page, gear_pages_num, unprot_addr, unprot_size, is_write })
}

/// The effect of an access on the accessed native pages and the released
/// gear pages: a first access to a native page records it, and its gear pages
/// are then loaded; a later access leaves both unchanged, keeping the data
/// saved for the gear pages when they were loaded.
pub open spec fn access_outcome(
    accessed: Set<usize>,
    released: Map<u32, Option<Vec<u8>>>,
    fr: FaultRegion,
    new_accessed: Set<usize>,
    new_released: Map<u32, Option<Vec<u8>>>,
    r: bool,
) -> bool {
    &&& new_released == released
    &&& r == !accessed.contains(fr.native_page_addr)
    &&& new_accessed == accessed.insert(fr.native_page_addr)
}

/// Records an access to the native page of a fault, once its protection has
/// been lifted. Returns `true` on a first access, after which the gear pages
/// are to be loaded from storage, and `false` on a later access, which only
/// leaves them readable and writable.
///
/// The released pages are not touched here: they already hold the data that
/// was saved when the pages were loaded, which is what a later comparison
/// needs, so a later access neither overwrites nor re-enters them.
pub fn record_access(ctx: &mut LazyPagesExecutionContext, fr: &FaultRegion) -> (r: bool)
    ensures
        access_outcome(
            old(ctx).accessed_native_pages@,
            old(ctx).released_lazy_pages@,
            *fr,
            final(ctx).accessed_native_pages@,
            final(ctx).released_lazy_pages@,
            r,
        ),
        final(ctx).wasm_mem_addr == old(ctx).wasm_mem_addr,
        final(ctx).wasm_mem_size == old(ctx).wasm_mem_size,
        final(ctx).program_storage_prefix == old(ctx).program_storage_prefix,
{
    let is_first_access = !ctx.accessed_native_pages.contains(&fr.native_page_addr);
    if is_first_access {
        ctx.accessed_native_pages.insert(fr.native_page_addr);
    } else {
        assert(ctx.accessed_native_pages@.insert(fr.native_page_addr) =~= ctx.accessed_native_pages@);
    }
    is_first_access
}

/// Returns the key that `page` has in storage: the program's prefix followed
/// by the page number in little-endian bytes.
pub fn page_key_in_storage(prefix: &Vec<u8>, page: PageNumber) -> (key: Vec<u8>)
    ensures
        key@ == prefix@ + spec_u32_to_le_bytes(page.0),
{
    let mut key = prefix.clone();
    let bytes = vstd::bytes::u32_to_le_bytes(page.0);
    let mut i: usize = 0;
    while i < bytes.len()
        invariant
            bytes@ == spec_u32_to_le_bytes(page.0),
            0 <= i <= bytes@.len(),
            key@ == prefix@ + bytes@.subrange(0, i as int),
        decreases bytes@.len() - i,
    {
        key.push(bytes[i]);
        proof {
            assert(bytes@.subrange(0, i + 1) =~= bytes@.subrange(0, i as int).push(bytes@[i as int]));
        }
        i = i + 1;
    }
    proof {
        assert(bytes@.subrange(0, bytes@.len() as int) =~= bytes@);
    }
    key
}

/// The data saved for a page whose storage read returned `read` and left
/// `data` in the page: that data where storage held an entry for the page,
/// and nothing where it held none.
pub open spec fn saved_data(read: Option<u32>, data: Vec<u8>) -> Option<Vec<u8>> {
    match read {
        Some(_) => Some(data),
        None => None,
    }
}

/// The effect of loading `page`, whose storage read returned `read` and left
/// `data` in the page, on the released pages: data of the wrong size is
/// refused; otherwise the page is saved with its data, and saving a page that
/// was saved already is reported.
pub open spec fn load_outcome(
    released: Map<u32, Option<Vec<u8>>>,
    page: PageNumber,
    read: Option<u32>,
    data: Vec<u8>,
    new_released: Map<u32, Option<Vec<u8>>>,
    r: Result<(), LazyPagesError>,
) -> bool {
    if read matches Some(n) && n != GEAR_PAGE_SIZE {
        &&& new_released == released
        &&& r == Err::<(), LazyPagesError>(
            LazyPagesError::InvalidPageSize { expected: GEAR_PAGE_SIZE, actual: read->0 },
        )
    } else {
        &&& new_released == released.insert(page.0, saved_data(read, data))
        &&& r == if released.contains_key(page.0) {
            Err::<(), LazyPagesError>(LazyPagesError::DoubleRelease(page))
        } else {
            Ok(())
        }
    }
}

/// Checks what the storage read of `page` returned (`None`: storage holds no
/// entry; `Some(n)`: the entry has `n` bytes) and saves the page with the
/// `data` that the read left in it, so that a later change can be seen.
pub fn check_loaded_page(
    ctx: &mut LazyPagesExecutionContext,
    page: PageNumber,
    read: Option<u32>,
    data: Vec<u8>,
) -> (r: Result<(), LazyPagesError>)
    ensures
        final(ctx).accessed_native_pages@ == old(ctx).accessed_native_pages@,
        final(ctx).wasm_mem_addr == old(ctx).wasm_mem_addr,
        final(ctx).wasm_mem_size == old(ctx).wasm_mem_size,
        final(ctx).program_storage_prefix == old(ctx).program_storage_prefix,
        load_outcome(old(ctx).released_lazy_pages@, page, read, data, final(ctx).released_lazy_pages@, r),
{
    let saved = match read {
        Some(size) => {
            if size as usize != PageNumber::size() {
                return Err(LazyPagesError::InvalidPageSize { expected: PageNumber::size(), actual: size });
            }
            Some(data)
        },
        None => None,
    };
    if ctx.released_lazy_pages.insert(page.0, saved).is_some() {
        return Err(LazyPagesError::DoubleRelease(page));
    }
    Ok(())
}

impl FaultRegion {
    /// The `idx`-th gear page of the region.
    pub fn nth_page(&self, idx: u32) -> (p: PageNumber)
        requires
            idx < self.gear_pages_num,
            self.gear_page.0 + self.gear_pages_num <= u32::MAX + 1,
        ensures
            p.0 == self.gear_page.0 + idx,
    {
        PageNumber(self.gear_page.0 + idx)
    }
}

/// A page loaded with data from storage keeps that data through a later
/// access to its native page: the data saved on the first access is what the
/// page held before execution changed it.
pub proof fn lemma_saved_data_survives_later_access(
    released0: Map<u32, Option<Vec<u8>>>,
    page: PageNumber,
    data: Vec<u8>,
    released1: Map<u32, Option<Vec<u8>>>,
    r1: Result<(), LazyPagesError>,
    accessed1: Set<usize>,
    fr: FaultRegion,
    accessed2: Set<usize>,
    released2: Map<u32, Option<Vec<u8>>>,
    r2: bool,
)
    requires
        load_outcome(released0, page, Some(GEAR_PAGE_SIZE as u32), data, released1, r1),
        r1 is Ok,
        accessed1.contains(fr.native_page_addr),
        access_outcome(accessed1, released1, fr, accessed2, released2, r2),
    ensures
        released2.contains_key(page.0),
        released2[page.0] == Some(data),
        !r2,
        accessed2 == accessed1,
{
    assert(accessed2 =~= accessed1);
}

/// A page cannot be saved twice: loading a page that is saved already is
/// reported with `DoubleRelease`, whatever the read returned.
pub proof fn lemma_double_save_is_reported(
    released: Map<u32, Option<Vec<u8>>>,
    page: PageNumber,
    read: Option<u32>,
    data: Vec<u8>,
    new_released: Map<u32, Option<Vec<u8>>>,
    r: Result<(), LazyPagesError>,
)
    requires
        released.contains_key(page.0),
        load_outcome(released, page, read, data, new_released, r),
        !(read matches Some(n) && n != GEAR_PAGE_SIZE),
    ensures
        r == Err::<(), LazyPagesError>(LazyPagesError::DoubleRelease(page)),
{
}

/// A gear page to be loaded from storage after a first access.
pub struct PageLoad {
    /// The page.
    pub page: PageNumber,
    /// Its key in storage.
    pub key: Vec<u8>,
    /// Address of its data in wasm memory.
    pub addr: usize,
}

/// The gear pages of a fault region, with their storage keys and their
/// addresses in memory, in the order in which they are loaded after a first
/// access. Fails with `ProgramPrefixIsNotSet` when the context has no
/// storage prefix (before any page is loaded, as the key of the first page
/// is needed first).
pub fn page_loads(ctx: &LazyPagesExecutionContext, fr: &FaultRegion) -> (r: Result<
    Vec<PageLoad>,
    LazyPagesError,
>)
    requires
        fr.gear_page.0 + fr.gear_pages_num <= u32::MAX + 1,
        fr.unprot_addr + fr.gear_pages_num * GEAR_PAGE_SIZE <= usize::MAX + 1,
    ensures
        match ctx.program_storage_prefix {
            None => r == Err::<Vec<PageLoad>, LazyPagesError>(LazyPagesError::ProgramPrefixIsNotSet),
            Some(prefix) => r matches Ok(loads) && {
                &&& loads@.len() == fr.gear_pages_num
                &&& forall|i: int|
                    0 <= i < loads@.len() ==> {
                        &&& (#[trigger] loads@[i]).page.0 == fr.gear_page.0 + i
                        &&& loads@[i].key@ == prefix@ + spec_u32_to_le_bytes(loads@[i].page.0)
                        &&& loads@[i].addr == fr.unprot_addr + i * GEAR_PAGE_SIZE
                    }
            },
        },
{
    let prefix = match &ctx.program_storage_prefix {
        Some(p) => p,
        None => return Err(LazyPagesError::ProgramPrefixIsNotSet),
    };
    let mut loads: Vec<PageLoad> = Vec::new();
    let mut idx: u32 = 0;
    while idx < fr.gear_pages_num
        invariant
            fr.gear_page.0 + fr.gear_pages_num <= u32::MAX + 1,
            fr.unprot_addr + fr.gear_pages_num * GEAR_PAGE_SIZE <= usize::MAX + 1,
            0 <= idx <= fr.gear_pages_num,
            loads@.len() == idx,
            forall|i: int|
                0 <= i < loads@.len() ==> {
                    &&& (#[trigger] loads@[i]).page.0 == fr.gear_page.0 + i
                    &&& loads@[i].key@ == prefix@ + spec_u32_to_le_bytes(loads@[i].page.0)
                    &&& loads@[i].addr == fr.unprot_addr + i * GEAR_PAGE_SIZE
                },
        decreases fr.gear_pages_num - idx,
    {
        let page = fr.nth_page(idx);
        proof {
            assert(idx * GEAR_PAGE_SIZE < fr.gear_pages_num * GEAR_PAGE_SIZE) by (nonlinear_arith)
                requires
                    idx < fr.gear_pages_num,
            ;
        }
        let addr = fr.unprot_addr + idx as usize * GEAR_PAGE_SIZE;
        let key = page_key_in_storage(prefix, page);
        loads.push(PageLoad { page, key, addr });
        idx = idx + 1;
    }
    Ok(loads)
}

/// Whether, after the pages of a first access have been loaded, the region
/// is protected again for reads only: so it is after a read, so that a later
/// write faults; a write keeps it readable and writable.
pub fn reprotect_for_read(fr: &FaultRegion) -> (r: bool)
    ensures
        r == !fr.is_write,
{
    !fr.is_write
}

/// Where the handling of a fault stands.
pub enum HandlerState {
    /// No fault is being handled.
    Idle,
    /// The protection of the region is being lifted.
    Unprotecting(FaultRegion),
    /// The region's pages are being loaded; `next` is the one being read.
    Loading { region: FaultRegion, loads: Vec<PageLoad>, next: usize },
    /// The region is being protected for reads only.
    Reprotecting,
}

/// What the caller observed.
pub enum HandlerEvent {
    /// A fault occurred at `info`, whose native page starts at
    /// `native_page_addr`; native pages have `native_ps` bytes.
    Fault { info: ExceptionInfo, native_page_addr: usize, native_ps: usize },
    /// The protection asked for has been set.
    Protected,
    /// The page asked for has been read from storage: `read` is what the read
    /// returned and `data` what it left in the page.
    PageRead { read: Option<u32>, data: Vec<u8> },
}

/// What the caller is to do next.
pub enum HandlerAction {
    /// Set the protection of `size` bytes at `addr`: readable and writable,
    /// or readable only.
    Protect { addr: usize, size: usize, read_only: bool },
    /// Read the storage entry `key` into the gear page at `addr`.
    ReadPage { key: Vec<u8>, addr: usize },
    /// The fault has been handled.
    Finish,
}

/// `loads` are the loads of the region `fr`'s pages, under `prefix`.
pub open spec fn loads_of(prefix: Vec<u8>, fr: FaultRegion, loads: Seq<PageLoad>) -> bool {
    &&& loads.len() == fr.gear_pages_num
    &&& forall|i: int|
        0 <= i < loads.len() ==> {
            &&& (#[trigger] loads[i]).page.0 == fr.gear_page.0 + i
            &&& loads[i].key@ == prefix@ + spec_u32_to_le_bytes(loads[i].page.0)
            &&& loads[i].addr == fr.unprot_addr + i * GEAR_PAGE_SIZE
        }
}

/// The page numbers and the addresses of the region `fr` do not overflow.
pub open spec fn region_fits(fr: FaultRegion) -> bool {
    &&& fr.gear_page.0 + fr.gear_pages_num <= u32::MAX + 1
    &&& fr.unprot_addr + fr.gear_pages_num * GEAR_PAGE_SIZE <= usize::MAX + 1
}

/// The events that each state waits for.
pub open spec fn event_expected(state: HandlerState, event: HandlerEvent) -> bool {
    match state {
        HandlerState::Idle => event is Fault,
        HandlerState::Unprotecting(_) => event is Protected,
        HandlerState::Loading { .. } => event is PageRead,
        HandlerState::Reprotecting => event is Protected,
    }
}

/// The state is one that the handler reaches: a loading state reads one of
/// the region's loads.
pub open spec fn state_wf(state: HandlerState) -> bool {
    match state {
        HandlerState::Loading { region, loads, next } => next < loads@.len() && loads@.len()
            == region.gear_pages_num,
        _ => true,
    }
}

/// The end of loading the pages of `fr`: protect them again for reads only
/// after a read, or finish after a write.
pub open spec fn after_loading(
    fr: FaultRegion,
    r: (HandlerState, Result<HandlerAction, LazyPagesError>),
) -> bool {
    if !fr.is_write {
        &&& r.0 is Reprotecting
        &&& r.1 == Ok::<HandlerAction, LazyPagesError>(
            HandlerAction::Protect { addr: fr.unprot_addr, size: fr.unprot_size, read_only: true },
        )
    } else {
        r.0 is Idle && r.1 == Ok::<HandlerAction, LazyPagesError>(HandlerAction::Finish)
    }
}

/// The context's memory and prefix are those of `c0`.
pub open spec fn same_setting(c0: LazyPagesExecutionContext, c1: LazyPagesExecutionContext) -> bool {
    &&& c1.wasm_mem_addr == c0.wasm_mem_addr
    &&& c1.wasm_mem_size == c0.wasm_mem_size
    &&& c1.program_storage_prefix == c0.program_storage_prefix
}

/// Takes the handling of a fault one step further: from `state`, on what
/// the caller observed, updates the context and returns the next state with
/// what to do next, or the error that ends the handling (the state is then
/// idle again).
///
/// A fault is located and the region's protection lifted. On a first access
/// to the native page its gear pages are then read from storage one by one,
/// each saved with its data; after a read access the region is protected
/// again for reads only. A later access only lifts the protection.
pub fn handler_step(ctx: &mut LazyPagesExecutionContext, state: HandlerState, event: HandlerEvent) -> (r: (
    HandlerState,
    Result<HandlerAction, LazyPagesError>,
))
    requires
        event_expected(state, event),
        state_wf(state),
        state is Idle ==> (event matches HandlerEvent::Fault { native_page_addr, native_ps, .. }
            && (fault_in_memory(old(ctx).wasm_mem_addr, old(ctx).wasm_mem_size, native_page_addr)
            ==> page_sizes_compatible(native_ps))),
        state matches HandlerState::Unprotecting(fr) ==> (!old(
            ctx,
        ).accessed_native_pages@.contains(fr.native_page_addr) ==> region_fits(fr)),
    ensures
        same_setting(*old(ctx), *final(ctx)),
        state_wf(r.0),
        r.1 is Err ==> r.0 is Idle,
        match (state, event) {
            (HandlerState::Idle, HandlerEvent::Fault { info, native_page_addr, native_ps }) => {
                &&& final(ctx).accessed_native_pages@ == old(ctx).accessed_native_pages@
                &&& final(ctx).released_lazy_pages@ == old(ctx).released_lazy_pages@
                &&& match locate_fault(
                    old(ctx).wasm_mem_addr,
                    old(ctx).wasm_mem_size,
                    info.is_write,
                    native_page_addr,
                    native_ps,
                ) {
                    Ok(fr) => r.0 == HandlerState::Unprotecting(fr) && r.1 == Ok::<
                        HandlerAction,
                        LazyPagesError,
                    >(
                        HandlerAction::Protect {
                            addr: fr.unprot_addr,
                            size: fr.unprot_size,
                            read_only: false,
                        },
                    ),
                    Err(e) => r.1 == Err::<HandlerAction, LazyPagesError>(e),
                }
            },
            (HandlerState::Unprotecting(fr), HandlerEvent::Protected) => {
                &&& final(ctx).released_lazy_pages@ == old(ctx).released_lazy_pages@
                &&& final(ctx).accessed_native_pages@ == old(ctx).accessed_native_pages@.insert(
                    fr.native_page_addr,
                )
                &&& if old(ctx).accessed_native_pages@.contains(fr.native_page_addr) {
                    r.0 is Idle && r.1 == Ok::<HandlerAction, LazyPagesError>(HandlerAction::Finish)
                } else {
                    match old(ctx).program_storage_prefix {
                        None => r.1 == Err::<HandlerAction, LazyPagesError>(
                            LazyPagesError::ProgramPrefixIsNotSet,
                        ),
                        Some(prefix) => if fr.gear_pages_num == 0 {
                            after_loading(fr, r)
                        } else {
                            r.0 matches HandlerState::Loading { region, loads, next } && {
                                &&& region == fr
                                &&& next == 0
                                &&& loads_of(prefix, fr, loads@)
                                &&& r.1 matches Ok(HandlerAction::ReadPage { key, addr })
                                    && key@ == loads@[0].key@ && addr == loads@[0].addr
                            }
                        },
                    }
                }
            },
            (
                HandlerState::Loading { region, loads, next },
                HandlerEvent::PageRead { read, data },
            ) => {
                let page = loads@[next as int].page;
                &&& final(ctx).accessed_native_pages@ == old(ctx).accessed_native_pages@
                &&& load_outcome(
                    old(ctx).released_lazy_pages@,
                    page,
                    read,
                    data,
                    final(ctx).released_lazy_pages@,
                    match r.1 {
                        Ok(_) => Ok(()),
                        Err(e) => Err(e),
                    },
                )
                &&& r.1 is Ok ==> if next + 1 < loads@.len() {
                    &&& r.0 matches HandlerState::Loading { region: reg2, loads: loads2, next: next2 }
                        && reg2 == region && loads2 == loads && next2 == next + 1
                    &&& r.1 matches Ok(HandlerAction::ReadPage { key, addr }) && key@ == loads@[next
                        + 1].key@ && addr == loads@[next + 1].addr
                } else {
                    after_loading(region, r)
                }
            },
            (HandlerState::Reprotecting, HandlerEvent::Protected) => {
                &&& final(ctx).accessed_native_pages@ == old(ctx).accessed_native_pages@
                &&& final(ctx).released_lazy_pages@ == old(ctx).released_lazy_pages@
                &&& r.0 is Idle
                &&& r.1 == Ok::<HandlerAction, LazyPagesError>(HandlerAction::Finish)
            },
            _ => false,
        },
{
    match state {
        HandlerState::Idle => {
            match event {
                HandlerEvent::Fault { info, native_page_addr, native_ps } => {
                    match fault_region(ctx, &info, native_page_addr, native_ps) {
                        Ok(fr) => {
                            let action = HandlerAction::Protect {
                                addr: fr.unprot_addr,
                                size: fr.unprot_size,
                                read_only: false,
                            };
                            (HandlerState::Unprotecting(fr), Ok(action))
                        },
                        Err(e) => (HandlerState::Idle, Err(e)),
                    }
                },
                _ => (HandlerState::Idle, Ok(HandlerAction::Finish)),
            }
        },
        HandlerState::Unprotecting(fr) => {
            if !record_access(ctx, &fr) {
                return (HandlerState::Idle, Ok(HandlerAction::Finish));
            }
            match page_loads(ctx, &fr) {
                Ok(loads) => {
                    if loads.len() == 0 {
                        if reprotect_for_read(&fr) {
                            (
                                HandlerState::Reprotecting,
                                Ok(
                                    HandlerAction::Protect {
                                        addr: fr.unprot_addr,
                                        size: fr.unprot_size,
                                        read_only: true,
                                    },
                                ),
                            )
                        } else {
                            (HandlerState::Idle, Ok(HandlerAction::Finish))
                        }
                    } else {
                        let key = loads[0].key.clone();
                        let addr = loads[0].addr;
                        (
                            HandlerState::Loading { region: fr, loads, next: 0 },
                            Ok(HandlerAction::ReadPage { key, addr }),
                        )
                    }
                },
                Err(e) => (HandlerState::Idle, Err(e)),
            }
        },
        HandlerState::Loading { region, loads, next } => {
            match event {
                HandlerEvent::PageRead { read, data } => {
                    let page = loads[next].page;
                    match check_loaded_page(ctx, page, read, data) {
                        Ok(()) => {
                            if next + 1 < loads.len() {
                                let key = loads[next + 1].key.clone();
                                let addr = loads[next + 1].addr;
                                (
                                    HandlerState::Loading { region, loads, next: next + 1 },
                                    Ok(HandlerAction::ReadPage { key, addr }),
                                )
                            } else if reprotect_for_read(&region) {
                                (
                                    HandlerState::Reprotecting,
                                    Ok(
                                        HandlerAction::Protect {
                                            addr: region.unprot_addr,
                                            size: region.unprot_size,
                                            read_only: true,
                                        },
                                    ),
                                )
                            } else {
                                (HandlerState::Idle, Ok(HandlerAction::Finish))
                            }
                        },
                        Err(e) => (HandlerState::Idle, Err(e)),
                    }
                },
                _ => (HandlerState::Idle, Ok(HandlerAction::Finish)),
            }
        },
        HandlerState::Reprotecting => (HandlerState::Idle, Ok(HandlerAction::Finish)),
    }
}

/// The pages of a region's loads are told apart by their position.
proof fn lemma_loads_distinct(prefix: Vec<u8>, fr: FaultRegion, loads: Seq<PageLoad>, i: int, j: int)
    requires
        loads_of(prefix, fr, loads),
        0 <= i < loads.len(),
        0 <= j < loads.len(),
        i != j,
    ensures
        loads[i].page.0 != loads[j].page.0,
{
}

/// After the first `n` pages of a region have been loaded, each saved as
/// `load_outcome` says and none refused, every one of them is saved with the
/// data that its read left.
proof fn lemma_loaded_prefix_saved(
    prefix: Vec<u8>,
    fr: FaultRegion,
    loads: Seq<PageLoad>,
    reads: Seq<Option<u32>>,
    data: Seq<Vec<u8>>,
    released: Seq<Map<u32, Option<Vec<u8>>>>,
    n: int,
)
    requires
        loads_of(prefix, fr, loads),
        reads.len() == loads.len(),
        data.len() == loads.len(),
        released.len() == loads.len() + 1,
        0 <= n <= loads.len(),
        forall|i: int|
            0 <= i < loads.len() ==> load_outcome(
                #[trigger] released[i],
                loads[i].page,
                reads[i],
                data[i],
                released[i + 1],
                Ok(()),
            ),
    ensures
        forall|i: int|
            0 <= i < n ==> #[trigger] released[n].contains_key(loads[i].page.0) && released[n][loads[i].page.0]
                == saved_data(reads[i], data[i]),
    decreases n,
{
    if n > 0 {
        lemma_loaded_prefix_saved(prefix, fr, loads, reads, data, released, n - 1);
        assert(load_outcome(released[n - 1], loads[n - 1].page, reads[n - 1], data[n - 1], released[n], Ok(())));
        assert forall|i: int| 0 <= i < n implies #[trigger] released[n].contains_key(loads[i].page.0)
            && released[n][loads[i].page.0] == saved_data(reads[i], data[i]) by {
            if i < n - 1 {
                lemma_loads_distinct(prefix, fr, loads, i, n - 1);
            }
        }
    }
}

/// A first access whose page loads all succeed saves each of the region's
/// pages with the data that its storage read left in it, so that it can
/// later be told whether the page changed during execution.
pub proof fn lemma_first_access_saves_every_page(
    prefix: Vec<u8>,
    fr: FaultRegion,
    loads: Seq<PageLoad>,
    reads: Seq<Option<u32>>,
    data: Seq<Vec<u8>>,
    released: Seq<Map<u32, Option<Vec<u8>>>>,
)
    requires
        loads_of(prefix, fr, loads),
        reads.len() == loads.len(),
        data.len() == loads.len(),
        released.len() == loads.len() + 1,
        forall|i: int|
            0 <= i < loads.len() ==> load_outcome(
                #[trigger] released[i],
                loads[i].page,
                reads[i],
                data[i],
                released[i + 1],
                Ok(()),
            ),
    ensures
        forall|k: u32|
            fr.gear_page.0 <= k < fr.gear_page.0 + fr.gear_pages_num ==> #[trigger] released.last().contains_key(k),
        forall|i: int|
            0 <= i < loads.len() ==> #[trigger] released.last()[loads[i].page.0] == saved_data(
                reads[i],
                data[i],
            ),
{
    let n = loads.len() as int;
    lemma_loaded_prefix_saved(prefix, fr, loads, reads, data, released, n);
    assert(released.last() == released[n]);
    assert forall|i: int| 0 <= i < loads.len() implies #[trigger] released.last()[loads[i].page.0]
        == saved_data(reads[i], data[i]) by {
        assert(released[n].contains_key(loads[i].page.0));
    }
    assert forall|k: u32| fr.gear_page.0 <= k < fr.gear_page.0 + fr.gear_pages_num implies #[trigger] released.last().contains_key(k) by {
        let i = k - fr.gear_page.0;
        assert(loads[i].page.0 == k);
        assert(released[n].contains_key(loads[i].page.0));
    }
}

/// A located fault is handled as the access that the system reported, a
/// read where it reported nothing: a write only where it reported a write.
pub proof fn lemma_located_access_kind(
    wasm_mem_addr: Option<usize>,
    wasm_mem_size: Option<usize>,
    is_write: Option<bool>,
    native_page_addr: usize,
    native_ps: usize,
)
    ensures
        locate_fault(wasm_mem_addr, wasm_mem_size, is_write, native_page_addr, native_ps) matches Ok(fr)
            ==> (fr.is_write <==> is_write == Some(true)),
        locate_fault(wasm_mem_addr, wasm_mem_size, Some(false), native_page_addr, native_ps) matches Ok(
            fr,
        ) ==> !fr.is_write,
        locate_fault(wasm_mem_addr, wasm_mem_size, None, native_page_addr, native_ps) matches Ok(fr)
            ==> !fr.is_write,
{
}

/// A fault is located exactly when it lies in wasm memory, and the errors
/// name what is missing or wrong, in the order in which they are checked.
pub proof fn lemma_located_errors(
    wasm_mem_addr: Option<usize>,
    wasm_mem_size: Option<usize>,
    is_write: Option<bool>,
    native_page_addr: usize,
    native_ps: usize,
)
    ensures
        ({
            let r = locate_fault(wasm_mem_addr, wasm_mem_size, is_write, native_page_addr, native_ps);
            &&& r is Ok <==> fault_in_memory(wasm_mem_addr, wasm_mem_size, native_page_addr)
            &&& wasm_mem_addr is None ==> r == Err::<FaultRegion, LazyPagesError>(
                LazyPagesError::WasmMemAddrIsNotSet,
            )
            &&& wasm_mem_addr is Some && wasm_mem_size is None ==> r == Err::<
                FaultRegion,
                LazyPagesError,
            >(LazyPagesError::WasmMemSizeIsNotSet)
            &&& match (wasm_mem_addr, wasm_mem_size) {
                (Some(a), Some(s)) => {
                    &&& a + s > usize::MAX ==> r == Err::<FaultRegion, LazyPagesError>(
                        LazyPagesError::WasmMemEndOverflow,
                    )
                    &&& (a + s <= usize::MAX && !(a <= native_page_addr < a + s)) ==> r == Err::<
                        FaultRegion,
                        LazyPagesError,
                    >(
                        LazyPagesError::SignalFromUnknownMemory {
                            wasm_mem_addr: a,
                            wasm_mem_end_addr: (a + s) as usize,
                            native_page_addr,
                        },
                    )
                },
                _ => true,
            }
        }),
{
}

/// The region of a fault in wasm memory: its first gear page is the one that
/// holds the faulting native page; it covers that native page (the whole of
/// it where native pages are larger than gear pages, the gear page that
/// holds it otherwise); and its length is a whole number of gear pages.
pub proof fn lemma_located_region(
    a: usize,
    s: usize,
    is_write: Option<bool>,
    native_page_addr: usize,
    native_ps: usize,
)
    requires
        a + s <= usize::MAX,
        a <= native_page_addr < a + s,
        page_sizes_compatible(native_ps),
        (native_page_addr - a) / (GEAR_PAGE_SIZE as int) <= u32::MAX,
        native_ps / GEAR_PAGE_SIZE <= u32::MAX,
    ensures
        locate_fault(Some(a), Some(s), is_write, native_page_addr, native_ps) matches Ok(fr) && {
            &&& fr.native_page_addr == native_page_addr
            &&& fr.gear_page.0 * GEAR_PAGE_SIZE <= native_page_addr - a < fr.gear_page.0
                * GEAR_PAGE_SIZE + GEAR_PAGE_SIZE
            &&& fr.unprot_size == fr.gear_pages_num * GEAR_PAGE_SIZE
            &&& native_ps > GEAR_PAGE_SIZE ==> fr.unprot_addr == native_page_addr && fr.unprot_size
                == native_ps
            &&& native_ps <= GEAR_PAGE_SIZE ==> fr.gear_pages_num == 1 && fr.unprot_addr == a
                + fr.gear_page.0 * GEAR_PAGE_SIZE
            &&& fr.unprot_addr <= native_page_addr < fr.unprot_addr + fr.unprot_size
        },
{
    let d = native_page_addr - a;
    let q = d / (GEAR_PAGE_SIZE as int);
    assert(q * 4096 <= d < q * 4096 + 4096) by (nonlinear_arith)
        requires
            q == d / 4096,
            d >= 0,
    ;
    assert(gear_page_of(native_page_addr, a) == q);
    if native_ps > GEAR_PAGE_SIZE {
        let n = native_ps / GEAR_PAGE_SIZE;
        assert(n * 4096 == native_ps) by (nonlinear_arith)
            requires
                n == native_ps / 4096,
                native_ps % 4096 == 0,
        ;
    }
}

/// After the pages of a first access have been loaded, a read access has
/// the region protected again for reads only, so that a later write faults;
/// a write access finishes with the region readable and writable.
pub proof fn lemma_after_loading_protection(
    fr: FaultRegion,
    r: (HandlerState, Result<HandlerAction, LazyPagesError>),
)
    requires
        after_loading(fr, r),
    ensures
        !fr.is_write ==> r.1 == Ok::<HandlerAction, LazyPagesError>(
            HandlerAction::Protect { addr: fr.unprot_addr, size: fr.unprot_size, read_only: true },
        ) && r.0 is Reprotecting,
        fr.is_write ==> r.1 == Ok::<HandlerAction, LazyPagesError>(HandlerAction::Finish) && r.0 is Idle,
{
}

/// Loading a page either refuses data of the wrong size, changing nothing,
/// or saves the page with exactly the data that its read left (nothing where
/// storage held no entry), keeping every other saved page as it was.
pub proof fn lemma_load_saves_page(
    released: Map<u32, Option<Vec<u8>>>,
    page: PageNumber,
    read: Option<u32>,
    data: Vec<u8>,
    new_released: Map<u32, Option<Vec<u8>>>,
    r: Result<(), LazyPagesError>,
)
    requires
        load_outcome(released, page, read, data, new_released, r),
    ensures
        read == Some(GEAR_PAGE_SIZE as u32) ==> new_released.contains_key(page.0) && new_released[page.0]
            == Some(data),
        read is None ==> new_released.contains_key(page.0) && new_released[page.0] is None,
        (read matches Some(n) && n != GEAR_PAGE_SIZE) ==> new_released == released && r is Err,
        forall|k: u32|
            k != page.0 ==> (#[trigger] new_released.contains_key(k) <==> released.contains_key(k))
                && (released.contains_key(k) ==> new_released[k] == released[k]),
        r is Ok ==> !released.contains_key(page.0),
{
}

/// A first access records its native page and loads; a later one does
/// neither: the released pages are never changed by an access itself.
pub proof fn lemma_access_records_page(
    accessed: Set<usize>,
    released: Map<u32, Option<Vec<u8>>>,
    fr: FaultRegion,
    new_accessed: Set<usize>,
    new_released: Map<u32, Option<Vec<u8>>>,
    r: bool,
)
    requires
        access_outcome(accessed, released, fr, new_accessed, new_released, r),
    ensures
        new_accessed.contains(fr.native_page_addr),
        forall|p: usize| p != fr.native_page_addr ==> (#[trigger] new_accessed.contains(p) <==> accessed.contains(p)),
        r <==> !accessed.contains(fr.native_page_addr),
        new_released == released,
{
}

} // verus!
