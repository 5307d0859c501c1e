use gear_logic::scheduler::{
    CountedByKey, KeyIterableByKeyMap, Scheduler, SchedulingCostsPerBlock, TaskPool, TaskPoolError,
    ValueStorage,
};
use std::sync::atomic::{AtomicUsize, Ordering};

static KILLS: AtomicUsize = AtomicUsize::new(0);
static CLEARS: AtomicUsize = AtomicUsize::new(0);

#[derive(Debug, PartialEq)]
enum PoolError {
    NotFound,
    Duplicate,
}

impl TaskPoolError for PoolError {
    fn task_not_found() -> Self {
        PoolError::NotFound
    }
    fn duplicate_task() -> Self {
        PoolError::Duplicate
    }
}

struct Missed;
impl ValueStorage for Missed {
    type Value = Vec<u32>;
    fn kill() {
        KILLS.fetch_add(1, Ordering::SeqCst);
    }
}

struct Pool;
impl TaskPool for Pool {
    type BlockNumber = u32;
    type Task = u64;
    type Error = PoolError;
    type OutputError = PoolError;
    fn clear() {
        assert_eq!(KILLS.load(Ordering::SeqCst), CLEARS.load(Ordering::SeqCst) + 1);
        CLEARS.fetch_add(1, Ordering::SeqCst);
    }
}
impl CountedByKey for Pool {
    type Key = u32;
    type Length = usize;
}
impl KeyIterableByKeyMap for Pool {
    type Key1 = u32;
    type Key2 = u64;
}

struct Costs;
impl SchedulingCostsPerBlock for Costs {
    type BlockNumber = u32;
    type Cost = u64;
    fn reserve_for() -> u32 {
        10
    }
    fn code() -> u64 {
        1
    }
    fn mailbox() -> u64 {
        2
    }
    fn program() -> u64 {
        3
    }
    fn waitlist() -> u64 {
        4
    }
}

struct Sched;
impl Scheduler for Sched {
    type BlockNumber = u32;
    type Task = u64;
    type Cost = u64;
    type MissedBlocksCollection = Vec<u32>;
    type Error = PoolError;
    type OutputError = PoolError;
    type CostsPerBlock = Costs;
    type MissedBlocks = Missed;
    type TaskPool = Pool;
}

#[test]
fn reset_kills_missed_blocks_and_clears_pool() {
    Sched::reset();
    assert_eq!(KILLS.load(Ordering::SeqCst), 1);
    assert_eq!(CLEARS.load(Ordering::SeqCst), 1);
    assert_eq!(<Sched as Scheduler>::CostsPerBlock::reserve_for(), 10);
    assert_eq!(Costs::code() + Costs::mailbox() + Costs::program() + Costs::waitlist(), 10);
    assert_eq!(PoolError::task_not_found(), PoolError::NotFound);
    assert_eq!(PoolError::duplicate_task(), PoolError::Duplicate);
}
