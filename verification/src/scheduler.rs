//! Interfaces of the scheduler: the centralised management of delayed tasks.
//!
//! The scheduler keeps a task pool, in which each task is stored under the
//! block number at which it is due, and the record of passed blocks that
//! still hold tasks. The storages behind them are provided by the runtime.

use vstd::prelude::*;

verus! {

/// Storage of a single value.
pub trait ValueStorage {
    /// Stored value type.
    type Value;

    /// Removes the stored value.
    fn kill();
}

/// Storage that counts the items stored under each key.
pub trait CountedByKey {
    /// Key type.
    type Key;
    /// Type of an item count.
    type Length;
}

/// Double-keyed storage whose items can be walked by the first key.
pub trait KeyIterableByKeyMap {
    /// First key type.
    type Key1;
    /// Second key type.
    type Key2;
}

/// Errors that a task pool can report.
pub trait TaskPoolError: Sized {
    /// The task was not found.
    fn task_not_found() -> Self;
    /// The task already exists.
    fn duplicate_task() -> Self;
}

/// Pool of tasks, each stored under the block number at which it is due.
pub trait TaskPool {
    /// Block number type.
    type BlockNumber;
    /// Task type.
    type Task;
    /// Inner error type of the pool's storage.
    type Error: TaskPoolError;
    /// Error type of the pool's operations.
    type OutputError: From<Self::Error> + core::fmt::Debug;

    /// Removes all tasks.
    fn clear();
}

/// Represents scheduler's logic of centralized delayed tasks management logic.
pub trait Scheduler {
    /// Block number type of the messenger.
    type BlockNumber;
    /// Task type.
    type Task;
    /// Cost type.
    type Cost;
    /// Missed blocks collection representation.
    type MissedBlocksCollection;
    /// Inner error type generated by gear's storage types.
    type Error: TaskPoolError;
    /// Output error of each storage algorithm; it can be built from
    /// `Self::Error`.
    type OutputError: From<Self::Error> + core::fmt::Debug;
    /// Storing costs per block.
    type CostsPerBlock: SchedulingCostsPerBlock<BlockNumber = Self::BlockNumber, Cost = Self::Cost>;
    /// Block numbers which have already passed but still contain tasks to
    /// deal with.
    type MissedBlocks: ValueStorage<Value = Self::MissedBlocksCollection>;
    /// Task pool, holding tasks with the block number when they should be
    /// done.
    type TaskPool: TaskPool<
        BlockNumber = Self::BlockNumber,
        Task = Self::Task,
        Error = Self::Error,
        OutputError = Self::OutputError,
    > + CountedByKey<Key = Self::BlockNumber, Length = usize> + KeyIterableByKeyMap<
        Key1 = Self::BlockNumber,
        Key2 = Self::Task,
    >;

    /// Resets all storages of the scheduler: the missed blocks and the task
    /// pool.
    fn reset() {
        Self::MissedBlocks::kill();
        Self::TaskPool::clear();
    }
}

/// Storing costs getter trait.
pub trait SchedulingCostsPerBlock {
    /// Block number type.
    type BlockNumber;
    /// Cost type.
    type Cost;

    /// Extra reserve for being able to pay for missed blocks.
    fn reserve_for() -> Self::BlockNumber;

    /// Cost for storing code per block.
    fn code() -> Self::Cost;

    /// Cost for storing message in mailbox per block.
    fn mailbox() -> Self::Cost;

    /// Cost for storing program per block.
    fn program() -> Self::Cost;

    /// Cost for storing message in waitlist per block.
    fn waitlist() -> Self::Cost;
}

} // verus!
