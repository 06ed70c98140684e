//! A fixed-capacity, non-blocking pool of slots, each guarded by an atomic
//! reader/writer state machine.
//!
//! `lock_state` models a slot's lock as a transition system and proves its
//! laws; `lock` moves a real atomic by those transitions: each claim goes to
//! the state that `next_state` computes, a writer's release to the state that
//! `settled_state` gives, and a reader leaves by subtracting one; `storage`
//! builds the ring of slots, with tokens that go stale once a slot is reused.
pub mod lock_state;
pub mod lock;
pub mod storage;

pub use lock::Lock;
pub use lock_state::{
    is_valid_state, lemma_empty_reclaimable, lemma_reads_restore_state, lemma_run_preserves_validity,
    lemma_write_lock_excludes, next_state, repeated, run, settled, settled_state, step, LockEvent,
    EMPTY, IDLE, WRITE_LOCKED,
};
pub use storage::{
    count_if_current, decremented_count, incremented_count, put_outcome, recyclable, ItemHdr, Storage,
    StorageHdr, Token,
};
