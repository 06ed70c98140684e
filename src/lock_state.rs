use vstd::prelude::*;

verus! {

/// Lock state: a writer holds the slot; nothing else may proceed.
pub const WRITE_LOCKED: i32 = -1;

/// Lock state: the slot holds no data; only a create claim may proceed.
pub const EMPTY: i32 = 0;

/// Lock state: the slot holds data and nobody is using it.
pub const IDLE: i32 = 1;

/// One transition of a slot's lock.
#[derive(Clone, Copy, PartialEq, Eq, Debug)]
pub enum LockEvent {
    /// A writer claims an empty slot.
    CreateClaim,
    /// A writer claims an occupied, idle slot.
    UpdateClaim,
    /// A reader joins.
    ReadEnter,
    /// A reader leaves.
    ReadExit,
    /// The writer lets go, keeping the data or not.
    Release(bool),
}

/// The states that a lock can be in.
pub open spec fn is_valid_state(s: int) -> bool {
    s >= WRITE_LOCKED
}

/// The state a writer leaves behind: idle when it kept data, empty otherwise.
pub open spec fn settled(kept: bool) -> int {
    if kept { IDLE as int } else { EMPTY as int }
}

/// The state after `e` from `s`, or `None` when `e` is not allowed from `s`.
pub open spec fn step(s: int, e: LockEvent) -> Option<int> {
    match e {
        LockEvent::CreateClaim => if s == EMPTY { Some(WRITE_LOCKED as int) } else { None },
        LockEvent::UpdateClaim => if s == IDLE { Some(WRITE_LOCKED as int) } else { None },
        LockEvent::ReadEnter => if s > EMPTY { Some(s + 1) } else { None },
        LockEvent::ReadExit => if s > IDLE { Some(s - 1) } else { None },
        LockEvent::Release(kept) => if s == WRITE_LOCKED { Some(settled(kept)) } else { None },
    }
}

/// The state after the events `evs` from `s`, or `None` when one of them is refused.
pub open spec fn run(s: int, evs: Seq<LockEvent>) -> Option<int>
    decreases evs.len(),
{
    if evs.len() == 0 {
        Some(s)
    } else {
        match step(s, evs[0]) {
            Some(t) => run(t, evs.drop_first()),
            None => None,
        }
    }
}

/// Running `a` then `b` is running `a + b`.
proof fn lemma_run_append(s: int, a: Seq<LockEvent>, b: Seq<LockEvent>)
    ensures
        run(s, a + b) == (match run(s, a) {
            Some(t) => run(t, b),
            None => None,
        }),
    decreases a.len(),
{
    if a.len() > 0 {
        assert((a + b)[0] == a[0]);
        assert((a + b).drop_first() =~= a.drop_first() + b);
        if let Some(t) = step(s, a[0]) {
            lemma_run_append(t, a.drop_first(), b);
        }
    } else {
        assert(a + b =~= b);
    }
}

/// Every run that is allowed from a valid state ends in a valid state.
pub proof fn lemma_run_preserves_validity(s: int, evs: Seq<LockEvent>)
    requires
        is_valid_state(s),
    ensures
        run(s, evs) matches Some(t) ==> is_valid_state(t),
    decreases evs.len(),
{
    if evs.len() > 0 {
        if let Some(t) = step(s, evs[0]) {
            lemma_run_preserves_validity(t, evs.drop_first());
        }
    }
}

/// A slot that some run brought back to empty can be claimed by a create, and
/// never by an update.
pub proof fn lemma_empty_reclaimable(s: int, evs: Seq<LockEvent>)
    requires
        run(s, evs) == Some(EMPTY as int),
    ensures
        run(s, evs.push(LockEvent::CreateClaim)) == Some(WRITE_LOCKED as int),
        run(s, evs.push(LockEvent::UpdateClaim)) is None,
{
    lemma_run_append(s, evs, seq![LockEvent::CreateClaim]);
    lemma_run_append(s, evs, seq![LockEvent::UpdateClaim]);
    assert(evs.push(LockEvent::CreateClaim) =~= evs + seq![LockEvent::CreateClaim]);
    assert(evs.push(LockEvent::UpdateClaim) =~= evs + seq![LockEvent::UpdateClaim]);
    assert(run(EMPTY as int, seq![LockEvent::CreateClaim]) == Some(WRITE_LOCKED as int)) by {
        let one = seq![LockEvent::CreateClaim];
        assert(one[0] == LockEvent::CreateClaim);
        assert(run(WRITE_LOCKED as int, one.drop_first()) == Some(WRITE_LOCKED as int));
    }
    assert(run(EMPTY as int, seq![LockEvent::UpdateClaim]) is None) by {
        assert(seq![LockEvent::UpdateClaim][0] == LockEvent::UpdateClaim);
    }
}

/// `n` events `e` in a row.
pub open spec fn repeated(e: LockEvent, n: nat) -> Seq<LockEvent> {
    Seq::new(n, |i: int| e)
}

proof fn lemma_enters(s: int, n: nat)
    requires
        s > EMPTY,
    ensures
        run(s, repeated(LockEvent::ReadEnter, n)) == Some(s + n),
    decreases n,
{
    if n > 0 {
        assert(repeated(LockEvent::ReadEnter, n).drop_first() =~= repeated(
            LockEvent::ReadEnter,
            (n - 1) as nat,
        ));
        lemma_enters(s + 1, (n - 1) as nat);
    } else {
        assert(repeated(LockEvent::ReadEnter, n).len() == 0);
    }
}

proof fn lemma_exits(s: int, n: nat)
    requires
        s > EMPTY,
    ensures
        run(s + n, repeated(LockEvent::ReadExit, n)) == Some(s),
    decreases n,
{
    if n > 0 {
        assert(repeated(LockEvent::ReadExit, n).drop_first() =~= repeated(
            LockEvent::ReadExit,
            (n - 1) as nat,
        ));
        lemma_exits(s, (n - 1) as nat);
    } else {
        assert(repeated(LockEvent::ReadExit, n).len() == 0);
    }
}

/// Readers on an occupied slot each raise the count by one on entry and lower
/// it by one on exit: once `n` readers have all come and gone, the state is
/// what it was before.
pub proof fn lemma_reads_restore_state(s: int, n: nat)
    requires
        s > EMPTY,
    ensures
        run(s, repeated(LockEvent::ReadEnter, n)) == Some(s + n),
        run(s, repeated(LockEvent::ReadEnter, n) + repeated(LockEvent::ReadExit, n)) == Some(s),
{
    lemma_enters(s, n);
    lemma_exits(s, n);
    lemma_run_append(s, repeated(LockEvent::ReadEnter, n), repeated(LockEvent::ReadExit, n));
}

/// While a writer holds the slot, every read, update or create is refused.
pub proof fn lemma_write_lock_excludes(s: int)
    requires
        s == WRITE_LOCKED,
    ensures
        step(s, LockEvent::ReadEnter) is None,
        step(s, LockEvent::UpdateClaim) is None,
        step(s, LockEvent::CreateClaim) is None,
{
}

/// The state that `e` moves the lock to from `s`, computed as `step` gives it;
/// `None` where `step` refuses `e`, and where a reader would push the count
/// past `i32::MAX`.
pub fn next_state(s: i32, e: LockEvent) -> (r: Option<i32>)
    ensures
        r matches Some(n) ==> step(s as int, e) == Some(n as int),
        r is None <==> (step(s as int, e) is None || (e == LockEvent::ReadEnter && s == i32::MAX)),
{
    match e {
        LockEvent::CreateClaim => if s == EMPTY { Some(WRITE_LOCKED) } else { None },
        LockEvent::UpdateClaim => if s == IDLE { Some(WRITE_LOCKED) } else { None },
        LockEvent::ReadEnter => if s > EMPTY && s < i32::MAX { Some(s + 1) } else { None },
        LockEvent::ReadExit => if s > IDLE { Some(s - 1) } else { None },
        LockEvent::Release(kept) => if s == WRITE_LOCKED { Some(settled_state(kept)) } else { None },
    }
}

/// The state a writer releases the lock to.
pub fn settled_state(kept: bool) -> (r: i32)
    ensures
        r as int == settled(kept),
{
    if kept {
        IDLE
    } else {
        EMPTY
    }
}

} // verus!
