//! Conditions that live in shared memory: how a wait is carried out, what its
//! result means, and what the control structure at a condition's offset does.
//!
//! The control structure holds one signal bit and a reset mode. Signalling
//! sets the bit, clearing resets it, and a wait succeeds once the bit is set;
//! under auto-reset a successful wait clears the bit again, under manual reset
//! it stays set until someone clears it. Every process that maps the segment
//! sees the same structure at the same offset.
use vstd::prelude::*;
use crate::error::SharedMemoryError;

verus! {

/// How long a wait may block.
#[derive(Debug, Clone, Copy, PartialEq, Eq, Structural)]
pub enum WaitLimit {
    /// Block until the condition is signalled.
    Forever,
    /// Block for at most this many milliseconds.
    Millis(u64),
}

/// The limit that a timeout in milliseconds asks for: 0 means no limit.
pub fn wait_limit(timeout_millis: u64) -> (r: WaitLimit)
    ensures
        r == (if timeout_millis == 0 {
            WaitLimit::Forever
        } else {
            WaitLimit::Millis(timeout_millis)
        }),
{
    if timeout_millis == 0 {
        WaitLimit::Forever
    } else {
        WaitLimit::Millis(timeout_millis)
    }
}

/// What a wait under `limit` reports, given whether the primitive's wait
/// came back successfully. A wait without limit only comes back unsuccessful
/// when the primitive itself failed; a bounded one also when its time ran out,
/// which is a normal result.
pub fn wait_outcome(limit: WaitLimit, completed: bool) -> (r: Result<bool, SharedMemoryError>)
    ensures
        completed ==> r == Ok::<bool, SharedMemoryError>(true),
        !completed && limit is Forever ==> r == Err::<bool, _>(SharedMemoryError::SyncFailed),
        !completed && limit is Millis ==> r == Ok::<bool, SharedMemoryError>(false),
{
    if completed {
        Ok(true)
    } else {
        match limit {
            WaitLimit::Forever => Err(SharedMemoryError::SyncFailed),
            WaitLimit::Millis(_) => Ok(false),
        }
    }
}

/// The control structure of a condition, as every process that maps it sees it.
pub struct ControlBlock {
    pub signaled: bool,
    pub auto_reset: bool,
}

/// A freshly written control structure: clear, with the chosen reset mode.
pub open spec fn created(auto_reset: bool) -> ControlBlock {
    ControlBlock { signaled: false, auto_reset }
}

pub open spec fn signaled(c: ControlBlock) -> ControlBlock {
    ControlBlock { signaled: true, ..c }
}

pub open spec fn cleared(c: ControlBlock) -> ControlBlock {
    ControlBlock { signaled: false, ..c }
}

/// A wait that nobody else interrupts succeeds exactly when the bit is set;
/// otherwise it blocks until its limit runs out.
pub open spec fn wait_succeeds(c: ControlBlock) -> bool {
    c.signaled
}

/// The structure after such a wait: auto-reset consumes the signal.
pub open spec fn after_wait(c: ControlBlock) -> ControlBlock {
    if c.signaled && c.auto_reset {
        cleared(c)
    } else {
        c
    }
}

/// The structure after `n` waits in a row.
pub open spec fn after_waits(c: ControlBlock, n: nat) -> ControlBlock
    decreases n,
{
    if n == 0 {
        c
    } else {
        after_waits(after_wait(c), (n - 1) as nat)
    }
}

/// A segment's condition structures, by offset.
pub open spec fn create_at(mem: Map<int, ControlBlock>, offset: int, auto_reset: bool) -> Map<int, ControlBlock> {
    mem.insert(offset, created(auto_reset))
}

/// Signalling through any handle on the structure at `offset`.
pub open spec fn signal_at(mem: Map<int, ControlBlock>, offset: int) -> Map<int, ControlBlock> {
    mem.insert(offset, signaled(mem[offset]))
}

/// Clearing through any handle on the structure at `offset`.
pub open spec fn clear_at(mem: Map<int, ControlBlock>, offset: int) -> Map<int, ControlBlock> {
    mem.insert(offset, cleared(mem[offset]))
}

/// What a handle attached at `offset` sees: the structure already there.
pub open spec fn attach_at(mem: Map<int, ControlBlock>, offset: int) -> ControlBlock {
    mem[offset]
}

/// Under manual reset a signal stays: every one of any number of waits after
/// it succeeds, and once the condition is cleared a wait no longer does.
pub proof fn lemma_manual_reset_keeps_signal(c: ControlBlock, n: nat)
    requires
        !c.auto_reset,
    ensures
        after_waits(signaled(c), n) == signaled(c),
        wait_succeeds(after_waits(signaled(c), n)),
        !wait_succeeds(cleared(after_waits(signaled(c), n))),
    decreases n,
{
    if n > 0 {
        lemma_manual_reset_keeps_signal(c, (n - 1) as nat);
    }
}

/// Under auto-reset a signal is consumed: the first wait after it succeeds,
/// and the wait right after that does not.
pub proof fn lemma_auto_reset_consumes_signal(c: ControlBlock)
    requires
        c.auto_reset,
    ensures
        wait_succeeds(signaled(c)),
        !wait_succeeds(after_wait(signaled(c))),
        after_wait(signaled(c)) == cleared(c),
{
}

/// A handle attached at the offset of a created condition sees the creator's
/// reset mode and observes a signal sent through the creator's handle;
/// structures at other offsets are not touched.
pub proof fn lemma_attached_handle_observes_signal(
    mem: Map<int, ControlBlock>,
    offset: int,
    auto_reset: bool,
    other: int,
)
    ensures
        attach_at(create_at(mem, offset, auto_reset), offset) == created(auto_reset),
        wait_succeeds(attach_at(signal_at(create_at(mem, offset, auto_reset), offset), offset)),
        attach_at(signal_at(create_at(mem, offset, auto_reset), offset), offset).auto_reset
            == auto_reset,
        !wait_succeeds(
            attach_at(clear_at(signal_at(create_at(mem, offset, auto_reset), offset), offset), offset),
        ),
        other != offset ==> attach_at(signal_at(create_at(mem, offset, auto_reset), offset), other)
            == attach_at(mem, other),
{
}

} // verus!
