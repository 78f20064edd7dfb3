//! Handing waiting connections to the workers in batches.
use vstd::prelude::*;

verus! {

/// The most connections handed to the workers at once.
pub const BATCH_SIZE: usize = 24usize;

/// The number of connections still waiting above which the balancer pauses
/// before its next round.
pub const PAUSE_THRESHOLD: usize = 500usize;

/// The number of logical CPUs (`num_cpus::get`).  Trusted: the crate
/// documents that this is always at least 1.
#[verifier::external_body]
fn available_cpus() -> (n: usize)
    ensures
        n >= 1,
{
    num_cpus::get()
}

/// The number of workers to start: one for each CPU core, and never none.
pub fn worker_count() -> (n: usize)
    ensures
        n >= 1,
{
    available_cpus()
}

/// The number of connections a round takes from `waiting` of them.
pub open spec fn batch_len(waiting: nat) -> nat {
    if waiting < BATCH_SIZE {
        waiting
    } else {
        BATCH_SIZE as nat
    }
}

/// Takes the next batch from the waiting connections: up to 24 of them,
/// popped from the end, so the batch holds the last ones in reverse order.
pub fn take_batch<T>(waiting: &mut Vec<T>) -> (batch: Vec<T>)
    ensures
        batch@.len() == batch_len(old(waiting)@.len()),
        batch@.len() <= 24,
        final(waiting)@ == old(waiting)@.take(old(waiting)@.len() - batch@.len()),
        batch@ == old(waiting)@.skip(old(waiting)@.len() - batch@.len()).reverse(),
{
    let ghost start = waiting@;
    let mut batch: Vec<T> = Vec::new();
    while waiting.len() > 0 && batch.len() < BATCH_SIZE
        invariant
            batch@.len() <= BATCH_SIZE,
            waiting@.len() + batch@.len() == start.len(),
            waiting@ == start.take(waiting@.len() as int),
            batch@ == start.skip(waiting@.len() as int).reverse(),
        decreases waiting@.len(),
    {
        let ghost before = waiting@;
        let ghost old_batch = batch@;
        match waiting.pop() {
            Some(item) => {
                batch.push(item);
                assert(waiting@ =~= start.take(waiting@.len() as int));
                assert(batch@ =~= start.skip(waiting@.len() as int).reverse());
            },
            None => {},
        }
    }
    batch
}

/// Whether the balancer pauses before its next round, with `remaining`
/// connections still waiting.
pub fn should_pause(remaining: usize) -> (r: bool)
    ensures
        r == (remaining > PAUSE_THRESHOLD),
{
    remaining > PAUSE_THRESHOLD
}

/// Taking a batch loses and duplicates no connection: what stays waiting,
/// followed by the batch in reverse, is what was waiting before.
pub proof fn law_batch_conserves<T>(waiting: Seq<T>)
    ensures
        ({
            let rest = waiting.len() - batch_len(waiting.len());
            waiting.take(rest) + waiting.skip(rest).reverse().reverse() == waiting
        }),
{
    let rest = waiting.len() - batch_len(waiting.len());
    assert(waiting.skip(rest).reverse().reverse() =~= waiting.skip(rest));
    assert(waiting.take(rest) + waiting.skip(rest) =~= waiting);
}

/// A batch never holds more than 24 connections: it takes all that wait
/// when at most 24 do, and exactly 24 otherwise, however many wait.
pub proof fn law_batch_at_most_24(waiting: nat)
    ensures
        batch_len(waiting) <= 24,
        waiting <= 24 ==> batch_len(waiting) == waiting,
        waiting >= 24 ==> batch_len(waiting) == 24,
{
}

} // verus!
