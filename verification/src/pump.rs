//! The queue pump: one step of the loop that moves a batch popped from the
//! external queue into the internal channel, in order, under backpressure.
//!
//! An empty batch asks the loop to sleep a short fixed interval before the
//! next poll. A non-empty batch is delivered front first; the pump stops at
//! the first item the channel cannot take and suspends with the leftover. A
//! closed channel tears the whole process loop down.

use vstd::prelude::*;
use vstd::pervasive::unreached;
use crate::channel::Channel;
use crate::channel::SendOutcome;

verus! {

/// What one pump step asks the surrounding loop to do next.
pub enum PumpStep {
    /// The batch was empty: sleep briefly, then poll the queue again.
    Idle,
    /// Every item the channel could take was delivered in order; the
    /// leftover must wait for workers to free slots before it is re-fed.
    Delivered(Vec<String>),
    /// The channel is closed: terminate the process loop.
    TornDown,
}

/// The texts of a batch of URLs, in batch order.
pub open spec fn url_views(batch: Seq<String>) -> Seq<Seq<char>> {
    batch.map_values(|s: String| s@)
}

/// Feed one batch into the channel. Items go in front first, and never
/// beyond the channel's free capacity: with `free` slots open, exactly the
/// first `free` items of a longer batch go in and the rest come back, at
/// which point the channel stands at capacity and the pump suspends.
pub fn pump_feed(chan: &mut Channel, batch: Vec<String>) -> (r: PumpStep)
    requires
        old(chan).wf(),
    ensures
        final(chan).wf(),
        final(chan).cap() == old(chan).cap(),
        final(chan).is_open() == old(chan).is_open(),
        batch@.len() == 0 ==> r is Idle && final(chan).contents() == old(chan).contents(),
        batch@.len() > 0 && !old(chan).is_open() ==> r is TornDown && final(chan).contents()
            == old(chan).contents(),
        batch@.len() > 0 && old(chan).is_open() ==> (r matches PumpStep::Delivered(rest) && {
            let free = old(chan).cap() - old(chan).contents().len();
            &&& batch@.len() <= free ==> final(chan).contents() == old(chan).contents()
                + url_views(batch@) && rest@.len() == 0
            &&& batch@.len() > free ==> final(chan).contents() == old(chan).contents()
                + url_views(batch@).take(free as int)
                && final(chan).contents().len() == final(chan).cap()
                && url_views(rest@) == url_views(batch@).skip(free as int)
        }),
{
    let ghost total = url_views(batch@);
    let mut rest = batch;
    if rest.len() == 0 {
        return PumpStep::Idle;
    }
    if !chan.open_now() {
        return PumpStep::TornDown;
    }
    loop
        invariant
            chan.wf(),
            chan.cap() == old(chan).cap(),
            chan.is_open() == old(chan).is_open(),
            chan.is_open(),
            total == url_views(batch@),
            total.len() == batch@.len(),
            total.len() > 0,
            rest@.len() <= total.len(),
            url_views(rest@) =~= total.skip(total.len() - rest@.len()),
            chan.contents() =~= old(chan).contents() + total.take(
                total.len() - rest@.len(),
            ),
        decreases rest@.len(),
    {
        if rest.len() == 0 {
            proof {
                assert(total.take(total.len() as int) =~= total);
                assert(chan.contents() =~= old(chan).contents() + total);
                assert(old(chan).contents().len() + total.len() <= chan.cap());
            }
            return PumpStep::Delivered(rest);
        }
        let ghost k = total.len() - rest@.len();
        let ghost rest0 = rest@;
        proof {
            assert(url_views(rest0)[0] == rest0[0]@);
            assert(total.skip(k as int)[0] == total[k as int]);
        }
        let item = rest.remove(0);
        proof {
            assert(item@ == total[k as int]);
            assert forall|i: int| 0 <= i < rest@.len() implies url_views(rest@)[i] == total.skip(
                k + 1,
            )[i] by {
                assert(rest@[i] == rest0[i + 1]);
                assert(url_views(rest0)[i + 1] == total.skip(k as int)[i + 1]);
            }
            assert(url_views(rest@) =~= total.skip(k + 1));
        }
        match chan.try_send(item) {
            SendOutcome::Sent => {
                proof {
                    assert(total.take(k + 1) =~= total.take(k as int).push(total[k as int]));
                    assert(chan.contents() =~= old(chan).contents() + total.take(k + 1));
                }
            },
            SendOutcome::Full(it) => {
                let ghost rest1 = rest@;
                rest.insert(0, it);
                proof {
                    let free = old(chan).cap() - old(chan).contents().len();
                    assert(total.take(k as int).len() == k);
                    assert(chan.contents().len() == chan.cap());
                    assert(k == free);
                    assert forall|i: int| 0 <= i < rest@.len() implies url_views(rest@)[i]
                        == total.skip(free as int)[i] by {
                        if i == 0 {
                            assert(rest@[0] == it);
                        } else {
                            assert(rest@[i] == rest1[i - 1]);
                            assert(url_views(rest1)[i - 1] == total.skip(k + 1)[i - 1]);
                        }
                    }
                    assert(url_views(rest@) =~= total.skip(free as int));
                }
                return PumpStep::Delivered(rest);
            },
            SendOutcome::Disconnected(_) => {
                return unreached();
            },
        }
    }
}

} // verus!
