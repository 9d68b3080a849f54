//! Decision kernel of the debounced button input: which samples end the
//! debounce wait, and when a press counts as long.

use vstd::prelude::*;

verus! {

/// Milliseconds a press must be held before it counts as a long press.
pub const RESET_TIMEOUT_IN_MILLISECONDS: u64 = 2000;

/// One round of the debounce loop. `first` is the level read before the edge
/// wait, `resampled` the level read after the quiet interval: the wait ends
/// only when the level really changed.
pub fn debounce_step(first: bool, resampled: bool) -> (r: Option<bool>)
    ensures
        r == (if first != resampled {
            Some(resampled)
        } else {
            None::<bool>
        }),
{
    if first != resampled {
        Some(resampled)
    } else {
        None
    }
}

/// The level a whole debounce run settles on: the re-sample of the first
/// round whose two reads differ, if any round does.
pub open spec fn spec_debounce_result(pairs: Seq<(bool, bool)>) -> Option<bool>
    decreases pairs.len(),
{
    if pairs.len() == 0 {
        None
    } else if pairs[0].0 != pairs[0].1 {
        Some(pairs[0].1)
    } else {
        spec_debounce_result(pairs.drop_first())
    }
}

/// The debounce loop with its waits stripped out: each pair holds the level
/// read at the start of a round and the level re-read after an edge plus the
/// quiet interval; the loop returns the first confirmed change.
pub fn debounce_scan(pairs: &Vec<(bool, bool)>) -> (r: Option<bool>)
    ensures
        r == spec_debounce_result(pairs@),
{
    let mut i: usize = 0;
    proof {
        assert(pairs@.skip(0) =~= pairs@);
    }
    while i < pairs.len()
        invariant
            i <= pairs.len(),
            spec_debounce_result(pairs@) == spec_debounce_result(pairs@.skip(i as int)),
        decreases pairs.len() - i,
    {
        let (first, resampled) = pairs[i];
        if first != resampled {
            proof {
                assert(pairs@.skip(i as int)[0] == (first, resampled));
            }
            return Some(resampled);
        }
        proof {
            assert(pairs@.skip(i as int).drop_first() =~= pairs@.skip(i as int + 1));
        }
        i = i + 1;
    }
    None
}

/// Debounce rejects bounces: when every re-sample taken after the quiet
/// interval shows either the settled level or no change at all — which is
/// what bounces shorter than the quiet interval guarantee — the run can only
/// settle on the stable level, never on an intermediate bounce value.
pub proof fn lemma_debounce_stable(pairs: Seq<(bool, bool)>, stable: bool)
    requires
        forall|i: int|
            0 <= i < pairs.len() ==> (#[trigger] pairs[i]).1 == stable || pairs[i].1 == pairs[i].0,
    ensures
        spec_debounce_result(pairs) is None || spec_debounce_result(pairs) == Some(stable),
    decreases pairs.len(),
{
    if pairs.len() > 0 && pairs[0].0 == pairs[0].1 {
        assert(forall|i: int|
            0 <= i < pairs.drop_first().len() ==> #[trigger] pairs.drop_first()[i] == pairs[i + 1]);
        lemma_debounce_stable(pairs.drop_first(), stable);
    }
}

/// The long-press rule of the button task: a press is long exactly when it
/// was still held at the reset deadline.
pub fn is_long_press(held_millis: u64) -> (r: bool)
    ensures
        r == (held_millis >= RESET_TIMEOUT_IN_MILLISECONDS),
{
    held_millis >= RESET_TIMEOUT_IN_MILLISECONDS
}

} // verus!
