//! The state of one polling task: the resolved transform and the last known
//! touch position.

use vstd::prelude::*;
use crate::event::{RawSample, TouchEvent, ABSOLUTE, ABS_X, ABS_Y};
use crate::ratio::Ratio;
use crate::rotation::ScreenRotation;
use crate::transform::Transform;

verus! {

/// A blocking read that failed on the host's side. Such a failure is
/// passed over: the task reads again.
#[derive(Debug, Clone, Copy, PartialEq, Eq, Structural)]
pub struct DeviceReadError;

/// What a poller is, to its contracts.
pub struct PollerState {
    /// The transform resolved when the poller was made; it never changes.
    pub transform: Transform,
    /// The last known position. An axis that a batch does not mention keeps
    /// the value it had.
    pub cached: TouchEvent,
}

/// The state that a polling task owns. A poller cannot be copied, and the
/// only way to one is a handler's start request.
#[derive(Debug)]
pub struct Poller {
    transform: Transform,
    cached: TouchEvent,
}

impl View for Poller {
    type V = PollerState;

    closed spec fn view(&self) -> PollerState {
        PollerState { transform: self.transform, cached: self.cached }
    }
}

impl Poller {
    /// A poller at the origin.
    pub(crate) fn new(transform: Transform) -> (poller: Poller)
        ensures
            poller@ == (PollerState { transform, cached: TouchEvent::origin() }),
    {
        Poller {
            transform,
            cached: TouchEvent {
                pos_x: Ratio { num: 0, den: 1 },
                pos_y: Ratio { num: 0, den: 1 },
            },
        }
    }

    /// The transform that this poller applies.
    pub fn transform(&self) -> (transform: Transform)
        ensures
            transform == self@.transform,
    {
        self.transform
    }

    /// The last known position.
    pub fn cached_position(&self) -> (position: TouchEvent)
        ensures
            position == self@.cached,
    {
        self.cached
    }

    /// Takes in one raw sample and returns the position to dispatch for it.
    /// Every sample yields a dispatch: one that reports neither axis yields
    /// the position unchanged.
    pub fn apply_sample(&mut self, sample: RawSample) -> (dispatched: TouchEvent)
        ensures
            final(self)@.transform == old(self)@.transform,
            final(self)@.cached == old(self)@.transform.update(old(self)@.cached, sample),
            dispatched == final(self)@.cached,
    {
        self.cached = self.transform.apply(self.cached, sample);
        self.cached
    }

    /// Folds one batch of raw samples, left to right, into the cached
    /// position and returns the positions to dispatch, in the order of the
    /// samples that gave rise to them.
    pub fn reduce_batch(&mut self, batch: &Vec<RawSample>) -> (dispatched: Vec<TouchEvent>)
        ensures
            final(self)@.transform == old(self)@.transform,
            final(self)@.cached == old(self)@.transform.fold(old(self)@.cached, batch@),
            dispatched@ == old(self)@.transform.dispatches(old(self)@.cached, batch@),
    {
        let ghost transform = self@.transform;
        let ghost start = self@.cached;
        let mut dispatched: Vec<TouchEvent> = Vec::new();
        let mut i: usize = 0;
        while i < batch.len()
            invariant
                i <= batch.len(),
                self@.transform == transform,
                self@.cached == transform.fold(start, batch@.take(i as int)),
                dispatched@ == transform.dispatches(start, batch@.take(i as int)),
            decreases batch.len() - i,
        {
            let event = self.apply_sample(batch[i]);
            dispatched.push(event);
            proof {
                let before = batch@.take(i as int);
                let after = batch@.take(i + 1);
                assert(after.drop_last() == before);
                assert(after.last() == batch@[i as int]);
                assert forall|j: int| 0 <= j < i implies #[trigger] after.take(j + 1)
                    == before.take(j + 1) by {
                    assert(after.take(j + 1) =~= before.take(j + 1));
                }
                assert(after.take(i + 1) == after);
                assert(dispatched@ =~= transform.dispatches(start, after));
            }
            i += 1;
        }
        assert(batch@.take(i as int) == batch@);
        dispatched
    }

    /// Takes in the outcome of one blocking read. A batch is folded as
    /// [`Poller::reduce_batch`] folds it; a failed read changes nothing and
    /// dispatches nothing, so that the task simply reads again.
    pub fn on_read(&mut self, read: &Result<Vec<RawSample>, DeviceReadError>) -> (dispatched: Vec<
        TouchEvent,
    >)
        ensures
            final(self)@.transform == old(self)@.transform,
            match read {
                Ok(batch) => {
                    &&& final(self)@.cached == old(self)@.transform.fold(old(self)@.cached, batch@)
                    &&& dispatched@ == old(self)@.transform.dispatches(old(self)@.cached, batch@)
                },
                Err(_) => {
                    &&& final(self)@.cached == old(self)@.cached
                    &&& dispatched@ == Seq::<TouchEvent>::empty()
                },
            },
    {
        match read {
            Ok(batch) => self.reduce_batch(batch),
            Err(_) => Vec::new(),
        }
    }
}

/// A horizontal absolute-axis record with the given value.
pub open spec fn horizontal_sample(value: i32) -> RawSample {
    RawSample { kind: ABSOLUTE, code: ABS_X, value }
}

/// A vertical absolute-axis record with the given value.
pub open spec fn vertical_sample(value: i32) -> RawSample {
    RawSample { kind: ABSOLUTE, code: ABS_Y, value }
}

/// Folding no sample leaves the position; folding one more sample is one
/// more update.
pub proof fn lemma_fold_push(
    transform: Transform,
    start: TouchEvent,
    samples: Seq<RawSample>,
    sample: RawSample,
)
    ensures
        transform.fold(start, Seq::<RawSample>::empty()) == start,
        transform.fold(start, samples.push(sample)) == transform.update(
            transform.fold(start, samples),
            sample,
        ),
{
    assert(samples.push(sample).drop_last() =~= samples);
}

/// On the unrotated screen a horizontal value `v_x` and a vertical value
/// `v_y`, seen in either order from any position, leave the position at
/// `(v_x / 8640, v_y / 15360)`.
pub proof fn lemma_unrotated_position(start: TouchEvent, v_x: i32, v_y: i32)
    ensures
        Transform::of_rotation(ScreenRotation::Deg_0) is Some,
        ({
            let transform = Transform::of_rotation(ScreenRotation::Deg_0)->0;
            let expected = TouchEvent {
                pos_x: Ratio { num: v_x as i64, den: 8640 },
                pos_y: Ratio { num: v_y as i64, den: 15360 },
            };
            &&& transform.fold(start, seq![horizontal_sample(v_x), vertical_sample(v_y)])
                == expected
            &&& transform.fold(start, seq![vertical_sample(v_y), horizontal_sample(v_x)])
                == expected
        }),
{
    let transform = Transform::of_rotation(ScreenRotation::Deg_0)->0;
    lemma_fold_pair(transform, start, horizontal_sample(v_x), vertical_sample(v_y));
    lemma_fold_pair(transform, start, vertical_sample(v_y), horizontal_sample(v_x));
}

/// On the screen turned clockwise by a quarter the axes are swapped and
/// one is mirrored: a horizontal value `v_x` and a vertical value `v_y`,
/// seen in either order from any position, leave the position at
/// `((8640 - v_y) / 8640, v_x / 15360)`.
pub proof fn lemma_clockwise_position(start: TouchEvent, v_x: i32, v_y: i32)
    ensures
        Transform::of_rotation(ScreenRotation::Deg_CW90) is Some,
        ({
            let transform = Transform::of_rotation(ScreenRotation::Deg_CW90)->0;
            let expected = TouchEvent {
                pos_x: Ratio { num: (8640 - v_y) as i64, den: 8640 },
                pos_y: Ratio { num: v_x as i64, den: 15360 },
            };
            &&& transform.fold(start, seq![horizontal_sample(v_x), vertical_sample(v_y)])
                == expected
            &&& transform.fold(start, seq![vertical_sample(v_y), horizontal_sample(v_x)])
                == expected
        }),
{
    let transform = Transform::of_rotation(ScreenRotation::Deg_CW90)->0;
    lemma_fold_pair(transform, start, horizontal_sample(v_x), vertical_sample(v_y));
    lemma_fold_pair(transform, start, vertical_sample(v_y), horizontal_sample(v_x));
}

/// Folding two samples is updating twice.
proof fn lemma_fold_pair(
    transform: Transform,
    start: TouchEvent,
    first: RawSample,
    second: RawSample,
)
    ensures
        transform.fold(start, seq![first, second]) == transform.update(
            transform.update(start, first),
            second,
        ),
{
    lemma_fold_push(transform, start, Seq::empty(), first);
    lemma_fold_push(transform, start, seq![first], second);
    assert(Seq::<RawSample>::empty().push(first) =~= seq![first]);
    assert(seq![first].push(second) =~= seq![first, second]);
}

/// A record of another type, or of another axis, leaves the position as it
/// is, whatever the transform, and is still answered by a dispatch: that of
/// the unchanged position.
pub proof fn lemma_unrecognized_sample(
    transform: Transform,
    start: TouchEvent,
    before: Seq<RawSample>,
    sample: RawSample,
)
    requires
        !sample.is_recognized(),
    ensures
        transform.update(start, sample) == start,
        transform.fold(start, before.push(sample)) == transform.fold(start, before),
        transform.dispatches(start, before.push(sample)) == transform.dispatches(
            start,
            before,
        ).push(transform.fold(start, before)),
{
    lemma_fold_push(transform, start, before, sample);
    lemma_dispatches_push(transform, start, before, sample);
}

/// The dispatches of a batch with one more sample are those of the batch,
/// followed by the position that the longer batch leaves behind.
pub proof fn lemma_dispatches_push(
    transform: Transform,
    start: TouchEvent,
    samples: Seq<RawSample>,
    sample: RawSample,
)
    ensures
        transform.dispatches(start, samples.push(sample)) == transform.dispatches(
            start,
            samples,
        ).push(transform.fold(start, samples.push(sample))),
{
    let all = samples.push(sample);
    assert(all.take(all.len() as int) =~= all);
    assert forall|j: int| 0 <= j < samples.len() implies #[trigger] all.take(j + 1)
        == samples.take(j + 1) by {
        assert(all.take(j + 1) =~= samples.take(j + 1));
    }
    assert(transform.dispatches(start, all) =~= transform.dispatches(start, samples).push(
        transform.fold(start, all),
    ));
}

/// A batch is answered by one dispatch for each of its samples, in their
/// order: each dispatch is the one before it, or the starting position,
/// updated by its own sample.
pub proof fn lemma_dispatches_follow_samples(
    transform: Transform,
    start: TouchEvent,
    samples: Seq<RawSample>,
    i: int,
)
    requires
        0 <= i < samples.len(),
    ensures
        transform.dispatches(start, samples).len() == samples.len(),
        transform.dispatches(start, samples)[i] == transform.update(
            if i == 0 {
                start
            } else {
                transform.dispatches(start, samples)[i - 1]
            },
            samples[i],
        ),
        transform.dispatches(start, samples).last() == transform.fold(start, samples),
{
    assert(samples.take(samples.len() as int) =~= samples);
    let upto = samples.take(i + 1);
    assert(upto.drop_last() =~= samples.take(i));
    assert(upto.last() == samples[i]);
    let all = transform.dispatches(start, samples);
    assert(all[i] == transform.fold(start, upto));
    assert(transform.fold(start, upto) == transform.update(
        transform.fold(start, samples.take(i)),
        samples[i],
    ));
    if i == 0 {
        assert(samples.take(0).len() == 0);
        assert(transform.fold(start, samples.take(0)) == start);
    } else {
        assert(all[i - 1] == transform.fold(start, samples.take(i - 1 + 1)));
    }
}

} // verus!
