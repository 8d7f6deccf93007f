//! Samples, the producers that yield them, and how they are mixed.

use crate::amplitude::Amplitude;
use vstd::prelude::*;

verus! {

/// What one voice contributes to one frame: an amplitude for each of the two channels.
#[derive(Clone, Copy, Debug, PartialEq, Eq, Structural)]
pub struct Sample {
    pub left: Amplitude,
    pub right: Amplitude,
}

/// The sum of the samples of all voices for one frame. The sum is exact: its channels
/// are wide enough for any number of voices, and clipping is left to the output stage.
#[derive(Clone, Copy, Debug, PartialEq, Eq, Structural)]
pub struct MixedSample {
    left: i128,
    right: i128,
}

/// A mixed sample as a pair of mathematical integers.
pub struct MixView {
    pub left: int,
    pub right: int,
}

impl View for MixedSample {
    type V = MixView;

    closed spec fn view(&self) -> MixView {
        MixView { left: self.left as int, right: self.right as int }
    }
}

/// The largest magnitude that a channel of a mix can reach: `usize::MAX` voices at
/// the largest amplitude.
pub open spec fn mix_limit() -> int {
    0x8000_0000int * 0xffff_ffff_ffff_ffffint
}

/// One of the two channels of a sample.
pub enum Channel {
    Left,
    Right,
}

/// What a producer's answer adds to a channel: its amplitude, or nothing if it had no sample.
pub open spec fn contribution(produced: Option<Sample>, channel: Channel) -> int {
    match produced {
        Some(sample) => match channel {
            Channel::Left => sample.left as int,
            Channel::Right => sample.right as int,
        },
        None => 0,
    }
}

/// The sum of a channel over the answers of all producers.
pub open spec fn channel_sum(produced: Seq<Option<Sample>>, channel: Channel) -> int
    decreases produced.len(),
{
    if produced.len() == 0 {
        0
    } else {
        channel_sum(produced.drop_last(), channel) + contribution(produced.last(), channel)
    }
}

/// The sum of `count` contributions is at most `count` times the largest amplitude.
pub proof fn lemma_channel_sum_bounds(produced: Seq<Option<Sample>>, channel: Channel)
    ensures
        -0x8000_0000 * produced.len() <= channel_sum(produced, channel) <= 0x8000_0000
            * produced.len(),
    decreases produced.len(),
{
    if produced.len() > 0 {
        lemma_channel_sum_bounds(produced.drop_last(), channel);
    }
}

/// Taking one answer out of the sequence takes its contribution out of the sum.
pub proof fn lemma_channel_sum_remove(produced: Seq<Option<Sample>>, index: int, channel: Channel)
    requires
        0 <= index < produced.len(),
    ensures
        channel_sum(produced, channel) == channel_sum(produced.remove(index), channel)
            + contribution(produced[index], channel),
    decreases produced.len(),
{
    if index == produced.len() - 1 {
        assert(produced.remove(index) =~= produced.drop_last());
    } else {
        lemma_channel_sum_remove(produced.drop_last(), index, channel);
        assert(produced.remove(index).drop_last() =~= produced.drop_last().remove(index));
        assert(produced.remove(index).last() == produced.last());
    }
}

/// Mixing does not depend on the order of the voices: two sequences that hold the same
/// answers, each as often as the other, have the same sum.
pub proof fn lemma_channel_sum_order_independent(
    one: Seq<Option<Sample>>,
    other: Seq<Option<Sample>>,
    channel: Channel,
)
    requires
        one.to_multiset() =~= other.to_multiset(),
    ensures
        channel_sum(one, channel) == channel_sum(other, channel),
    decreases one.len(),
{
    vstd::seq_lib::to_multiset_len(one);
    vstd::seq_lib::to_multiset_len(other);
    if one.len() > 0 {
        let moved = one.last();
        let rest = one.drop_last();
        assert(one =~= rest.push(moved));
        vstd::seq_lib::to_multiset_build(rest, moved);
        vstd::seq_lib::to_multiset_contains(other, moved);
        assert(other.to_multiset().count(moved) > 0);
        let index = choose|index: int| 0 <= index < other.len() && other[index] == moved;
        vstd::seq_lib::to_multiset_remove(other, index);
        assert(rest.to_multiset() =~= one.to_multiset().remove(moved));
        lemma_channel_sum_order_independent(rest, other.remove(index), channel);
        lemma_channel_sum_remove(other, index, channel);
    }
}

/// The sum over two groups of voices is the sum of the sums of the groups.
pub proof fn lemma_channel_sum_concat(
    one: Seq<Option<Sample>>,
    other: Seq<Option<Sample>>,
    channel: Channel,
)
    ensures
        channel_sum(one + other, channel) == channel_sum(one, channel) + channel_sum(
            other,
            channel,
        ),
    decreases other.len(),
{
    if other.len() == 0 {
        assert(one + other =~= one);
    } else {
        lemma_channel_sum_concat(one, other.drop_last(), channel);
        assert((one + other).drop_last() =~= one + other.drop_last());
        assert((one + other).last() == other.last());
    }
}

/// Whether both channels of a mix are within `mix_limit`.
pub open spec fn within_mix_limit(mixed: MixView) -> bool {
    &&& -mix_limit() <= mixed.left <= mix_limit()
    &&& -mix_limit() <= mixed.right <= mix_limit()
}

impl MixedSample {
    /// No mix exceeds `mix_limit`.
    #[verifier::type_invariant]
    pub open spec fn within_limit(self) -> bool {
        within_mix_limit(self@)
    }

    /// Silence, the sample that mixing starts from.
    pub fn silence() -> (mixed: MixedSample)
        ensures
            mixed@ == (MixView { left: 0, right: 0 }),
    {
        MixedSample { left: 0, right: 0 }
    }

    /// The left channel. No mix exceeds `mix_limit`, so the two channels can be added.
    pub fn left(&self) -> (left: i128)
        ensures
            left == self@.left,
            -mix_limit() <= left <= mix_limit(),
    {
        proof {
            use_type_invariant(self);
        }
        self.left
    }

    /// The right channel, within `mix_limit` like the left one.
    pub fn right(&self) -> (right: i128)
        ensures
            right == self@.right,
            -mix_limit() <= right <= mix_limit(),
    {
        proof {
            use_type_invariant(self);
        }
        self.right
    }

    /// The mix with one more answer added to it.
    pub(crate) fn plus(self, produced: Option<Sample>, Ghost(before): Ghost<Seq<Option<Sample>>>) -> (mixed:
        MixedSample)
        requires
            before.len() < usize::MAX,
            self@.left == channel_sum(before, Channel::Left),
            self@.right == channel_sum(before, Channel::Right),
        ensures
            mixed@.left == channel_sum(before.push(produced), Channel::Left),
            mixed@.right == channel_sum(before.push(produced), Channel::Right),
    {
        proof {
            lemma_channel_sum_bounds(before.push(produced), Channel::Left);
            lemma_channel_sum_bounds(before.push(produced), Channel::Right);
            assert(before.push(produced).drop_last() =~= before);
            assert(0x8000_0000 * before.push(produced).len() <= 0x8000_0000
                * 0xffff_ffff_ffff_ffff) by (nonlinear_arith)
                requires
                    before.push(produced).len() <= 0xffff_ffff_ffff_ffff,
            ;
        }
        match produced {
            Some(sample) => MixedSample {
                left: self.left + sample.left as i128,
                right: self.right + sample.right as i128,
            },
            None => self,
        }
    }
}

/// Mixes the answers of all producers for one frame: each channel is the sum of that
/// channel over the samples; a producer without a sample adds nothing.
pub fn mix(produced: &Vec<Option<Sample>>) -> (mixed: MixedSample)
    ensures
        mixed@.left == channel_sum(produced@, Channel::Left),
        mixed@.right == channel_sum(produced@, Channel::Right),
{
    let mut mixed = MixedSample::silence();
    let mut index: usize = 0;
    while index < produced.len()
        invariant
            index <= produced.len(),
            mixed@.left == channel_sum(produced@.take(index as int), Channel::Left),
            mixed@.right == channel_sum(produced@.take(index as int), Channel::Right),
        decreases produced.len() - index,
    {
        proof {
            assert(produced@.take(index as int).push(produced@[index as int]) =~= produced@.take(
                index as int + 1,
            ));
        }
        mixed = mixed.plus(produced[index], Ghost(produced@.take(index as int)));
        index = index + 1;
    }
    proof {
        assert(produced@.take(produced.len() as int) =~= produced@);
    }
    mixed
}

/// A producer of samples, one per frame. A voice in the registry is one of these.
///
/// What a producer does is told by two relations, which an implementation may define
/// more closely; as they stand they admit every answer.
pub trait Sampler: Sized {
    /// Whether one call of `sample` at `sample_rate` may return `produced` and leave
    /// the producer as `after`.
    open spec fn may_produce(&self, sample_rate: u32, after: &Self, produced: Option<Sample>) -> bool {
        true
    }

    /// Whether `finished` may return `finished` for this producer.
    open spec fn may_report(&self, finished: bool) -> bool {
        true
    }

    /// The sample for the next frame. No sample means silence for this frame; the
    /// producer stays registered.
    fn sample(&mut self, sample_rate: u32) -> (produced: Option<Sample>)
        ensures
            old(self).may_produce(sample_rate, final(self), produced),
    ;

    /// Whether the producer has finished for good: one that says so will never produce
    /// a sample again and may be dropped from the registry.
    fn finished(&self) -> (finished: bool)
        ensures
            self.may_report(finished),
    ;
}

} // verus!
