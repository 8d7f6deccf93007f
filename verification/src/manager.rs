//! The registry of the voices that are playing.

use crate::sampler::channel_sum;
use crate::sampler::Channel;
use crate::sampler::MixedSample;
use crate::sampler::Sample;
use crate::sampler::Sampler;
use std::sync::Arc;
use vstd::prelude::*;

verus! {

/// What the caller who registered a voice holds on to: the id the voice was given.
#[derive(Clone, Debug)]
pub struct PlayingHandle(Arc<u64>);

impl PlayingHandle {
    /// The id of the voice.
    pub closed spec fn id(&self) -> u64 {
        *self.0
    }

    /// Reports `id`.
    pub fn get_id(&self) -> (id: u64)
        ensures
            id == self.id(),
    {
        *self.0
    }
}

#[derive(Debug)]
struct PlayingSound<S> {
    handle: PlayingHandle,
    sampler: S,
}

/// One entry of the registry, as plain data: a voice's id and its producer.
pub struct SoundView<S> {
    pub id: u64,
    pub sampler: S,
}

/// The registry as plain data.
pub struct ManagerView<S> {
    /// The registered voices, oldest first.
    pub sounds: Seq<SoundView<S>>,
    /// The id given to the voice registered last; the next one gets the one after it.
    pub last_id: u64,
}

/// The entries of `sounds` that are not marked in `finished`, in their order.
pub open spec fn unfinished<S>(sounds: Seq<SoundView<S>>, finished: Seq<bool>) -> Seq<SoundView<S>>
    decreases sounds.len(),
{
    if sounds.len() == 0 {
        sounds
    } else if finished.last() {
        unfinished(sounds.drop_last(), finished.drop_last())
    } else {
        unfinished(sounds.drop_last(), finished.drop_last()).push(sounds.last())
    }
}

/// Whether the producers of `sounds` may report `finished`, one answer per voice and
/// in the order of the voices.
pub open spec fn reported<S: Sampler>(sounds: Seq<SoundView<S>>, finished: Seq<bool>) -> bool {
    &&& finished.len() == sounds.len()
    &&& forall|i: int| 0 <= i < sounds.len() ==> (#[trigger] sounds[i]).sampler.may_report(finished[i])
}

/// Whether sampling every voice of `before` once at `sample_rate` may give the answers
/// `produced`, one per voice and in the order of the voices, and leave the registry as
/// `after`: the same voices under the same ids, each producer after its one call.
pub open spec fn sampled<S: Sampler>(
    before: ManagerView<S>,
    after: ManagerView<S>,
    sample_rate: u32,
    produced: Seq<Option<Sample>>,
) -> bool {
    &&& after.last_id == before.last_id
    &&& after.sounds.len() == before.sounds.len()
    &&& produced.len() == before.sounds.len()
    &&& forall|i: int|
        0 <= i < before.sounds.len() ==> {
            &&& (#[trigger] after.sounds[i]).id == before.sounds[i].id
            &&& before.sounds[i].sampler.may_produce(
                sample_rate,
                &after.sounds[i].sampler,
                produced[i],
            )
        }
}

/// The table of the voices that are playing, with the counter their ids come from.
#[derive(Debug)]
pub struct Manager<S> {
    playing_sounds: Vec<PlayingSound<S>>,
    last_playing_sound_id: u64,
}

impl<S> View for Manager<S> {
    type V = ManagerView<S>;

    closed spec fn view(&self) -> ManagerView<S> {
        ManagerView {
            sounds: Seq::new(
                self.playing_sounds@.len(),
                |i: int|
                    SoundView {
                        id: self.playing_sounds@[i].handle.id(),
                        sampler: self.playing_sounds@[i].sampler,
                    },
            ),
            last_id: self.last_playing_sound_id,
        }
    }
}

impl<S: Sampler> Manager<S> {
    /// An empty registry.
    pub fn new() -> (manager: Manager<S>)
        ensures
            manager@.sounds.len() == 0,
            manager@.last_id == 0,
    {
        Manager { playing_sounds: Vec::new(), last_playing_sound_id: 0 }
    }

    /// The number of registered voices.
    pub fn len(&self) -> (count: usize)
        ensures
            count == self@.sounds.len(),
    {
        self.playing_sounds.len()
    }

    /// Registers a voice: it gets the id after the last one given, wrapping around, and
    /// joins the registry behind the voices that are there.
    pub fn register(&mut self, sampler: S) -> (handle: PlayingHandle)
        ensures
            final(self)@.last_id == old(self)@.last_id.wrapping_add(1),
            handle.id() == final(self)@.last_id,
            final(self)@.sounds == old(self)@.sounds.push(
                SoundView { id: handle.id(), sampler },
            ),
    {
        self.last_playing_sound_id = self.last_playing_sound_id.wrapping_add(1);
        let id = Arc::new(self.last_playing_sound_id);
        let handle = PlayingHandle(id.clone());
        self.playing_sounds.push(PlayingSound { handle: PlayingHandle(id), sampler });
        proof {
            assert(final(self)@.sounds =~= old(self)@.sounds.push(
                SoundView { id: handle.id(), sampler },
            ));
        }
        handle
    }

    /// Takes one sample from every voice and mixes them: each channel of the result is
    /// the sum of that channel over what the voices produced.
    pub fn sample_voices(&mut self, sample_rate: u32) -> (mixed: MixedSample)
        ensures
            exists|produced: Seq<Option<Sample>>|
                {
                    &&& #[trigger] sampled(old(self)@, final(self)@, sample_rate, produced)
                    &&& mixed@.left == channel_sum(produced, Channel::Left)
                    &&& mixed@.right == channel_sum(produced, Channel::Right)
                },
    {
        let mut mixed = MixedSample::silence();
        let ghost mut produced: Seq<Option<Sample>> = Seq::empty();
        let count: usize = self.playing_sounds.len();
        let mut index: usize = 0;
        while index < count
            invariant
                index <= count,
                count == self.playing_sounds@.len(),
                count == old(self).playing_sounds@.len(),
                self.last_playing_sound_id == old(self).last_playing_sound_id,
                produced.len() == index,
                mixed@.left == channel_sum(produced, Channel::Left),
                mixed@.right == channel_sum(produced, Channel::Right),
                forall|i: int|
                    0 <= i < index ==> {
                        &&& (#[trigger] self.playing_sounds@[i]).handle == old(
                            self,
                        ).playing_sounds@[i].handle
                        &&& old(self).playing_sounds@[i].sampler.may_produce(
                            sample_rate,
                            &self.playing_sounds@[i].sampler,
                            produced[i],
                        )
                    },
                forall|i: int|
                    index <= i < count ==> #[trigger] self.playing_sounds@[i] == old(
                        self,
                    ).playing_sounds@[i],
            decreases count - index,
        {
            let answer = self.playing_sounds[index].sampler.sample(sample_rate);
            mixed = mixed.plus(answer, Ghost(produced));
            proof {
                produced = produced.push(answer);
            }
            index = index + 1;
        }
        proof {
            assert(sampled(old(self)@, self@, sample_rate, produced));
        }
        mixed
    }

    /// Asks every producer whether it has finished and drops the voices that say so;
    /// the others stay, in their order.
    pub fn prune(&mut self)
        ensures
            exists|finished: Seq<bool>|
                {
                    &&& #[trigger] reported(old(self)@.sounds, finished)
                    &&& final(self)@.sounds == unfinished(old(self)@.sounds, finished)
                },
            final(self)@.last_id == old(self)@.last_id,
    {
        let mut all: Vec<PlayingSound<S>> = Vec::new();
        std::mem::swap(&mut self.playing_sounds, &mut all);
        let ghost before = old(self)@.sounds;
        let ghost mut answers: Seq<bool> = Seq::empty();
        for sound in walk: all
            invariant
                walk.seq() == old(self).playing_sounds@,
                before == old(self)@.sounds,
                self.last_playing_sound_id == old(self).last_playing_sound_id,
                answers.len() == walk.index(),
                forall|i: int|
                    0 <= i < answers.len() ==> (#[trigger] before[i]).sampler.may_report(answers[i]),
                self@.sounds == unfinished(before.take(walk.index() as int), answers),
        {
            let ghost position = walk.index() as int;
            let ghost kept = self@.sounds;
            let ghost earlier = answers;
            let finished = sound.sampler.finished();
            proof {
                assert(0 <= position < before.len());
                assert(before[position] == SoundView {
                    id: sound.handle.id(),
                    sampler: sound.sampler,
                });
                assert(before.take(position + 1).drop_last() =~= before.take(position));
                assert(before.take(position + 1).last() == before[position]);
                answers = answers.push(finished);
                assert(answers.drop_last() =~= earlier);
            }
            if !finished {
                self.playing_sounds.push(sound);
                proof {
                    assert(self@.sounds =~= kept.push(before[position]));
                }
            }
        }
        proof {
            assert(before.take(before.len() as int) =~= before);
            assert(reported(before, answers));
        }
    }
}

} // verus!
