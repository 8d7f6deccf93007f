//! Voices as the instrument layer sees them: notes that are played, sustained and stopped.

use crate::dispatch::Device;
use crate::dispatch::PlayError;
use crate::envelope::Envelope;
use crate::envelope::EnvelopeConfiguration;
use crate::envelope::EnvelopeView;
use crate::envelope::PlayingState;
use crate::flag::PlayingFlag;
use crate::manager::PlayingHandle;
use crate::sampler::Sampler;
use std::marker::PhantomData;
use vstd::prelude::*;

verus! {

/// `anyhow::Error`, the error a tone generator fails with. It is only carried through.
#[verifier::external_type_specification]
#[verifier::external_body]
pub struct ExAnyhowError(anyhow::Error);

/// How long a watcher sleeps between two looks at the flags of a retired note.
pub const WATCH_INTERVAL_MILLIS: u64 = 10;

/// A key of the instrument and how hard it was struck.
#[derive(Clone, Copy, Debug, PartialEq, Eq, Structural)]
pub struct Note {
    pub step: u8,
    pub velocity: u8,
}

#[derive(Debug, Clone, Copy, Eq, PartialEq, Hash)]
pub enum Loudness {
    Fortissimo,
    MezzoForte,
    Pianissimo,
}

/// A source of amplitudes together with the flag that controls it.
pub struct GeneratedTone<T> {
    pub source: T,
    pub control: PlayingFlag,
}

/// The flags of all envelopes of one voice.
pub type ControlHandles = Vec<PlayingFlag>;

/// Whether at least one of `states` is `Playing`.
pub open spec fn any_playing(states: Seq<PlayingState>) -> bool {
    exists|i: int| 0 <= i < states.len() && states[i] is Playing
}

/// Whether every one of `states` is `Stopped`.
pub open spec fn all_stopped(states: Seq<PlayingState>) -> bool {
    forall|i: int| 0 <= i < states.len() ==> states[i] is Stopped
}

/// Whether a note with `flags` flags may be found playing or not: `playing` is
/// `any_playing` of some states that its flags may hold, one for each flag.
pub open spec fn may_read_playing(flags: nat, playing: bool) -> bool {
    exists|states: Seq<PlayingState>| states.len() == flags && playing == #[trigger] any_playing(states)
}

/// Decides `any_playing` for states that were read from the flags of a voice.
pub fn is_any_playing(states: &Vec<PlayingState>) -> (playing: bool)
    ensures
        playing == any_playing(states@),
{
    let mut index: usize = 0;
    while index < states.len()
        invariant
            index <= states.len(),
            forall|i: int| 0 <= i < index ==> !(states@[i] is Playing),
        decreases states.len() - index,
    {
        if let PlayingState::Playing = states[index] {
            return true;
        }
        index = index + 1;
    }
    false
}

/// Decides `all_stopped` for states that were read from the flags of a voice.
pub fn is_all_stopped(states: &Vec<PlayingState>) -> (stopped: bool)
    ensures
        stopped == all_stopped(states@),
{
    let mut index: usize = 0;
    while index < states.len()
        invariant
            index <= states.len(),
            forall|i: int| 0 <= i < index ==> states@[i] is Stopped,
        decreases states.len() - index,
    {
        if states[index] != PlayingState::Stopped {
            return false;
        }
        index = index + 1;
    }
    true
}

/// Reads every flag once, in order.
fn observe(control_handles: &ControlHandles) -> (states: Vec<PlayingState>)
    ensures
        states@.len() == control_handles@.len(),
{
    let mut states: Vec<PlayingState> = Vec::new();
    let mut index: usize = 0;
    while index < control_handles.len()
        invariant
            index <= control_handles.len(),
            states@.len() == index,
        decreases control_handles.len() - index,
    {
        states.push(control_handles[index].read());
        index = index + 1;
    }
    states
}

/// Asks every flag for `requested`.
fn request_all(control_handles: &ControlHandles, requested: PlayingState) {
    let mut index: usize = 0;
    while index < control_handles.len()
        invariant
            index <= control_handles.len(),
        decreases control_handles.len() - index,
    {
        control_handles[index].request(requested);
        index = index + 1;
    }
}

/// Holds the flags of the envelopes that a tone generator creates for one voice.
#[derive(Debug)]
pub struct InstrumentController<T> {
    pub control_handles: ControlHandles,
    _tone_generator: PhantomData<T>,
}

impl<T> InstrumentController<T> {
    /// The flags the controller holds, oldest first.
    pub closed spec fn handles(&self) -> Seq<PlayingFlag> {
        self.control_handles@
    }

    /// The number of flags the controller holds.
    pub open spec fn flags(&self) -> nat {
        self.handles().len()
    }
}

impl<T> Default for InstrumentController<T> {
    fn default() -> (controller: Self)
        ensures
            controller.flags() == 0,
    {
        Self { control_handles: ControlHandles::new(), _tone_generator: PhantomData }
    }
}

/// Something a voice's source can be made from. Making it may create envelopes, whose
/// flags are handed to the voice's controller.
///
/// What an implementation does is told by a relation, which it may define more closely;
/// as it stands it admits every outcome.
pub trait Instantiatable {
    type Source;

    /// Whether `instantiate` for `note` may return `source` and turn the controller's
    /// flags from `before` into `after`.
    open spec fn may_instantiate(
        &self,
        note: Note,
        before: Seq<PlayingFlag>,
        after: Seq<PlayingFlag>,
        source: Self::Source,
    ) -> bool {
        true
    }

    fn instantiate(&self, note: &Note, control_handles: &mut ControlHandles) -> (source:
        Self::Source)
        ensures
            self.may_instantiate(*note, old(control_handles)@, final(control_handles)@, source),
    ;
}

impl Instantiatable for EnvelopeConfiguration {
    type Source = GeneratedTone<Envelope>;

    /// The tone is a new envelope over this configuration, in its attack, that listens
    /// to the tone's own flag; the controller gets one more flag, a handle on that one.
    open spec fn may_instantiate(
        &self,
        note: Note,
        before: Seq<PlayingFlag>,
        after: Seq<PlayingFlag>,
        source: GeneratedTone<Envelope>,
    ) -> bool {
        &&& source.source@ == EnvelopeView::initial(*self)
        &&& source.source.flag() == source.control
        &&& after == before.push(source.control)
    }

    fn instantiate(&self, _note: &Note, control_handles: &mut ControlHandles) -> (tone:
        GeneratedTone<Envelope>) {
        let control = PlayingFlag::new();
        control_handles.push(control.share());
        GeneratedTone { source: Envelope::new(self, control.share()), control }
    }
}

impl<T> InstrumentController<T> where T: ToneGenerator, T::CustomNodes: Instantiatable {
    /// Makes the source of a voice for `note` from `sampler`, by the sampler's own
    /// `instantiate`; the flags of the envelopes it creates join this controller.
    pub fn instantiate(&mut self, sampler: &T::CustomNodes, note: Note) -> (source: <
        T::CustomNodes as Instantiatable
    >::Source)
        ensures
            sampler.may_instantiate(note, old(self).handles(), final(self).handles(), source),
    {
        sampler.instantiate(&note, &mut self.control_handles)
    }
}

/// Decides which envelopes and oscillators make up a note.
///
/// What an implementation does is told by a relation, which it may define more closely;
/// as it stands it admits every outcome.
pub trait ToneGenerator: Sized {
    type CustomNodes;

    type Source: Sampler;

    /// Whether `generate_tone` for `note` may return `generated`, turn the controller's
    /// flags from `before` into `flags` and leave the generator as `after`.
    open spec fn may_generate(
        &self,
        note: Note,
        after: &Self,
        before: Seq<PlayingFlag>,
        flags: Seq<PlayingFlag>,
        generated: Result<Self::Source, anyhow::Error>,
    ) -> bool {
        true
    }

    fn generate_tone(&mut self, note: Note, control: &mut InstrumentController<Self>) -> (generated:
        Result<Self::Source, anyhow::Error>)
        ensures
            old(self).may_generate(
                note,
                final(self),
                old(control).handles(),
                final(control).handles(),
                generated,
            ),
    ;
}

/// What a retired note holds, as plain data.
pub struct RetiredView {
    /// The handle of the note's voice in the registry.
    pub handle: Option<PlayingHandle>,
    /// The flags of the note's envelopes.
    pub flags: Seq<PlayingFlag>,
}

/// A playing note as plain data.
pub struct NoteView {
    /// What was struck.
    pub note: Note,
    /// The handle of the note's voice in the registry.
    pub handle: Option<PlayingHandle>,
    /// The flags of the note's envelopes.
    pub flags: Seq<PlayingFlag>,
}

impl NoteView {
    /// What the note holds once it is taken out of play: its handle and its flags.
    pub open spec fn retired(self) -> RetiredView {
        RetiredView { handle: self.handle, flags: self.flags }
    }
}

/// A note that is playing: what was struck, the handle of its voice in the registry,
/// and the flags of its envelopes.
pub struct PlayingNote<T> {
    note: Note,
    handle: Option<PlayingHandle>,
    controller: InstrumentController<T>,
}

impl<T> View for PlayingNote<T> {
    type V = NoteView;

    closed spec fn view(&self) -> NoteView {
        NoteView { note: self.note, handle: self.handle, flags: self.controller.handles() }
    }
}

impl<T> PlayingNote<T> {
    /// The note that is playing.
    pub fn get_note(&self) -> (note: Note)
        ensures
            note == self@.note,
    {
        self.note
    }

    /// Whether any envelope of the note still reads `Playing`: `any_playing` of the
    /// states that its flags hold when they are read.
    pub fn is_playing(&self) -> (playing: bool)
        ensures
            may_read_playing(self@.flags.len(), playing),
    {
        let states = observe(&self.controller.control_handles);
        is_any_playing(&states)
    }

    /// Asks every envelope of the note to stop. An envelope that has stopped stays so.
    pub fn stop(&self) {
        request_all(&self.controller.control_handles, PlayingState::Stopping);
    }

    /// Asks every envelope of the note to sustain.
    pub fn sustain(&self) {
        request_all(&self.controller.control_handles, PlayingState::Sustaining);
    }

    /// Takes the note out of play: every envelope is asked to stop, and the handle and
    /// the flags pass to a `RetiredNote`, to be held until the envelopes have stopped.
    pub fn retire(self) -> (retired: RetiredNote)
        ensures
            retired@ == self@.retired(),
    {
        self.stop();
        RetiredNote { handle: self.handle, control_handles: self.controller.control_handles }
    }
}

/// A note that was taken out of play. It keeps the handle of its voice, so that the
/// release of its envelopes is heard to the end.
pub struct RetiredNote {
    handle: Option<PlayingHandle>,
    control_handles: ControlHandles,
}

impl View for RetiredNote {
    type V = RetiredView;

    closed spec fn view(&self) -> RetiredView {
        RetiredView { handle: self.handle, flags: self.control_handles@ }
    }
}

impl RetiredNote {
    /// Whether the note may be let go of: `all_stopped` of the states that its flags
    /// hold when they are read. Until then its watcher sleeps and asks again.
    pub fn is_finished(&self) -> (finished: bool)
        ensures
            exists|states: Seq<PlayingState>|
                states.len() == self@.flags.len() && finished == #[trigger] all_stopped(states),
    {
        let states = observe(&self.control_handles);
        is_all_stopped(&states)
    }
}

/// Why a note could not be played.
pub enum PlayNoteError {
    /// The tone generator failed; its error is carried along.
    ToneGeneration(anyhow::Error),
    /// The voice could not be registered with the device.
    Device(PlayError),
}

/// An instrument as plain data.
pub struct InstrumentView {
    /// The notes that are playing, oldest first.
    pub notes: Seq<NoteView>,
    /// Whether the sustain pedal is held.
    pub sustain: bool,
    /// The notes that were taken out of play and wait to be watched, oldest first.
    pub retired: Seq<RetiredView>,
}

/// The notes that are marked in `keep`, in their order.
pub open spec fn selected(notes: Seq<NoteView>, keep: Seq<bool>) -> Seq<NoteView>
    decreases notes.len(),
{
    if notes.len() == 0 {
        notes
    } else if keep.last() {
        selected(notes.drop_last(), keep.drop_last()).push(notes.last())
    } else {
        selected(notes.drop_last(), keep.drop_last())
    }
}

/// What the notes that are not marked in `keep` hold once retired, in their order.
pub open spec fn rejected(notes: Seq<NoteView>, keep: Seq<bool>) -> Seq<RetiredView>
    decreases notes.len(),
{
    if notes.len() == 0 {
        Seq::empty()
    } else if keep.last() {
        rejected(notes.drop_last(), keep.drop_last())
    } else {
        rejected(notes.drop_last(), keep.drop_last()).push(notes.last().retired())
    }
}

/// For each note, whether it sits on another step than `step`.
pub open spec fn other_steps(notes: Seq<NoteView>, step: u8) -> Seq<bool> {
    Seq::new(notes.len(), |i: int| notes[i].note.step != step)
}

/// The notes on other steps than `step`, in their order.
pub open spec fn without_step(notes: Seq<NoteView>, step: u8) -> Seq<NoteView> {
    selected(notes, other_steps(notes, step))
}

/// What the notes on `step` hold once retired, in their order.
pub open spec fn on_step(notes: Seq<NoteView>, step: u8) -> Seq<RetiredView> {
    rejected(notes, other_steps(notes, step))
}

/// After the notes on `step` are taken out, no note on `step` is left, and every note
/// that is left was there before.
pub proof fn lemma_without_step(notes: Seq<NoteView>, step: u8)
    ensures
        forall|i: int|
            0 <= i < without_step(notes, step).len() ==> {
                &&& (#[trigger] without_step(notes, step)[i]).note.step != step
                &&& notes.contains(without_step(notes, step)[i])
            },
        forall|i: int|
            0 <= i < notes.len() && notes[i].note.step != step ==> without_step(
                notes,
                step,
            ).contains(#[trigger] notes[i]),
    decreases notes.len(),
{
    if notes.len() > 0 {
        let front = notes.drop_last();
        lemma_without_step(front, step);
        assert(other_steps(notes, step).drop_last() =~= other_steps(front, step));
        let left = without_step(notes, step);
        let left_front = without_step(front, step);
        assert forall|i: int| 0 <= i < left.len() implies (#[trigger] left[i]).note.step != step
            && notes.contains(left[i]) by {
            if i < left_front.len() {
                assert(left[i] == left_front[i]);
                let at = choose|at: int| 0 <= at < front.len() && front[at] == left_front[i];
                assert(notes[at] == left[i]);
            } else {
                assert(left[i] == notes.last());
                assert(notes[notes.len() - 1] == left[i]);
            }
        }
        assert forall|i: int| 0 <= i < notes.len() && notes[i].note.step != step implies left.contains(
            #[trigger] notes[i],
        ) by {
            if i < front.len() {
                assert(front[i] == notes[i]);
                let at = choose|at: int| 0 <= at < left_front.len() && left_front[at] == front[i];
                assert(left[at] == notes[i]);
            } else {
                assert(left[left.len() - 1] == notes[i]);
            }
        }
    }
}

/// The instrument: the notes that are playing, the sustain pedal, the tone generator
/// that makes their sources and the device that plays them.
#[verifier::reject_recursive_types(T)]
pub struct VirtualInstrument<T: ToneGenerator> {
    playing_notes: Vec<PlayingNote<T>>,
    device: Device<T::Source>,
    sustain: bool,
    tone_generator: T,
    retired: Vec<RetiredNote>,
}

impl<T: ToneGenerator> View for VirtualInstrument<T> {
    type V = InstrumentView;

    closed spec fn view(&self) -> InstrumentView {
        InstrumentView {
            notes: Seq::new(self.playing_notes@.len(), |i: int| self.playing_notes@[i]@),
            sustain: self.sustain,
            retired: Seq::new(self.retired@.len(), |i: int| self.retired@[i]@),
        }
    }
}

impl<T> VirtualInstrument<T> where T: ToneGenerator {
    /// The device that the instrument's voices are registered with.
    pub closed spec fn device(&self) -> Device<T::Source> {
        self.device
    }

    /// The tone generator that makes the sources of the instrument's voices.
    pub closed spec fn tone_generator(&self) -> T {
        self.tone_generator
    }

    /// An instrument on `device` with no note playing and the pedal up.
    pub fn new(device: Device<T::Source>, tone_generator: T) -> (instrument: Self)
        ensures
            instrument@ == (InstrumentView {
                notes: Seq::empty(),
                sustain: false,
                retired: Seq::empty(),
            }),
            instrument.device() == device,
            instrument.tone_generator() == tone_generator,
    {
        let instrument = Self {
            device,
            tone_generator,
            playing_notes: Vec::new(),
            sustain: false,
            retired: Vec::new(),
        };
        assert(instrument@.notes =~= Seq::empty());
        assert(instrument@.retired =~= Seq::empty());
        instrument
    }

    /// The number of notes that are playing.
    pub fn playing(&self) -> (count: usize)
        ensures
            count == self@.notes.len(),
    {
        self.playing_notes.len()
    }

    /// The note at `index` among the notes that are playing.
    pub fn note_at(&self, index: usize) -> (note: Option<Note>)
        ensures
            note == if index < self@.notes.len() {
                Some(self@.notes[index as int].note)
            } else {
                None
            },
    {
        if index < self.playing_notes.len() {
            Some(self.playing_notes[index].get_note())
        } else {
            None
        }
    }

    /// Whether the sustain pedal is held.
    pub fn is_sustaining(&self) -> (sustain: bool)
        ensures
            sustain == self@.sustain,
    {
        self.sustain
    }

    /// Hands over the notes that were taken out of play since the last call, oldest
    /// first. Each is to be watched until `RetiredNote::is_finished`, and only then dropped.
    pub fn take_retired(&mut self) -> (retired: Vec<RetiredNote>)
        ensures
            retired@.len() == old(self)@.retired.len(),
            forall|i: int| 0 <= i < retired@.len() ==> (#[trigger] retired@[i])@ == old(self)@.retired[i],
            final(self)@ == (InstrumentView { retired: Seq::empty(), ..old(self)@ }),
            final(self).device() == old(self).device(),
            final(self).tone_generator() == old(self).tone_generator(),
    {
        let mut retired: Vec<RetiredNote> = Vec::new();
        std::mem::swap(&mut self.retired, &mut retired);
        assert(self@.notes =~= old(self)@.notes);
        assert(self@.retired =~= Seq::empty());
        retired
    }

    /// Adds a note as the newest of the playing notes, with the handle of its voice and
    /// the controller that holds the flags of its envelopes.
    pub fn add_note(&mut self, note: Note, handle: PlayingHandle, controller: InstrumentController<T>)
        ensures
            final(self)@ == (InstrumentView {
                notes: old(self)@.notes.push(
                    NoteView { note, handle: Some(handle), flags: controller.handles() },
                ),
                ..old(self)@
            }),
            final(self).device() == old(self).device(),
            final(self).tone_generator() == old(self).tone_generator(),
    {
        self.playing_notes.push(PlayingNote { note, handle: Some(handle), controller });
        assert(self@.notes =~= old(self)@.notes.push(
            NoteView { note, handle: Some(handle), flags: controller.handles() },
        ));
        assert(self@.retired =~= old(self)@.retired);
    }

    /// Keeps the playing notes that are marked in `keep` and retires the others: they
    /// are asked to stop, and what they hold waits in `take_retired`, behind what
    /// waits there already.
    pub fn retain(&mut self, keep: &Vec<bool>)
        requires
            keep@.len() == old(self)@.notes.len(),
        ensures
            final(self)@.notes == selected(old(self)@.notes, keep@),
            final(self)@.retired == old(self)@.retired + rejected(old(self)@.notes, keep@),
            final(self)@.sustain == old(self)@.sustain,
            final(self).device() == old(self).device(),
            final(self).tone_generator() == old(self).tone_generator(),
    {
        let mut all: Vec<PlayingNote<T>> = Vec::new();
        std::mem::swap(&mut self.playing_notes, &mut all);
        let ghost before = old(self)@.notes;
        let ghost waiting = old(self)@.retired;
        let total: usize = all.len();
        let mut position: usize = 0;
        assert(self@.notes =~= selected(before.take(0), keep@.take(0)));
        assert(self@.retired =~= waiting + rejected(before.take(0), keep@.take(0)));
        for playing in walk: all
            invariant
                before.len() == total,
                walk.seq() == old(self).playing_notes@,
                before == old(self)@.notes,
                waiting == old(self)@.retired,
                keep@.len() == before.len(),
                position == walk.index(),
                self.sustain == old(self).sustain,
                self.device == old(self).device,
                self.tone_generator == old(self).tone_generator,
                self@.notes == selected(before.take(position as int), keep@.take(position as int)),
                self@.retired == waiting + rejected(
                    before.take(position as int),
                    keep@.take(position as int),
                ),
        {
            let ghost kept = self@.notes;
            let ghost gone = self@.retired;
            proof {
                assert(0 <= position < before.len());
                assert(before[position as int] == playing@);
                assert(before.take(position + 1).drop_last() =~= before.take(position as int));
                assert(keep@.take(position + 1).drop_last() =~= keep@.take(position as int));
            }
            if keep[position] {
                self.playing_notes.push(playing);
                proof {
                    assert(self@.notes =~= kept.push(before[position as int]));
                    assert(self@.retired =~= gone);
                }
            } else {
                self.retired.push(playing.retire());
                proof {
                    assert(self@.notes =~= kept);
                    assert(self@.retired =~= gone.push(before[position as int].retired()));
                    assert(gone.push(before[position as int].retired()) =~= waiting + rejected(
                        before.take(position as int),
                        keep@.take(position as int),
                    ).push(before[position as int].retired()));
                }
            }
            position = position + 1;
        }
        proof {
            assert(before.take(before.len() as int) =~= before);
            assert(keep@.take(keep@.len() as int) =~= keep@);
        }
    }

    fn marks_of_other_steps(&self, step: u8) -> (keep: Vec<bool>)
        ensures
            keep@ == other_steps(self@.notes, step),
    {
        let mut keep: Vec<bool> = Vec::new();
        let mut index: usize = 0;
        while index < self.playing_notes.len()
            invariant
                index <= self.playing_notes@.len(),
                keep@.len() == index,
                forall|i: int| 0 <= i < index ==> keep@[i] == (self@.notes[i].note.step != step),
            decreases self.playing_notes@.len() - index,
        {
            keep.push(self.playing_notes[index].get_note().step != step);
            index = index + 1;
        }
        assert(keep@ =~= other_steps(self@.notes, step));
        keep
    }

    fn marks_of_playing(&self) -> (keep: Vec<bool>)
        ensures
            keep@.len() == self@.notes.len(),
            forall|i: int|
                0 <= i < keep@.len() ==> may_read_playing(
                    self@.notes[i].flags.len(),
                    #[trigger] keep@[i],
                ),
    {
        let mut keep: Vec<bool> = Vec::new();
        let mut index: usize = 0;
        while index < self.playing_notes.len()
            invariant
                index <= self.playing_notes@.len(),
                keep@.len() == index,
                forall|i: int|
                    0 <= i < keep@.len() ==> may_read_playing(
                        self@.notes[i].flags.len(),
                        #[trigger] keep@[i],
                    ),
            decreases self.playing_notes@.len() - index,
        {
            let playing = self.playing_notes[index].is_playing();
            assert(self@.notes[index as int] == self.playing_notes@[index as int]@);
            keep.push(playing);
            index = index + 1;
        }
        keep
    }

    /// Plays `note`. The notes that are playing on the same step are retired first.
    /// Then the tone generator makes the source of the new voice, filling a new
    /// controller with the flags of its envelopes, and the device registers the
    /// source. If both succeed the note joins the playing notes as the newest, by
    /// `add_note`, with the handle that came back and that controller. If either fails
    /// its error is returned and no note is added.
    pub fn play_note(&mut self, note: Note) -> (played: Result<(), PlayNoteError>)
        ensures
            final(self)@.sustain == old(self)@.sustain,
            final(self)@.retired == old(self)@.retired + on_step(old(self)@.notes, note.step),
            final(self).device() == old(self).device(),
            exists|flags: Seq<PlayingFlag>, generated: Result<T::Source, anyhow::Error>|
                {
                    &&& #[trigger] old(self).tone_generator().may_generate(
                        note,
                        &final(self).tone_generator(),
                        Seq::empty(),
                        flags,
                        generated,
                    )
                    &&& match played {
                        Ok(_) => {
                            &&& generated is Ok
                            &&& final(self)@.notes.len() > 0
                            &&& final(self)@.notes.last().handle is Some
                            &&& final(self)@.notes == without_step(
                                old(self)@.notes,
                                note.step,
                            ).push(
                                NoteView { note, handle: final(self)@.notes.last().handle, flags },
                            )
                        },
                        Err(PlayNoteError::ToneGeneration(error)) => {
                            &&& generated == Err::<T::Source, anyhow::Error>(error)
                            &&& final(self)@.notes == without_step(old(self)@.notes, note.step)
                        },
                        Err(PlayNoteError::Device(_)) => {
                            &&& generated is Ok
                            &&& final(self)@.notes == without_step(old(self)@.notes, note.step)
                        },
                    }
                },
    {
        let keep = self.marks_of_other_steps(note.step);
        self.retain(&keep);
        let ghost kept = self@.notes;
        let ghost before = self.tone_generator;
        let mut controller = InstrumentController::default();
        assert(controller.handles() =~= Seq::empty());
        let generated = self.tone_generator.generate_tone(note, &mut controller);
        let ghost flags = controller.handles();
        let ghost made = generated;
        proof {
            assert(self@.notes =~= kept);
            assert(self@.retired =~= old(self)@.retired + on_step(old(self)@.notes, note.step));
            assert(before == old(self).tone_generator());
            assert(old(self).tone_generator().may_generate(
                note,
                &self.tone_generator(),
                Seq::empty(),
                flags,
                made,
            ));
        }
        let source = match generated {
            Ok(source) => source,
            Err(error) => {
                assert(made == Err::<T::Source, anyhow::Error>(error));
                return Err(PlayNoteError::ToneGeneration(error));
            },
        };
        assert(made is Ok);
        match self.device.play(source) {
            Ok(handle) => {
                self.add_note(note, handle, controller);
                proof {
                    assert(self@.notes.last() == NoteView { note, handle: Some(handle), flags });
                    assert(old(self).tone_generator().may_generate(
                        note,
                        &self.tone_generator(),
                        Seq::empty(),
                        flags,
                        made,
                    ));
                }
                Ok(())
            },
            Err(error) => Err(PlayNoteError::Device(error)),
        }
    }

    /// Releases the key on `step`. With the pedal up every note on that step is
    /// retired. With the pedal held all notes stay and the oldest one on that step is
    /// asked to sustain, so that it ends when the pedal is released.
    pub fn stop_note(&mut self, step: u8)
        ensures
            final(self)@ == if old(self)@.sustain {
                old(self)@
            } else {
                InstrumentView {
                    notes: without_step(old(self)@.notes, step),
                    retired: old(self)@.retired + on_step(old(self)@.notes, step),
                    ..old(self)@
                }
            },
            final(self).device() == old(self).device(),
            final(self).tone_generator() == old(self).tone_generator(),
    {
        if self.sustain {
            let mut index: usize = 0;
            while index < self.playing_notes.len()
                invariant
                    index <= self.playing_notes@.len(),
                    *self == *old(self),
                    self.sustain,
                decreases self.playing_notes@.len() - index,
            {
                if self.playing_notes[index].get_note().step == step {
                    self.playing_notes[index].sustain();
                    return ;
                }
                index = index + 1;
            }
        } else {
            let keep = self.marks_of_other_steps(step);
            self.retain(&keep);
        }
    }

    /// Moves the sustain pedal. When it is released, every note none of whose envelopes
    /// reads `Playing` is retired: `retain` with what `PlayingNote::is_playing` says of
    /// each note, so that a note stays exactly if one of its flags is read as
    /// `Playing`, and a note without flags never stays. When it is pressed all notes stay.
    pub fn set_sustain(&mut self, active: bool)
        ensures
            final(self)@.sustain == active,
            active ==> final(self)@.notes == old(self)@.notes && final(self)@.retired == old(
                self,
            )@.retired,
            !active ==> exists|playing: Seq<bool>|
                {
                    &&& playing.len() == old(self)@.notes.len()
                    &&& forall|i: int|
                        0 <= i < playing.len() ==> may_read_playing(
                            old(self)@.notes[i].flags.len(),
                            #[trigger] playing[i],
                        )
                    &&& final(self)@.notes == #[trigger] selected(old(self)@.notes, playing)
                    &&& final(self)@.retired == old(self)@.retired + rejected(
                        old(self)@.notes,
                        playing,
                    )
                },
            final(self).device() == old(self).device(),
            final(self).tone_generator() == old(self).tone_generator(),
    {
        self.sustain = active;
        assert(self@.notes =~= old(self)@.notes);
        assert(self@.retired =~= old(self)@.retired);
        if !active {
            let keep = self.marks_of_playing();
            self.retain(&keep);
        }
    }
}

} // verus!
