//! The five-stage envelope that shapes the loudness of one voice.

use crate::amplitude::Amplitude;
use crate::curve::level;
use crate::curve::CurveView;
use crate::curve::EnvelopeCurve;
use crate::curve::EnvelopeCurveInstance;
use crate::flag::PlayingFlag;
use vstd::prelude::*;

verus! {

/// Where along its life a voice's envelope currently is.
#[derive(Debug, Clone, Copy, PartialEq, Eq, Structural)]
pub enum EnvelopeStage {
    Attack,
    Hold,
    Decay,
    Sustain,
    Release,
    Completed,
}

impl EnvelopeStage {
    /// Position of the stage in the order Attack, Hold, Decay, Sustain, Release, Completed.
    pub open spec fn rank(self) -> nat {
        match self {
            EnvelopeStage::Attack => 0,
            EnvelopeStage::Hold => 1,
            EnvelopeStage::Decay => 2,
            EnvelopeStage::Sustain => 3,
            EnvelopeStage::Release => 4,
            EnvelopeStage::Completed => 5,
        }
    }
}

/// What the controller of a voice asks of its envelopes, and whether they are done.
#[derive(Debug, Clone, Copy, PartialEq, Eq, Structural)]
pub enum PlayingState {
    Playing,
    Sustaining,
    Stopping,
    Stopped,
}

impl PlayingState {
    /// The byte that stands for the state in the shared flag.
    pub open spec fn code(self) -> u8 {
        match self {
            PlayingState::Playing => 0,
            PlayingState::Sustaining => 1,
            PlayingState::Stopping => 2,
            PlayingState::Stopped => 3,
        }
    }

    /// The state that a byte of the shared flag stands for.
    pub open spec fn from_code(code: u8) -> PlayingState {
        if code == 0 {
            PlayingState::Playing
        } else if code == 1 {
            PlayingState::Sustaining
        } else if code == 2 {
            PlayingState::Stopping
        } else {
            PlayingState::Stopped
        }
    }

    /// Whether an envelope that sees this state goes on with its own curves.
    pub open spec fn keeps_sounding(self) -> bool {
        self is Playing || self is Sustaining
    }

    /// The state after a controller asks for `requested`. `Stopped` is the envelope's to
    /// write, so a request for it is ignored; and stopping is one-way, so a request to
    /// stop has no effect on a flag that holds `Stopped`. Every other request is written.
    pub open spec fn after_request(self, requested: PlayingState) -> PlayingState {
        if requested is Stopped || (self is Stopped && requested is Stopping) {
            self
        } else {
            requested
        }
    }

    /// Decoding undoes encoding.
    pub proof fn lemma_code_round_trip(self)
        ensures
            PlayingState::from_code(self.code()) == self,
    {
    }

    /// Computes `code`.
    pub fn encode(self) -> (code: u8)
        ensures
            code == self.code(),
    {
        match self {
            PlayingState::Playing => 0,
            PlayingState::Sustaining => 1,
            PlayingState::Stopping => 2,
            PlayingState::Stopped => 3,
        }
    }

    /// Computes `from_code`.
    pub fn decode(code: u8) -> (state: PlayingState)
        ensures
            state == PlayingState::from_code(code),
    {
        if code == 0 {
            PlayingState::Playing
        } else if code == 1 {
            PlayingState::Sustaining
        } else if code == 2 {
            PlayingState::Stopping
        } else {
            PlayingState::Stopped
        }
    }

    /// Computes `after_request`.
    pub fn requested(self, requested: PlayingState) -> (state: PlayingState)
        ensures
            state == self.after_request(requested),
    {
        match (self, requested) {
            (_, PlayingState::Stopped) => self,
            (PlayingState::Stopped, PlayingState::Stopping) => self,
            _ => requested,
        }
    }
}


/// The five curves an envelope is built from.
#[derive(Clone, Copy, Debug)]
pub struct EnvelopeConfiguration {
    pub attack: EnvelopeCurve,
    pub hold: EnvelopeCurve,
    pub decay: EnvelopeCurve,
    pub sustain: EnvelopeCurve,
    pub release: EnvelopeCurve,
}

/// What an envelope is, as plain mathematical data. The shared flag is no part of it:
/// each step is given the state that was read from the flag.
pub struct EnvelopeView {
    /// Wrapping count of the frames produced so far.
    pub frame: u32,
    pub stage: EnvelopeStage,
    /// The amplitude that the last step produced.
    pub last_value: Option<int>,
    pub attack: CurveView,
    pub hold: CurveView,
    pub decay: CurveView,
    pub sustain: CurveView,
    pub release: CurveView,
}

/// What one step of an envelope yields.
pub struct Step {
    /// The envelope after the step.
    pub envelope: EnvelopeView,
    /// The amplitude for the frame, if there is one.
    pub amplitude: Option<int>,
    /// What the shared flag holds after the step: the observed state, or `Stopped`
    /// once the envelope has completed.
    pub flag: PlayingState,
}

impl EnvelopeView {
    /// A new envelope: in its attack, with no frame produced.
    pub open spec fn initial(configuration: EnvelopeConfiguration) -> EnvelopeView {
        EnvelopeView {
            frame: 0,
            stage: EnvelopeStage::Attack,
            last_value: None,
            attack: CurveView::fresh(configuration.attack),
            hold: CurveView::fresh(configuration.hold),
            decay: CurveView::fresh(configuration.decay),
            sustain: CurveView::fresh(configuration.sustain),
            release: CurveView::fresh(configuration.release),
        }
    }

    /// Until the release stage is reached the release curve is untouched.
    pub open spec fn wf(self) -> bool {
        self.stage.rank() <= 3 ==> self.release.at_start && !self.release.exhausted
    }

    /// The attack runs whatever the flag says. When it is over the hold follows at once,
    /// or the release if a stop is asked for.
    pub open spec fn from_attack(self, observed: PlayingState, sample_rate: u32) -> (
        EnvelopeView,
        Option<int>,
    ) {
        let (attack, produced) = self.attack.advance(self.frame, sample_rate);
        let moved = EnvelopeView { attack, ..self };
        match produced {
            Some(value) => (EnvelopeView { stage: EnvelopeStage::Attack, ..moved }, Some(value)),
            None => moved.stop_or(EnvelopeStage::Hold, observed, sample_rate),
        }
    }

    /// The hold; when it is over the decay follows at once, or the release if a stop is asked for.
    pub open spec fn from_hold(self, observed: PlayingState, sample_rate: u32) -> (
        EnvelopeView,
        Option<int>,
    ) {
        let (hold, produced) = self.hold.advance(self.frame, sample_rate);
        let moved = EnvelopeView { hold, ..self };
        match produced {
            Some(value) => (EnvelopeView { stage: EnvelopeStage::Hold, ..moved }, Some(value)),
            None => if observed.keeps_sounding() {
                moved.from_decay(observed, sample_rate)
            } else {
                moved.from_release(sample_rate)
            },
        }
    }

    /// The decay; when it is over the sustain follows at once, or the release if a stop is asked for.
    pub open spec fn from_decay(self, observed: PlayingState, sample_rate: u32) -> (
        EnvelopeView,
        Option<int>,
    ) {
        let (decay, produced) = self.decay.advance(self.frame, sample_rate);
        let moved = EnvelopeView { decay, ..self };
        match produced {
            Some(value) => (EnvelopeView { stage: EnvelopeStage::Decay, ..moved }, Some(value)),
            None => if observed.keeps_sounding() {
                moved.from_sustain(sample_rate)
            } else {
                moved.from_release(sample_rate)
            },
        }
    }

    /// The sustain: its own curve first, then a plateau on the last amplitude of that
    /// curve or, if it never produced one, on the amplitude of the step before.
    pub open spec fn from_sustain(self, sample_rate: u32) -> (EnvelopeView, Option<int>) {
        let (sustain, produced) = self.sustain.advance(self.frame, sample_rate);
        let moved = EnvelopeView { sustain, stage: EnvelopeStage::Sustain, ..self };
        match produced {
            Some(value) => (moved, Some(value)),
            None => (
                moved,
                match sustain.last {
                    Some(value) => Some(value),
                    None => self.last_value,
                },
            ),
        }
    }

    /// The release: on its first frame it is made to descend from the last amplitude
    /// produced; when it is over the envelope has completed.
    pub open spec fn from_release(self, sample_rate: u32) -> (EnvelopeView, Option<int>) {
        let primed = match self.last_value {
            Some(value) if self.release.at_start => self.release.descend_to(value, sample_rate),
            _ => self.release,
        };
        let (release, produced) = primed.advance(self.frame, sample_rate);
        let moved = EnvelopeView { release, ..self };
        match produced {
            Some(value) => (EnvelopeView { stage: EnvelopeStage::Release, ..moved }, Some(value)),
            None => (EnvelopeView { stage: EnvelopeStage::Completed, ..moved }, None),
        }
    }

    /// A stage that can be cut short: the release if a stop is asked for, else the stage itself.
    pub open spec fn stop_or(self, stage: EnvelopeStage, observed: PlayingState, sample_rate: u32) -> (
        EnvelopeView,
        Option<int>,
    ) {
        if !observed.keeps_sounding() {
            self.from_release(sample_rate)
        } else {
            match stage {
                EnvelopeStage::Hold => self.from_hold(observed, sample_rate),
                EnvelopeStage::Decay => self.from_decay(observed, sample_rate),
                _ => self.from_sustain(sample_rate),
            }
        }
    }

    /// One step of the envelope, given the state observed in the shared flag: the frame
    /// counter moves on first, then the current stage decides.
    pub open spec fn step(self, observed: PlayingState, sample_rate: u32) -> Step {
        let ticked = EnvelopeView { frame: self.frame.wrapping_add(1), ..self };
        let (moved, amplitude) = match self.stage {
            EnvelopeStage::Attack => ticked.from_attack(observed, sample_rate),
            EnvelopeStage::Hold => ticked.stop_or(EnvelopeStage::Hold, observed, sample_rate),
            EnvelopeStage::Decay => ticked.stop_or(EnvelopeStage::Decay, observed, sample_rate),
            EnvelopeStage::Sustain => ticked.stop_or(EnvelopeStage::Sustain, observed, sample_rate),
            EnvelopeStage::Release => ticked.from_release(sample_rate),
            EnvelopeStage::Completed => (ticked, None),
        };
        Step {
            envelope: EnvelopeView { last_value: amplitude, ..moved },
            amplitude,
            flag: if moved.stage is Completed {
                PlayingState::Stopped
            } else {
                observed
            },
        }
    }
}

/// The envelope of one voice: five curves, the stage it is in, and a handle on the
/// playing-state flag that it shares with the voice's controller.
#[derive(Clone, Debug)]
pub struct Envelope {
    frame: u32,
    state: EnvelopeStage,
    is_playing: PlayingFlag,
    last_value: Option<Amplitude>,
    attack: EnvelopeCurveInstance,
    hold: EnvelopeCurveInstance,
    decay: EnvelopeCurveInstance,
    sustain: EnvelopeCurveInstance,
    release: EnvelopeCurveInstance,
}

impl View for Envelope {
    type V = EnvelopeView;

    closed spec fn view(&self) -> EnvelopeView {
        EnvelopeView {
            frame: self.frame,
            stage: self.state,
            last_value: level(self.last_value),
            attack: self.attack@,
            hold: self.hold@,
            decay: self.decay@,
            sustain: self.sustain@,
            release: self.release@,
        }
    }
}

impl Envelope {
    /// The flag that the envelope reads in `next` and sets to `Stopped` when it completes.
    pub closed spec fn flag(&self) -> PlayingFlag {
        self.is_playing
    }

    /// A new envelope over `configuration` that listens to `is_playing`.
    pub fn new(configuration: &EnvelopeConfiguration, is_playing: PlayingFlag) -> (envelope: Envelope)
        ensures
            envelope@ == EnvelopeView::initial(*configuration),
            envelope.flag() == is_playing,
    {
        Envelope {
            frame: 0,
            state: EnvelopeStage::Attack,
            is_playing,
            last_value: None,
            attack: EnvelopeCurveInstance::new(configuration.attack),
            hold: EnvelopeCurveInstance::new(configuration.hold),
            decay: EnvelopeCurveInstance::new(configuration.decay),
            sustain: EnvelopeCurveInstance::new(configuration.sustain),
            release: EnvelopeCurveInstance::new(configuration.release),
        }
    }

    /// The stage the envelope is in.
    pub fn stage(&self) -> (stage: EnvelopeStage)
        ensures
            stage == self@.stage,
    {
        self.state
    }

    fn advance_attack(&mut self, observed: PlayingState, sample_rate: u32) -> (amplitude: Option<
        Amplitude,
    >)
        ensures
            (final(self)@, level(amplitude)) == old(self)@.from_attack(observed, sample_rate),
            final(self).flag() == old(self).flag(),
    {
        match self.attack.advance(self.frame, sample_rate) {
            Some(value) => {
                self.state = EnvelopeStage::Attack;
                Some(value)
            },
            None => self.stop_if_needed_or(EnvelopeStage::Hold, observed, sample_rate),
        }
    }

    fn stop_if_needed_or(
        &mut self,
        stage: EnvelopeStage,
        observed: PlayingState,
        sample_rate: u32,
    ) -> (amplitude: Option<Amplitude>)
        requires
            stage is Hold || stage is Decay || stage is Sustain,
        ensures
            (final(self)@, level(amplitude)) == old(self)@.stop_or(stage, observed, sample_rate),
            final(self).flag() == old(self).flag(),
        decreases 2 * (3 - stage.rank()) + 1,
    {
        if Self::should_stop(observed) {
            self.advance_release(sample_rate)
        } else {
            match stage {
                EnvelopeStage::Hold => self.advance_hold(observed, sample_rate),
                EnvelopeStage::Decay => self.advance_decay(observed, sample_rate),
                _ => self.sustain(sample_rate),
            }
        }
    }

    fn advance_hold(&mut self, observed: PlayingState, sample_rate: u32) -> (amplitude: Option<
        Amplitude,
    >)
        ensures
            (final(self)@, level(amplitude)) == old(self)@.from_hold(observed, sample_rate),
            final(self).flag() == old(self).flag(),
        decreases 4nat,
    {
        match self.hold.advance(self.frame, sample_rate) {
            Some(value) => {
                self.state = EnvelopeStage::Hold;
                Some(value)
            },
            None => self.stop_if_needed_or(EnvelopeStage::Decay, observed, sample_rate),
        }
    }

    fn advance_decay(&mut self, observed: PlayingState, sample_rate: u32) -> (amplitude: Option<
        Amplitude,
    >)
        ensures
            (final(self)@, level(amplitude)) == old(self)@.from_decay(observed, sample_rate),
            final(self).flag() == old(self).flag(),
        decreases 2nat,
    {
        match self.decay.advance(self.frame, sample_rate) {
            Some(value) => {
                self.state = EnvelopeStage::Decay;
                Some(value)
            },
            None => self.stop_if_needed_or(EnvelopeStage::Sustain, observed, sample_rate),
        }
    }

    fn sustain(&mut self, sample_rate: u32) -> (amplitude: Option<Amplitude>)
        ensures
            (final(self)@, level(amplitude)) == old(self)@.from_sustain(sample_rate),
            final(self).flag() == old(self).flag(),
    {
        self.state = EnvelopeStage::Sustain;
        match self.sustain.advance(self.frame, sample_rate) {
            Some(value) => Some(value),
            None => match self.sustain.terminal_value() {
                Some(value) => Some(value),
                None => self.last_value,
            },
        }
    }

    fn advance_release(&mut self, sample_rate: u32) -> (amplitude: Option<Amplitude>)
        ensures
            (final(self)@, level(amplitude)) == old(self)@.from_release(sample_rate),
            final(self).flag() == old(self).flag(),
    {
        if self.release.is_at_start() {
            if let Some(last_value) = self.last_value {
                self.release.descend_to(last_value, sample_rate);
            }
        }
        match self.release.advance(self.frame, sample_rate) {
            Some(value) => {
                self.state = EnvelopeStage::Release;
                Some(value)
            },
            None => {
                self.state = EnvelopeStage::Completed;
                None
            },
        }
    }

    fn should_stop(observed: PlayingState) -> (stop: bool)
        ensures
            stop == !observed.keeps_sounding(),
    {
        match observed {
            PlayingState::Playing | PlayingState::Sustaining => false,
            _ => true,
        }
    }

    fn stop(&self) {
        self.is_playing.mark_stopped();
    }

    /// One step of the envelope for a given observed state of the flag. Returns the
    /// amplitude for the frame and the state that the flag is to hold afterwards.
    /// The flag itself is neither read nor written.
    pub fn advance(&mut self, observed: PlayingState, sample_rate: u32) -> (produced: (
        Option<Amplitude>,
        PlayingState,
    ))
        ensures
            final(self)@ == old(self)@.step(observed, sample_rate).envelope,
            level(produced.0) == old(self)@.step(observed, sample_rate).amplitude,
            produced.1 == old(self)@.step(observed, sample_rate).flag,
            final(self).flag() == old(self).flag(),
    {
        self.frame = self.frame.wrapping_add(1);
        let amplitude = match self.state {
            EnvelopeStage::Attack => self.advance_attack(observed, sample_rate),
            EnvelopeStage::Hold => self.stop_if_needed_or(EnvelopeStage::Hold, observed, sample_rate),
            EnvelopeStage::Decay => self.stop_if_needed_or(
                EnvelopeStage::Decay,
                observed,
                sample_rate,
            ),
            EnvelopeStage::Sustain => self.stop_if_needed_or(
                EnvelopeStage::Sustain,
                observed,
                sample_rate,
            ),
            EnvelopeStage::Release => self.advance_release(sample_rate),
            EnvelopeStage::Completed => None,
        };
        self.last_value = amplitude;
        let flag = match self.state {
            EnvelopeStage::Completed => PlayingState::Stopped,
            _ => observed,
        };
        (amplitude, flag)
    }

    /// Produces the amplitude of the next frame: reads the shared flag once, takes one
    /// step for what it read, and writes `Stopped` to the flag once the envelope has completed.
    pub fn next(&mut self, sample_rate: u32) -> (amplitude: Option<Amplitude>)
        ensures
            exists|observed: PlayingState| #[trigger]
                old(self)@.step(observed, sample_rate).envelope == final(self)@ && old(self)@.step(
                    observed,
                    sample_rate,
                ).amplitude == level(amplitude),
            final(self).flag() == old(self).flag(),
    {
        let observed = self.is_playing.read();
        let (amplitude, flag) = self.advance(observed, sample_rate);
        if flag != observed {
            self.stop();
        }
        amplitude
    }
}

} // verus!
