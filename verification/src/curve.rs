//! A single amplitude ramp of an envelope, advanced frame by frame.

use crate::amplitude::lemma_ramp_value_bounds;
use crate::amplitude::ramp;
use crate::amplitude::ramp_value;
use crate::amplitude::Amplitude;
use vstd::prelude::*;

verus! {

/// How one curve of an envelope is configured: how long it lasts, where it starts
/// and which amplitude it reaches.
#[derive(Clone, Copy, Debug)]
pub struct EnvelopeCurve {
    pub duration_millis: u32,
    pub start: Amplitude,
    pub target: Amplitude,
}

/// The number of frames that `duration_millis` lasts at `sample_rate`, capped at `u32::MAX`.
pub open spec fn frames_in(duration_millis: u32, sample_rate: u32) -> u32 {
    let exact = (duration_millis as int * sample_rate as int) / 1000;
    if exact > u32::MAX {
        u32::MAX
    } else {
        exact as u32
    }
}

/// Computes `frames_in`.
pub fn frame_count(duration_millis: u32, sample_rate: u32) -> (frames: u32)
    ensures
        frames == frames_in(duration_millis, sample_rate),
{
    assert(duration_millis * sample_rate <= 0xffff_ffff * 0xffff_ffff) by (nonlinear_arith)
        requires
            0 <= duration_millis <= 0xffff_ffff,
            0 <= sample_rate <= 0xffff_ffff,
    ;
    let exact: u64 = (duration_millis as u64 * sample_rate as u64) / 1000;
    if exact > u32::MAX as u64 {
        u32::MAX
    } else {
        exact as u32
    }
}

/// An optional amplitude as a mathematical integer.
pub open spec fn level(amplitude: Option<Amplitude>) -> Option<int> {
    match amplitude {
        Some(value) => Some(value as int),
        None => None,
    }
}

/// What a curve instance is, as plain mathematical data.
pub struct CurveView {
    /// Configured duration.
    pub duration_millis: u32,
    /// The amplitude the ramp reaches.
    pub target: int,
    /// The amplitude the current run starts from.
    pub origin: int,
    /// Length of the current run in frames, fixed by its first frame.
    pub frames: u32,
    /// The frame on which the current run began.
    pub start_frame: u32,
    /// No frame of the current run was produced or refused yet.
    pub at_start: bool,
    /// The run is over; nothing is produced until the curve is reset.
    pub exhausted: bool,
    /// The last amplitude produced in the current run.
    pub last: Option<int>,
}

impl CurveView {
    /// The curve as configured, before its first frame.
    pub open spec fn fresh(definition: EnvelopeCurve) -> CurveView {
        CurveView {
            duration_millis: definition.duration_millis,
            target: definition.target as int,
            origin: definition.start as int,
            frames: 0,
            start_frame: 0,
            at_start: true,
            exhausted: false,
            last: None,
        }
    }

    /// The curve once its run has begun: a run begins on the first frame it is asked for,
    /// and that frame's sample rate fixes its length.
    pub open spec fn begun(self, frame: u32, sample_rate: u32) -> CurveView {
        if self.at_start {
            CurveView {
                start_frame: frame,
                frames: frames_in(self.duration_millis, sample_rate),
                at_start: false,
                ..self
            }
        } else {
            self
        }
    }

    /// One step: the curve afterwards, and the amplitude for `frame`, if the run still covers it.
    pub open spec fn advance(self, frame: u32, sample_rate: u32) -> (CurveView, Option<int>) {
        if self.exhausted {
            (self, None)
        } else {
            let running = self.begun(frame, sample_rate);
            let elapsed = frame.wrapping_sub(running.start_frame);
            if elapsed >= running.frames {
                (CurveView { exhausted: true, ..running }, None)
            } else {
                let value = ramp_value(
                    running.origin,
                    running.target,
                    elapsed as int,
                    running.frames as int,
                );
                (CurveView { last: Some(value), ..running }, Some(value))
            }
        }
    }

    /// The curve reset to ramp from `value` to its configured target.
    pub open spec fn descend_to(self, value: int, sample_rate: u32) -> CurveView {
        CurveView {
            origin: value,
            frames: frames_in(self.duration_millis, sample_rate),
            at_start: true,
            exhausted: false,
            last: None,
            ..self
        }
    }

    /// Origin and target are amplitudes that the machine type holds.
    pub open spec fn wf(self) -> bool {
        &&& i32::MIN <= self.origin <= i32::MAX
        &&& i32::MIN <= self.target <= i32::MAX
        &&& self.at_start ==> !self.exhausted
    }
}

/// An exhausted curve stays as it is and produces nothing, whatever frame it is asked for.
pub proof fn lemma_exhausted_stays_exhausted(curve: CurveView, frame: u32, sample_rate: u32)
    requires
        curve.exhausted,
    ensures
        curve.advance(frame, sample_rate) == (curve, None::<int>),
{
}

/// Every step keeps a curve well formed, and what it produces lies between origin and target.
pub proof fn lemma_advance_wf(curve: CurveView, frame: u32, sample_rate: u32)
    requires
        curve.wf(),
    ensures
        curve.advance(frame, sample_rate).0.wf(),
        !curve.advance(frame, sample_rate).0.at_start || curve.exhausted,
        curve.advance(frame, sample_rate).1 matches Some(value) ==> {
            &&& i32::MIN <= value <= i32::MAX
            &&& curve.origin <= curve.target ==> curve.origin <= value <= curve.target
            &&& curve.target <= curve.origin ==> curve.target <= value <= curve.origin
            &&& curve.advance(frame, sample_rate).0.last == Some(value)
        },
        curve.advance(frame, sample_rate).1 is None ==> curve.advance(frame, sample_rate).0.exhausted,
{
    if !curve.exhausted {
        let running = curve.begun(frame, sample_rate);
        let elapsed = frame.wrapping_sub(running.start_frame);
        if elapsed < running.frames {
            lemma_ramp_value_bounds(
                running.origin,
                running.target,
                elapsed as int,
                running.frames as int,
            );
        }
    }
}

/// A curve that was reset to descend from `value` produces exactly `value` on its first
/// frame, unless its duration is shorter than one frame at this sample rate.
pub proof fn lemma_descent_begins_at_value(
    curve: CurveView,
    value: int,
    reset_rate: u32,
    frame: u32,
    sample_rate: u32,
)
    ensures
        ({
            let first = curve.descend_to(value, reset_rate).advance(frame, sample_rate);
            if frames_in(curve.duration_millis, sample_rate) > 0 {
                first.1 == Some(value)
            } else {
                first.1 is None
            }
        }),
{
    let reset = curve.descend_to(value, reset_rate);
    let running = reset.begun(frame, sample_rate);
    assert(frame.wrapping_sub(running.start_frame) == 0);
}

/// One curve of an envelope while it plays.
#[derive(Clone, Debug)]
pub struct EnvelopeCurveInstance {
    duration_millis: u32,
    target: Amplitude,
    origin: Amplitude,
    frames: u32,
    start_frame: u32,
    at_start: bool,
    exhausted: bool,
    last: Option<Amplitude>,
}

impl View for EnvelopeCurveInstance {
    type V = CurveView;

    closed spec fn view(&self) -> CurveView {
        CurveView {
            duration_millis: self.duration_millis,
            target: self.target as int,
            origin: self.origin as int,
            frames: self.frames,
            start_frame: self.start_frame,
            at_start: self.at_start,
            exhausted: self.exhausted,
            last: level(self.last),
        }
    }
}

impl EnvelopeCurveInstance {
    /// A curve as configured, before its first frame.
    pub fn new(definition: EnvelopeCurve) -> (curve: EnvelopeCurveInstance)
        ensures
            curve@ == CurveView::fresh(definition),
            curve@.wf(),
    {
        EnvelopeCurveInstance {
            duration_millis: definition.duration_millis,
            target: definition.target,
            origin: definition.start,
            frames: 0,
            start_frame: 0,
            at_start: true,
            exhausted: false,
            last: None,
        }
    }

    /// Produces the amplitude for `frame`, or nothing once the curve's duration has elapsed.
    pub fn advance(&mut self, frame: u32, sample_rate: u32) -> (amplitude: Option<Amplitude>)
        ensures
            final(self)@ == old(self)@.advance(frame, sample_rate).0,
            level(amplitude) == old(self)@.advance(frame, sample_rate).1,
    {
        if self.exhausted {
            return None;
        }
        if self.at_start {
            self.start_frame = frame;
            self.frames = frame_count(self.duration_millis, sample_rate);
            self.at_start = false;
        }
        let elapsed: u32 = frame.wrapping_sub(self.start_frame);
        if elapsed >= self.frames {
            self.exhausted = true;
            None
        } else {
            let value: Amplitude = ramp(self.origin, self.target, elapsed, self.frames);
            self.last = Some(value);
            Some(value)
        }
    }

    /// The last amplitude that the current run produced.
    pub fn terminal_value(&self) -> (amplitude: Option<Amplitude>)
        ensures
            level(amplitude) == self@.last,
    {
        self.last
    }

    /// Whether the current run has yet to see its first frame.
    pub fn is_at_start(&self) -> (at_start: bool)
        ensures
            at_start == self@.at_start,
    {
        self.at_start
    }

    /// Resets the curve so that it ramps from `value` to its configured target.
    pub fn descend_to(&mut self, value: Amplitude, sample_rate: u32)
        ensures
            final(self)@ == old(self)@.descend_to(value as int, sample_rate),
    {
        self.origin = value;
        self.frames = frame_count(self.duration_millis, sample_rate);
        self.at_start = true;
        self.exhausted = false;
        self.last = None;
    }
}

} // verus!
