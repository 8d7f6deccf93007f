//! What holds of every envelope, proved over its mathematical model.

use crate::curve::frames_in;
use crate::curve::lemma_descent_begins_at_value;
use crate::envelope::EnvelopeStage;
use crate::envelope::EnvelopeView;
use crate::envelope::PlayingState;
use vstd::prelude::*;

verus! {

/// The envelope after a sequence of steps, each given as the state observed in the
/// flag and the sample rate of the call.
pub open spec fn after_calls(envelope: EnvelopeView, calls: Seq<(PlayingState, u32)>) -> EnvelopeView
    decreases calls.len(),
{
    if calls.len() == 0 {
        envelope
    } else {
        after_calls(envelope, calls.drop_last()).step(calls.last().0, calls.last().1).envelope
    }
}

/// Stages only move forward: no step takes an envelope to an earlier stage, a completed
/// envelope stays completed, and the release curve is untouched before the release.
pub proof fn lemma_step_moves_forward(envelope: EnvelopeView, observed: PlayingState, sample_rate: u32)
    ensures
        envelope.stage.rank() <= envelope.step(observed, sample_rate).envelope.stage.rank(),
        envelope.wf() ==> envelope.step(observed, sample_rate).envelope.wf(),
        envelope.step(observed, sample_rate).envelope.frame == envelope.frame.wrapping_add(1),
{
}

/// While the flag lets the voice sound, a step from one of the first four stages stays
/// within them and leaves the flag alone. Before the sustain a step either produces an
/// amplitude in the stage it began in or moves on to a later stage; it never does
/// neither. In the sustain nothing is produced only if nothing ever was.
pub proof fn lemma_sounding_step(envelope: EnvelopeView, observed: PlayingState, sample_rate: u32)
    requires
        observed.keeps_sounding(),
        envelope.stage.rank() <= 3,
    ensures
        ({
            let step = envelope.step(observed, sample_rate);
            &&& envelope.stage.rank() <= step.envelope.stage.rank() <= 3
            &&& step.flag == observed
            &&& step.envelope.stage == envelope.stage && !(envelope.stage is Sustain)
                ==> step.amplitude is Some
            &&& step.envelope.stage is Sustain && step.amplitude is None ==> envelope.last_value is None
                && step.envelope.sustain.last is None
        }),
{
}

/// While the flag lets the voice sound, the stages visited by any sequence of calls are
/// a run through Attack, Hold, Decay, Sustain in this order: after any further calls
/// the stage is the same or a later one of these four.
pub proof fn lemma_sounding_stages_in_order(
    envelope: EnvelopeView,
    earlier: Seq<(PlayingState, u32)>,
    later: Seq<(PlayingState, u32)>,
)
    requires
        envelope.stage.rank() <= 3,
        forall|i: int| 0 <= i < earlier.len() ==> (#[trigger] earlier[i]).0.keeps_sounding(),
        forall|i: int| 0 <= i < later.len() ==> (#[trigger] later[i]).0.keeps_sounding(),
    ensures
        envelope.stage.rank() <= after_calls(envelope, earlier).stage.rank(),
        after_calls(envelope, earlier).stage.rank() <= after_calls(
            envelope,
            earlier + later,
        ).stage.rank(),
        after_calls(envelope, earlier + later).stage.rank() <= 3,
    decreases later.len(), earlier.len(),
{
    if later.len() == 0 {
        assert(earlier + later =~= earlier);
        if earlier.len() > 0 {
            let before = earlier.drop_last();
            lemma_sounding_stages_in_order(envelope, before, Seq::empty());
            assert(before + Seq::<(PlayingState, u32)>::empty() =~= before);
            assert(earlier.last().0.keeps_sounding());
            lemma_sounding_step(after_calls(envelope, before), earlier.last().0, earlier.last().1);
        }
    } else {
        let before = later.drop_last();
        lemma_sounding_stages_in_order(envelope, earlier, before);
        assert((earlier + later).drop_last() =~= earlier + before);
        assert((earlier + later).last() == later.last());
        assert(later.last().0.keeps_sounding());
        lemma_sounding_step(
            after_calls(envelope, earlier + before),
            later.last().0,
            later.last().1,
        );
    }
}

/// A stop that is seen in the hold, the decay or the sustain leads straight into the
/// release: none of the three curves is asked again, and the first amplitude of the
/// release is the last amplitude produced before. This needs an amplitude to have been
/// produced, and a release that lasts at least one frame at this sample rate.
pub proof fn lemma_stop_enters_release(
    envelope: EnvelopeView,
    observed: PlayingState,
    sample_rate: u32,
)
    requires
        envelope.wf(),
        envelope.stage is Hold || envelope.stage is Decay || envelope.stage is Sustain,
        !observed.keeps_sounding(),
        envelope.last_value is Some,
        frames_in(envelope.release.duration_millis, sample_rate) > 0,
    ensures
        ({
            let step = envelope.step(observed, sample_rate);
            &&& step.envelope.stage is Release
            &&& step.amplitude == envelope.last_value
            &&& step.flag == observed
            &&& step.envelope.hold == envelope.hold
            &&& step.envelope.decay == envelope.decay
            &&& step.envelope.sustain == envelope.sustain
        }),
{
    lemma_descent_begins_at_value(
        envelope.release,
        envelope.last_value->0,
        sample_rate,
        envelope.frame.wrapping_add(1),
        sample_rate,
    );
}

/// Without a release of at least one frame a stop completes the envelope at once.
pub proof fn lemma_stop_without_release_completes(
    envelope: EnvelopeView,
    observed: PlayingState,
    sample_rate: u32,
)
    requires
        envelope.wf(),
        envelope.stage is Hold || envelope.stage is Decay || envelope.stage is Sustain,
        !observed.keeps_sounding(),
        frames_in(envelope.release.duration_millis, sample_rate) == 0,
    ensures
        ({
            let step = envelope.step(observed, sample_rate);
            &&& step.envelope.stage is Completed
            &&& step.amplitude is None
            &&& step.flag is Stopped
        }),
{
}

/// The attack is never interrupted: as long as its curve produces, a step in the attack
/// does the same whatever the flag holds, and the envelope leaves the attack only once
/// the attack curve is exhausted.
pub proof fn lemma_attack_outlasts_stop(
    envelope: EnvelopeView,
    observed: PlayingState,
    sample_rate: u32,
)
    requires
        envelope.stage is Attack,
    ensures
        ({
            let step = envelope.step(observed, sample_rate);
            let produced = envelope.attack.advance(envelope.frame.wrapping_add(1), sample_rate).1;
            &&& produced is Some ==> {
                &&& step.envelope.stage is Attack
                &&& step.amplitude == produced
                &&& step.flag == observed
                &&& step.envelope == envelope.step(PlayingState::Playing, sample_rate).envelope
            }
            &&& produced is None ==> !(step.envelope.stage is Attack)
                && step.envelope.attack.exhausted
        }),
{
}

/// A completed envelope stays completed: every further step produces no amplitude and
/// leaves the flag on `Stopped`, whatever was observed.
pub proof fn lemma_completed_is_final(
    envelope: EnvelopeView,
    observed: PlayingState,
    sample_rate: u32,
)
    requires
        envelope.stage is Completed,
    ensures
        ({
            let step = envelope.step(observed, sample_rate);
            &&& step.envelope.stage is Completed
            &&& step.amplitude is None
            &&& step.flag is Stopped
        }),
{
}

/// Whenever a step completes an envelope, it produces no amplitude and sets the flag to
/// `Stopped`; no other step changes the flag.
pub proof fn lemma_flag_stops_on_completion(
    envelope: EnvelopeView,
    observed: PlayingState,
    sample_rate: u32,
)
    ensures
        ({
            let step = envelope.step(observed, sample_rate);
            if step.envelope.stage is Completed {
                step.flag is Stopped && step.amplitude is None
            } else {
                step.flag == observed
            }
        }),
{
}

/// The plateau of the sustain: once the sustain curve is exhausted, every step that
/// sees no stop produces the same amplitude, and changes nothing but the frame counter.
pub proof fn lemma_sustain_plateau(
    envelope: EnvelopeView,
    first: (PlayingState, u32),
    second: (PlayingState, u32),
)
    requires
        envelope.stage is Sustain,
        envelope.sustain.exhausted,
        first.0.keeps_sounding(),
        second.0.keeps_sounding(),
    ensures
        ({
            let one = envelope.step(first.0, first.1);
            let two = one.envelope.step(second.0, second.1);
            &&& one.envelope.stage is Sustain
            &&& one.amplitude == match envelope.sustain.last {
                Some(value) => Some(value),
                None => envelope.last_value,
            }
            &&& two.amplitude == one.amplitude
            &&& two.envelope == EnvelopeView {
                frame: one.envelope.frame.wrapping_add(1),
                ..one.envelope
            }
        }),
{
}

} // verus!
