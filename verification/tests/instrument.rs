use crossbeam::channel::unbounded;
use crossbeam::channel::Receiver;
use crossbeam::channel::Sender;
use crossbeam::sync::ShardedLock;
use muse::amplitude::UNITY;
use muse::concurrency::Received;
use muse::curve::EnvelopeCurve;
use muse::dispatch::decide_play;
use muse::dispatch::end_unserved;
use muse::dispatch::serve;
use muse::dispatch::Device;
use muse::dispatch::DispatchError;
use muse::dispatch::ManagerHandle;
use muse::dispatch::ManagerMessage;
use muse::dispatch::ManagerThread;
use muse::dispatch::PlayError;
use muse::dispatch::IDLE_TIMEOUT_MILLIS;
use muse::envelope::Envelope;
use muse::envelope::EnvelopeConfiguration;
use muse::envelope::EnvelopeStage;
use muse::envelope::PlayingState;
use muse::flag::PlayingFlag;
use muse::instrument::is_all_stopped;
use muse::instrument::is_any_playing;
use muse::instrument::Instantiatable;
use muse::instrument::InstrumentController;
use muse::instrument::Loudness;
use muse::instrument::Note;
use muse::instrument::PlayNoteError;
use muse::instrument::ToneGenerator;
use muse::instrument::VirtualInstrument;
use muse::instrument::WATCH_INTERVAL_MILLIS;
use muse::manager::Manager;
use muse::manager::PlayingHandle;
use muse::output::next_sample;
use muse::output::OutputFormat;
use muse::sampler::Sample;
use muse::sampler::Sampler;
use std::sync::Arc;

/// A voice whose loudness follows one envelope, the same on both channels.
struct Voice {
    envelope: Envelope,
}

impl Sampler for Voice {
    fn sample(&mut self, sample_rate: u32) -> Option<Sample> {
        self.envelope.next(sample_rate).map(|amplitude| Sample { left: amplitude, right: amplitude })
    }

    fn finished(&self) -> bool {
        self.envelope.stage() == EnvelopeStage::Completed
    }
}

/// Makes a voice of one envelope for every note but those on the step it refuses.
struct Organ {
    configuration: EnvelopeConfiguration,
    refused_step: u8,
}

impl ToneGenerator for Organ {
    type CustomNodes = EnvelopeConfiguration;
    type Source = Voice;

    fn generate_tone(
        &mut self,
        note: Note,
        control: &mut InstrumentController<Self>,
    ) -> Result<Voice, anyhow::Error> {
        if note.step == self.refused_step {
            return Err(anyhow::Error::msg("no pipe for this step"));
        }
        let tone = control.instantiate(&self.configuration, note);
        assert_eq!(tone.control.read(), PlayingState::Playing);
        Ok(Voice { envelope: tone.source })
    }
}

fn curve(duration_millis: u32, start: i32, target: i32) -> EnvelopeCurve {
    EnvelopeCurve { duration_millis, start, target }
}

fn organ() -> Organ {
    Organ {
        configuration: EnvelopeConfiguration {
            attack: curve(2_000, 0, UNITY),
            hold: curve(0, UNITY, UNITY),
            decay: curve(0, UNITY, UNITY),
            sustain: curve(0, UNITY, UNITY),
            release: curve(3_000, UNITY, 0),
        },
        refused_step: 13,
    }
}

fn note(step: u8) -> Note {
    Note { step, velocity: 64 }
}

struct Rig {
    manager: ManagerHandle<Voice>,
    sender: Sender<ManagerMessage<Voice>>,
    receiver: Receiver<ManagerMessage<Voice>>,
}

fn rig() -> Rig {
    let (sender, receiver) = unbounded();
    Rig { manager: Arc::new(ShardedLock::new(Manager::new())), sender, receiver }
}

fn serve_until_disconnected(manager: ManagerHandle<Voice>, receiver: Receiver<ManagerMessage<Voice>>) {
    let mut thread = ManagerThread::new(manager, receiver);
    loop {
        match thread.handle_incoming_messages() {
            Ok(()) => {}
            Err(error) if error.goes_on() => {}
            Err(error) => {
                assert_eq!(error, DispatchError::Disconnected);
                return;
            }
        }
    }
}

fn steps(instrument: &VirtualInstrument<Organ>) -> Vec<u8> {
    let mut steps = Vec::new();
    let mut index = 0;
    while let Some(note) = instrument.note_at(index) {
        steps.push(note.step);
        index += 1;
    }
    assert_eq!(steps.len(), instrument.playing());
    steps
}

fn left_of_next_frame(manager: &ManagerHandle<Voice>) -> i128 {
    let format = OutputFormat { channels: 2, sample_rate: 1 };
    next_sample(manager, &format).unwrap().left()
}

#[test]
fn intervals_are_ten_milliseconds() {
    assert_eq!(IDLE_TIMEOUT_MILLIS, 10);
    assert_eq!(WATCH_INTERVAL_MILLIS, 10);
}

#[test]
fn loudness_levels_are_distinct() {
    assert_ne!(Loudness::Fortissimo, Loudness::MezzoForte);
    assert_ne!(Loudness::MezzoForte, Loudness::Pianissimo);
    assert_eq!(Loudness::Pianissimo.clone(), Loudness::Pianissimo);
}

#[test]
fn any_playing_needs_one_playing_state() {
    assert!(!is_any_playing(&vec![]));
    assert!(!is_any_playing(&vec![PlayingState::Sustaining, PlayingState::Stopping]));
    assert!(is_any_playing(&vec![PlayingState::Stopped, PlayingState::Playing]));
}

#[test]
fn all_stopped_needs_every_state_stopped() {
    assert!(is_all_stopped(&vec![]));
    assert!(is_all_stopped(&vec![PlayingState::Stopped, PlayingState::Stopped]));
    assert!(!is_all_stopped(&vec![PlayingState::Stopped, PlayingState::Stopping]));
    assert!(!is_all_stopped(&vec![PlayingState::Playing]));
}

#[test]
fn instantiating_an_envelope_registers_its_flag() {
    let mut handles: Vec<PlayingFlag> = Vec::new();
    let configuration = organ().configuration;
    let mut tone = configuration.instantiate(&note(1), &mut handles);
    assert_eq!(handles.len(), 1);
    let other = configuration.instantiate(&note(2), &mut handles);
    assert_eq!(handles.len(), 2);
    assert_eq!(tone.source.stage(), EnvelopeStage::Attack);
    handles[0].request(PlayingState::Stopping);
    assert_eq!(tone.control.read(), PlayingState::Stopping);
    assert_eq!(other.control.read(), PlayingState::Playing);
    assert_eq!(tone.source.next(1), Some(0));
    assert_eq!(tone.source.next(1), Some(UNITY));
    assert_eq!(tone.source.next(1), Some(UNITY));
    assert_eq!(tone.source.stage(), EnvelopeStage::Release);
}

#[test]
fn dispatch_registers_a_voice_and_answers_with_its_handle() {
    let rig = rig();
    let mut thread = ManagerThread::new(rig.manager.clone(), rig.receiver);
    let (callback, reply) = unbounded::<PlayingHandle>();
    let envelope = Envelope::new(&organ().configuration, PlayingFlag::new());
    rig.sender.send(ManagerMessage::Append { sampler: Voice { envelope }, callback }).ok().unwrap();
    assert_eq!(thread.handle_incoming_messages(), Ok(()));
    assert_eq!(reply.try_recv().unwrap().get_id(), 1);
    assert_eq!(rig.manager.read().unwrap().len(), 1);
}

#[test]
fn dispatch_ignores_a_requester_that_went_away() {
    let rig = rig();
    let mut thread = ManagerThread::new(rig.manager.clone(), rig.receiver);
    let (callback, reply) = unbounded::<PlayingHandle>();
    drop(reply);
    let envelope = Envelope::new(&organ().configuration, PlayingFlag::new());
    rig.sender.send(ManagerMessage::Append { sampler: Voice { envelope }, callback }).ok().unwrap();
    assert_eq!(thread.handle_incoming_messages(), Ok(()));
    assert_eq!(rig.manager.read().unwrap().len(), 1);
}

#[test]
fn dispatch_prunes_finished_voices_when_idle() {
    let rig = rig();
    let flag = PlayingFlag::new();
    let envelope = Envelope::new(&organ().configuration, flag.share());
    rig.manager.write().unwrap().register(Voice { envelope });
    let mut thread = ManagerThread::new(rig.manager.clone(), rig.receiver);
    let error = thread.handle_incoming_messages().unwrap_err();
    assert_eq!(error, DispatchError::Timeout);
    assert!(error.goes_on());
    assert_eq!(rig.manager.read().unwrap().len(), 1);
    flag.request(PlayingState::Stopping);
    for _ in 0..6 {
        left_of_next_frame(&rig.manager);
    }
    assert_eq!(flag.read(), PlayingState::Stopped);
    assert_eq!(thread.handle_incoming_messages(), Err(DispatchError::Timeout));
    assert_eq!(rig.manager.read().unwrap().len(), 0);
}

#[test]
fn dispatch_ends_when_every_sender_is_gone() {
    let rig = rig();
    let mut thread = ManagerThread::new(rig.manager.clone(), rig.receiver);
    drop(rig.sender);
    let error = thread.handle_incoming_messages().unwrap_err();
    assert_eq!(error, DispatchError::Disconnected);
    assert!(!error.goes_on());
    assert!(!DispatchError::Poisoned.goes_on());
}

#[test]
fn dispatch_reports_a_poisoned_registry() {
    let rig = rig();
    let poisoner = rig.manager.clone();
    let outcome = crossbeam::scope(|scope| {
        scope.spawn(|_| {
            let _guard = poisoner.write().unwrap();
            panic!("poison the lock");
        });
    });
    assert!(outcome.is_err());
    let mut thread = ManagerThread::new(rig.manager.clone(), rig.receiver);
    assert_eq!(thread.handle_incoming_messages(), Err(DispatchError::Poisoned));
    let (callback, _reply) = unbounded::<PlayingHandle>();
    let envelope = Envelope::new(&organ().configuration, PlayingFlag::new());
    rig.sender.send(ManagerMessage::Append { sampler: Voice { envelope }, callback }).ok().unwrap();
    assert_eq!(thread.handle_incoming_messages(), Err(DispatchError::Poisoned));
}

#[test]
fn device_play_returns_the_handle_of_the_new_voice() {
    let rig = rig();
    let device = Device::new(rig.sender);
    let manager = rig.manager.clone();
    let receiver = rig.receiver;
    crossbeam::scope(|scope| {
        scope.spawn(|_| serve_until_disconnected(manager, receiver));
        let first = Envelope::new(&organ().configuration, PlayingFlag::new());
        let second = Envelope::new(&organ().configuration, PlayingFlag::new());
        assert_eq!(device.play(Voice { envelope: first }).unwrap().get_id(), 1);
        assert_eq!(device.play(Voice { envelope: second }).unwrap().get_id(), 2);
        drop(device);
    })
    .unwrap();
    assert_eq!(rig.manager.read().unwrap().len(), 2);
}

#[test]
fn device_play_fails_when_the_dispatch_thread_is_gone() {
    let rig = rig();
    let device = Device::new(rig.sender);
    drop(rig.receiver);
    let envelope = Envelope::new(&organ().configuration, PlayingFlag::new());
    assert_eq!(device.play(Voice { envelope }).unwrap_err(), PlayError::ManagerGone);
}

#[test]
fn device_play_fails_when_no_handle_comes_back() {
    let rig = rig();
    let device = Device::new(rig.sender);
    let receiver = rig.receiver;
    crossbeam::scope(|scope| {
        scope.spawn(|_| {
            let request = receiver.recv();
            assert!(request.is_ok());
            drop(request);
        });
        let envelope = Envelope::new(&organ().configuration, PlayingFlag::new());
        assert_eq!(device.play(Voice { envelope }).unwrap_err(), PlayError::ReplyClosed);
    })
    .unwrap();
}

#[test]
fn new_instrument_plays_nothing() {
    let rig = rig();
    let mut instrument = VirtualInstrument::new(Device::new(rig.sender), organ());
    assert_eq!(instrument.playing(), 0);
    assert_eq!(instrument.note_at(0), None);
    assert!(!instrument.is_sustaining());
    assert!(instrument.take_retired().is_empty());
}

#[test]
fn play_note_reports_a_failing_tone_generator() {
    let rig = rig();
    let mut instrument = VirtualInstrument::new(Device::new(rig.sender), organ());
    match instrument.play_note(note(13)) {
        Err(PlayNoteError::ToneGeneration(error)) => {
            assert_eq!(error.to_string(), "no pipe for this step")
        }
        _ => panic!("the tone generator refuses step 13"),
    }
    assert_eq!(instrument.playing(), 0);
}

#[test]
fn play_note_reports_a_missing_dispatch_thread() {
    let rig = rig();
    drop(rig.receiver);
    let mut instrument = VirtualInstrument::new(Device::new(rig.sender), organ());
    match instrument.play_note(note(60)) {
        Err(PlayNoteError::Device(error)) => assert_eq!(error, PlayError::ManagerGone),
        _ => panic!("no dispatch thread is running"),
    }
    assert_eq!(instrument.playing(), 0);
}

#[test]
fn play_note_replaces_the_note_on_the_same_step() {
    let rig = rig();
    let mut instrument = VirtualInstrument::new(Device::new(rig.sender), organ());
    let manager = rig.manager.clone();
    let receiver = rig.receiver;
    crossbeam::scope(|scope| {
        scope.spawn(|_| serve_until_disconnected(manager, receiver));
        assert!(instrument.play_note(note(60)).is_ok());
        assert!(instrument.play_note(note(64)).is_ok());
        assert!(instrument.play_note(note(67)).is_ok());
        assert_eq!(steps(&instrument), vec![60, 64, 67]);
        assert!(instrument.play_note(Note { step: 64, velocity: 127 }).is_ok());
        assert_eq!(steps(&instrument), vec![60, 67, 64]);
        assert_eq!(instrument.note_at(2), Some(Note { step: 64, velocity: 127 }));
        assert_eq!(instrument.take_retired().len(), 1);
        assert!(instrument.play_note(note(13)).is_err());
        assert_eq!(steps(&instrument), vec![60, 67, 64]);
        drop(instrument);
    })
    .unwrap();
}

#[test]
fn stop_note_retires_the_note_and_its_release_is_heard_to_the_end() {
    let rig = rig();
    let mut instrument = VirtualInstrument::new(Device::new(rig.sender), organ());
    let manager = rig.manager.clone();
    let receiver = rig.receiver;
    crossbeam::scope(|scope| {
        scope.spawn(|_| serve_until_disconnected(manager, receiver));
        assert!(instrument.play_note(note(60)).is_ok());
        assert!(instrument.play_note(note(62)).is_ok());
        assert_eq!(left_of_next_frame(&rig.manager), 0);
        assert_eq!(left_of_next_frame(&rig.manager), 2 * UNITY as i128);

        instrument.stop_note(61);
        assert_eq!(steps(&instrument), vec![60, 62]);
        instrument.stop_note(60);
        assert_eq!(steps(&instrument), vec![62]);
        let retired = instrument.take_retired();
        assert_eq!(retired.len(), 1);
        assert!(instrument.take_retired().is_empty());
        assert!(!retired[0].is_finished());

        assert_eq!(left_of_next_frame(&rig.manager), 2 * UNITY as i128);
        assert_eq!(left_of_next_frame(&rig.manager), UNITY as i128 + UNITY as i128 / 2);
        assert_eq!(left_of_next_frame(&rig.manager), UNITY as i128);
        assert!(!retired[0].is_finished());
        assert_eq!(left_of_next_frame(&rig.manager), UNITY as i128);
        assert!(retired[0].is_finished());
        drop(instrument);
    })
    .unwrap();
}

#[test]
fn sustain_pedal_holds_released_notes_until_it_is_lifted() {
    let rig = rig();
    let mut instrument = VirtualInstrument::new(Device::new(rig.sender), organ());
    let manager = rig.manager.clone();
    let receiver = rig.receiver;
    crossbeam::scope(|scope| {
        scope.spawn(|_| serve_until_disconnected(manager, receiver));
        assert!(instrument.play_note(note(60)).is_ok());
        assert!(instrument.play_note(note(62)).is_ok());
        instrument.set_sustain(true);
        assert!(instrument.is_sustaining());
        assert_eq!(steps(&instrument), vec![60, 62]);

        instrument.stop_note(60);
        assert_eq!(steps(&instrument), vec![60, 62]);
        assert!(instrument.take_retired().is_empty());
        for _ in 0..5 {
            assert!(left_of_next_frame(&rig.manager) >= 0);
        }
        assert_eq!(left_of_next_frame(&rig.manager), 2 * UNITY as i128);

        instrument.set_sustain(false);
        assert!(!instrument.is_sustaining());
        assert_eq!(steps(&instrument), vec![62]);
        let retired = instrument.take_retired();
        assert_eq!(retired.len(), 1);
        assert!(!retired[0].is_finished());
        for _ in 0..4 {
            left_of_next_frame(&rig.manager);
        }
        assert!(retired[0].is_finished());
        assert_eq!(left_of_next_frame(&rig.manager), UNITY as i128);

        instrument.set_sustain(false);
        assert_eq!(steps(&instrument), vec![62]);
        drop(instrument);
    })
    .unwrap();
}

#[test]
fn retain_keeps_the_marked_notes_in_order() {
    let rig = rig();
    let mut instrument = VirtualInstrument::new(Device::new(rig.sender), organ());
    let manager = rig.manager.clone();
    let receiver = rig.receiver;
    crossbeam::scope(|scope| {
        scope.spawn(|_| serve_until_disconnected(manager, receiver));
        for step in [1, 2, 3, 4] {
            assert!(instrument.play_note(note(step)).is_ok());
        }
        instrument.retain(&vec![true, false, true, false]);
        assert_eq!(steps(&instrument), vec![1, 3]);
        assert_eq!(instrument.take_retired().len(), 2);
        instrument.retain(&vec![false, false]);
        assert_eq!(steps(&instrument), Vec::<u8>::new());
        drop(instrument);
    })
    .unwrap();
}

#[test]
fn serve_registers_the_voice_of_an_append_request() {
    let mut manager = Manager::new();
    let (callback, reply) = unbounded::<PlayingHandle>();
    let envelope = Envelope::new(&organ().configuration, PlayingFlag::new());
    let request = ManagerMessage::Append { sampler: Voice { envelope }, callback };
    let served = serve(&mut manager, Received::Message(request));
    assert_eq!(served.outcome, Ok(()));
    assert_eq!(manager.len(), 1);
    let (to, handle) = served.reply.unwrap();
    assert_eq!(handle.get_id(), 1);
    to.send(handle).ok().unwrap();
    assert_eq!(reply.try_recv().unwrap().get_id(), 1);
}

#[test]
fn serve_prunes_on_a_timeout() {
    let mut manager = Manager::new();
    let mut finished = Envelope::new(&organ().configuration, PlayingFlag::new());
    for _ in 0..8 {
        finished.advance(PlayingState::Stopping, 1);
    }
    assert_eq!(finished.stage(), EnvelopeStage::Completed);
    manager.register(Voice { envelope: finished });
    manager.register(Voice { envelope: Envelope::new(&organ().configuration, PlayingFlag::new()) });
    let served = serve(&mut manager, Received::TimedOut);
    assert_eq!(served.outcome, Err(DispatchError::Timeout));
    assert!(served.reply.is_none());
    assert_eq!(manager.len(), 1);
    assert_eq!(manager.register(Voice { envelope: Envelope::new(&organ().configuration, PlayingFlag::new()) }).get_id(), 3);
}

#[test]
fn serve_leaves_the_registry_alone_when_the_channel_is_closed() {
    let mut manager = Manager::new();
    manager.register(Voice { envelope: Envelope::new(&organ().configuration, PlayingFlag::new()) });
    let served = serve(&mut manager, Received::Disconnected);
    assert_eq!(served.outcome, Err(DispatchError::Disconnected));
    assert!(served.reply.is_none());
    assert_eq!(manager.len(), 1);
}

#[test]
fn decide_play_tells_the_three_ends_of_a_request_apart() {
    let mut manager = Manager::new();
    let handle = manager.register(Voice { envelope: Envelope::new(&organ().configuration, PlayingFlag::new()) });
    assert_eq!(decide_play(true, Some(handle.clone())).unwrap().get_id(), 1);
    assert_eq!(decide_play(true, None).unwrap_err(), PlayError::ReplyClosed);
    assert_eq!(decide_play(false, None).unwrap_err(), PlayError::ManagerGone);
    assert_eq!(decide_play(false, Some(handle)).unwrap_err(), PlayError::ManagerGone);
}

#[test]
fn a_round_ends_unserved_on_a_closed_channel_or_a_poisoned_lock() {
    let closed: Received<ManagerMessage<Voice>> = Received::Disconnected;
    assert_eq!(end_unserved(&closed, false), Err(DispatchError::Disconnected));
    assert_eq!(end_unserved(&closed, true), Err(DispatchError::Disconnected));
    let idle: Received<ManagerMessage<Voice>> = Received::TimedOut;
    assert_eq!(end_unserved(&idle, false), Ok(()));
    assert_eq!(end_unserved(&idle, true), Err(DispatchError::Poisoned));
    let (callback, _reply) = unbounded::<PlayingHandle>();
    let envelope = Envelope::new(&organ().configuration, PlayingFlag::new());
    let request = Received::Message(ManagerMessage::Append { sampler: Voice { envelope }, callback });
    assert_eq!(end_unserved(&request, false), Ok(()));
    assert_eq!(end_unserved(&request, true), Err(DispatchError::Poisoned));
}

#[test]
fn add_note_appends_the_note_with_its_handle_and_controller() {
    let rig = rig();
    let mut instrument = VirtualInstrument::new(Device::new(rig.sender), organ());
    let mut controller = InstrumentController::<Organ>::default();
    let tone = controller.instantiate(&organ().configuration, note(40));
    let handle = rig.manager.write().unwrap().register(Voice { envelope: tone.source });
    instrument.add_note(note(40), handle, controller);
    assert_eq!(steps(&instrument), vec![40]);
    assert!(instrument.take_retired().is_empty());

    instrument.stop_note(40);
    assert_eq!(steps(&instrument), Vec::<u8>::new());
    assert_eq!(tone.control.read(), PlayingState::Stopping);
    let retired = instrument.take_retired();
    assert_eq!(retired.len(), 1);
    assert!(!retired[0].is_finished());
    for _ in 0..6 {
        left_of_next_frame(&rig.manager);
    }
    assert_eq!(tone.control.read(), PlayingState::Stopped);
    assert!(retired[0].is_finished());
}

#[test]
fn a_note_without_flags_goes_when_the_pedal_is_lifted() {
    let rig = rig();
    let mut instrument = VirtualInstrument::new(Device::new(rig.sender), organ());
    let envelope = Envelope::new(&organ().configuration, PlayingFlag::new());
    let handle = rig.manager.write().unwrap().register(Voice { envelope });
    instrument.add_note(note(50), handle, InstrumentController::default());
    instrument.set_sustain(true);
    assert_eq!(steps(&instrument), vec![50]);
    instrument.set_sustain(false);
    assert_eq!(steps(&instrument), Vec::<u8>::new());
    let retired = instrument.take_retired();
    assert_eq!(retired.len(), 1);
    assert!(retired[0].is_finished());
}
