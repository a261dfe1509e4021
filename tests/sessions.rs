use scripty_core::bridge::{handle_event, AudioHandler, EventResult, VoiceEvent};
use scripty_core::registry::{
    complete_finalize, Delivery, FinalizeStart, PacketOutcome, Speaker, SpeakerRegistry,
};
use scripty_core::window::ActiveSpeakerWindow;

fn speaker(id: u64, name: &str) -> Speaker {
    Speaker { user_id: id, display_name: name.to_string(), avatar_url: format!("https://a/{}", id) }
}

fn mono16k(samples: &[i16]) -> Option<Vec<i16>> {
    Some(samples.to_vec())
}

const MONO_16K: u8 = 6;

#[test]
fn finalizing_without_audio_delivers_nothing() {
    let mut reg = SpeakerRegistry::new();
    reg.register_speaker(1, speaker(100, "a"), false, false);
    assert!(matches!(reg.begin_finalize(1), FinalizeStart::NoAudio));
    assert!(matches!(reg.begin_finalize(2), FinalizeStart::NoSession));
}

#[test]
fn finalizing_with_audio_delivers_once_and_installs_fresh_stream() {
    let mut reg = SpeakerRegistry::new();
    reg.register_speaker(1, speaker(100, "alice"), true, false);
    assert_eq!(
        reg.on_packet(1, 10, MONO_16K, mono16k(&[1, 2, 3])),
        PacketOutcome::Admitted { fed: 3, known_payload: true }
    );
    assert_eq!(
        reg.on_packet(1, 11, MONO_16K, mono16k(&[4])),
        PacketOutcome::Admitted { fed: 1, known_payload: true }
    );
    let job = match reg.begin_finalize(1) {
        FinalizeStart::Run(job) => job,
        _ => panic!("expected a job"),
    };
    assert_eq!(job.audio, vec![1, 2, 3, 4]);
    assert_eq!(job.ssrc, 1);
    match complete_finalize(job, Ok("hello there".to_string())) {
        Some(Delivery::Transcript { ssrc, display_name, avatar_url, text, archive_for }) => {
            assert_eq!(ssrc, 1);
            assert_eq!(display_name, "alice");
            assert_eq!(avatar_url, "https://a/100");
            assert_eq!(text, "hello there");
            assert_eq!(archive_for, Some(100));
        }
        _ => panic!("expected a transcript"),
    }
    // the fresh stream takes audio at once, from any sequence number
    assert_eq!(
        reg.on_packet(1, 500, MONO_16K, mono16k(&[9, 9])),
        PacketOutcome::Admitted { fed: 2, known_payload: true }
    );
    match reg.begin_finalize(1) {
        FinalizeStart::Run(job) => assert_eq!(job.audio, vec![9, 9]),
        _ => panic!("expected a job"),
    }
}

#[test]
fn empty_engine_text_is_discarded() {
    let mut reg = SpeakerRegistry::new();
    reg.register_speaker(3, speaker(1, "x"), false, false);
    reg.on_packet(3, 0, MONO_16K, mono16k(&[1]));
    let job = match reg.begin_finalize(3) {
        FinalizeStart::Run(job) => job,
        _ => panic!("expected a job"),
    };
    assert!(complete_finalize(job, Ok(String::new())).is_none());
}

#[test]
fn engine_error_becomes_diagnostic() {
    let mut reg = SpeakerRegistry::new();
    reg.register_speaker(4242, speaker(7, "bob"), false, false);
    reg.on_packet(4242, 0, MONO_16K, mono16k(&[1]));
    let job = match reg.begin_finalize(4242) {
        FinalizeStart::Run(job) => job,
        _ => panic!("expected a job"),
    };
    match complete_finalize(job, Err("model exploded".to_string())) {
        Some(Delivery::Failure { ssrc, display_name, message, .. }) => {
            assert_eq!(ssrc, 4242);
            assert_eq!(display_name, "bob");
            assert_eq!(
                message,
                "internal error: running stt algorithm failed with error: model exploded\nssrc 4242"
            );
        }
        _ => panic!("expected a failure"),
    }
}

#[test]
fn transcript_without_ingest_is_not_archived() {
    let mut reg = SpeakerRegistry::new();
    reg.register_speaker(5, speaker(8, "c"), false, false);
    reg.on_packet(5, 0, MONO_16K, mono16k(&[1]));
    let job = match reg.begin_finalize(5) {
        FinalizeStart::Run(job) => job,
        _ => panic!("expected a job"),
    };
    match complete_finalize(job, Ok("hi".to_string())) {
        Some(Delivery::Transcript { archive_for, .. }) => assert_eq!(archive_for, None),
        _ => panic!("expected a transcript"),
    }
}

#[test]
fn audio_without_speaker_is_discarded() {
    let mut reg = SpeakerRegistry::new();
    reg.on_packet(9, 0, MONO_16K, mono16k(&[1, 2]));
    assert!(matches!(reg.begin_finalize(9), FinalizeStart::NoSpeaker));
    assert!(matches!(reg.begin_finalize(9), FinalizeStart::NoAudio));
}

#[test]
fn gap_packet_is_not_fed() {
    let mut reg = SpeakerRegistry::new();
    reg.register_speaker(1, speaker(1, "a"), false, false);
    reg.on_packet(1, 1, MONO_16K, mono16k(&[1]));
    assert_eq!(
        reg.on_packet(1, 3, MONO_16K, mono16k(&[2])),
        PacketOutcome::Gap { expected: 2, got: 3 }
    );
    reg.on_packet(1, 4, MONO_16K, mono16k(&[3]));
    match reg.begin_finalize(1) {
        FinalizeStart::Run(job) => assert_eq!(job.audio, vec![1, 3]),
        _ => panic!("expected a job"),
    }
}

#[test]
fn ignored_speaker_is_skipped_until_reconnect() {
    let mut reg = SpeakerRegistry::new();
    reg.register_speaker(1, speaker(1, "a"), false, true);
    assert_eq!(reg.on_packet(1, 1, MONO_16K, mono16k(&[1])), PacketOutcome::Ignored);
    reg.on_reconnect();
    assert_eq!(
        reg.on_packet(1, 2, MONO_16K, mono16k(&[1])),
        PacketOutcome::Admitted { fed: 1, known_payload: true }
    );
}

#[test]
fn unknown_payload_uses_48k_stereo() {
    let mut reg = SpeakerRegistry::new();
    let audio: Vec<i16> = vec![2, 4, 2, 4, 2, 4, 6, 8, 6, 8, 6, 8];
    assert_eq!(
        reg.on_packet(1, 1, 120, Some(audio)),
        PacketOutcome::Admitted { fed: 2, known_payload: false }
    );
}

#[test]
fn two_speakers_do_not_cross_talk() {
    let mut reg = SpeakerRegistry::new();
    reg.register_speaker(1, speaker(10, "one"), false, false);
    reg.register_speaker(2, speaker(20, "two"), false, false);
    for i in 0..5u16 {
        reg.on_packet(1, i, MONO_16K, mono16k(&[100 + i as i16]));
        reg.on_packet(2, 1000 + i, MONO_16K, mono16k(&[-(i as i16) - 1]));
    }
    match reg.begin_finalize(1) {
        FinalizeStart::Run(job) => assert_eq!(job.audio, vec![100, 101, 102, 103, 104]),
        _ => panic!("expected a job"),
    }
    reg.on_packet(2, 1005, MONO_16K, mono16k(&[-6]));
    match reg.begin_finalize(2) {
        FinalizeStart::Run(job) => assert_eq!(job.audio, vec![-1, -2, -3, -4, -5, -6]),
        _ => panic!("expected a job"),
    }
}

#[test]
fn disconnect_drops_state_and_evicts_from_window() {
    let mut reg = SpeakerRegistry::new();
    let mut window = ActiveSpeakerWindow::new();
    let r = handle_event(
        &mut reg,
        &mut window,
        VoiceEvent::SpeakerIdentified { ssrc: 5, speaker: speaker(55, "e"), ingest: false, ignored: false },
    );
    assert!(matches!(r, EventResult::Identified));
    assert!(window.contains(55));
    handle_event(
        &mut reg,
        &mut window,
        VoiceEvent::Packet { ssrc: 5, sequence: 1, payload_type: MONO_16K, audio: mono16k(&[1]) },
    );
    let r = handle_event(&mut reg, &mut window, VoiceEvent::Disconnect { ssrc: 5 });
    assert!(matches!(r, EventResult::Disconnected(Some(55))));
    assert!(!window.contains(55));
    assert!(matches!(reg.begin_finalize(5), FinalizeStart::NoSession));
}

#[test]
fn speaking_stop_event_finalizes_and_start_does_not() {
    let mut reg = SpeakerRegistry::new();
    let mut window = ActiveSpeakerWindow::new();
    let r = handle_event(&mut reg, &mut window, VoiceEvent::Speaking { ssrc: 3, speaking: true });
    assert!(matches!(r, EventResult::Started));
    handle_event(
        &mut reg,
        &mut window,
        VoiceEvent::SpeakerIdentified { ssrc: 3, speaker: speaker(1, "a"), ingest: false, ignored: false },
    );
    handle_event(
        &mut reg,
        &mut window,
        VoiceEvent::Packet { ssrc: 3, sequence: 9, payload_type: MONO_16K, audio: mono16k(&[4, 5]) },
    );
    let r = handle_event(&mut reg, &mut window, VoiceEvent::Speaking { ssrc: 3, speaking: false });
    match r {
        EventResult::Finalize(FinalizeStart::Run(job)) => assert_eq!(job.audio, vec![4, 5]),
        _ => panic!("expected a job"),
    }
}

#[test]
fn audio_handler_keeps_settings_and_dispatches() {
    let mut h = AudioHandler::new(1, 2, 3);
    assert_eq!((h.guild_id(), h.channel_id(), h.voice_channel_id()), (1, 2, 3));
    assert!(!h.verbose());
    assert_eq!(h.premium_level(), 0);
    h.reload_config(true, 2);
    assert!(h.verbose());
    assert_eq!(h.premium_level(), 2);
    let r = h.act(VoiceEvent::Packet { ssrc: 8, sequence: 1, payload_type: MONO_16K, audio: mono16k(&[1, 2]) });
    assert!(matches!(r, EventResult::Packet(PacketOutcome::Admitted { fed: 2, known_payload: true })));
    let r = h.act(VoiceEvent::Speaking { ssrc: 8, speaking: false });
    assert!(matches!(r, EventResult::Finalize(FinalizeStart::NoSpeaker)));
}
