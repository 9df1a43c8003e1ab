use transcribe::audio::{
    finish_extraction, on_decoded, on_packet, select_audio_track, DecodeAction, DecodeEvent,
    PacketAction, PacketEvent, TrackSummary,
};

fn track(id: u32, is_audio: bool, sample_rate: Option<u32>) -> TrackSummary {
    TrackSummary { id, is_audio, sample_rate }
}

#[test]
fn selects_first_audio_track() {
    let t = vec![track(7, false, None), track(3, true, Some(44100)), track(4, true, Some(8000))];
    let s = select_audio_track(&t).unwrap();
    assert_eq!((s.index, s.id, s.sample_rate), (1, 3, 44100));
}

#[test]
fn track_errors() {
    assert_eq!(select_audio_track(&vec![track(0, false, Some(1))]).unwrap_err(), "No audio track found");
    assert_eq!(select_audio_track(&vec![]).unwrap_err(), "No audio track found");
    let t = vec![track(0, true, None), track(1, true, Some(16000))];
    assert_eq!(select_audio_track(&t).unwrap_err(), "Unknown sample rate");
}

#[test]
fn packet_rules() {
    assert_eq!(on_packet(PacketEvent::Packet { track_id: 2 }, 2), PacketAction::Decode);
    assert_eq!(on_packet(PacketEvent::Packet { track_id: 1 }, 2), PacketAction::Skip);
    assert_eq!(on_packet(PacketEvent::EndOfStream, 2), PacketAction::Stop);
    assert_eq!(on_packet(PacketEvent::UnexpectedEof, 2), PacketAction::Stop);
    assert_eq!(on_packet(PacketEvent::ResetRequired, 2), PacketAction::ResetDecoder);
    assert_eq!(
        on_packet(PacketEvent::ReadFailed("bad".to_string()), 2),
        PacketAction::Fail("Packet read error: bad".to_string())
    );
}

#[test]
fn decode_rules() {
    assert_eq!(on_decoded(DecodeEvent::Decoded { supported: true }), DecodeAction::Append);
    assert_eq!(
        on_decoded(DecodeEvent::Decoded { supported: false }),
        DecodeAction::Fail("Unsupported audio sample format".to_string())
    );
    assert_eq!(on_decoded(DecodeEvent::IoFailed), DecodeAction::Skip);
    assert_eq!(
        on_decoded(DecodeEvent::Failed("x".to_string())),
        DecodeAction::Fail("Decode error: x".to_string())
    );
}

#[test]
fn extraction_end() {
    assert_eq!(finish_extraction(10, 48000), Ok(48000));
    assert_eq!(finish_extraction(0, 48000), Err("No audio samples decoded".to_string()));
}
