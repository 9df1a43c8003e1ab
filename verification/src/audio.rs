//! The decisions taken while audio is pulled out of a media file: which
//! track to decode, what to do with each packet and each decoded buffer,
//! and whether anything came out.
use vstd::prelude::*;
use crate::text::append;

verus! {

/// What the extraction reads of a track of the container.
#[derive(Debug, PartialEq, Eq)]
pub struct TrackSummary {
    /// The track's id, which packets carry.
    pub id: u32,
    /// The track has codec parameters, and they are those of audio.
    pub is_audio: bool,
    /// The sample rate of the audio, where the container states it.
    pub sample_rate: Option<u32>,
}

/// The track chosen for decoding.
#[derive(Debug, PartialEq, Eq)]
pub struct SelectedTrack {
    /// Its position among the tracks.
    pub index: usize,
    pub id: u32,
    pub sample_rate: u32,
}

/// Index `i` is the first audio track.
pub open spec fn is_first_audio(tracks: Seq<TrackSummary>, i: int) -> bool {
    &&& 0 <= i < tracks.len()
    &&& tracks[i].is_audio
    &&& forall|j: int| 0 <= j < i ==> !(#[trigger] tracks[j]).is_audio
}

/// Chooses the first audio track; fails where there is none or where its
/// sample rate is unknown.
pub fn select_audio_track(tracks: &Vec<TrackSummary>) -> (r: Result<SelectedTrack, String>)
    ensures
        match r {
            Ok(t) => {
                &&& is_first_audio(tracks@, t.index as int)
                &&& t.id == tracks@[t.index as int].id
                &&& tracks@[t.index as int].sample_rate == Some(t.sample_rate)
            },
            Err(m) => {
                ||| (forall|j: int| 0 <= j < tracks@.len() ==> !(#[trigger] tracks@[j]).is_audio)
                    && m@ == "No audio track found"@
                ||| exists|i: int|
                    is_first_audio(tracks@, i) && (#[trigger] tracks@[i]).sample_rate.is_none()
                        && m@ == "Unknown sample rate"@
            },
        },
{
    let mut i: usize = 0;
    while i < tracks.len()
        invariant
            i <= tracks@.len(),
            forall|j: int| 0 <= j < i ==> !(#[trigger] tracks@[j]).is_audio,
        decreases tracks.len() - i,
    {
        if tracks[i].is_audio {
            return match tracks[i].sample_rate {
                Some(rate) => Ok(SelectedTrack { index: i, id: tracks[i].id, sample_rate: rate }),
                None => {
                    assert(is_first_audio(tracks@, i as int));
                    Err("Unknown sample rate".to_owned())
                },
            };
        }
        i = i + 1;
    }
    Err("No audio track found".to_owned())
}

/// What reading the next packet of the container gave.
#[derive(Debug, PartialEq, Eq)]
pub enum PacketEvent {
    /// A packet of the track with this id.
    Packet { track_id: u32 },
    /// The container has no more packets.
    EndOfStream,
    /// The input ended before the container said it would.
    UnexpectedEof,
    /// The decoder has to be reset before it can go on.
    ResetRequired,
    /// Any other read error, as text.
    ReadFailed(String),
}

/// What to do next after reading a packet.
#[derive(Debug, PartialEq, Eq)]
pub enum PacketAction {
    /// Decode the packet.
    Decode,
    /// Drop the packet and read the next one.
    Skip,
    /// Stop reading: the audio is complete.
    Stop,
    /// Reset the decoder and read the next packet.
    ResetDecoder,
    /// Give up with this error.
    Fail(String),
}

/// The view of a packet action: its kind (0 to 4) and its error text.
pub open spec fn packet_action_view(a: PacketAction) -> (int, Seq<char>) {
    match a {
        PacketAction::Decode => (0, Seq::empty()),
        PacketAction::Skip => (1, Seq::empty()),
        PacketAction::Stop => (2, Seq::empty()),
        PacketAction::ResetDecoder => (3, Seq::empty()),
        PacketAction::Fail(m) => (4, m@),
    }
}

/// The rule for packets: decode those of the chosen track and drop the
/// others; stop at the end of the stream, also where it ends early; reset on
/// request; any other read error ends the extraction.
pub open spec fn packet_rule(event: PacketEvent, selected: u32) -> (int, Seq<char>) {
    match event {
        PacketEvent::Packet { track_id } => if track_id == selected {
            (0, Seq::empty())
        } else {
            (1, Seq::empty())
        },
        PacketEvent::EndOfStream => (2, Seq::empty()),
        PacketEvent::UnexpectedEof => (2, Seq::empty()),
        PacketEvent::ResetRequired => (3, Seq::empty()),
        PacketEvent::ReadFailed(e) => (4, "Packet read error: "@ + e@),
    }
}

/// Only packets of the chosen track reach the decoder: a packet is decoded
/// exactly when it belongs to the chosen track, and a packet of any other
/// track is dropped.
pub proof fn lemma_only_chosen_track_decoded(track_id: u32, selected: u32)
    ensures
        (packet_rule(PacketEvent::Packet { track_id }, selected).0 == 0) == (track_id == selected),
        track_id != selected ==> packet_rule(PacketEvent::Packet { track_id }, selected) == (
            1int,
            Seq::<char>::empty(),
        ),
{
}

/// Decides what to do with the outcome of reading a packet, while decoding
/// the track `selected`.
pub fn on_packet(event: PacketEvent, selected: u32) -> (a: PacketAction)
    ensures
        packet_action_view(a) == packet_rule(event, selected),
{
    match event {
        PacketEvent::Packet { track_id } => if track_id == selected {
            PacketAction::Decode
        } else {
            PacketAction::Skip
        },
        PacketEvent::EndOfStream => PacketAction::Stop,
        PacketEvent::UnexpectedEof => PacketAction::Stop,
        PacketEvent::ResetRequired => PacketAction::ResetDecoder,
        PacketEvent::ReadFailed(e) => {
            let mut m = "Packet read error: ".to_owned();
            append(&mut m, e.as_str());
            PacketAction::Fail(m)
        },
    }
}

/// What decoding a packet gave.
#[derive(Debug, PartialEq, Eq)]
pub enum DecodeEvent {
    /// A buffer of samples; `supported` tells whether its sample format is
    /// one of 32-bit float, 16-bit or 32-bit signed, or 8-bit unsigned.
    Decoded { supported: bool },
    /// An I/O error while decoding.
    IoFailed,
    /// Any other decoding error, as text.
    Failed(String),
}

/// What to do with a decoded packet.
#[derive(Debug, PartialEq, Eq)]
pub enum DecodeAction {
    /// Mix the buffer down to mono and append it.
    Append,
    /// Drop it and go on with the next packet.
    Skip,
    /// Give up with this error.
    Fail(String),
}

/// The view of a decode action: its kind (0 to 2) and its error text.
pub open spec fn decode_action_view(a: DecodeAction) -> (int, Seq<char>) {
    match a {
        DecodeAction::Append => (0, Seq::empty()),
        DecodeAction::Skip => (1, Seq::empty()),
        DecodeAction::Fail(m) => (2, m@),
    }
}

/// The rule for decoded packets: keep supported buffers, refuse any other
/// sample format, step over I/O errors, and give up on any other error.
pub open spec fn decode_rule(event: DecodeEvent) -> (int, Seq<char>) {
    match event {
        DecodeEvent::Decoded { supported } => if supported {
            (0, Seq::empty())
        } else {
            (2, "Unsupported audio sample format"@)
        },
        DecodeEvent::IoFailed => (1, Seq::empty()),
        DecodeEvent::Failed(e) => (2, "Decode error: "@ + e@),
    }
}

/// Decides what to do with the outcome of decoding a packet.
pub fn on_decoded(event: DecodeEvent) -> (a: DecodeAction)
    ensures
        decode_action_view(a) == decode_rule(event),
{
    match event {
        DecodeEvent::Decoded { supported } => if supported {
            DecodeAction::Append
        } else {
            DecodeAction::Fail("Unsupported audio sample format".to_owned())
        },
        DecodeEvent::IoFailed => DecodeAction::Skip,
        DecodeEvent::Failed(e) => {
            let mut m = "Decode error: ".to_owned();
            append(&mut m, e.as_str());
            DecodeAction::Fail(m)
        },
    }
}

/// The end of an extraction: the sample rate of the audio, or an error
/// where not a single sample came out.
pub fn finish_extraction(sample_count: usize, sample_rate: u32) -> (r: Result<u32, String>)
    ensures
        match r {
            Ok(rate) => sample_count > 0 && rate == sample_rate,
            Err(m) => sample_count == 0 && m@ == "No audio samples decoded"@,
        },
{
    if sample_count == 0 {
        Err("No audio samples decoded".to_owned())
    } else {
        Ok(sample_rate)
    }
}

} // verus!
