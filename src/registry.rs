//! Speaker sessions keyed by SSRC: packet feeding, and the two halves of
//! finalising a speaking turn around the blocking inference step.
use vstd::prelude::*;
use vstd::string::StringExecFns;
use std::collections::HashMap;
use std::collections::HashSet;
use crate::resample::{
    fallback_pcm_format, format_of, known_format, known_pcm_format, normalized,
    process_audio, PcmFormat, ENGINE_RATE_HZ,
};
use crate::sequencer::{admission_of, check_packet, Admission};
use crate::text::{decimal, decimal_string};

verus! {

broadcast use vstd::std_specs::hash::group_hash_axioms;

/// The decode buffer of one speaker: the engine-format PCM of the current turn.
pub struct TranscriptionStream {
    samples: Vec<i16>,
}

impl View for TranscriptionStream {
    type V = Seq<i16>;

    closed spec fn view(&self) -> Seq<i16> {
        self.samples@
    }
}

impl TranscriptionStream {
    /// A fresh stream with nothing accumulated.
    pub fn new() -> (r: Self)
        ensures
            r@ == Seq::<i16>::empty(),
    {
        TranscriptionStream { samples: Vec::new() }
    }

    /// Appends engine-format samples.
    pub fn feed_audio(&mut self, pcm: Vec<i16>)
        ensures
            final(self)@ == old(self)@ + pcm@,
    {
        let mut pcm = pcm;
        self.samples.append(&mut pcm);
    }

    /// Hands out what was accumulated.
    pub fn into_samples(self) -> (r: Vec<i16>)
        ensures
            r@ == self@,
    {
        self.samples
    }
}

/// Who speaks on an SSRC, as the transport reported it.
pub struct Speaker {
    pub user_id: u64,
    pub display_name: String,
    pub avatar_url: String,
}

pub struct SpeakerView {
    pub user_id: u64,
    pub display_name: Seq<char>,
    pub avatar_url: Seq<char>,
}

impl View for Speaker {
    type V = SpeakerView;

    open spec fn view(&self) -> SpeakerView {
        SpeakerView {
            user_id: self.user_id,
            display_name: self.display_name@,
            avatar_url: self.avatar_url@,
        }
    }
}

/// The state kept for one SSRC.
pub struct SpeakerSession {
    pub speaker: Option<Speaker>,
    pub stream: TranscriptionStream,
    pub last_sequence: Option<u16>,
    pub ingest: bool,
}

pub struct SessionView {
    pub speaker: Option<SpeakerView>,
    pub audio: Seq<i16>,
    pub last_sequence: Option<u16>,
    pub ingest: bool,
}

pub open spec fn speaker_view(s: Option<Speaker>) -> Option<SpeakerView> {
    match s {
        Some(sp) => Some(sp@),
        None => None,
    }
}

impl View for SpeakerSession {
    type V = SessionView;

    open spec fn view(&self) -> SessionView {
        SessionView {
            speaker: speaker_view(self.speaker),
            audio: self.stream@,
            last_sequence: self.last_sequence,
            ingest: self.ingest,
        }
    }
}

/// The session created for an SSRC seen for the first time.
pub open spec fn fresh_session() -> SessionView {
    SessionView { speaker: None, audio: Seq::empty(), last_sequence: None, ingest: false }
}

impl SpeakerSession {
    fn fresh() -> (r: Self)
        ensures
            r@ == fresh_session(),
    {
        SpeakerSession {
            speaker: None,
            stream: TranscriptionStream::new(),
            last_sequence: None,
            ingest: false,
        }
    }
}

/// All speakers of one voice connection.
pub struct SpeakerRegistry {
    sessions: HashMap<u32, SpeakerSession>,
    ignored: HashSet<u32>,
}

pub struct RegistryView {
    pub sessions: Map<u32, SessionView>,
    pub ignored: Set<u32>,
}

impl View for SpeakerRegistry {
    type V = RegistryView;

    closed spec fn view(&self) -> RegistryView {
        RegistryView {
            sessions: self.sessions@.map_values(|s: SpeakerSession| s@),
            ignored: self.ignored@,
        }
    }
}

/// The session of `ssrc`, or the fresh one it would get.
pub open spec fn session_or_fresh(v: RegistryView, ssrc: u32) -> SessionView {
    if v.sessions.contains_key(ssrc) {
        v.sessions[ssrc]
    } else {
        fresh_session()
    }
}

/// What became of one packet.
#[derive(Clone, Copy, Debug, PartialEq, Eq, Structural)]
pub enum PacketOutcome {
    /// The speaker is ignored: nothing was recorded.
    Ignored,
    /// The packet broke the sequence and was dropped.
    Gap { expected: u16, got: u16 },
    /// The packet was admitted and `fed` engine samples were appended;
    /// `known_payload` is false where the fallback format was assumed.
    Admitted { fed: usize, known_payload: bool },
}

/// The engine-format PCM of a packet's payload.
pub open spec fn packet_pcm(payload_type: u8, audio: Seq<i16>) -> Seq<i16> {
    normalized(
        audio,
        format_of(payload_type).stereo,
        format_of(payload_type).rate_hz,
        ENGINE_RATE_HZ,
    )
}

/// The registry after a packet arrives for `ssrc`.
pub open spec fn packet_step(
    v: RegistryView,
    ssrc: u32,
    sequence: u16,
    payload_type: u8,
    audio: Option<Seq<i16>>,
) -> RegistryView {
    if v.ignored.contains(ssrc) {
        v
    } else {
        let s = session_or_fresh(v, ssrc);
        let fed = if admission_of(s.last_sequence, sequence) is Admitted && audio is Some {
            s.audio + packet_pcm(payload_type, audio->0)
        } else {
            s.audio
        };
        RegistryView {
            sessions: v.sessions.insert(
                ssrc,
                SessionView { audio: fed, last_sequence: Some(sequence), ..s },
            ),
            ..v
        }
    }
}

/// The samples of an optional payload.
pub open spec fn pcm_view(audio: Option<Vec<i16>>) -> Option<Seq<i16>> {
    match audio {
        Some(a) => Some(a@),
        None => None,
    }
}

/// What `on_packet` reports for a packet.
pub open spec fn packet_outcome(
    v: RegistryView,
    ssrc: u32,
    sequence: u16,
    payload_type: u8,
    audio: Option<Seq<i16>>,
) -> PacketOutcome {
    if v.ignored.contains(ssrc) {
        PacketOutcome::Ignored
    } else {
        match admission_of(session_or_fresh(v, ssrc).last_sequence, sequence) {
            Admission::Gap { expected, got } => PacketOutcome::Gap { expected, got },
            Admission::Admitted => match audio {
                Some(a) => PacketOutcome::Admitted {
                    fed: packet_pcm(payload_type, a).len() as usize,
                    known_payload: known_format(payload_type) is Some,
                },
                None => PacketOutcome::Admitted { fed: 0, known_payload: known_format(payload_type) is Some },
            },
        }
    }
}

/// The work handed to the engine for one finished turn.
pub struct FinalizeJob {
    pub ssrc: u32,
    pub audio: Vec<i16>,
    pub speaker: Speaker,
    pub ingest: bool,
}

/// How a speaking-stop was handled.
pub enum FinalizeStart {
    /// No session exists for the SSRC.
    NoSession,
    /// Nothing was accumulated: the turn ends here.
    NoAudio,
    /// Audio was accumulated but the speaker's identity is unknown; the
    /// audio is discarded.
    NoSpeaker,
    /// The accumulated audio is to be run through the engine.
    Run(FinalizeJob),
}

/// The registry after a speaking-stop for `ssrc`: sequencing is reset and a
/// fresh, empty stream replaces the accumulated one.
pub open spec fn finalize_step(v: RegistryView, ssrc: u32) -> RegistryView {
    if v.sessions.contains_key(ssrc) {
        RegistryView {
            sessions: v.sessions.insert(
                ssrc,
                SessionView { audio: Seq::empty(), last_sequence: None, ..v.sessions[ssrc] },
            ),
            ..v
        }
    } else {
        v
    }
}

/// What `begin_finalize` hands back, against the registry before the call.
pub open spec fn finalize_start_matches(v: RegistryView, ssrc: u32, r: FinalizeStart) -> bool {
    if !v.sessions.contains_key(ssrc) {
        r is NoSession
    } else if v.sessions[ssrc].audio.len() == 0 {
        r is NoAudio
    } else if v.sessions[ssrc].speaker is None {
        r is NoSpeaker
    } else {
        match r {
            FinalizeStart::Run(job) => {
                &&& job.ssrc == ssrc
                &&& job.audio@ == v.sessions[ssrc].audio
                &&& Some(job.speaker@) == v.sessions[ssrc].speaker
                &&& job.ingest == v.sessions[ssrc].ingest
            },
            _ => false,
        }
    }
}

/// What the delivery side is asked to do once the engine answered.
pub enum Delivery {
    /// Post `text` as the speaker; when `archive_for` holds a user id, the
    /// archival record of that user is finalised with `text`.
    Transcript {
        ssrc: u32,
        display_name: String,
        avatar_url: String,
        text: String,
        archive_for: Option<u64>,
    },
    /// Post a diagnostic for an engine failure.
    Failure { ssrc: u32, display_name: String, avatar_url: String, message: String },
}

/// The diagnostic posted when the engine fails with `error` on `ssrc`.
pub open spec fn failure_text(error: Seq<char>, ssrc: u32) -> Seq<char> {
    "internal error: running stt algorithm failed with error: "@ + error + "\nssrc "@ + decimal(
        ssrc as nat,
    )
}

/// The delivery for a job's engine result: none for empty text.
pub open spec fn delivery_matches(job: FinalizeJob, result: Result<String, String>, r: Option<Delivery>) -> bool {
    match result {
        Ok(text) => if text@.len() == 0 {
            r is None
        } else {
            match r {
                Some(Delivery::Transcript { ssrc, display_name, avatar_url, text: t, archive_for }) => {
                    &&& ssrc == job.ssrc
                    &&& display_name@ == job.speaker.display_name@
                    &&& avatar_url@ == job.speaker.avatar_url@
                    &&& t@ == text@
                    &&& archive_for == (if job.ingest { Some(job.speaker.user_id) } else { None::<u64> })
                },
                _ => false,
            }
        },
        Err(e) => match r {
            Some(Delivery::Failure { ssrc, display_name, avatar_url, message }) => {
                &&& ssrc == job.ssrc
                &&& display_name@ == job.speaker.display_name@
                &&& avatar_url@ == job.speaker.avatar_url@
                &&& message@ == failure_text(e@, job.ssrc)
            },
            _ => false,
        },
    }
}

proof fn lemma_formats_at_least_8k(payload_type: u8)
    ensures
        format_of(payload_type).rate_hz >= 8000,
{
}

/// A speaking-stop for a speaker with nothing accumulated hands no work to
/// the engine, so nothing is delivered, and leaves the session idle: an
/// empty stream and no recorded sequence number.
pub proof fn lemma_empty_turn_delivers_nothing(v: RegistryView, ssrc: u32)
    requires
        v.sessions.contains_key(ssrc),
        v.sessions[ssrc].audio.len() == 0,
    ensures
        forall|r: FinalizeStart| #[trigger] finalize_start_matches(v, ssrc, r) ==> r is NoAudio,
        finalize_step(v, ssrc).sessions[ssrc].audio.len() == 0,
        finalize_step(v, ssrc).sessions[ssrc].last_sequence is None,
{
}

/// A speaking-stop for a known speaker with accumulated audio hands that
/// audio to the engine; non-empty text from it gives exactly one transcript
/// delivery carrying that text; and the session is left with a fresh empty
/// stream that the next packet feeds from scratch.
pub proof fn lemma_turn_with_audio_delivers_once(
    v: RegistryView,
    ssrc: u32,
    text: String,
    sequence: u16,
    payload_type: u8,
    next: Seq<i16>,
)
    requires
        v.sessions.contains_key(ssrc),
        v.sessions[ssrc].audio.len() > 0,
        v.sessions[ssrc].speaker is Some,
        text@.len() > 0,
        !v.ignored.contains(ssrc),
    ensures
        forall|r: FinalizeStart| #[trigger]
            finalize_start_matches(v, ssrc, r) ==> (r matches FinalizeStart::Run(job) && job.audio@
                == v.sessions[ssrc].audio),
        forall|job: FinalizeJob, d: Option<Delivery>| #[trigger]
            delivery_matches(job, Ok(text), d) ==> (d matches Some(
                Delivery::Transcript { text: t, ssrc: s, .. },
            ) && t@ == text@ && s == job.ssrc),
        finalize_step(v, ssrc).sessions[ssrc].audio.len() == 0,
        packet_step(finalize_step(v, ssrc), ssrc, sequence, payload_type, Some(next)).sessions[ssrc].audio
            == packet_pcm(payload_type, next),
{
    let f = finalize_step(v, ssrc);
    assert(f.sessions[ssrc].audio + packet_pcm(payload_type, next) =~= packet_pcm(payload_type, next));
}

/// Packets for two different SSRCs touch only their own sessions: each step
/// leaves the other session as it was, and the two steps give the same
/// registry in either order.
pub proof fn lemma_distinct_ssrcs_independent(
    v: RegistryView,
    a: u32,
    seq_a: u16,
    pt_a: u8,
    audio_a: Option<Seq<i16>>,
    b: u32,
    seq_b: u16,
    pt_b: u8,
    audio_b: Option<Seq<i16>>,
)
    requires
        a != b,
    ensures
        packet_step(v, a, seq_a, pt_a, audio_a).sessions.remove(a) == v.sessions.remove(a),
        packet_step(v, a, seq_a, pt_a, audio_a).ignored == v.ignored,
        finalize_step(v, a).sessions.remove(a) == v.sessions.remove(a),
        packet_step(packet_step(v, a, seq_a, pt_a, audio_a), b, seq_b, pt_b, audio_b) == packet_step(
            packet_step(v, b, seq_b, pt_b, audio_b),
            a,
            seq_a,
            pt_a,
            audio_a,
        ),
{
    let va = packet_step(v, a, seq_a, pt_a, audio_a);
    let vb = packet_step(v, b, seq_b, pt_b, audio_b);
    assert(va.sessions.remove(a) =~= v.sessions.remove(a));
    assert(finalize_step(v, a).sessions.remove(a) =~= v.sessions.remove(a));
    assert(session_or_fresh(va, b) == session_or_fresh(v, b));
    assert(session_or_fresh(vb, a) == session_or_fresh(v, a));
    let ab = packet_step(va, b, seq_b, pt_b, audio_b);
    let ba = packet_step(vb, a, seq_a, pt_a, audio_a);
    assert(ab.sessions =~= ba.sessions);
}

impl SpeakerRegistry {
    /// An empty registry.
    pub fn new() -> (r: Self)
        ensures
            r@.sessions == Map::<u32, SessionView>::empty(),
            r@.ignored == Set::<u32>::empty(),
    {
        let r = SpeakerRegistry { sessions: HashMap::new(), ignored: HashSet::new() };
        assert(r@.sessions =~= Map::<u32, SessionView>::empty());
        r
    }

    /// The current view of `ssrc`'s session, if any.
    pub open spec fn session(&self, ssrc: u32) -> Option<SessionView> {
        if self@.sessions.contains_key(ssrc) {
            Some(self@.sessions[ssrc])
        } else {
            None
        }
    }

    /// Records who speaks on `ssrc`, whether they opted into archival and
    /// whether they are ignored (muted or blocked), creating the session if
    /// needed. The rest of the session is kept.
    pub fn register_speaker(&mut self, ssrc: u32, speaker: Speaker, ingest: bool, ignored: bool)
        ensures
            final(self)@.sessions == old(self)@.sessions.insert(
                ssrc,
                SessionView { speaker: Some(speaker@), ingest, ..session_or_fresh(old(self)@, ssrc) },
            ),
            final(self)@.ignored == (if ignored {
                old(self)@.ignored.insert(ssrc)
            } else {
                old(self)@.ignored.remove(ssrc)
            }),
    {
        let mut session = match self.sessions.remove(&ssrc) {
            Some(s) => s,
            None => SpeakerSession::fresh(),
        };
        session.speaker = Some(speaker);
        session.ingest = ingest;
        self.sessions.insert(ssrc, session);
        if ignored {
            self.ignored.insert(ssrc);
        } else {
            self.ignored.remove(&ssrc);
        }
        assert(final(self)@.sessions =~= old(self)@.sessions.insert(
            ssrc,
            SessionView { speaker: Some(speaker@), ingest, ..session_or_fresh(old(self)@, ssrc) },
        ));
    }

    /// Handles one packet: ignored speakers are skipped; otherwise the
    /// sequencer decides, and an admitted payload is normalised to the
    /// engine format and fed to the speaker's stream.
    pub fn on_packet(
        &mut self,
        ssrc: u32,
        sequence: u16,
        payload_type: u8,
        audio: Option<Vec<i16>>,
    ) -> (r: PacketOutcome)
        requires
            audio matches Some(a) ==> a@.len() * 2 <= usize::MAX,
        ensures
            final(self)@ == packet_step(
                old(self)@,
                ssrc,
                sequence,
                payload_type,
                pcm_view(audio),
            ),
            r == packet_outcome(
                old(self)@,
                ssrc,
                sequence,
                payload_type,
                pcm_view(audio),
            ),
    {
        let ghost av = pcm_view(audio);
        if self.ignored.contains(&ssrc) {
            return PacketOutcome::Ignored;
        }
        let mut session = match self.sessions.remove(&ssrc) {
            Some(s) => s,
            None => SpeakerSession::fresh(),
        };
        let ghost s0 = session@;
        assert(s0 == session_or_fresh(old(self)@, ssrc));
        let verdict = check_packet(&mut session.last_sequence, sequence);
        let outcome = match verdict {
            Admission::Gap { expected, got } => PacketOutcome::Gap { expected, got },
            Admission::Admitted => {
                let known = known_pcm_format(payload_type);
                let format: PcmFormat = match known {
                    Some(f) => f,
                    None => fallback_pcm_format(),
                };
                match audio {
                    Some(a) => {
                        proof {
                            lemma_formats_at_least_8k(payload_type);
                            let n = a@.len() as int;
                            let rate = format.rate_hz as int;
                            assert(n * 16000 <= n * 2 * rate) by (nonlinear_arith)
                                requires
                                    rate >= 8000,
                                    n >= 0,
                            ;
                            vstd::arithmetic::div_mod::lemma_div_is_ordered(n * 16000, n * 2 * rate, rate);
                            vstd::arithmetic::div_mod::lemma_div_multiples_vanish(n * 2, rate);
                            assert(n * 2 * rate == rate * (n * 2)) by (nonlinear_arith);
                        }
                        let pcm = process_audio(&a, format.rate_hz, format.stereo, ENGINE_RATE_HZ);
                        let fed = pcm.len();
                        session.stream.feed_audio(pcm);
                        PacketOutcome::Admitted { fed, known_payload: known.is_some() }
                    },
                    None => PacketOutcome::Admitted { fed: 0, known_payload: known.is_some() },
                }
            },
        };
        self.sessions.insert(ssrc, session);
        assert(final(self)@.sessions =~= packet_step(old(self)@, ssrc, sequence, payload_type, av).sessions);
        outcome
    }

    /// Ends `ssrc`'s speaking turn: sequencing is reset and a fresh, empty
    /// stream is swapped in for the accumulated one, which is handed out
    /// for transcription when it holds audio and the speaker is known.
    pub fn begin_finalize(&mut self, ssrc: u32) -> (r: FinalizeStart)
        ensures
            final(self)@ == finalize_step(old(self)@, ssrc),
            finalize_start_matches(old(self)@, ssrc, r),
    {
        let mut session = match self.sessions.remove(&ssrc) {
            Some(s) => s,
            None => {
                assert(self@.sessions =~= old(self)@.sessions);
                return FinalizeStart::NoSession;
            },
        };
        session.last_sequence = None;
        let mut taken = TranscriptionStream::new();
        std::mem::swap(&mut taken, &mut session.stream);
        let audio = taken.into_samples();
        let speaker = match &session.speaker {
            Some(sp) => Some(Speaker {
                user_id: sp.user_id,
                display_name: sp.display_name.clone(),
                avatar_url: sp.avatar_url.clone(),
            }),
            None => None,
        };
        let ingest = session.ingest;
        self.sessions.insert(ssrc, session);
        assert(final(self)@.sessions =~= finalize_step(old(self)@, ssrc).sessions);
        if audio.len() == 0 {
            return FinalizeStart::NoAudio;
        }
        match speaker {
            Some(speaker) => FinalizeStart::Run(FinalizeJob { ssrc, audio, speaker, ingest }),
            None => FinalizeStart::NoSpeaker,
        }
    }

    /// Drops every piece of state kept for `ssrc`; returns the user id of
    /// the speaker that was registered on it, if any.
    pub fn on_disconnect(&mut self, ssrc: u32) -> (r: Option<u64>)
        ensures
            final(self)@.sessions == old(self)@.sessions.remove(ssrc),
            final(self)@.ignored == old(self)@.ignored.remove(ssrc),
            r == (match old(self).session(ssrc) {
                Some(s) => match s.speaker {
                    Some(sp) => Some(sp.user_id),
                    None => None,
                },
                None => None,
            }),
    {
        let removed = self.sessions.remove(&ssrc);
        self.ignored.remove(&ssrc);
        assert(final(self)@.sessions =~= old(self)@.sessions.remove(ssrc));
        match removed {
            Some(s) => match s.speaker {
                Some(sp) => Some(sp.user_id),
                None => None,
            },
            None => None,
        }
    }

    /// Makes sure `ssrc` has a session, creating a fresh one if needed.
    pub fn touch(&mut self, ssrc: u32)
        ensures
            final(self)@.sessions == old(self)@.sessions.insert(ssrc, session_or_fresh(old(self)@, ssrc)),
            final(self)@.ignored == old(self)@.ignored,
    {
        let session = match self.sessions.remove(&ssrc) {
            Some(s) => s,
            None => SpeakerSession::fresh(),
        };
        self.sessions.insert(ssrc, session);
        assert(final(self)@.sessions =~= old(self)@.sessions.insert(ssrc, session_or_fresh(old(self)@, ssrc)));
    }

    /// A reconnect of the voice connection clears every ignored flag.
    pub fn on_reconnect(&mut self)
        ensures
            final(self)@.sessions == old(self)@.sessions,
            final(self)@.ignored == Set::<u32>::empty(),
    {
        self.ignored.clear();
    }
}

/// Turns the engine's answer for a job into what is delivered: nothing for
/// empty text, the transcript for text, a diagnostic for an engine error.
pub fn complete_finalize(job: FinalizeJob, result: Result<String, String>) -> (r: Option<Delivery>)
    ensures
        delivery_matches(job, result, r),
{
    match result {
        Ok(text) => {
            if text.as_str().is_empty() {
                return None;
            }
            let archive_for = if job.ingest {
                Some(job.speaker.user_id)
            } else {
                None
            };
            Some(Delivery::Transcript {
                ssrc: job.ssrc,
                display_name: job.speaker.display_name,
                avatar_url: job.speaker.avatar_url,
                text,
                archive_for,
            })
        },
        Err(e) => {
            let mut message = String::from_str("internal error: running stt algorithm failed with error: ");
            message.append(e.as_str());
            message.append("\nssrc ");
            let digits = decimal_string(job.ssrc as u64);
            message.append(digits.as_str());
            Some(Delivery::Failure {
                ssrc: job.ssrc,
                display_name: job.speaker.display_name,
                avatar_url: job.speaker.avatar_url,
                message,
            })
        },
    }
}

} // verus!
