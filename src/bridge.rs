//! Dispatch of inbound voice-connection events onto the speaker registry
//! and the active-speaker window. Each event is one step; what the step
//! reports tells the caller what outside work to do next (log a gap, run
//! the engine on a finished turn, evict a user elsewhere).
use vstd::prelude::*;
use crate::registry::{
    finalize_start_matches, finalize_step, packet_outcome, packet_step, pcm_view,
    session_or_fresh, FinalizeStart, PacketOutcome, SessionView, Speaker, SpeakerRegistry,
};
use crate::window::{pushed, without, ActiveSpeakerWindow};

verus! {

/// An event of the voice connection.
pub enum VoiceEvent {
    /// A packet from `ssrc`, with its decoded samples when there are any.
    Packet { ssrc: u32, sequence: u16, payload_type: u8, audio: Option<Vec<i16>> },
    /// The transport learned who speaks on `ssrc`.
    SpeakerIdentified { ssrc: u32, speaker: Speaker, ingest: bool, ignored: bool },
    /// `ssrc` started (`true`) or stopped (`false`) speaking.
    Speaking { ssrc: u32, speaking: bool },
    /// The speaker on `ssrc` left.
    Disconnect { ssrc: u32 },
    /// The voice connection (re)connected.
    Reconnect,
}

/// What handling an event came to.
pub enum EventResult {
    Packet(PacketOutcome),
    Identified,
    Started,
    Finalize(FinalizeStart),
    /// The user id that was registered on the SSRC, if any.
    Disconnected(Option<u64>),
    Reconnected,
}

/// Holds of the registry and window before (`r0`, `w0`) and after
/// (`r1`, `w1`) handling `e`, and of the result `res`.
pub open spec fn event_handled(
    e: VoiceEvent,
    r0: crate::registry::RegistryView,
    w0: Seq<u64>,
    cap: nat,
    r1: crate::registry::RegistryView,
    w1: Seq<u64>,
    res: EventResult,
) -> bool {
    match e {
        VoiceEvent::Packet { ssrc, sequence, payload_type, audio } => {
            &&& r1 == packet_step(r0, ssrc, sequence, payload_type, pcm_view(audio))
            &&& w1 == w0
            &&& res == EventResult::Packet(packet_outcome(r0, ssrc, sequence, payload_type, pcm_view(audio)))
        },
        VoiceEvent::SpeakerIdentified { ssrc, speaker, ingest, ignored } => {
            &&& r1.sessions == r0.sessions.insert(
                ssrc,
                SessionView { speaker: Some(speaker@), ingest, ..session_or_fresh(r0, ssrc) },
            )
            &&& r1.ignored == (if ignored { r0.ignored.insert(ssrc) } else { r0.ignored.remove(ssrc) })
            &&& w1 == pushed(w0, cap, speaker.user_id)
            &&& res is Identified
        },
        VoiceEvent::Speaking { ssrc, speaking } => if speaking {
            &&& r1.sessions == r0.sessions.insert(ssrc, session_or_fresh(r0, ssrc))
            &&& r1.ignored == r0.ignored
            &&& w1 == w0
            &&& res is Started
        } else {
            &&& r1 == finalize_step(r0, ssrc)
            &&& w1 == w0
            &&& (res matches EventResult::Finalize(start) && finalize_start_matches(r0, ssrc, start))
        },
        VoiceEvent::Disconnect { ssrc } => {
            &&& r1.sessions == r0.sessions.remove(ssrc)
            &&& r1.ignored == r0.ignored.remove(ssrc)
            &&& res matches EventResult::Disconnected(user)
            &&& match user {
                Some(u) => {
                    &&& r0.sessions.contains_key(ssrc)
                    &&& r0.sessions[ssrc].speaker matches Some(sp)
                    &&& sp.user_id == u
                    &&& w1 == without(w0, u)
                },
                None => {
                    &&& !(r0.sessions.contains_key(ssrc) && r0.sessions[ssrc].speaker is Some)
                    &&& w1 == w0
                },
            }
        },
        VoiceEvent::Reconnect => {
            &&& r1.sessions == r0.sessions
            &&& r1.ignored == Set::<u32>::empty()
            &&& w1 == w0
            &&& res is Reconnected
        },
    }
}

/// Handles one event of the voice connection.
pub fn handle_event(
    registry: &mut SpeakerRegistry,
    window: &mut ActiveSpeakerWindow,
    event: VoiceEvent,
) -> (res: EventResult)
    requires
        old(window).wf(),
        event matches VoiceEvent::Packet { audio: Some(a), .. } ==> a@.len() * 2 <= usize::MAX,
    ensures
        event_handled(
            event,
            old(registry)@,
            old(window)@,
            old(window).spec_capacity(),
            final(registry)@,
            final(window)@,
            res,
        ),
        final(window).wf(),
        final(window).spec_capacity() == old(window).spec_capacity(),
{
    match event {
        VoiceEvent::Packet { ssrc, sequence, payload_type, audio } => {
            EventResult::Packet(registry.on_packet(ssrc, sequence, payload_type, audio))
        },
        VoiceEvent::SpeakerIdentified { ssrc, speaker, ingest, ignored } => {
            let user_id = speaker.user_id;
            registry.register_speaker(ssrc, speaker, ingest, ignored);
            window.push(user_id);
            EventResult::Identified
        },
        VoiceEvent::Speaking { ssrc, speaking } => {
            if speaking {
                registry.touch(ssrc);
                EventResult::Started
            } else {
                EventResult::Finalize(registry.begin_finalize(ssrc))
            }
        },
        VoiceEvent::Disconnect { ssrc } => {
            let user = registry.on_disconnect(ssrc);
            match user {
                Some(u) => window.remove(u),
                None => {},
            }
            EventResult::Disconnected(user)
        },
        VoiceEvent::Reconnect => {
            registry.on_reconnect();
            EventResult::Reconnected
        },
    }
}

/// One voice connection of one guild: its speakers, its active-speaker
/// window and the guild settings that shape transcripts.
pub struct AudioHandler {
    guild_id: u64,
    channel_id: u64,
    voice_channel_id: u64,
    registry: SpeakerRegistry,
    window: ActiveSpeakerWindow,
    premium_level: u8,
    verbose: bool,
}

impl AudioHandler {
    /// The guild, the text channel transcripts go to, and the voice channel.
    pub closed spec fn spec_ids(&self) -> (u64, u64, u64) {
        (self.guild_id, self.channel_id, self.voice_channel_id)
    }

    pub closed spec fn spec_registry(&self) -> crate::registry::RegistryView {
        self.registry@
    }

    pub closed spec fn spec_window(&self) -> Seq<u64> {
        self.window@
    }

    pub closed spec fn spec_window_capacity(&self) -> nat {
        self.window.spec_capacity()
    }

    pub closed spec fn spec_premium_level(&self) -> u8 {
        self.premium_level
    }

    pub closed spec fn spec_verbose(&self) -> bool {
        self.verbose
    }

    /// The handler is ready for events.
    pub closed spec fn wf(&self) -> bool {
        self.window.wf()
    }

    /// A handler with no speaker yet, premium level 0 and plain transcripts
    /// until the guild's settings are loaded.
    pub fn new(guild_id: u64, channel_id: u64, voice_channel_id: u64) -> (r: Self)
        ensures
            r.wf(),
            r.spec_ids() == (guild_id, channel_id, voice_channel_id),
            r.spec_registry().sessions == Map::<u32, SessionView>::empty(),
            r.spec_registry().ignored == Set::<u32>::empty(),
            r.spec_window() == Seq::<u64>::empty(),
            r.spec_window_capacity() == crate::window::DEFAULT_WINDOW_CAPACITY,
            r.spec_premium_level() == 0,
            !r.spec_verbose(),
    {
        AudioHandler {
            guild_id,
            channel_id,
            voice_channel_id,
            registry: SpeakerRegistry::new(),
            window: ActiveSpeakerWindow::new(),
            premium_level: 0,
            verbose: false,
        }
    }

    /// Takes the guild's settings as read from storage.
    pub fn reload_config(&mut self, verbose: bool, premium_level: u8)
        ensures
            final(self).spec_verbose() == verbose,
            final(self).spec_premium_level() == premium_level,
            final(self).spec_registry() == old(self).spec_registry(),
            final(self).spec_window() == old(self).spec_window(),
            final(self).spec_window_capacity() == old(self).spec_window_capacity(),
            final(self).wf() == old(self).wf(),
            final(self).spec_ids() == old(self).spec_ids(),
    {
        self.verbose = verbose;
        self.premium_level = premium_level;
    }

    pub fn guild_id(&self) -> (r: u64)
        ensures
            r == self.spec_ids().0,
    {
        self.guild_id
    }

    pub fn channel_id(&self) -> (r: u64)
        ensures
            r == self.spec_ids().1,
    {
        self.channel_id
    }

    pub fn voice_channel_id(&self) -> (r: u64)
        ensures
            r == self.spec_ids().2,
    {
        self.voice_channel_id
    }

    /// Whether transcripts carry ranked alternatives with confidence.
    pub fn verbose(&self) -> (r: bool)
        ensures
            r == self.spec_verbose(),
    {
        self.verbose
    }

    pub fn premium_level(&self) -> (r: u8)
        ensures
            r == self.spec_premium_level(),
    {
        self.premium_level
    }

    /// Handles one event of the connection.
    pub fn act(&mut self, event: VoiceEvent) -> (res: EventResult)
        requires
            old(self).wf(),
            event matches VoiceEvent::Packet { audio: Some(a), .. } ==> a@.len() * 2 <= usize::MAX,
        ensures
            event_handled(
                event,
                old(self).spec_registry(),
                old(self).spec_window(),
                old(self).spec_window_capacity(),
                final(self).spec_registry(),
                final(self).spec_window(),
                res,
            ),
            final(self).wf(),
            final(self).spec_window_capacity() == old(self).spec_window_capacity(),
            final(self).spec_verbose() == old(self).spec_verbose(),
            final(self).spec_premium_level() == old(self).spec_premium_level(),
            final(self).spec_ids() == old(self).spec_ids(),
    {
        handle_event(&mut self.registry, &mut self.window, event)
    }
}

} // verus!
