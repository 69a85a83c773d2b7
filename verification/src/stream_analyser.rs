//! The stream classifier: it maps source ports to roles from the sizes of
//! their packets, and moves between discovering ports and monitoring the
//! ports it has found.

use std::collections::HashMap;
use vstd::prelude::*;

use crate::clock::now_millis;
use crate::packet_stream::{PacketStream, BITRATE_WINDOW_SIZE};
use crate::zoom_channels::{held_by, ZoomChannelStatus, ZoomChannels, ZoomSessionState};

verus! {

broadcast use vstd::std_specs::hash::group_hash_axioms;

/// A stream of packets larger than this many bytes is probably audio.
pub const AUDIO_ABOVE: u16 = 90;

/// A stream of packets larger than this many bytes is probably video.
pub const VIDEO_ABOVE: u16 = 500;

/// What the capture is doing: finding out which port is which, or watching
/// the ports it has found.
#[derive(Clone, Copy, Debug, PartialEq, Eq, Hash, Structural)]
pub enum Mode {
    Discover,
    Monitor,
}

/// A role with `port` taken out of it: empty if `port` held it, else as it was.
pub open spec fn released(port: u16, role: Option<PacketStream>) -> Option<PacketStream> {
    if held_by(port, role) {
        None
    } else {
        role
    }
}

/// The roles after the role rule is applied to a stream that is ready for
/// classification.
///
/// Above the video threshold the port becomes video and leaves any other
/// role. Between the thresholds it becomes audio and leaves control, unless
/// it is video already: then it stays video. At or below the audio threshold
/// it becomes control, unless it is video or audio already: then nothing
/// changes.
pub open spec fn classified(channels: ZoomChannels, stream: PacketStream) -> ZoomChannels {
    let port = stream.source_port;
    if stream.average_packet_size > VIDEO_ABOVE {
        ZoomChannels {
            video: Some(stream),
            audio: released(port, channels.audio),
            control: released(port, channels.control),
        }
    } else if stream.average_packet_size > AUDIO_ABOVE {
        if held_by(port, channels.video) {
            ZoomChannels {
                video: Some(stream),
                audio: channels.audio,
                control: released(port, channels.control),
            }
        } else {
            ZoomChannels {
                video: channels.video,
                audio: Some(stream),
                control: released(port, channels.control),
            }
        }
    } else if !held_by(port, channels.video) && !held_by(port, channels.audio) {
        ZoomChannels { video: channels.video, audio: channels.audio, control: Some(stream) }
    } else {
        channels
    }
}

/// The stream on record for `port`, or a new one first seen at `now`.
pub open spec fn stream_on_record(
    streams: Map<u16, PacketStream>,
    port: u16,
    now: i64,
) -> PacketStream {
    if streams.contains_key(port) {
        streams[port]
    } else {
        PacketStream::fresh(port, now)
    }
}

/// The stream of `port` after a packet seen while discovering: every packet
/// counts, however small.
pub open spec fn discovered_stream(
    streams: Map<u16, PacketStream>,
    port: u16,
    length: u16,
    now: i64,
) -> PacketStream {
    stream_on_record(streams, port, now).with_packet(length, false, now)
}

/// The roles after a packet seen while discovering: the role rule is applied
/// once the port's stream is ready for classification.
pub open spec fn discovered_channels(
    streams: Map<u16, PacketStream>,
    channels: ZoomChannels,
    port: u16,
    length: u16,
    now: i64,
) -> ZoomChannels {
    let stream = discovered_stream(streams, port, length, now);
    if stream.classification_ready() {
        classified(channels, stream)
    } else {
        channels
    }
}

/// The roles after a packet seen while monitoring: the role that `port`
/// holds takes the packet, video and audio without their keep-alives. A port
/// that holds no role changes nothing.
pub open spec fn monitored_channels(
    channels: ZoomChannels,
    port: u16,
    length: u16,
    now: i64,
) -> ZoomChannels {
    if held_by(port, channels.video) {
        ZoomChannels {
            video: Some(channels.video->0.with_packet(length, true, now)),
            audio: channels.audio,
            control: channels.control,
        }
    } else if held_by(port, channels.audio) {
        ZoomChannels {
            video: channels.video,
            audio: Some(channels.audio->0.with_packet(length, true, now)),
            control: channels.control,
        }
    } else if held_by(port, channels.control) {
        ZoomChannels {
            video: channels.video,
            audio: channels.audio,
            control: Some(channels.control->0.with_packet(length, false, now)),
        }
    } else {
        channels
    }
}

/// The mode that follows `mode` for a session state: discovery ends once
/// video and audio both have a status, monitoring ends once the call is not
/// on.
pub open spec fn next_mode(mode: Mode, state: ZoomSessionState) -> Mode {
    match mode {
        Mode::Discover => if !(state.video is Unknown) && !(state.audio is Unknown) {
            Mode::Monitor
        } else {
            Mode::Discover
        },
        Mode::Monitor => if state.call is On {
            Mode::Monitor
        } else {
            Mode::Discover
        },
    }
}

/// The classifier as a mathematical value.
pub struct CaptureView {
    pub session_state: ZoomSessionState,
    pub mode: Mode,
    /// The working set: the streams of the ports seen while discovering.
    pub streams: Map<u16, PacketStream>,
}

impl CaptureView {
    /// The classifier before any packet: discovering, nothing known.
    pub open spec fn initial() -> CaptureView {
        CaptureView {
            session_state: ZoomSessionState {
                video: ZoomChannelStatus::Unknown,
                audio: ZoomChannelStatus::Unknown,
                call: ZoomChannelStatus::Unknown,
                channels: ZoomChannels::unassigned(),
            },
            mode: Mode::Discover,
            streams: Map::empty(),
        }
    }

    /// No port holds two roles, a channel has a status exactly when a port
    /// holds its role, monitoring has a video and an audio port to watch, and
    /// the working set files each stream under its own port.
    pub open spec fn well_formed(self) -> bool {
        &&& self.session_state.channels.distinct_ports()
        &&& self.session_state.statuses_current()
        &&& self.mode is Monitor ==> self.session_state.channels.video is Some
            && self.session_state.channels.audio is Some
        &&& forall|port: u16| #[trigger]
            self.streams.contains_key(port) ==> self.streams[port].source_port == port
                && self.streams[port].well_formed()
    }

    /// Whether a packet from `port` is one that monitoring did not expect.
    pub open spec fn unexpected(self, port: u16) -> bool {
        self.mode is Monitor && !self.session_state.channels.recognises(port)
    }

    /// The working set after a step that began in `self.mode` and ended in
    /// `mode`: discovery starts again from an empty set.
    pub open spec fn working_set(self, streams: Map<u16, PacketStream>, mode: Mode) -> Map<
        u16,
        PacketStream,
    > {
        if self.mode is Monitor && mode is Discover {
            Map::empty()
        } else {
            streams
        }
    }

    /// The classifier after a packet of `length` bytes from `port` at `now`.
    pub open spec fn after_packet(self, port: u16, length: u16, now: i64) -> CaptureView {
        let channels = match self.mode {
            Mode::Discover => discovered_channels(
                self.streams,
                self.session_state.channels,
                port,
                length,
                now,
            ),
            Mode::Monitor => monitored_channels(self.session_state.channels, port, length, now),
        };
        let streams = match self.mode {
            Mode::Discover => self.streams.insert(
                port,
                discovered_stream(self.streams, port, length, now),
            ),
            Mode::Monitor => self.streams,
        };
        let session_state = ZoomSessionState {
            video: self.session_state.video,
            audio: self.session_state.audio,
            call: self.session_state.call,
            channels,
        }.refreshed(now);
        let mode = if self.unexpected(port) {
            Mode::Discover
        } else {
            next_mode(self.mode, session_state)
        };
        CaptureView { session_state, mode, streams: self.working_set(streams, mode) }
    }

    /// The classifier after a wait for a packet ended at `now` without one.
    pub open spec fn after_timeout(self, now: i64) -> CaptureView {
        let session_state = self.session_state.refreshed(now);
        let mode = next_mode(self.mode, session_state);
        CaptureView { session_state, mode, streams: self.working_set(self.streams, mode) }
    }
}

/// Implements a capture process that discovers which port is which (video,
/// audio, control).
#[derive(Debug)]
pub struct ZoomChannelCapture {
    session_state: ZoomSessionState,
    mode: Mode,
    stream_map: HashMap<u16, PacketStream>,
}

impl View for ZoomChannelCapture {
    type V = CaptureView;

    closed spec fn view(&self) -> CaptureView {
        CaptureView {
            session_state: self.session_state,
            mode: self.mode,
            streams: self.stream_map@,
        }
    }
}

impl Clone for ZoomChannelCapture {
    fn clone(&self) -> (copy: ZoomChannelCapture)
        ensures
            copy@ == self@,
    {
        proof {
            use_type_invariant(self);
        }
        ZoomChannelCapture {
            session_state: self.session_state,
            mode: self.mode,
            stream_map: self.stream_map.clone(),
        }
    }
}

impl ZoomChannelCapture {
    #[verifier::type_invariant]
    spec fn consistent(self) -> bool {
        self@.well_formed()
    }

    /// Set up for capturing active channels.
    pub fn new() -> (capture: ZoomChannelCapture)
        ensures
            capture@ == CaptureView::initial(),
            capture@.well_formed(),
    {
        ZoomChannelCapture {
            session_state: ZoomSessionState::new(),
            mode: Mode::Discover,
            stream_map: HashMap::new(),
        }
    }

    /// The current mode.
    pub fn mode(&self) -> (mode: Mode)
        ensures
            mode == self@.mode,
    {
        self.mode
    }

    /// The latest session state, as last recomputed.
    pub fn session_state(&self) -> (state: ZoomSessionState)
        ensures
            state == self@.session_state,
            self@.well_formed(),
    {
        proof {
            use_type_invariant(self);
        }
        self.session_state
    }

    /// The stream on record for `port` in the working set, if there is one.
    pub fn stream_of(&self, port: u16) -> (stream: Option<PacketStream>)
        ensures
            stream == if self@.streams.contains_key(port) {
                Some(self@.streams[port])
            } else {
                None
            },
    {
        match self.stream_map.get(&port) {
            Some(stream) => Some(*stream),
            None => None,
        }
    }

    /// Check if a given port already matches a stream.
    ///
    /// Returns true if the stream isn't None, and the ports match.
    pub fn existing_match(port: u16, stream: Option<PacketStream>) -> (matched: bool)
        ensures
            matched == held_by(port, stream),
    {
        if let Some(stream_data) = stream {
            if stream_data.source_port == port {
                return true;
            }
        }
        false
    }

    /// Apply the role rule to a stream that is ready for classification.
    pub fn assign_role(channels: &mut ZoomChannels, stream: PacketStream)
        ensures
            *final(channels) == classified(*old(channels), stream),
            old(channels).distinct_ports() ==> final(channels).distinct_ports(),
    {
        let port = stream.source_port;
        if stream.average_packet_size > VIDEO_ABOVE {
            // Check it didn't get misassigned to the audio port, remove it if so
            if ZoomChannelCapture::existing_match(port, channels.audio) {
                channels.audio = None;
            }
            // Check it didn't get misassigned to the control port, remove it if so
            if ZoomChannelCapture::existing_match(port, channels.control) {
                channels.control = None;
            }
            // If it's big enough to be video, it probably is
            channels.video = Some(stream);
        } else if stream.average_packet_size > AUDIO_ABOVE {
            // Check it didn't get misassigned to the control port, remove it if so
            if ZoomChannelCapture::existing_match(port, channels.control) {
                channels.control = None;
            }
            if ZoomChannelCapture::existing_match(port, channels.video) {
                // If this port is currently thought to be video, keep it that way
                channels.video = Some(stream);
            } else {
                channels.audio = Some(stream);
            }
        } else {
            // A port we think is audio or video is unlikely to be control
            if !ZoomChannelCapture::existing_match(port, channels.video)
                && !ZoomChannelCapture::existing_match(port, channels.audio) {
                channels.control = Some(stream);
            }
        }
    }

    /// Check the mode, and decide whether the session state means we need to
    /// change.
    ///
    /// If we're in Discover mode, but have found both ports, swap to Monitor.
    /// If we're in Monitor mode but the call has dropped, swap to Discover.
    pub fn update_mode(mode: Mode, state: &ZoomSessionState) -> (next: Mode)
        ensures
            next == next_mode(mode, *state),
    {
        match mode {
            Mode::Discover => {
                if state.video != ZoomChannelStatus::Unknown && state.audio
                    != ZoomChannelStatus::Unknown {
                    return Mode::Monitor;
                }
                Mode::Discover
            },
            Mode::Monitor => {
                if state.call != ZoomChannelStatus::On {
                    return Mode::Discover;
                }
                Mode::Monitor
            },
        }
    }

    /// Given a packet, try to discover which stream it belongs to.
    ///
    /// Takes the packet into the stream of its port and, once the stream has
    /// a full window, applies guesswork based on its size to allocate it to
    /// the video, audio or control role.
    pub fn guess_stream_for_packet(
        stream_map: &mut HashMap<u16, PacketStream>,
        channels: &mut ZoomChannels,
        port: u16,
        length: u16,
        now: i64,
    )
        ensures
            final(stream_map)@ == old(stream_map)@.insert(
                port,
                discovered_stream(old(stream_map)@, port, length, now),
            ),
            *final(channels) == discovered_channels(
                old(stream_map)@,
                *old(channels),
                port,
                length,
                now,
            ),
    {
        let matched_stream = stream_map.entry(port).or_insert(PacketStream::new_at(port, now));
        matched_stream.add_packet_at(length, false, now);
        let snapshot = *matched_stream;

        if snapshot.window_size >= BITRATE_WINDOW_SIZE {
            // Enough packets have come in to decide which type of stream this is
            ZoomChannelCapture::assign_role(channels, snapshot);
        }
    }

    /// Find the packet stream that relates to the packet we just got, and
    /// update it. Says whether there was one.
    pub fn update_relevant_packet_stream(
        channels: &mut ZoomChannels,
        port: u16,
        length: u16,
        now: i64,
    ) -> (recognised: bool)
        ensures
            recognised == old(channels).recognises(port),
            *final(channels) == monitored_channels(*old(channels), port, length, now),
    {
        if let Some(mut stream) = channels.video {
            if stream.source_port == port {
                stream.add_packet_at(length, true, now);
                channels.video = Some(stream);
                return true;
            }
        }
        if let Some(mut stream) = channels.audio {
            if stream.source_port == port {
                stream.add_packet_at(length, true, now);
                channels.audio = Some(stream);
                return true;
            }
        }
        if let Some(mut stream) = channels.control {
            if stream.source_port == port {
                stream.add_packet_at(length, false, now);
                channels.control = Some(stream);
                return true;
            }
        }
        false
    }

    /// Take in a packet of `length` bytes from `port` that arrived at `now`:
    /// feed it to the classifier, recompute the session state and decide the
    /// mode. Says whether the mode changed, which is when the capture filter
    /// has to be set again.
    pub fn ingest_at(&mut self, port: u16, length: u16, now: i64) -> (mode_changed: bool)
        ensures
            final(self)@ == old(self)@.after_packet(port, length, now),
            mode_changed == (final(self)@.mode != old(self)@.mode),
            final(self)@.well_formed(),
    {
        proof {
            use_type_invariant(&*self);
            lemma_step_keeps_well_formed(self@, port, length, now);
        }
        let entry_mode = self.mode;
        let mut state = self.session_state;
        let mut streams: HashMap<u16, PacketStream> = HashMap::new();
        std::mem::swap(&mut streams, &mut self.stream_map);

        let recognised = match entry_mode {
            Mode::Discover => {
                ZoomChannelCapture::guess_stream_for_packet(
                    &mut streams,
                    &mut state.channels,
                    port,
                    length,
                    now,
                );
                true
            },
            Mode::Monitor => ZoomChannelCapture::update_relevant_packet_stream(
                &mut state.channels,
                port,
                length,
                now,
            ),
        };

        // Recalculate channel statuses
        state.update_channels_at(now);

        // Check if we need to switch modes. A packet we don't recognise forces
        // us back to Discover mode.
        let mode = if recognised {
            ZoomChannelCapture::update_mode(entry_mode, &state)
        } else {
            Mode::Discover
        };
        if entry_mode == Mode::Monitor && mode == Mode::Discover {
            streams.clear();
        }
        *self = ZoomChannelCapture { session_state: state, mode, stream_map: streams };
        mode != entry_mode
    }

    /// Take in a packet that arrives now. See `ingest_at`.
    pub fn ingest(&mut self, port: u16, length: u16) -> (mode_changed: bool)
        ensures
            exists|now: i64| final(self)@ == old(self)@.after_packet(port, length, now),
            mode_changed == (final(self)@.mode != old(self)@.mode),
            final(self)@.well_formed(),
    {
        let now = now_millis();
        self.ingest_at(port, length, now)
    }

    /// Note that a wait for a packet ended at `now` without one: recompute
    /// the session state, which depends on the time, and decide the mode.
    /// Says whether the mode changed.
    pub fn tick_at(&mut self, now: i64) -> (mode_changed: bool)
        ensures
            final(self)@ == old(self)@.after_timeout(now),
            mode_changed == (final(self)@.mode != old(self)@.mode),
            final(self)@.well_formed(),
    {
        proof {
            use_type_invariant(&*self);
            lemma_timeout_keeps_well_formed(self@, now);
        }
        let entry_mode = self.mode;
        let mut state = self.session_state;
        let mut streams: HashMap<u16, PacketStream> = HashMap::new();
        std::mem::swap(&mut streams, &mut self.stream_map);

        state.update_channels_at(now);
        let mode = ZoomChannelCapture::update_mode(entry_mode, &state);
        if entry_mode == Mode::Monitor && mode == Mode::Discover {
            streams.clear();
        }
        *self = ZoomChannelCapture { session_state: state, mode, stream_map: streams };
        mode != entry_mode
    }

    /// Note that a wait for a packet ended now without one. See `tick_at`.
    pub fn tick(&mut self) -> (mode_changed: bool)
        ensures
            exists|now: i64| final(self)@ == old(self)@.after_timeout(now),
            mode_changed == (final(self)@.mode != old(self)@.mode),
            final(self)@.well_formed(),
    {
        let now = now_millis();
        self.tick_at(now)
    }
}

/// The role rule keeps the roles on different ports.
pub proof fn lemma_classified_keeps_ports_distinct(channels: ZoomChannels, stream: PacketStream)
    requires
        channels.distinct_ports(),
    ensures
        classified(channels, stream).distinct_ports(),
{
}

/// A port whose average stays above the video threshold stays video however
/// often it is classified, and holds no other role: classifying it again
/// replaces the video stream and changes nothing else.
pub proof fn lemma_video_assignment_stable(
    channels: ZoomChannels,
    first: PacketStream,
    again: PacketStream,
)
    requires
        first.average_packet_size > VIDEO_ABOVE,
        again.average_packet_size > VIDEO_ABOVE,
        again.source_port == first.source_port,
    ensures
        classified(channels, first).video == Some(first),
        !held_by(first.source_port, classified(channels, first).audio),
        !held_by(first.source_port, classified(channels, first).control),
        classified(classified(channels, first), again) == (ZoomChannels {
            video: Some(again),
            audio: classified(channels, first).audio,
            control: classified(channels, first).control,
        }),
        classified(classified(channels, first), first) == classified(channels, first),
{
}

/// A packet keeps the classifier well formed.
pub proof fn lemma_step_keeps_well_formed(capture: CaptureView, port: u16, length: u16, now: i64)
    requires
        capture.well_formed(),
    ensures
        capture.after_packet(port, length, now).well_formed(),
{
    let after = capture.after_packet(port, length, now);
    let stream = discovered_stream(capture.streams, port, length, now);
    assert(stream.source_port == port && stream.well_formed());
    if stream.classification_ready() {
        lemma_classified_keeps_ports_distinct(capture.session_state.channels, stream);
    }
    assert forall|p: u16| #[trigger] after.streams.contains_key(p) implies {
        &&& after.streams[p].source_port == p
        &&& after.streams[p].well_formed()
    } by {
        if p != port {
            assert(capture.streams.contains_key(p));
        }
    }
}

/// A wait without a packet keeps the classifier well formed.
pub proof fn lemma_timeout_keeps_well_formed(capture: CaptureView, now: i64)
    requires
        capture.well_formed(),
    ensures
        capture.after_timeout(now).well_formed(),
{
    let after = capture.after_timeout(now);
    assert forall|p: u16| #[trigger] after.streams.contains_key(p) implies {
        &&& after.streams[p].source_port == p
        &&& after.streams[p].well_formed()
    } by {
        assert(capture.streams.contains_key(p));
    }
}

/// The mode after a step depends on the mode before it, the roles and the
/// time alone. Discovery ends as soon as video and audio are both assigned;
/// monitoring ends as soon as the call is not on, or a packet comes from a
/// port that holds no role.
pub proof fn lemma_mode_transitions(capture: CaptureView, port: u16, length: u16, now: i64)
    ensures
        capture.mode is Discover && capture.session_state.channels.video is Some
            && capture.session_state.channels.audio is Some ==> capture.after_timeout(now).mode
            is Monitor,
        capture.mode is Discover && !(capture.session_state.channels.video is Some
            && capture.session_state.channels.audio is Some) ==> capture.after_timeout(now).mode
            is Discover,
        capture.mode is Monitor ==> (capture.after_timeout(now).mode is Monitor
            <==> capture.session_state.channels.call_alive(now)),
        capture.unexpected(port) ==> capture.after_packet(port, length, now).mode is Discover,
        capture.after_packet(port, length, now).mode == if capture.unexpected(port) {
            Mode::Discover
        } else {
            next_mode(capture.mode, capture.after_packet(port, length, now).session_state)
        },
        capture.after_timeout(now).mode == next_mode(
            capture.mode,
            capture.after_timeout(now).session_state,
        ),
{
}

} // verus!
