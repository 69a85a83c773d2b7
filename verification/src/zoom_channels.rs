//! The roles a port can hold, and the session state derived from them.

use vstd::prelude::*;

use crate::clock::now_millis;
use crate::packet_stream::PacketStream;

verus! {

/// A call with no packet on any channel for this long has ended.
pub const CALL_MAX_TIMEOUT_MSEC: i64 = 5000;

/// A video or audio channel silent for longer than this is off.
pub const AV_CHANNEL_OFF_MSEC: i64 = 200;

/// Represents the streams known of the video, audio and control ports.
#[derive(Clone, Copy, Debug, PartialEq, Eq, Hash)]
pub struct ZoomChannels {
    pub video: Option<PacketStream>,
    pub audio: Option<PacketStream>,
    pub control: Option<PacketStream>,
}

#[derive(Clone, Copy, Debug, PartialEq, Eq, Hash, Structural)]
pub enum ZoomChannelStatus {
    On,
    Off,
    Unknown,
}

/// Represents the state of a Zoom session.
#[derive(Clone, Copy, Debug, PartialEq, Eq, Hash)]
pub struct ZoomSessionState {
    pub video: ZoomChannelStatus,
    pub audio: ZoomChannelStatus,
    pub call: ZoomChannelStatus,
    pub channels: ZoomChannels,
}

/// Whether a role is held by the stream of `port`.
pub open spec fn held_by(port: u16, stream: Option<PacketStream>) -> bool {
    stream matches Some(stream_data) && stream_data.source_port == port
}

/// The status of a channel at `now`: unknown while no port holds the role,
/// off once the last packet is more than `timeout` milliseconds old.
pub open spec fn channel_status(
    stream: Option<PacketStream>,
    now: i64,
    timeout: i64,
) -> ZoomChannelStatus {
    match stream {
        Some(stream) => if now - stream.last_packet_seen > timeout {
            ZoomChannelStatus::Off
        } else {
            ZoomChannelStatus::On
        },
        None => ZoomChannelStatus::Unknown,
    }
}

/// Milliseconds from the last packet of a role to `now`. A role that no port
/// holds counts as silent for longer than any timeout.
pub open spec fn silence(stream: Option<PacketStream>, now: i64) -> int {
    match stream {
        Some(stream) => now - stream.last_packet_seen,
        None => i128::MAX as int,
    }
}

impl ZoomChannels {
    /// No role is held.
    pub open spec fn unassigned() -> ZoomChannels {
        ZoomChannels { video: None, audio: None, control: None }
    }

    /// No port holds two roles.
    pub open spec fn distinct_ports(self) -> bool {
        &&& self.video matches Some(video) ==> !held_by(video.source_port, self.audio)
            && !held_by(video.source_port, self.control)
        &&& self.audio matches Some(audio) ==> !held_by(audio.source_port, self.control)
    }

    /// Whether `port` holds one of the three roles.
    pub open spec fn recognises(self, port: u16) -> bool {
        held_by(port, self.video) || held_by(port, self.audio) || held_by(port, self.control)
    }

    /// Whether a call is in progress at `now`: some role saw a packet less
    /// than the call timeout ago.
    pub open spec fn call_alive(self, now: i64) -> bool {
        ||| silence(self.video, now) < CALL_MAX_TIMEOUT_MSEC
        ||| silence(self.audio, now) < CALL_MAX_TIMEOUT_MSEC
        ||| silence(self.control, now) < CALL_MAX_TIMEOUT_MSEC
    }
}

/// Generate a channel status based on how long ago a stream received a
/// packet: if it is longer than the timeout the stream is off.
pub fn get_channel_status(stream: Option<PacketStream>, now: i64, timeout: i64) -> (status:
    ZoomChannelStatus)
    ensures
        status == channel_status(stream, now, timeout),
{
    match stream {
        Some(stream) => {
            if now as i128 - stream.last_packet_seen as i128 > timeout as i128 {
                ZoomChannelStatus::Off
            } else {
                ZoomChannelStatus::On
            }
        },
        None => ZoomChannelStatus::Unknown,
    }
}

/// Time since the last packet of a stream, or a very large value where there
/// is no stream.
pub fn time_since_last_packet(stream: Option<PacketStream>, now: i64) -> (elapsed: i128)
    ensures
        elapsed == silence(stream, now),
{
    match stream {
        Some(stream) => now as i128 - stream.last_packet_seen as i128,
        None => i128::MAX,
    }
}

impl ZoomSessionState {
    /// The session state at `now` for the same roles: each status is
    /// computed afresh from the roles and the time.
    pub open spec fn refreshed(self, now: i64) -> ZoomSessionState {
        ZoomSessionState {
            video: channel_status(self.channels.video, now, AV_CHANNEL_OFF_MSEC),
            audio: channel_status(self.channels.audio, now, AV_CHANNEL_OFF_MSEC),
            call: if self.channels.call_alive(now) {
                ZoomChannelStatus::On
            } else {
                ZoomChannelStatus::Off
            },
            channels: self.channels,
        }
    }

    /// The statuses say which roles are held: a channel's status is unknown
    /// exactly while no port holds its role.
    pub open spec fn statuses_current(self) -> bool {
        &&& (self.video is Unknown) == (self.channels.video is None)
        &&& (self.audio is Unknown) == (self.channels.audio is None)
    }

    /// The state before any packet: nothing is known.
    pub fn new() -> (state: ZoomSessionState)
        ensures
            state.video is Unknown,
            state.audio is Unknown,
            state.call is Unknown,
            state.channels == ZoomChannels::unassigned(),
    {
        ZoomSessionState {
            video: ZoomChannelStatus::Unknown,
            audio: ZoomChannelStatus::Unknown,
            call: ZoomChannelStatus::Unknown,
            channels: ZoomChannels { video: None, audio: None, control: None },
        }
    }

    /// Recompute the three statuses for the time `now`.
    pub fn update_channels_at(&mut self, now: i64)
        ensures
            *final(self) == old(self).refreshed(now),
    {
        self.video = get_channel_status(self.channels.video, now, AV_CHANNEL_OFF_MSEC);
        self.audio = get_channel_status(self.channels.audio, now, AV_CHANNEL_OFF_MSEC);

        // Calculate call status by aggregating all channels
        if time_since_last_packet(self.channels.video, now) < CALL_MAX_TIMEOUT_MSEC as i128
            || time_since_last_packet(self.channels.audio, now) < CALL_MAX_TIMEOUT_MSEC as i128
            || time_since_last_packet(self.channels.control, now) < CALL_MAX_TIMEOUT_MSEC as i128 {
            self.call = ZoomChannelStatus::On;
        } else {
            self.call = ZoomChannelStatus::Off;
        }
    }

    /// Recompute the three statuses for the current time.
    pub fn update_channels(&mut self)
        ensures
            exists|now: i64| *final(self) == old(self).refreshed(now),
    {
        let now = now_millis();
        self.update_channels_at(now);
    }
}

/// The session state is a function of the roles and the time alone: whatever
/// the statuses were, refreshing gives the same answer, and the roles stay.
pub proof fn lemma_refreshed_depends_on_roles_and_time(
    first: ZoomSessionState,
    second: ZoomSessionState,
    now: i64,
)
    requires
        first.channels == second.channels,
    ensures
        first.refreshed(now) == second.refreshed(now),
        first.refreshed(now).channels == first.channels,
        first.refreshed(now).statuses_current(),
        !(first.refreshed(now).call is Unknown),
{
}

/// A channel silent for longer than the channel timeout and shorter than the
/// call timeout reads off while the call stays on.
pub proof fn lemma_silent_channel_off_call_on(state: ZoomSessionState, now: i64)
    requires
        state.channels.video matches Some(video) && AV_CHANNEL_OFF_MSEC < now
            - video.last_packet_seen < CALL_MAX_TIMEOUT_MSEC,
    ensures
        state.refreshed(now).video is Off,
        state.refreshed(now).call is On,
{
}

/// Once every role has been silent for the call timeout, or no role is held
/// at all, the call is off.
pub proof fn lemma_silence_ends_call(state: ZoomSessionState, now: i64)
    requires
        silence(state.channels.video, now) >= CALL_MAX_TIMEOUT_MSEC,
        silence(state.channels.audio, now) >= CALL_MAX_TIMEOUT_MSEC,
        silence(state.channels.control, now) >= CALL_MAX_TIMEOUT_MSEC,
    ensures
        state.refreshed(now).call is Off,
{
}

} // verus!
