use zoom_status::packet_stream::PacketStream;
use zoom_status::zoom_channels::{
    get_channel_status, time_since_last_packet, ZoomChannelStatus, ZoomChannels, ZoomSessionState,
    AV_CHANNEL_OFF_MSEC, CALL_MAX_TIMEOUT_MSEC,
};

fn stream_seen_at(port: u16, at: i64) -> PacketStream {
    PacketStream::new_at(port, at)
}

#[test]
fn new_state_knows_nothing() {
    let state = ZoomSessionState::new();
    assert_eq!(state.video, ZoomChannelStatus::Unknown);
    assert_eq!(state.audio, ZoomChannelStatus::Unknown);
    assert_eq!(state.call, ZoomChannelStatus::Unknown);
    assert_eq!(state.channels, ZoomChannels { video: None, audio: None, control: None });
}

#[test]
fn timeouts_have_their_values() {
    assert_eq!(AV_CHANNEL_OFF_MSEC, 200);
    assert_eq!(CALL_MAX_TIMEOUT_MSEC, 5000);
}

#[test]
fn channel_status_by_age() {
    let stream = Some(stream_seen_at(5000, 10_000));
    assert_eq!(get_channel_status(None, 10_000, 200), ZoomChannelStatus::Unknown);
    assert_eq!(get_channel_status(stream, 10_000, 200), ZoomChannelStatus::On);
    assert_eq!(get_channel_status(stream, 10_200, 200), ZoomChannelStatus::On);
    assert_eq!(get_channel_status(stream, 10_201, 200), ZoomChannelStatus::Off);
    // a clock that went backwards
    assert_eq!(get_channel_status(stream, 9_000, 200), ZoomChannelStatus::On);
}

#[test]
fn channel_status_at_the_ends_of_time() {
    let early = Some(stream_seen_at(5000, i64::MIN));
    let late = Some(stream_seen_at(5000, i64::MAX));
    assert_eq!(get_channel_status(early, i64::MAX, 200), ZoomChannelStatus::Off);
    assert_eq!(get_channel_status(late, i64::MIN, 200), ZoomChannelStatus::On);
}

#[test]
fn time_since_last_packet_is_the_difference() {
    let stream = Some(stream_seen_at(5000, 10_000));
    assert_eq!(time_since_last_packet(stream, 10_250), 250);
    assert_eq!(time_since_last_packet(stream, 9_000), -1_000);
    assert_eq!(time_since_last_packet(None, 10_250), i128::MAX);
    let early = Some(stream_seen_at(5000, i64::MIN));
    assert_eq!(time_since_last_packet(early, i64::MAX), i64::MAX as i128 - i64::MIN as i128);
}

#[test]
fn audio_status_follows_the_audio_role() {
    let mut state = ZoomSessionState::new();
    state.channels.video = Some(stream_seen_at(5000, 10_000));
    state.channels.audio = Some(stream_seen_at(5001, 9_000));
    state.update_channels_at(10_100);
    assert_eq!(state.video, ZoomChannelStatus::On);
    assert_eq!(state.audio, ZoomChannelStatus::Off);

    let mut only_video = ZoomSessionState::new();
    only_video.channels.video = Some(stream_seen_at(5000, 10_000));
    only_video.update_channels_at(10_100);
    assert_eq!(only_video.video, ZoomChannelStatus::On);
    assert_eq!(only_video.audio, ZoomChannelStatus::Unknown);

    let mut only_audio = ZoomSessionState::new();
    only_audio.channels.audio = Some(stream_seen_at(5001, 10_000));
    only_audio.update_channels_at(10_100);
    assert_eq!(only_audio.video, ZoomChannelStatus::Unknown);
    assert_eq!(only_audio.audio, ZoomChannelStatus::On);
}

#[test]
fn silent_video_is_off_while_call_stays_on() {
    let mut state = ZoomSessionState::new();
    state.channels.video = Some(stream_seen_at(5000, 10_000));
    state.update_channels_at(10_000 + AV_CHANNEL_OFF_MSEC + 1);
    assert_eq!(state.video, ZoomChannelStatus::Off);
    assert_eq!(state.call, ZoomChannelStatus::On);
    state.update_channels_at(10_000 + CALL_MAX_TIMEOUT_MSEC - 1);
    assert_eq!(state.video, ZoomChannelStatus::Off);
    assert_eq!(state.call, ZoomChannelStatus::On);
}

#[test]
fn call_ends_at_the_call_timeout() {
    let mut state = ZoomSessionState::new();
    state.channels.video = Some(stream_seen_at(5000, 10_000));
    state.channels.audio = Some(stream_seen_at(5001, 10_000));
    state.channels.control = Some(stream_seen_at(5002, 10_000));
    state.update_channels_at(10_000 + CALL_MAX_TIMEOUT_MSEC);
    assert_eq!(state.call, ZoomChannelStatus::Off);
    assert_eq!(state.video, ZoomChannelStatus::Off);
    assert_eq!(state.audio, ZoomChannelStatus::Off);
}

#[test]
fn any_live_role_keeps_the_call_on() {
    let mut state = ZoomSessionState::new();
    state.channels.video = Some(stream_seen_at(5000, 0));
    state.channels.audio = Some(stream_seen_at(5001, 0));
    state.channels.control = Some(stream_seen_at(5002, 9_000));
    state.update_channels_at(10_000);
    assert_eq!(state.call, ZoomChannelStatus::On);
    assert_eq!(state.video, ZoomChannelStatus::Off);
    assert_eq!(state.audio, ZoomChannelStatus::Off);
}

#[test]
fn no_roles_means_call_off() {
    let mut state = ZoomSessionState::new();
    state.update_channels_at(10_000);
    assert_eq!(state.call, ZoomChannelStatus::Off);
    assert_eq!(state.video, ZoomChannelStatus::Unknown);
    assert_eq!(state.audio, ZoomChannelStatus::Unknown);
}

#[test]
fn refreshing_keeps_the_roles_and_forgets_old_statuses() {
    let mut first = ZoomSessionState::new();
    first.channels.video = Some(stream_seen_at(5000, 10_000));
    let mut second = first;
    second.video = ZoomChannelStatus::Off;
    second.call = ZoomChannelStatus::On;
    first.update_channels_at(10_050);
    second.update_channels_at(10_050);
    assert_eq!(first, second);
    assert_eq!(first.channels.video, Some(stream_seen_at(5000, 10_000)));
}

#[test]
fn update_channels_reads_the_clock() {
    let now = chrono::Utc::now().timestamp_millis();
    let mut state = ZoomSessionState::new();
    state.channels.video = Some(stream_seen_at(5000, now));
    state.channels.audio = Some(stream_seen_at(5001, now - 60_000));
    state.update_channels();
    assert_eq!(state.video, ZoomChannelStatus::On);
    assert_eq!(state.audio, ZoomChannelStatus::Off);
    assert_eq!(state.call, ZoomChannelStatus::On);
}
