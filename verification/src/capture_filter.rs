//! The filter expression that the capture needs in each mode.

use vstd::prelude::*;

use crate::stream_analyser::{CaptureView, Mode, ZoomChannelCapture};
use crate::zoom_channels::ZoomChannels;

verus! {

/// The port of the remote server that every packet of a call is sent to.
pub const SIGNALLING_PORT: u16 = 8801;

/// The character of a decimal digit.
pub open spec fn digit_char(digit: nat) -> char {
    if digit == 0 {
        '0'
    } else if digit == 1 {
        '1'
    } else if digit == 2 {
        '2'
    } else if digit == 3 {
        '3'
    } else if digit == 4 {
        '4'
    } else if digit == 5 {
        '5'
    } else if digit == 6 {
        '6'
    } else if digit == 7 {
        '7'
    } else if digit == 8 {
        '8'
    } else {
        '9'
    }
}

/// A number in decimal, without leading zeros.
pub open spec fn decimal(number: nat) -> Seq<char>
    decreases number,
{
    if number < 10 {
        seq![digit_char(number)]
    } else {
        decimal(number / 10).push(digit_char(number % 10))
    }
}

/// The ports that hold a role, video first, then audio, then control.
pub open spec fn assigned_ports(channels: ZoomChannels) -> Seq<u16> {
    let video = match channels.video {
        Some(stream) => seq![stream.source_port],
        None => seq![],
    };
    let audio = match channels.audio {
        Some(stream) => seq![stream.source_port],
        None => seq![],
    };
    let control = match channels.control {
        Some(stream) => seq![stream.source_port],
        None => seq![],
    };
    video + audio + control
}

/// The alternatives `src port N`, one for each port, joined by `||`.
pub open spec fn source_port_terms(ports: Seq<u16>) -> Seq<char>
    decreases ports.len(),
{
    if ports.len() == 0 {
        Seq::empty()
    } else if ports.len() == 1 {
        "src port "@ + decimal(ports[0] as nat)
    } else {
        source_port_terms(ports.drop_last()) + " || "@ + "src port "@ + decimal(
            ports.last() as nat,
        )
    }
}

/// The filter while discovering: all UDP traffic to the signalling port.
pub open spec fn discover_filter() -> Seq<char> {
    "udp && dst port "@ + decimal(SIGNALLING_PORT as nat)
}

/// The filter while monitoring: UDP traffic from exactly the ports that
/// hold a role.
pub open spec fn monitor_filter(channels: ZoomChannels) -> Seq<char> {
    "udp && ("@ + source_port_terms(assigned_ports(channels)) + ")"@
}

/// The filter that the capture needs for a classifier in this state.
pub open spec fn filter_expression(capture: CaptureView) -> Seq<char> {
    match capture.mode {
        Mode::Discover => discover_filter(),
        Mode::Monitor => monitor_filter(capture.session_state.channels),
    }
}

fn digit_text(digit: u16) -> (text: &'static str)
    requires
        digit < 10,
    ensures
        text@ == seq![digit_char(digit as nat)],
{
    proof {
        reveal_strlit("0");
        reveal_strlit("1");
        reveal_strlit("2");
        reveal_strlit("3");
        reveal_strlit("4");
        reveal_strlit("5");
        reveal_strlit("6");
        reveal_strlit("7");
        reveal_strlit("8");
        reveal_strlit("9");
    }
    let text = if digit == 0 {
        "0"
    } else if digit == 1 {
        "1"
    } else if digit == 2 {
        "2"
    } else if digit == 3 {
        "3"
    } else if digit == 4 {
        "4"
    } else if digit == 5 {
        "5"
    } else if digit == 6 {
        "6"
    } else if digit == 7 {
        "7"
    } else if digit == 8 {
        "8"
    } else {
        "9"
    };
    assert(text@ =~= seq![digit_char(digit as nat)]);
    text
}

/// Write a number in decimal at the end of a text.
pub fn append_decimal(text: &mut String, number: u16)
    ensures
        final(text)@ == old(text)@ + decimal(number as nat),
    decreases number,
{
    if number >= 10 {
        append_decimal(text, number / 10);
    }
    text.append(digit_text(number % 10));
}

/// Write the alternatives `src port N` for the ports at the end of a text.
pub fn append_source_port_terms(text: &mut String, ports: &Vec<u16>)
    ensures
        final(text)@ == old(text)@ + source_port_terms(ports@),
{
    let mut index: usize = 0;
    while index < ports.len()
        invariant
            index <= ports.len(),
            text@ == old(text)@ + source_port_terms(ports@.take(index as int)),
        decreases ports.len() - index,
    {
        if index > 0 {
            text.append(" || ");
        }
        text.append("src port ");
        append_decimal(text, ports[index]);
        proof {
            let done = ports@.take(index as int + 1);
            assert(done.drop_last() == ports@.take(index as int));
            assert(done.last() == ports@[index as int]);
        }
        index += 1;
    }
    proof {
        assert(ports@.take(index as int) == ports@);
    }
}

/// The ports that hold a role, video first, then audio, then control.
pub fn role_ports(channels: &ZoomChannels) -> (ports: Vec<u16>)
    ensures
        ports@ == assigned_ports(*channels),
{
    let mut ports: Vec<u16> = Vec::new();
    if let Some(stream) = channels.video {
        ports.push(stream.source_port);
    }
    if let Some(stream) = channels.audio {
        ports.push(stream.source_port);
    }
    if let Some(stream) = channels.control {
        ports.push(stream.source_port);
    }
    ports
}

impl ZoomChannelCapture {
    /// The filter expression that the capture needs in the current mode.
    /// It changes only when the mode does.
    pub fn capture_filter(&self) -> (filter: String)
        ensures
            filter@ == filter_expression(self@),
    {
        let state = self.session_state();
        match self.mode() {
            Mode::Discover => {
                let mut filter = String::from_str("udp && dst port ");
                append_decimal(&mut filter, SIGNALLING_PORT);
                filter
            },
            Mode::Monitor => {
                let mut filter = String::from_str("udp && (");
                let ports = role_ports(&state.channels);
                append_source_port_terms(&mut filter, &ports);
                filter.append(")");
                filter
            },
        }
    }
}

/// While monitoring, the filter names the video port and the audio port,
/// and the control port where there is one.
pub proof fn lemma_monitor_filter_names_roles(capture: CaptureView)
    requires
        capture.well_formed(),
        capture.mode is Monitor,
    ensures
        assigned_ports(capture.session_state.channels).len() >= 2,
        assigned_ports(capture.session_state.channels)[0]
            == capture.session_state.channels.video->0.source_port,
        assigned_ports(capture.session_state.channels)[1]
            == capture.session_state.channels.audio->0.source_port,
        forall|port: u16|
            capture.session_state.channels.recognises(port) <==> assigned_ports(
                capture.session_state.channels,
            ).contains(port),
{
    let channels = capture.session_state.channels;
    let ports = assigned_ports(channels);
    assert forall|port: u16| channels.recognises(port) <==> ports.contains(port) by {
        if channels.recognises(port) {
            if port == channels.video->0.source_port {
                assert(ports[0] == port);
            } else if port == channels.audio->0.source_port {
                assert(ports[1] == port);
            } else {
                assert(ports[2] == port);
            }
        }
    }
}

} // verus!
