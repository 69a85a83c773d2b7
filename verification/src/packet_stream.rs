//! The traffic model of one source port: a smoothed packet size and the time
//! of the last packet that counted.

use vstd::prelude::*;

use crate::clock::now_millis;

verus! {

/// Length of the moving average window used to calculate average packet size.
pub const BITRATE_WINDOW_SIZE: u16 = 10;

/// A packet smaller than this, on a port whose role is known, is a keep-alive.
pub const KEEPALIVE_UNDER: u16 = 70;

/// Whether a packet of this length updates a stream.
///
/// With `ignore_small` set, keep-alive packets are dropped.
pub open spec fn qualifies(packet_length: u16, ignore_small: bool) -> bool {
    !ignore_small || packet_length >= KEEPALIVE_UNDER
}

/// The moving average after one more sample: the old average loses a tenth
/// of itself and gains a tenth of the sample, both rounded down.
pub open spec fn smoothed_size(average: int, packet_length: int) -> int {
    average - average / (BITRATE_WINDOW_SIZE as int) + packet_length / (BITRATE_WINDOW_SIZE as int)
}

/// A single port sending a stream of packets to a remote server.
#[derive(Clone, Copy, Debug, PartialEq, Eq, Hash)]
pub struct PacketStream {
    pub source_port: u16,
    pub average_packet_size: u16,
    /// Milliseconds since the Unix epoch at the last packet that counted.
    pub last_packet_seen: i64,
    /// Packets counted so far, up to the window size.
    pub window_size: u16,
}

impl PacketStream {
    /// The sample count never exceeds the window.
    pub open spec fn well_formed(self) -> bool {
        self.window_size <= BITRATE_WINDOW_SIZE
    }

    /// A stream has seen a whole window of packets and can be classified.
    pub open spec fn classification_ready(self) -> bool {
        self.window_size >= BITRATE_WINDOW_SIZE
    }

    /// The stream of a port first seen at `now`: no samples, average zero.
    pub open spec fn fresh(source_port: u16, now: i64) -> PacketStream {
        PacketStream { source_port, average_packet_size: 0, last_packet_seen: now, window_size: 0 }
    }

    /// The stream after a packet of `packet_length` bytes arrives at `now`.
    pub open spec fn with_packet(
        self,
        packet_length: u16,
        ignore_small: bool,
        now: i64,
    ) -> PacketStream {
        if qualifies(packet_length, ignore_small) {
            PacketStream {
                source_port: self.source_port,
                average_packet_size: smoothed_size(
                    self.average_packet_size as int,
                    packet_length as int,
                ) as u16,
                last_packet_seen: now,
                window_size: if self.window_size < BITRATE_WINDOW_SIZE {
                    (self.window_size + 1) as u16
                } else {
                    self.window_size
                },
            }
        } else {
            self
        }
    }

    /// The stream after the packets of `packets` arrive in order, each a
    /// length and the time of its arrival.
    pub open spec fn with_packets(
        self,
        packets: Seq<(u16, i64)>,
        ignore_small: bool,
    ) -> PacketStream
        decreases packets.len(),
    {
        if packets.len() == 0 {
            self
        } else {
            self.with_packets(packets.drop_last(), ignore_small).with_packet(
                packets.last().0,
                ignore_small,
                packets.last().1,
            )
        }
    }

    /// A new stream for `source_port`, first seen at `now`.
    pub fn new_at(source_port: u16, now: i64) -> (stream: PacketStream)
        ensures
            stream == PacketStream::fresh(source_port, now),
            stream.well_formed(),
    {
        PacketStream { source_port, average_packet_size: 0, last_packet_seen: now, window_size: 0 }
    }

    /// A new stream for `source_port`, first seen at the current time.
    pub fn new(source_port: u16) -> (stream: PacketStream)
        ensures
            exists|now: i64| stream == PacketStream::fresh(source_port, now),
            stream.well_formed(),
    {
        let now = now_millis();
        PacketStream::new_at(source_port, now)
    }

    /// Add a single packet that arrived at `now` to the stream.
    ///
    /// A packet that qualifies moves the average, sets the time of the last
    /// packet to `now` and counts towards the window. A keep-alive, when
    /// `ignore_small` is set, changes nothing.
    pub fn add_packet_at(&mut self, packet_length: u16, ignore_small: bool, now: i64)
        ensures
            *final(self) == old(self).with_packet(packet_length, ignore_small, now),
            qualifies(packet_length, ignore_small) ==> final(self).average_packet_size
                == smoothed_size(old(self).average_packet_size as int, packet_length as int),
            !qualifies(packet_length, ignore_small) ==> *final(self) == *old(self),
            final(self).source_port == old(self).source_port,
            old(self).well_formed() ==> final(self).well_formed(),
    {
        if !ignore_small || packet_length >= KEEPALIVE_UNDER {
            self.average_packet_size -= self.average_packet_size / BITRATE_WINDOW_SIZE;
            self.average_packet_size += packet_length / BITRATE_WINDOW_SIZE;

            self.last_packet_seen = now;

            if self.window_size < BITRATE_WINDOW_SIZE {
                self.window_size += 1;
            }
        }
    }

    /// Add a single packet that arrives now, causing the average size and
    /// timestamp to update.
    pub fn add_packet(&mut self, packet_length: u16, ignore_small: bool)
        ensures
            exists|now: i64|
                *final(self) == old(self).with_packet(packet_length, ignore_small, now),
            !qualifies(packet_length, ignore_small) ==> *final(self) == *old(self),
            old(self).well_formed() ==> final(self).well_formed(),
    {
        let now = now_millis();
        self.add_packet_at(packet_length, ignore_small, now);
    }
}

/// Whether every packet of `packets` updates a stream.
pub open spec fn all_qualify(packets: Seq<(u16, i64)>, ignore_small: bool) -> bool {
    forall|i: int| 0 <= i < packets.len() ==> qualifies(#[trigger] packets[i].0, ignore_small)
}

/// Whether every packet of `packets` that updates a stream has a length
/// between `lo` and `hi`.
pub open spec fn lengths_within(
    packets: Seq<(u16, i64)>,
    ignore_small: bool,
    lo: int,
    hi: int,
) -> bool {
    forall|i: int|
        0 <= i < packets.len() && qualifies(#[trigger] packets[i].0, ignore_small) ==> lo
            <= packets[i].0 <= hi
}

/// One smoothing step stays between the smaller and the larger of the old
/// average and the sample, and fits the average's type.
pub proof fn lemma_smoothed_size_bounds(average: int, packet_length: int, lo: int, hi: int)
    requires
        0 <= average,
        0 <= packet_length,
    ensures
        0 <= smoothed_size(average, packet_length),
        average <= hi && packet_length <= hi ==> smoothed_size(average, packet_length) <= hi,
        lo <= average && lo <= packet_length ==> lo <= smoothed_size(average, packet_length),
{
}

/// The average after a packet that counts is the smoothed size itself: it
/// always fits the field that holds it.
pub proof fn lemma_with_packet_average(
    stream: PacketStream,
    packet_length: u16,
    ignore_small: bool,
    now: i64,
)
    requires
        qualifies(packet_length, ignore_small),
    ensures
        stream.with_packet(packet_length, ignore_small, now).average_packet_size == smoothed_size(
            stream.average_packet_size as int,
            packet_length as int,
        ),
{
    lemma_smoothed_size_bounds(
        stream.average_packet_size as int,
        packet_length as int,
        0,
        u16::MAX as int,
    );
}

/// Smoothing never overshoots: while every length that counts is at most
/// `hi`, an average that starts at most `hi` stays at most `hi`. A new stream
/// starts at zero, so its average never exceeds the largest length seen.
pub proof fn lemma_average_never_above_largest(
    stream: PacketStream,
    packets: Seq<(u16, i64)>,
    ignore_small: bool,
    hi: int,
)
    requires
        lengths_within(packets, ignore_small, 0, hi),
        stream.average_packet_size <= hi,
    ensures
        stream.with_packets(packets, ignore_small).average_packet_size <= hi,
    decreases packets.len(),
{
    if packets.len() > 0 {
        let before = stream.with_packets(packets.drop_last(), ignore_small);
        assert(lengths_within(packets.drop_last(), ignore_small, 0, hi)) by {
            assert forall|i: int|
                0 <= i < packets.drop_last().len() && qualifies(
                    #[trigger] packets.drop_last()[i].0,
                    ignore_small,
                ) implies 0 <= packets.drop_last()[i].0 <= hi by {
                assert(packets.drop_last()[i] == packets[i]);
            }
        }
        lemma_average_never_above_largest(stream, packets.drop_last(), ignore_small, hi);
        let last = packets[packets.len() - 1];
        assert(qualifies(last.0, ignore_small) ==> last.0 <= hi);
        lemma_smoothed_size_bounds(before.average_packet_size as int, last.0 as int, 0, hi);
    }
}

/// Smoothing never undershoots: while every length that counts is at least
/// `lo`, an average that starts at least `lo` stays at least `lo`.
pub proof fn lemma_average_never_below_smallest(
    stream: PacketStream,
    packets: Seq<(u16, i64)>,
    ignore_small: bool,
    lo: int,
)
    requires
        lengths_within(packets, ignore_small, lo, u16::MAX as int),
        lo <= stream.average_packet_size,
    ensures
        lo <= stream.with_packets(packets, ignore_small).average_packet_size,
    decreases packets.len(),
{
    if packets.len() > 0 {
        let before = stream.with_packets(packets.drop_last(), ignore_small);
        assert(lengths_within(packets.drop_last(), ignore_small, lo, u16::MAX as int)) by {
            assert forall|i: int|
                0 <= i < packets.drop_last().len() && qualifies(
                    #[trigger] packets.drop_last()[i].0,
                    ignore_small,
                ) implies lo <= packets.drop_last()[i].0 <= u16::MAX by {
                assert(packets.drop_last()[i] == packets[i]);
            }
        }
        lemma_average_never_below_smallest(stream, packets.drop_last(), ignore_small, lo);
        let last = packets[packets.len() - 1];
        assert(qualifies(last.0, ignore_small) ==> lo <= last.0);
        lemma_smoothed_size_bounds(
            before.average_packet_size as int,
            last.0 as int,
            lo,
            u16::MAX as int,
        );
    }
}

/// The sample count never exceeds the window, whatever packets arrive.
pub proof fn lemma_samples_never_exceed_window(
    stream: PacketStream,
    packets: Seq<(u16, i64)>,
    ignore_small: bool,
)
    requires
        stream.well_formed(),
    ensures
        stream.with_packets(packets, ignore_small).well_formed(),
    decreases packets.len(),
{
    if packets.len() > 0 {
        lemma_samples_never_exceed_window(stream, packets.drop_last(), ignore_small);
    }
}

/// The sample count is the number of packets that counted, capped at the
/// window: it never exceeds the window, and a new stream is ready for
/// classification after exactly a window of packets that count.
pub proof fn lemma_samples_counted(
    stream: PacketStream,
    packets: Seq<(u16, i64)>,
    ignore_small: bool,
)
    requires
        stream.well_formed(),
        all_qualify(packets, ignore_small),
    ensures
        stream.with_packets(packets, ignore_small).window_size == if stream.window_size
            + packets.len() <= BITRATE_WINDOW_SIZE {
            stream.window_size + packets.len()
        } else {
            BITRATE_WINDOW_SIZE as int
        },
        stream.window_size == 0 ==> (stream.with_packets(
            packets,
            ignore_small,
        ).classification_ready() <==> packets.len() >= BITRATE_WINDOW_SIZE),
    decreases packets.len(),
{
    if packets.len() > 0 {
        assert(all_qualify(packets.drop_last(), ignore_small)) by {
            assert forall|i: int| 0 <= i < packets.drop_last().len() implies qualifies(
                #[trigger] packets.drop_last()[i].0,
                ignore_small,
            ) by {
                assert(packets.drop_last()[i] == packets[i]);
            }
        }
        lemma_samples_counted(stream, packets.drop_last(), ignore_small);
        assert(qualifies(packets[packets.len() - 1].0, ignore_small));
    }
}

/// Packets that do not count leave a stream as it was, whatever their number.
pub proof fn lemma_keepalives_change_nothing(stream: PacketStream, packets: Seq<(u16, i64)>)
    requires
        forall|i: int| 0 <= i < packets.len() ==> (#[trigger] packets[i]).0 < KEEPALIVE_UNDER,
    ensures
        stream.with_packets(packets, true) == stream,
    decreases packets.len(),
{
    if packets.len() > 0 {
        assert forall|i: int| 0 <= i < packets.drop_last().len() implies (
        #[trigger] packets.drop_last()[i]).0 < KEEPALIVE_UNDER by {
            assert(packets.drop_last()[i] == packets[i]);
        }
        lemma_keepalives_change_nothing(stream, packets.drop_last());
        assert(packets[packets.len() - 1].0 < KEEPALIVE_UNDER);
    }
}

} // verus!
