//! Transport tuning: the HTTP/2 parameters that remove flow-control and
//! framing bottlenecks so a measurement reflects endpoint capacity.

use vstd::prelude::*;

verus! {

/// Largest frame size the HTTP/2 protocol permits (2^24 - 1 bytes).
pub const MAX_FRAME_SIZE: u32 = 0xFFFFFF;

/// Immutable transport configuration, constructed once per process and
/// applied identically to every connection, client or server.
#[derive(Clone, Copy, PartialEq, Eq, Structural, Debug)]
pub struct TransportConfig {
    pub initial_stream_window: u32,
    pub initial_connection_window: u32,
    pub max_frame_size: u32,
}

impl TransportConfig {
    /// A configuration is well formed when none of its knobs is zero.
    pub open spec fn wf(self) -> bool {
        &&& self.initial_stream_window > 0
        &&& self.initial_connection_window > 0
        &&& self.max_frame_size > 0
    }

    /// Builds a configuration from target values. Zero is the only value
    /// rejected here; anything else is passed through to the transport,
    /// whose own limits are its concern.
    pub fn new(stream_window: u32, connection_window: u32, frame_size: u32) -> (r: Option<
        TransportConfig,
    >)
        ensures
            r is Some <==> (stream_window > 0 && connection_window > 0 && frame_size > 0),
            r is Some ==> r.unwrap() == (TransportConfig {
                initial_stream_window: stream_window,
                initial_connection_window: connection_window,
                max_frame_size: frame_size,
            }),
            r is Some ==> r.unwrap().wf(),
    {
        if stream_window == 0 || connection_window == 0 || frame_size == 0 {
            None
        } else {
            Some(
                TransportConfig {
                    initial_stream_window: stream_window,
                    initial_connection_window: connection_window,
                    max_frame_size: frame_size,
                },
            )
        }
    }

    /// The tuning used for throughput measurement: 1 GiB stream and
    /// connection windows, and the largest legal frame size.
    pub fn tuned() -> (r: TransportConfig)
        ensures
            r.initial_stream_window == 0x40000000u32,
            r.initial_connection_window == 0x40000000u32,
            r.max_frame_size == MAX_FRAME_SIZE,
            r.wf(),
    {
        TransportConfig {
            initial_stream_window: 0x40000000,
            initial_connection_window: 0x40000000,
            max_frame_size: MAX_FRAME_SIZE,
        }
    }
}

} // verus!
