//! Measurement Driver logic: accumulating the received byte count, deciding
//! the outcome of a run from the observed status and stream health, and
//! computing throughput from exact integer quantities.

use vstd::prelude::*;
use crate::chunk::{bytes_content, bytes_len, ChunkSource};
use crate::generator::Generator;
use crate::handler::{STATUS_NO_CONTENT, STATUS_OK};

verus! {

/// Throughput in bits per second: bytes times eight, over elapsed time in
/// nanoseconds, scaled to seconds; integer division, rounding down.
pub open spec fn throughput(total_bytes: int, elapsed_nanos: int) -> int
    recommends
        elapsed_nanos > 0,
{
    total_bytes * 8 * 1000000000 / elapsed_nanos
}

/// Throughput law: doubling the elapsed time while holding the byte count
/// fixed halves the reported bits per second.
pub proof fn lemma_throughput_halves(total_bytes: int, elapsed_nanos: int)
    requires
        total_bytes >= 0,
        elapsed_nanos > 0,
    ensures
        throughput(total_bytes, 2 * elapsed_nanos) == throughput(total_bytes, elapsed_nanos) / 2,
{
    vstd::arithmetic::div_mod::lemma_div_denominator(
        total_bytes * 8 * 1000000000,
        elapsed_nanos,
        2,
    );
    assert(elapsed_nanos * 2 == 2 * elapsed_nanos);
}

/// One completed measurement: what moved, how long it took, and the derived
/// rate. Never persisted.
#[derive(Clone, Copy, PartialEq, Eq, Structural, Debug)]
pub struct MeasurementResult {
    pub total_bytes: u64,
    pub elapsed_nanos: u64,
    pub throughput_bits_per_sec: u128,
}

/// A failure observed by the driver; fatal to that single measurement run,
/// which reports it instead of a partial figure.
#[derive(Clone, Copy, PartialEq, Eq, Structural, Debug)]
pub enum MeasureError {
    /// The response carried a status other than the one success owes.
    BadStatus { status: u16 },
    /// The body stream failed or ended abnormally.
    StreamError,
}

/// Computes throughput from exact counts.
pub fn compute_throughput(total_bytes: u64, elapsed_nanos: u64) -> (r: u128)
    requires
        elapsed_nanos > 0,
    ensures
        r == throughput(total_bytes as int, elapsed_nanos as int),
{
    (total_bytes as u128 * 8 * 1000000000) / (elapsed_nanos as u128)
}

/// Running total of bytes drained from a download response body.
pub struct Drain {
    pub total: u64,
}

impl Drain {
    pub fn new() -> (r: Drain)
        ensures
            r.total == 0,
    {
        Drain { total: 0 }
    }

    /// Counts one received chunk; the content is discarded.
    pub fn add(&mut self, chunk: &bytes::Bytes)
        requires
            old(self).total + bytes_content(*chunk).len() <= u64::MAX,
        ensures
            final(self).total == old(self).total + bytes_content(*chunk).len(),
    {
        let len = bytes_len(chunk);
        self.total = self.total + len as u64;
    }
}

/// Round-trip law, run in-process: driving a generator for `requested`
/// bytes to exhaustion and counting every emitted chunk yields exactly
/// `requested` bytes — no truncation, no duplication.
pub fn loopback_transfer(requested: u64, src: &ChunkSource) -> (total: u64)
    requires
        requested > 0,
        src.wf(),
    ensures
        total == requested,
{
    let mut generator = Generator::new(requested);
    let mut drain = Drain::new();
    let mut more = true;
    while more
        invariant
            src.wf(),
            generator.wf(),
            generator.requested == requested,
            drain.total == generator.sent,
            !more ==> generator.done(),
        decreases generator.requested - generator.sent, (if more {
            1int
        } else {
            0int
        }),
    {
        match generator.next(src) {
            Some(chunk) => {
                drain.add(&chunk);
            },
            None => {
                more = false;
            },
        }
    }
    drain.total
}

/// Download outcome: success is owed exactly when the response status was
/// 200 and the body stream ended cleanly; the result then reports the
/// drained byte count, the elapsed time, and the derived throughput.
pub fn download_result(status: u16, body_ok: bool, total_bytes: u64, elapsed_nanos: u64) -> (r:
    Result<MeasurementResult, MeasureError>)
    requires
        elapsed_nanos > 0,
    ensures
        r is Ok <==> (status == STATUS_OK && body_ok),
        status != STATUS_OK ==> r == Err::<MeasurementResult, MeasureError>(
            MeasureError::BadStatus { status },
        ),
        status == STATUS_OK && !body_ok ==> r == Err::<MeasurementResult, MeasureError>(
            MeasureError::StreamError,
        ),
        r matches Ok(m) ==> m == (MeasurementResult {
            total_bytes,
            elapsed_nanos,
            throughput_bits_per_sec: throughput(
                total_bytes as int,
                elapsed_nanos as int,
            ) as u128,
        }),
{
    if status != STATUS_OK {
        Err(MeasureError::BadStatus { status })
    } else if !body_ok {
        Err(MeasureError::StreamError)
    } else {
        Ok(
            MeasurementResult {
                total_bytes,
                elapsed_nanos,
                throughput_bits_per_sec: compute_throughput(total_bytes, elapsed_nanos),
            },
        )
    }
}

/// Upload outcome: success is owed exactly when the server acknowledged
/// with 204; the whole requested size was then sent, and the result reports
/// it together with the derived throughput.
pub fn upload_result(requested: u64, status: u16, elapsed_nanos: u64) -> (r: Result<
    MeasurementResult,
    MeasureError,
>)
    requires
        elapsed_nanos > 0,
    ensures
        r is Ok <==> status == STATUS_NO_CONTENT,
        status != STATUS_NO_CONTENT ==> r == Err::<MeasurementResult, MeasureError>(
            MeasureError::BadStatus { status },
        ),
        r matches Ok(m) ==> m == (MeasurementResult {
            total_bytes: requested,
            elapsed_nanos,
            throughput_bits_per_sec: throughput(requested as int, elapsed_nanos as int) as u128,
        }),
{
    if status != STATUS_NO_CONTENT {
        Err(MeasureError::BadStatus { status })
    } else {
        Ok(
            MeasurementResult {
                total_bytes: requested,
                elapsed_nanos,
                throughput_bits_per_sec: compute_throughput(requested, elapsed_nanos),
            },
        )
    }
}

} // verus!
