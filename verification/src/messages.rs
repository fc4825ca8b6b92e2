//! Buffer preparation and decoding for the blocking transfer paths that
//! are built on top of the asynchronous core.
//!
//! A blocking control or interrupt/bulk message allocates the transfer
//! buffer, submits it asynchronously, waits for the completion, and
//! copies the received bytes back to the caller.  The buffer layouts,
//! the direction checks and the copy-back are exact and verified here;
//! the waiting itself is the driver's.

use vstd::prelude::*;

verus! {

/// The length in bytes of a control transfer's setup packet: the request
/// type, the request, the value, the index and the length field.
pub const CONTROL_SETUP_LEN: usize = 8;

/// The endpoint-address bit that carries the transfer direction.
pub const ENDPOINT_DIR_MASK: u8 = 0x80;
/// The direction bit value for device-to-host (input) endpoints.
pub const ENDPOINT_DIR_IN: u8 = 0x80;
/// The direction bit value for host-to-device (output) endpoints.
pub const ENDPOINT_DIR_OUT: u8 = 0;

/// Whether an endpoint address names an input (device-to-host) endpoint.
pub fn endpoint_is_input(endpoint: u8) -> (r: bool)
    ensures
        r <==> endpoint & ENDPOINT_DIR_MASK == ENDPOINT_DIR_IN,
{
    endpoint & ENDPOINT_DIR_MASK == ENDPOINT_DIR_IN
}

/// Whether an endpoint address names an output (host-to-device) endpoint.
pub fn endpoint_is_output(endpoint: u8) -> (r: bool)
    ensures
        r <==> endpoint & ENDPOINT_DIR_MASK == ENDPOINT_DIR_OUT,
{
    endpoint & ENDPOINT_DIR_MASK == ENDPOINT_DIR_OUT
}

/// What a timeout of `secs` seconds and `nanos` subsecond nanoseconds
/// comes to in whole milliseconds, saturated to the widest value the
/// native call accepts.
pub open spec fn spec_timeout_millis(secs: u64, nanos: u32) -> u32 {
    if secs * 1000 + nanos / 1_000_000 > u32::MAX {
        u32::MAX
    } else {
        (secs * 1000 + nanos / 1_000_000) as u32
    }
}

/// Converts a timeout given as seconds and subsecond nanoseconds into
/// whole milliseconds, saturating at the widest value the native call
/// accepts.
pub fn timeout_millis(secs: u64, nanos: u32) -> (r: u32)
    ensures
        r == spec_timeout_millis(secs, nanos),
{
    let ms_from_nanos: u32 = nanos / 1_000_000;
    let limit: u64 = ((u32::MAX - ms_from_nanos) as u64) / 1000;
    if secs <= limit {
        let total: u64 = secs * 1000 + (ms_from_nanos as u64);
        proof {
            assert(secs * 1000 <= limit * 1000);
            assert(limit * 1000 <= (u32::MAX - ms_from_nanos) as u64) by (nonlinear_arith)
                requires
                    limit == ((u32::MAX - ms_from_nanos) as u64) / 1000,
            ;
        }
        total as u32
    } else {
        proof {
            assert((limit + 1) * 1000 > (u32::MAX - ms_from_nanos) as u64) by (nonlinear_arith)
                requires
                    limit == ((u32::MAX - ms_from_nanos) as u64) / 1000,
            ;
            assert(secs * 1000 >= (limit + 1) * 1000) by (nonlinear_arith)
                requires
                    secs >= limit + 1,
            ;
        }
        u32::MAX
    }
}

/// A zero-filled buffer of the given length, as handed to the native
/// side for an input transfer.
pub fn zeroed_buffer(len: usize) -> (r: Vec<u8>)
    ensures
        r@.len() == len,
        forall|i: int| 0 <= i < len ==> r@[i] == 0,
{
    let mut v: Vec<u8> = Vec::new();
    let mut i: usize = 0;
    while i < len
        invariant
            i <= len,
            v@.len() == i,
            forall|j: int| 0 <= j < i ==> v@[j] == 0,
        decreases len - i,
    {
        v.push(0);
        i = i + 1;
    }
    v
}

/// The transfer buffer for a blocking control read: room for the setup
/// packet followed by `data_len` bytes to receive, all zeroed.
pub fn control_in_buffer(data_len: usize) -> (r: Vec<u8>)
    requires
        data_len <= usize::MAX - CONTROL_SETUP_LEN,
    ensures
        r@.len() == CONTROL_SETUP_LEN + data_len,
        forall|i: int| 0 <= i < r@.len() ==> r@[i] == 0,
{
    zeroed_buffer(CONTROL_SETUP_LEN + data_len)
}

/// The transfer buffer for a blocking control write: a zeroed setup
/// packet followed by the payload.
pub fn control_out_buffer(payload: &Vec<u8>) -> (r: Vec<u8>)
    requires
        payload@.len() <= usize::MAX - CONTROL_SETUP_LEN,
    ensures
        r@.len() == CONTROL_SETUP_LEN + payload@.len(),
        forall|i: int| 0 <= i < CONTROL_SETUP_LEN ==> r@[i] == 0,
        r@.subrange(CONTROL_SETUP_LEN as int, r@.len() as int) == payload@,
{
    let mut v = zeroed_buffer(CONTROL_SETUP_LEN);
    let n = payload.len();
    let mut i: usize = 0;
    while i < n
        invariant
            i <= n,
            n == payload@.len(),
            v@.len() == CONTROL_SETUP_LEN + i,
            forall|j: int| 0 <= j < CONTROL_SETUP_LEN ==> v@[j] == 0,
            forall|j: int| 0 <= j < i ==> v@[CONTROL_SETUP_LEN + j] == payload@[j],
        decreases n - i,
    {
        v.push(payload[i]);
        i = i + 1;
    }
    proof {
        assert(v@.subrange(CONTROL_SETUP_LEN as int, v@.len() as int) =~= payload@);
    }
    v
}

/// Copies `count` received bytes, starting at `src_offset` in the
/// completed transfer buffer, to the front of the caller's buffer,
/// leaving the rest of the caller's buffer as it was.
pub fn copy_prefix(dst: &mut Vec<u8>, src: &Vec<u8>, src_offset: usize, count: usize)
    requires
        count <= old(dst)@.len(),
        src_offset + count <= src@.len(),
    ensures
        final(dst)@.len() == old(dst)@.len(),
        forall|i: int| 0 <= i < count ==> final(dst)@[i] == src@[src_offset + i],
        forall|i: int| count <= i < old(dst)@.len() ==> final(dst)@[i] == old(dst)@[i],
{
    let src_len = src.len();
    let mut i: usize = 0;
    while i < count
        invariant
            i <= count,
            count <= dst@.len(),
            dst@.len() == old(dst)@.len(),
            src_len == src@.len(),
            src_offset + count <= src@.len(),
            forall|j: int| 0 <= j < i ==> dst@[j] == src@[src_offset + j],
            forall|j: int| i <= j < dst@.len() ==> dst@[j] == old(dst)@[j],
        decreases count - i,
    {
        let b = src[src_offset + i];
        dst.set(i, b);
        i = i + 1;
    }
}

/// Decodes a string-descriptor payload into its 16-bit units: the bytes
/// after the two-byte header, taken as little-endian pairs.  A trailing
/// odd byte is not part of any unit and is dropped.
pub fn decode_u16_table(buf: &Vec<u8>) -> (r: Vec<u16>)
    ensures
        r@.len() == (if buf@.len() >= 2 {
            (buf@.len() - 2) / 2
        } else {
            0
        }),
        forall|k: int| 0 <= k < r@.len() ==> r@[k] == buf@[2 * k + 2] + 256 * buf@[2 * k + 3],
{
    let n = buf.len();
    let mut out: Vec<u16> = Vec::new();
    if n < 2 {
        return out;
    }
    let pairs = (n - 2) / 2;
    let mut k: usize = 0;
    while k < pairs
        invariant
            k <= pairs,
            n == buf@.len(),
            n >= 2,
            pairs == (n - 2) / 2,
            out@.len() == k,
            forall|j: int| 0 <= j < k ==> out@[j] == buf@[2 * j + 2] + 256 * buf@[2 * j + 3],
        decreases pairs - k,
    {
        proof {
            assert(2 * k + 3 < n) by (nonlinear_arith)
                requires
                    k < pairs,
                    pairs == (n - 2) / 2,
                    n >= 2,
            ;
        }
        let lo = buf[2 * k + 2];
        let hi = buf[2 * k + 3];
        let unit: u16 = (lo as u16) + 256 * (hi as u16);
        out.push(unit);
        k = k + 1;
    }
    out
}

} // verus!
