//! The remote-write payload: a write request's wire bytes, block-compressed,
//! together with the HTTP headers the protocol requires, and the publisher's
//! between-ticks state.

use crate::proto::{encode_write_request, spec_write_request};
use crate::wire::WriteRequest;
use vstd::prelude::*;

verus! {

/// What snap's block compressor produces for the given input bytes.
pub uninterp spec fn snappy_of(input: Seq<u8>) -> Seq<u8>;

/// Relies on `snap::raw::Encoder::compress_vec`: the compressed block is a
/// function of the input bytes alone, and compression fails exactly when
/// the input (or its worst-case compressed size, `32 + len + len/6`) does
/// not fit in 32 bits.
#[verifier::external_body]
fn snappy_compress(input: &Vec<u8>) -> (r: Option<Vec<u8>>)
    ensures
        (r is Some) == (input@.len() + input@.len() / 6 + 32 <= 0xffff_ffff),
        r is Some ==> r->0@ == snappy_of(input@),
{
    snap::raw::Encoder::new().compress_vec(input.as_slice()).ok()
}

/// Why a snapshot could not be turned into a payload.
#[derive(Clone, Copy, Debug, PartialEq, Eq, Structural)]
pub enum RemoteWriteError {
    /// The encoded write request is too large for the block compressor.
    PayloadTooLarge,
}

/// The body POSTed to the remote-write endpoint: the write request's wire
/// bytes, snappy-compressed. Fails exactly when the encoded request is too
/// large to compress.
pub fn build_remote_write_body(w: &WriteRequest) -> (r: Result<Vec<u8>, RemoteWriteError>)
    ensures
        match r {
            Ok(body) => body@ == snappy_of(spec_write_request(*w)),
            Err(e) => {
                &&& e == RemoteWriteError::PayloadTooLarge
                &&& spec_write_request(*w).len() + spec_write_request(*w).len() / 6 + 32
                    > 0xffff_ffff
            },
        },
{
    let encoded = encode_write_request(w);
    match snappy_compress(&encoded) {
        Some(body) => Ok(body),
        None => Err(RemoteWriteError::PayloadTooLarge),
    }
}

/// The three HTTP headers every remote-write POST carries: content type,
/// compression encoding, and protocol version.
pub fn remote_write_headers() -> (r: Vec<(&'static str, &'static str)>)
    ensures
        r@.len() == 3,
        r@[0].0@ == "Content-Type"@,
        r@[0].1@ == "application/x-protobuf"@,
        r@[1].0@ == "Content-Encoding"@,
        r@[1].1@ == "snappy"@,
        r@[2].0@ == "X-Prometheus-Remote-Write-Version"@,
        r@[2].1@ == "0.1.0"@,
{
    let mut headers: Vec<(&'static str, &'static str)> = Vec::new();
    headers.push(("Content-Type", "application/x-protobuf"));
    headers.push(("Content-Encoding", "snappy"));
    headers.push(("X-Prometheus-Remote-Write-Version", "0.1.0"));
    headers
}

/// What the snapshot publisher remembers between ticks: the total request
/// count at its previous tick.
pub struct PublisherState {
    pub last_request_count: u64,
}

impl PublisherState {
    /// The state before the first tick.
    pub fn new() -> (r: PublisherState)
        ensures
            r.last_request_count == 0,
    {
        PublisherState { last_request_count: 0 }
    }

    /// One publisher tick: given the current total request count (which
    /// never decreases between ticks), yields how many requests arrived
    /// since the previous tick — the numerator of the requests-per-second
    /// gauge — and remembers the new total.
    pub fn tick(&mut self, total_requests: u64) -> (delta: u64)
        requires
            old(self).last_request_count <= total_requests,
        ensures
            delta == total_requests - old(self).last_request_count,
            final(self).last_request_count == total_requests,
    {
        let delta = total_requests - self.last_request_count;
        self.last_request_count = total_requests;
        delta
    }
}

} // verus!
