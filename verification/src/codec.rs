//! Frame codec: builds outgoing command frames, appends and validates the
//! 16-bit cyclic redundancy check, and decodes fixed-layout response
//! payloads into typed register values.

use vstd::prelude::*;

use crate::Error;
use crate::Measurement;

verus! {

/// The CRC-16/MODBUS checksum of a byte sequence (polynomial `0x8005` in
/// reflected form, seed `0xFFFF`), as the `crc16` crate computes it; a
/// function of the bytes alone.
pub uninterp spec fn crc16_modbus(data: Seq<u8>) -> u16;

/// Relies on `crc16::State::<MODBUS>::calculate`: the CRC-16/MODBUS
/// checksum of `data`, a deterministic function of the bytes alone.
#[verifier::external_body]
fn crc16_compute(data: &[u8]) -> (crc: u16)
    ensures
        crc == crc16_modbus(data@),
{
    crc16::State::<crc16::MODBUS>::calculate(data)
}

/// High byte of a 16-bit value.
pub open spec fn hi8(x: u16) -> u8 {
    (x / 256) as u8
}

/// Low byte of a 16-bit value.
pub open spec fn lo8(x: u16) -> u8 {
    (x % 256) as u8
}

/// The bytes of a request frame: address, function code and payload,
/// followed by the CRC-16/MODBUS of those bytes, low byte first — the
/// Modbus-RTU wire order the sensor documents.
pub open spec fn request_bytes(addr: u8, func: u8, payload: Seq<u8>) -> Seq<u8> {
    let body = seq![addr, func] + payload;
    body + seq![lo8(crc16_modbus(body)), hi8(crc16_modbus(body))]
}

/// A frame carries a valid checksum: its last two bytes are the
/// CRC-16/MODBUS of every byte before them, low byte first.
pub open spec fn frame_crc_ok(frame: Seq<u8>) -> bool {
    &&& frame.len() >= 4
    &&& frame[frame.len() - 2] == lo8(crc16_modbus(frame.subrange(0, frame.len() - 2)))
    &&& frame[frame.len() - 1] == hi8(crc16_modbus(frame.subrange(0, frame.len() - 2)))
}

/// The response echoes the request's header: its first two bytes (address
/// and function code) equal the request's.
pub open spec fn echo_ok(req: Seq<u8>, resp: Seq<u8>) -> bool {
    &&& req.len() >= 2
    &&& resp.len() >= 2
    &&& resp[0] == req[0]
    &&& resp[1] == req[1]
}

/// Builds a request frame: address, function code and payload, with the
/// CRC-16/MODBUS of those bytes appended in wire order, low byte first.
pub fn build_request(addr: u8, func: u8, payload: &Vec<u8>) -> (frame: Vec<u8>)
    requires
        payload.len() <= usize::MAX - 4,
    ensures
        frame@ == request_bytes(addr, func, payload@),
{
    let ghost body: Seq<u8> = seq![addr, func] + payload@;
    let mut frame: Vec<u8> = Vec::new();
    frame.push(addr);
    frame.push(func);
    let mut i: usize = 0;
    while i < payload.len()
        invariant
            i <= payload.len(),
            payload.len() <= usize::MAX - 4,
            frame@ == seq![addr, func] + payload@.subrange(0, i as int),
        decreases payload.len() - i,
    {
        frame.push(payload[i]);
        assert(frame@ == seq![addr, func] + payload@.subrange(0, i + 1 as int));
        i += 1;
    }
    assert(frame@ =~= body);
    let crc = crc16_compute(frame.as_slice());
    frame.push((crc % 256) as u8);
    frame.push((crc / 256) as u8);
    assert(frame@ =~= request_bytes(addr, func, payload@));
    frame
}

/// Checks the embedded checksum of a frame: recomputes the CRC-16/MODBUS
/// over everything but the trailing two bytes and compares.
pub fn crc_check(frame: &Vec<u8>) -> (ok: bool)
    requires
        frame.len() >= 4,
    ensures
        ok == frame_crc_ok(frame@),
{
    let n = frame.len();
    let prefix: &[u8] = vstd::slice::slice_subrange(frame.as_slice(), 0, n - 2);
    let crc = crc16_compute(prefix);
    frame[n - 2] == (crc % 256) as u8 && frame[n - 1] == (crc / 256) as u8
}

/// Every frame that `build_request` emits passes the checksum validation:
/// appending the CRC of the leading bytes and then recomputing it over the
/// same bytes always agrees.
pub proof fn lemma_request_crc_ok(addr: u8, func: u8, payload: Seq<u8>)
    ensures
        frame_crc_ok(request_bytes(addr, func, payload)),
{
    let body = seq![addr, func] + payload;
    let frame = request_bytes(addr, func, payload);
    assert(frame.subrange(0, frame.len() - 2) =~= body);
}

/// Validates a fully received response against the request it answers:
/// the response fails with `PzemError` exactly when it does not echo the
/// request's address and function code — however its checksum stands —
/// and with `CrcMismatch` exactly when the header is echoed but the
/// embedded checksum does not match the recomputed one.
///
/// When both frames are exactly 4 bytes the checksum bytes are compared
/// against the request's own first: the frames' leading bytes being
/// equal, their checksums can only agree byte for byte.
pub fn validate_response<WriteError, ReadError>(req: &Vec<u8>, resp: &Vec<u8>) -> (r: Result<
    (),
    Error<WriteError, ReadError>,
>)
    requires
        4 <= req.len(),
        4 <= resp.len(),
        frame_crc_ok(req@),
    ensures
        r is Ok <==> echo_ok(req@, resp@) && frame_crc_ok(resp@),
        (r matches Err(Error::PzemError)) <==> !echo_ok(req@, resp@),
        (r matches Err(Error::CrcMismatch)) <==> echo_ok(req@, resp@) && !frame_crc_ok(resp@),
{
    if resp[0] != req[0] || resp[1] != req[1] {
        return Err(Error::PzemError);
    }
    if resp.len() == 4 && req.len() == 4 && (resp[2] != req[2] || resp[3] != req[3]) {
        proof {
            assert(resp@.subrange(0, 2) =~= req@.subrange(0, 2));
        }
        return Err(Error::CrcMismatch);
    }
    if !crc_check(resp) {
        return Err(Error::CrcMismatch);
    }
    Ok(())
}

/// The 16-bit value of two big-endian bytes.
pub open spec fn be16(hi: u8, lo: u8) -> u16 {
    (hi as u16 * 256 + lo as u16) as u16
}

/// The 32-bit value the sensor's register pairs encode: each 16-bit half
/// is big-endian, but the low half comes first in the byte stream.
pub open spec fn mixed32(b0: u8, b1: u8, b2: u8, b3: u8) -> u32 {
    (be16(b2, b3) as u32 * 0x10000 + be16(b0, b1) as u32) as u32
}

/// The measurement a 25-byte read response encodes, raw register values
/// at their fixed offsets.
pub open spec fn measurement_of(resp: Seq<u8>) -> Measurement {
    Measurement {
        voltage: be16(resp[3], resp[4]),
        current: mixed32(resp[5], resp[6], resp[7], resp[8]),
        power: mixed32(resp[9], resp[10], resp[11], resp[12]),
        energy: mixed32(resp[13], resp[14], resp[15], resp[16]),
        frequency: be16(resp[17], resp[18]),
        pf: be16(resp[19], resp[20]),
        alarm: be16(resp[21], resp[22]) != 0,
    }
}

/// Extracts the 16-bit big-endian value at `offset`; parameter reads
/// (threshold, address) carry their value at offset 3.
pub fn decode_u16(resp: &Vec<u8>, offset: usize) -> (value: u16)
    requires
        offset + 2 <= resp.len(),
    ensures
        value == be16(resp@[offset as int], resp@[offset as int + 1]),
{
    (resp[offset] as u16) * 256 + (resp[offset + 1] as u16)
}

/// Decodes a 25-byte read response into the raw measurement record.
pub fn decode_measurement(resp: &Vec<u8>) -> (m: Measurement)
    requires
        resp.len() == 25,
    ensures
        m == measurement_of(resp@),
{
    let voltage = decode_u16(resp, 3);
    let current = (decode_u16(resp, 7) as u32) * 0x10000 + (decode_u16(resp, 5) as u32);
    let power = (decode_u16(resp, 11) as u32) * 0x10000 + (decode_u16(resp, 9) as u32);
    let energy = (decode_u16(resp, 15) as u32) * 0x10000 + (decode_u16(resp, 13) as u32);
    let frequency = decode_u16(resp, 17);
    let pf = decode_u16(resp, 19);
    let alarm = decode_u16(resp, 21) != 0;
    Measurement { voltage, current, power, energy, frequency, pf, alarm }
}

} // verus!
