//! Driver for the PZEM004T energy monitor: builds Modbus-style request
//! frames, validates CRC-checked responses over a byte-oriented serial
//! link, and decodes the sensor's measurement and parameter registers.

use vstd::prelude::*;

pub mod codec;
pub mod io;
pub mod no_timeout;

pub use no_timeout::NoTimeout;

use codec::be16;
use codec::build_request;
use codec::decode_measurement;
use codec::decode_u16;
use codec::echo_ok;
use codec::frame_crc_ok;
use codec::lemma_request_crc_ok;
use codec::measurement_of;
use codec::validate_response;
use io::Countdown;
use io::Drain;
use io::DuplexByteChannel;
use io::ReadBlocking;
use io::WriteBlocking;

verus! {

/// Universal address for a single-slave environment.
pub const ADDR_DEFAULT: u8 = 0xf8;

/// Smallest regular slave address.
pub const ADDR_MIN: u8 = 0x01;

/// Largest regular slave address.
pub const ADDR_MAX: u8 = 0xf7;

/// Function code: read the measurement registers.
pub const CMD_READ: u8 = 0x04;

/// Function code: reset the energy counter.
pub const CMD_RESET: u8 = 0x42;

/// Function code: read a slave parameter.
pub const CMD_READ_PARAM: u8 = 0x03;

/// Function code: write a slave parameter.
pub const CMD_WRITE_PARAM: u8 = 0x06;

/// Parameter address of the power alarm threshold.
pub const PARAM_THRESHOLD: u16 = 0x0001;

/// Parameter address of the Modbus-RTU slave address.
pub const PARAM_ADDR: u16 = 0x0002;

/// Number of measurement registers read at once.
pub const REG_COUNT: u16 = 10;

/// A device address is either the universal single-slave address `0xF8`
/// or a regular slave address in `0x01..=0xF7`.
pub open spec fn valid_addr(addr: u8) -> bool {
    addr == ADDR_DEFAULT || (ADDR_MIN <= addr && addr <= ADDR_MAX)
}

/// Errors which can occur when attempting to communicate with the sensor.
#[derive(Debug, Clone)]
pub enum Error<WriteError, ReadError> {
    /// The response was shorter than expected within the timeout bound.
    TimedOut,
    /// The response's embedded checksum does not match the recomputed one.
    CrcMismatch,
    /// The response does not echo the request's address and function code.
    PzemError,
    /// The address lies outside the legal range; no exchange was attempted.
    IllegalAddress,
    /// The transport failed while writing, with its native error.
    WriteError(WriteError),
    /// The transport failed while reading, with its native error.
    ReadError(ReadError),
}

impl<WriteError, ReadError> Error<WriteError, ReadError> {
    /// A short description of the error.
    pub fn describe(&self) -> (s: &'static str)
        ensures
            self is TimedOut ==> s@ == "Communication timed out"@,
            self is CrcMismatch ==> s@ == "CRC doesn't match"@,
            self is PzemError ==> s@ == "Internal PZEM004T error"@,
            self is IllegalAddress ==> s@ == "Illegal address"@,
            self is WriteError ==> s@ == "Could not write"@,
            self is ReadError ==> s@ == "Could not read"@,
    {
        match self {
            Error::TimedOut => "Communication timed out",
            Error::CrcMismatch => "CRC doesn't match",
            Error::PzemError => "Internal PZEM004T error",
            Error::IllegalAddress => "Illegal address",
            Error::WriteError(_) => "Could not write",
            Error::ReadError(_) => "Could not read",
        }
    }
}

/// Measurement results as the sensor's raw register values: voltage in
/// tenths of a volt, current in milliamperes, power in tenths of a watt
/// (the divisor the sensor documents for this register; flagged for
/// hardware-validated correction), energy in watt-hours, frequency in
/// tenths of a hertz, power factor in hundredths.
#[derive(Debug, Copy, Clone, PartialEq, Eq, Structural)]
pub struct Measurement {
    /// Voltage, 1 LSB = 0.1 V.
    pub voltage: u16,
    /// Current, 1 LSB = 0.001 A.
    pub current: u32,
    /// Active power, 1 LSB = 0.1 W.
    pub power: u32,
    /// Cumulative energy, 1 LSB = 0.001 kWh.
    pub energy: u32,
    /// Line frequency, 1 LSB = 0.1 Hz.
    pub frequency: u16,
    /// Power factor, 1 LSB = 0.01.
    pub pf: u16,
    /// Power alarm flag.
    pub alarm: bool,
}

impl Default for Measurement {
    /// An all-zero measurement record.
    fn default() -> (m: Measurement)
        ensures
            m == (Measurement {
                voltage: 0,
                current: 0,
                power: 0,
                energy: 0,
                frequency: 0,
                pf: 0,
                alarm: false,
            }),
    {
        Measurement { voltage: 0, current: 0, power: 0, energy: 0, frequency: 0, pf: 0, alarm: false }
    }
}

/// The address a constructor argument denotes: the given one, or the
/// universal single-slave address when omitted.
pub open spec fn spec_addr_or_default(addr: Option<u8>) -> u8 {
    match addr {
        Some(a) => a,
        None => ADDR_DEFAULT,
    }
}

/// A well-formed response to a request sent to `addr` with function code
/// `func`: the expected length, the echoed header, a valid checksum.
pub open spec fn valid_response(addr: u8, func: u8, len: int, resp: Seq<u8>) -> bool {
    &&& resp.len() == len
    &&& 2 <= len
    &&& resp[0] == addr
    &&& resp[1] == func
    &&& frame_crc_ok(resp)
}

/// The bytes of `resp` from position `k` on are those of `from`: a
/// partial read wrote nothing past its count.
pub open spec fn untouched_from(from: Seq<u8>, resp: Seq<u8>, k: int) -> bool {
    forall|j: int| k <= j < resp.len() ==> resp[j] == from[j]
}

/// A zero-filled byte buffer of the given length.
fn zero_vec(n: usize) -> (v: Vec<u8>)
    ensures
        v@.len() == n,
{
    let mut v: Vec<u8> = Vec::new();
    let mut i: usize = 0;
    while i < n
        invariant
            i <= n,
            v@.len() == i,
        decreases n - i,
    {
        v.push(0u8);
        i = i + 1;
    }
    v
}

/// A PZEM004T sensor connected to a serial channel: exclusively owns the
/// transport, and stores the device address requests are sent to.
pub struct Pzem<Serial> {
    uart: Serial,
    addr: u8,
}

impl<Serial> Pzem<Serial> {
    /// The stored device address.
    pub closed spec fn spec_addr(&self) -> u8 {
        self.addr
    }

    /// The owned transport.
    pub closed spec fn spec_uart(&self) -> Serial {
        self.uart
    }

    /// The handle is well formed: its stored address is legal.
    pub open spec fn wf(&self) -> bool {
        valid_addr(self.spec_addr())
    }
}

impl<Serial: DuplexByteChannel> Pzem<Serial> {
    /// Creates a new sensor handle, consuming the serial channel.
    ///
    /// When `addr` is omitted, uses the default general address for a
    /// single-slave environment, `0xF8`. Fails with `IllegalAddress`, and
    /// with that alone, exactly when the given address lies outside the
    /// legal range.
    pub fn new(uart: Serial, addr: Option<u8>) -> (r: Result<
        Self,
        Error<Serial::WriteError, Serial::ReadError>,
    >)
        ensures
            r is Ok <==> valid_addr(spec_addr_or_default(addr)),
            r matches Ok(pzem) ==> pzem.spec_addr() == spec_addr_or_default(addr)
                && pzem.spec_uart() == uart && pzem.wf(),
            r matches Err(e) ==> e is IllegalAddress,
    {
        let a = match addr {
            Some(a) => a,
            None => ADDR_DEFAULT,
        };
        if a != ADDR_DEFAULT && (a < ADDR_MIN || a > ADDR_MAX) {
            return Err(Error::IllegalAddress);
        }
        Ok(Pzem { uart, addr: a })
    }

    /// One request/response exchange: drain stale input, send the request,
    /// flush, block for the expected response length, then validate the
    /// echoed header fields and the checksum.
    fn communicate<T: Countdown>(
        &mut self,
        req: &Vec<u8>,
        resp: &mut Vec<u8>,
        timer: &mut T,
        timeout: Option<T::Time>,
    ) -> (r: Result<(), Error<Serial::WriteError, Serial::ReadError>>)
        requires
            4 <= req.len(),
            4 <= old(resp).len() <= 255,
            frame_crc_ok(req@),
        ensures
            final(self).spec_addr() == old(self).spec_addr(),
            final(resp).len() == old(resp).len(),
            r is Ok ==> echo_ok(req@, final(resp)@) && frame_crc_ok(final(resp)@),
            r matches Err(e) ==> !(e is IllegalAddress),
            r matches Err(e) ==> (e is TimedOut ==> timeout is Some),
            r matches Err(e) ==> (e is PzemError ==> !echo_ok(req@, final(resp)@)),
            r matches Err(e) ==> (e is CrcMismatch ==> echo_ok(req@, final(resp)@)
                && !frame_crc_ok(final(resp)@)),
            r matches Err(e) ==> (e is TimedOut ==> exists|k: int|
                0 <= k < final(resp).len() && untouched_from(old(resp)@, final(resp)@, k)),
    {
        // Make sure the input queue is empty before sending the request.
        match self.uart.drain() {
            Ok(()) => {}
            Err(e) => {
                return Err(Error::ReadError(e));
            }
        }
        match self.uart.write_blocking(req) {
            Ok(()) => {}
            Err(e) => {
                return Err(Error::WriteError(e));
            }
        }
        match self.uart.flush() {
            Ok(()) => {}
            Err(e) => {
                return Err(Error::WriteError(e));
            }
        }
        let n = match self.uart.read_blocking(timer, timeout, resp) {
            Ok(n) => n,
            Err(e) => {
                return Err(Error::ReadError(e));
            }
        };
        // A short read means the countdown expired mid-frame; bytes past
        // the received count were never written.
        if (n as usize) < resp.len() {
            proof {
                assert(untouched_from(old(resp)@, resp@, n as int));
            }
            return Err(Error::TimedOut);
        }
        validate_response(req, resp)
    }

    /// Reads the measurement registers off the sensor and stores the
    /// decoded record into `m`; on any failure `m` is left untouched.
    pub fn read<T: Countdown>(
        &mut self,
        m: &mut Measurement,
        timer: &mut T,
        timeout: Option<T::Time>,
    ) -> (r: Result<(), Error<Serial::WriteError, Serial::ReadError>>)
        ensures
            final(self).spec_addr() == old(self).spec_addr(),
            r matches Err(e) ==> !(e is IllegalAddress),
            r matches Err(e) ==> (e is TimedOut ==> timeout is Some),
            r is Err ==> *final(m) == *old(m),
            r is Ok ==> exists|resp: Seq<u8>|
                valid_response(old(self).spec_addr(), CMD_READ, 25, resp)
                    && *final(m) == measurement_of(resp),
    {
        let mut payload: Vec<u8> = Vec::new();
        payload.push(0u8);
        payload.push(0u8);
        payload.push((REG_COUNT / 256) as u8);
        payload.push((REG_COUNT % 256) as u8);
        let req = build_request(self.addr, CMD_READ, &payload);
        proof {
            lemma_request_crc_ok(old(self).spec_addr(), CMD_READ, payload@);
        }
        let mut resp = zero_vec(25);
        match self.communicate(&req, &mut resp, timer, timeout) {
            Ok(()) => {
                let decoded = decode_measurement(&resp);
                proof {
                    assert(valid_response(old(self).spec_addr(), CMD_READ, 25, resp@));
                }
                *m = decoded;
                Ok(())
            }
            Err(e) => Err(e),
        }
    }

    /// Reads the current power alarm threshold of the energy monitor; on
    /// success, the raw value, where 1 LSB corresponds to 1 W.
    pub fn get_threshold<T: Countdown>(
        &mut self,
        timer: &mut T,
        timeout: Option<T::Time>,
    ) -> (r: Result<u16, Error<Serial::WriteError, Serial::ReadError>>)
        ensures
            final(self).spec_addr() == old(self).spec_addr(),
            r matches Err(e) ==> !(e is IllegalAddress),
            r matches Err(e) ==> (e is TimedOut ==> timeout is Some),
            r matches Ok(value) ==> exists|resp: Seq<u8>|
                valid_response(old(self).spec_addr(), CMD_READ_PARAM, 7, resp)
                    && value == be16(resp[3], resp[4]),
    {
        let mut payload: Vec<u8> = Vec::new();
        payload.push((PARAM_THRESHOLD / 256) as u8);
        payload.push((PARAM_THRESHOLD % 256) as u8);
        payload.push(0u8);
        payload.push(1u8);
        let req = build_request(self.addr, CMD_READ_PARAM, &payload);
        proof {
            lemma_request_crc_ok(old(self).spec_addr(), CMD_READ_PARAM, payload@);
        }
        let mut resp = zero_vec(7);
        match self.communicate(&req, &mut resp, timer, timeout) {
            Ok(()) => {
                let value = decode_u16(&resp, 3);
                proof {
                    assert(valid_response(old(self).spec_addr(), CMD_READ_PARAM, 7, resp@));
                }
                Ok(value)
            }
            Err(e) => Err(e),
        }
    }

    /// Reads the current Modbus-RTU address register of the energy
    /// monitor; on success, its raw value.
    pub fn get_addr<T: Countdown>(
        &mut self,
        timer: &mut T,
        timeout: Option<T::Time>,
    ) -> (r: Result<u16, Error<Serial::WriteError, Serial::ReadError>>)
        ensures
            final(self).spec_addr() == old(self).spec_addr(),
            r matches Err(e) ==> !(e is IllegalAddress),
            r matches Err(e) ==> (e is TimedOut ==> timeout is Some),
            r matches Ok(value) ==> exists|resp: Seq<u8>|
                valid_response(old(self).spec_addr(), CMD_READ_PARAM, 7, resp)
                    && value == be16(resp[3], resp[4]),
    {
        let mut payload: Vec<u8> = Vec::new();
        payload.push((PARAM_ADDR / 256) as u8);
        payload.push((PARAM_ADDR % 256) as u8);
        payload.push(0u8);
        payload.push(1u8);
        let req = build_request(self.addr, CMD_READ_PARAM, &payload);
        proof {
            lemma_request_crc_ok(old(self).spec_addr(), CMD_READ_PARAM, payload@);
        }
        let mut resp = zero_vec(7);
        match self.communicate(&req, &mut resp, timer, timeout) {
            Ok(()) => {
                let value = decode_u16(&resp, 3);
                proof {
                    assert(valid_response(old(self).spec_addr(), CMD_READ_PARAM, 7, resp@));
                }
                Ok(value)
            }
            Err(e) => Err(e),
        }
    }

    /// Sets the power alarm threshold of the energy monitor, where 1 LSB
    /// corresponds to 1 W; success means the sensor echoed the command.
    pub fn set_threshold<T: Countdown>(
        &mut self,
        threshold: u16,
        timer: &mut T,
        timeout: Option<T::Time>,
    ) -> (r: Result<(), Error<Serial::WriteError, Serial::ReadError>>)
        ensures
            final(self).spec_addr() == old(self).spec_addr(),
            r matches Err(e) ==> !(e is IllegalAddress),
            r matches Err(e) ==> (e is TimedOut ==> timeout is Some),
            r is Ok ==> exists|resp: Seq<u8>|
                valid_response(old(self).spec_addr(), CMD_WRITE_PARAM, 8, resp),
    {
        let mut payload: Vec<u8> = Vec::new();
        payload.push((PARAM_THRESHOLD / 256) as u8);
        payload.push((PARAM_THRESHOLD % 256) as u8);
        payload.push((threshold / 256) as u8);
        payload.push((threshold % 256) as u8);
        let req = build_request(self.addr, CMD_WRITE_PARAM, &payload);
        proof {
            lemma_request_crc_ok(old(self).spec_addr(), CMD_WRITE_PARAM, payload@);
        }
        let mut resp = zero_vec(8);
        match self.communicate(&req, &mut resp, timer, timeout) {
            Ok(()) => {
                proof {
                    assert(valid_response(old(self).spec_addr(), CMD_WRITE_PARAM, 8, resp@));
                }
                Ok(())
            }
            Err(e) => Err(e),
        }
    }

    /// Sets the Modbus-RTU address of the energy monitor, and on success —
    /// only then — updates the handle to refer to the sensor by the new
    /// address. Applies the same range check as construction: fails with
    /// `IllegalAddress`, before any exchange, exactly when the new address
    /// lies outside the legal range.
    pub fn set_addr<T: Countdown>(
        &mut self,
        addr: u8,
        timer: &mut T,
        timeout: Option<T::Time>,
    ) -> (r: Result<(), Error<Serial::WriteError, Serial::ReadError>>)
        ensures
            (r matches Err(Error::IllegalAddress)) <==> !valid_addr(addr),
            r is Ok ==> final(self).spec_addr() == addr,
            r is Err ==> final(self).spec_addr() == old(self).spec_addr(),
            old(self).wf() ==> final(self).wf(),
            r matches Err(e) ==> (e is TimedOut ==> timeout is Some),
            r is Ok ==> exists|resp: Seq<u8>|
                valid_response(old(self).spec_addr(), CMD_WRITE_PARAM, 8, resp),
    {
        if addr != ADDR_DEFAULT && (addr < ADDR_MIN || addr > ADDR_MAX) {
            return Err(Error::IllegalAddress);
        }
        let mut payload: Vec<u8> = Vec::new();
        payload.push((PARAM_ADDR / 256) as u8);
        payload.push((PARAM_ADDR % 256) as u8);
        payload.push(0u8);
        payload.push(addr);
        let req = build_request(self.addr, CMD_WRITE_PARAM, &payload);
        proof {
            lemma_request_crc_ok(old(self).spec_addr(), CMD_WRITE_PARAM, payload@);
        }
        let mut resp = zero_vec(8);
        match self.communicate(&req, &mut resp, timer, timeout) {
            Ok(()) => {
                proof {
                    assert(valid_response(old(self).spec_addr(), CMD_WRITE_PARAM, 8, resp@));
                }
                self.addr = addr;
                Ok(())
            }
            Err(e) => Err(e),
        }
    }

    /// Sets the energy counting register back to zero; success means the
    /// sensor echoed the command.
    pub fn reset_energy<T: Countdown>(
        &mut self,
        timer: &mut T,
        timeout: Option<T::Time>,
    ) -> (r: Result<(), Error<Serial::WriteError, Serial::ReadError>>)
        ensures
            final(self).spec_addr() == old(self).spec_addr(),
            r matches Err(e) ==> !(e is IllegalAddress),
            r matches Err(e) ==> (e is TimedOut ==> timeout is Some),
            r is Ok ==> exists|resp: Seq<u8>|
                valid_response(old(self).spec_addr(), CMD_RESET, 4, resp),
    {
        let payload: Vec<u8> = Vec::new();
        let req = build_request(self.addr, CMD_RESET, &payload);
        proof {
            lemma_request_crc_ok(old(self).spec_addr(), CMD_RESET, payload@);
        }
        let mut resp = zero_vec(4);
        match self.communicate(&req, &mut resp, timer, timeout) {
            Ok(()) => {
                proof {
                    assert(valid_response(old(self).spec_addr(), CMD_RESET, 4, resp@));
                }
                Ok(())
            }
            Err(e) => Err(e),
        }
    }

    /// Releases the underlying serial channel.
    pub fn release(self) -> (uart: Serial)
        ensures
            uart == self.spec_uart(),
    {
        self.uart
    }
}

} // verus!
