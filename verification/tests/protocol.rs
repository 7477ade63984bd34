//! Checks of the protocol engine against a scripted transport: address
//! validation, timeout handling, echo and checksum validation, and the
//! atomicity of the address update.

use pzem004t::io::{Countdown, DuplexByteChannel};
use pzem004t::{Error, Measurement, NoTimeout, Pzem};

/// A scripted serial channel: records everything written, and serves one
/// queued response per exchange, armed when the request is flushed.
struct MockLink {
    written: Vec<u8>,
    responses: Vec<Vec<u8>>,
    current: Vec<u8>,
    pos: usize,
    fail_write: bool,
    fail_read: bool,
}

impl MockLink {
    fn new(responses: Vec<Vec<u8>>) -> MockLink {
        MockLink {
            written: Vec::new(),
            responses,
            current: Vec::new(),
            pos: 0,
            fail_write: false,
            fail_read: false,
        }
    }

    fn next_pending(&mut self) -> Option<u8> {
        if self.pos < self.current.len() {
            let byte = self.current[self.pos];
            self.pos += 1;
            Some(byte)
        } else {
            None
        }
    }
}

impl DuplexByteChannel for MockLink {
    type WriteError = u8;
    type ReadError = u8;

    fn write_byte(&mut self, byte: u8) -> Result<(), u8> {
        if self.fail_write {
            return Err(17);
        }
        self.written.push(byte);
        Ok(())
    }

    fn flush(&mut self) -> Result<(), u8> {
        if !self.responses.is_empty() {
            self.current = self.responses.remove(0);
            self.pos = 0;
        }
        Ok(())
    }

    fn read_byte(&mut self) -> Result<u8, u8> {
        if self.fail_read {
            return Err(23);
        }
        // Nothing scripted: report a hard error rather than block forever.
        self.next_pending().ok_or(29)
    }

    fn try_read(&mut self) -> Result<Option<u8>, u8> {
        if self.fail_read {
            return Err(23);
        }
        Ok(self.next_pending())
    }
}

/// A countdown that expires after a fixed number of polls.
struct MockCountdown {
    remaining: u64,
}

impl Countdown for MockCountdown {
    type Time = u64;

    fn start(&mut self, count: u64) {
        self.remaining = count;
    }

    fn wait(&mut self) -> bool {
        if self.remaining == 0 {
            true
        } else {
            self.remaining -= 1;
            false
        }
    }
}

fn with_crc(mut body: Vec<u8>) -> Vec<u8> {
    let crc = crc16::State::<crc16::MODBUS>::calculate(&body);
    body.push((crc & 0xff) as u8);
    body.push((crc >> 8) as u8);
    body
}

/// A valid 25-byte read-measurements response for the given address.
fn read_response(addr: u8) -> Vec<u8> {
    let mut body = vec![addr, 0x04, 0x14];
    body.extend_from_slice(&[
        0x09, 0x08, // voltage
        0x00, 0x02, 0x00, 0x01, // current
        0x08, 0xa2, 0x00, 0x00, // power
        0x00, 0x2a, 0x00, 0x00, // energy
        0x01, 0xf4, // frequency
        0x00, 0x64, // power factor
        0x00, 0x00, // alarm flag
    ]);
    with_crc(body)
}

#[test]
fn new_accepts_all_valid_addresses() {
    for addr in 0x01..=0xf7u8 {
        assert!(Pzem::new(MockLink::new(vec![]), Some(addr)).is_ok());
    }
    assert!(Pzem::new(MockLink::new(vec![]), Some(0xf8)).is_ok());
    assert!(Pzem::new(MockLink::new(vec![]), None).is_ok());
}

#[test]
fn new_rejects_invalid_addresses() {
    assert!(matches!(
        Pzem::new(MockLink::new(vec![]), Some(0x00)),
        Err(Error::IllegalAddress)
    ));
    for addr in 0xf9..=0xffu8 {
        assert!(matches!(
            Pzem::new(MockLink::new(vec![]), Some(addr)),
            Err(Error::IllegalAddress)
        ));
    }
}

#[test]
fn read_measurements_request_bytes() {
    let link = MockLink::new(vec![read_response(0xf8)]);
    let mut pzem = Pzem::new(link, None).unwrap();
    let mut m = Measurement::default();
    let mut timer = NoTimeout;
    pzem.read(&mut m, &mut timer, None).unwrap();
    let link = pzem.release();
    assert_eq!(link.written, vec![0xf8, 0x04, 0x00, 0x00, 0x00, 0x0a, 0x64, 0x64]);
}

#[test]
fn read_decodes_into_measurement() {
    let link = MockLink::new(vec![read_response(0xf8)]);
    let mut pzem = Pzem::new(link, None).unwrap();
    let mut m = Measurement::default();
    let mut timer = NoTimeout;
    pzem.read(&mut m, &mut timer, None).unwrap();
    assert_eq!(m.voltage, 2312);
    assert_eq!(m.current, 0x0001_0002);
    assert_eq!(m.power, 2210);
    assert_eq!(m.energy, 42);
    assert_eq!(m.frequency, 500);
    assert_eq!(m.pf, 100);
    assert!(!m.alarm);
}

#[test]
fn short_response_times_out() {
    // The transport supplies only ten of the expected 25 bytes before the
    // countdown expires: the engine must report a timeout and leave the
    // measurement untouched.
    let partial: Vec<u8> = read_response(0xf8)[0..10].to_vec();
    let link = MockLink::new(vec![partial]);
    let mut pzem = Pzem::new(link, None).unwrap();
    let mut m = Measurement::default();
    let mut timer = MockCountdown { remaining: 0 };
    let r = pzem.read(&mut m, &mut timer, Some(1000));
    assert!(matches!(r, Err(Error::TimedOut)));
    assert_eq!(m, Measurement::default());
}

#[test]
fn empty_response_times_out() {
    let link = MockLink::new(vec![vec![]]);
    let mut pzem = Pzem::new(link, None).unwrap();
    let mut m = Measurement::default();
    let mut timer = MockCountdown { remaining: 0 };
    let r = pzem.read(&mut m, &mut timer, Some(64));
    assert!(matches!(r, Err(Error::TimedOut)));
    assert_eq!(m, Measurement::default());
}

#[test]
fn echo_mismatch_reports_pzem_error() {
    // A response from the wrong address, with a checksum that is valid
    // over its own bytes, must still be rejected as an echo mismatch.
    let resp = read_response(0xf7);
    assert_ne!(resp[0], 0xf8);
    let link = MockLink::new(vec![resp]);
    let mut pzem = Pzem::new(link, None).unwrap();
    let mut m = Measurement::default();
    let mut timer = NoTimeout;
    let r = pzem.read(&mut m, &mut timer, None);
    assert!(matches!(r, Err(Error::PzemError)));
    assert_eq!(m, Measurement::default());
}

#[test]
fn corrupt_checksum_reports_crc_mismatch() {
    let mut resp = read_response(0xf8);
    let last = resp.len() - 1;
    resp[last] ^= 0x01;
    let link = MockLink::new(vec![resp]);
    let mut pzem = Pzem::new(link, None).unwrap();
    let mut m = Measurement::default();
    let mut timer = NoTimeout;
    let r = pzem.read(&mut m, &mut timer, None);
    assert!(matches!(r, Err(Error::CrcMismatch)));
    assert_eq!(m, Measurement::default());
}

#[test]
fn set_addr_keeps_old_address_on_failure() {
    // The echo comes back with a corrupted checksum: the exchange fails,
    // and the handle must keep addressing the sensor by the old address.
    let mut bad_echo = with_crc(vec![0x01, 0x06, 0x00, 0x02, 0x00, 0x05]);
    let last = bad_echo.len() - 1;
    bad_echo[last] ^= 0x40;
    let link = MockLink::new(vec![bad_echo, read_response(0x01)]);
    let mut pzem = Pzem::new(link, Some(0x01)).unwrap();
    let mut timer = NoTimeout;
    let r = pzem.set_addr(0x05, &mut timer, None);
    assert!(matches!(r, Err(Error::CrcMismatch)));
    // The next request still carries the old address.
    let mut m = Measurement::default();
    pzem.read(&mut m, &mut timer, None).unwrap();
    let link = pzem.release();
    assert_eq!(link.written[8], 0x01);
}

#[test]
fn set_addr_adopts_new_address_on_success() {
    let set_echo = with_crc(vec![0x01, 0x06, 0x00, 0x02, 0x00, 0x05]);
    let link = MockLink::new(vec![set_echo, read_response(0x05)]);
    let mut pzem = Pzem::new(link, Some(0x01)).unwrap();
    let mut timer = NoTimeout;
    pzem.set_addr(0x05, &mut timer, None).unwrap();
    // The next request must be addressed with the adopted address.
    let mut m = Measurement::default();
    pzem.read(&mut m, &mut timer, None).unwrap();
    let link = pzem.release();
    assert_eq!(link.written[8], 0x05);
}

#[test]
fn set_addr_rejects_illegal_addresses() {
    let link = MockLink::new(vec![]);
    let mut pzem = Pzem::new(link, Some(0x01)).unwrap();
    let mut timer = NoTimeout;
    for addr in [0x00u8, 0xf9, 0xff] {
        let r = pzem.set_addr(addr, &mut timer, None);
        assert!(matches!(r, Err(Error::IllegalAddress)));
    }
    // No exchange was attempted.
    let link = pzem.release();
    assert!(link.written.is_empty());
}

#[test]
fn set_addr_accepts_universal_address() {
    // The range check is the same as at construction: the universal
    // single-slave address is a legal value to adopt.
    let set_echo = with_crc(vec![0x01, 0x06, 0x00, 0x02, 0x00, 0xf8]);
    let link = MockLink::new(vec![set_echo, read_response(0xf8)]);
    let mut pzem = Pzem::new(link, Some(0x01)).unwrap();
    let mut timer = NoTimeout;
    pzem.set_addr(0xf8, &mut timer, None).unwrap();
    let mut m = Measurement::default();
    pzem.read(&mut m, &mut timer, None).unwrap();
    let link = pzem.release();
    assert_eq!(link.written[8], 0xf8);
}

#[test]
fn get_threshold_returns_raw_value() {
    let resp = with_crc(vec![0xf8, 0x03, 0x02, 0x00, 0xe6]);
    let link = MockLink::new(vec![resp]);
    let mut pzem = Pzem::new(link, None).unwrap();
    let mut timer = NoTimeout;
    let value = pzem.get_threshold(&mut timer, None).unwrap();
    assert_eq!(value, 230);
    let link = pzem.release();
    assert_eq!(&link.written[0..6], &[0xf8, 0x03, 0x00, 0x01, 0x00, 0x01]);
}

#[test]
fn get_addr_returns_raw_value() {
    let resp = with_crc(vec![0xf8, 0x03, 0x02, 0x00, 0x07]);
    let link = MockLink::new(vec![resp]);
    let mut pzem = Pzem::new(link, None).unwrap();
    let mut timer = NoTimeout;
    let value = pzem.get_addr(&mut timer, None).unwrap();
    assert_eq!(value, 0x0007);
    let link = pzem.release();
    assert_eq!(&link.written[0..6], &[0xf8, 0x03, 0x00, 0x02, 0x00, 0x01]);
}

#[test]
fn set_threshold_sends_value_and_succeeds() {
    let echo = with_crc(vec![0xf8, 0x06, 0x00, 0x01, 0x00, 0xe6]);
    let link = MockLink::new(vec![echo]);
    let mut pzem = Pzem::new(link, None).unwrap();
    let mut timer = NoTimeout;
    pzem.set_threshold(230, &mut timer, None).unwrap();
    let link = pzem.release();
    assert_eq!(&link.written[0..6], &[0xf8, 0x06, 0x00, 0x01, 0x00, 0xe6]);
}

#[test]
fn reset_energy_sends_short_frame() {
    let echo = with_crc(vec![0xf8, 0x42]);
    let link = MockLink::new(vec![echo.clone()]);
    let mut pzem = Pzem::new(link, None).unwrap();
    let mut timer = NoTimeout;
    pzem.reset_energy(&mut timer, None).unwrap();
    let link = pzem.release();
    assert_eq!(link.written, echo);
    // Absolute wire bytes, with a CRC whose two bytes differ.
    assert_eq!(link.written, vec![0xf8, 0x42, 0xc2, 0x41]);
}

#[test]
fn reset_energy_rejects_corrupt_echo() {
    let mut echo = with_crc(vec![0xf8, 0x42]);
    echo[2] ^= 0xff;
    let link = MockLink::new(vec![echo]);
    let mut pzem = Pzem::new(link, None).unwrap();
    let mut timer = NoTimeout;
    let r = pzem.reset_energy(&mut timer, None);
    assert!(matches!(r, Err(Error::CrcMismatch)));
}

#[test]
fn write_failure_wraps_native_error() {
    let mut link = MockLink::new(vec![]);
    link.fail_write = true;
    let mut pzem = Pzem::new(link, None).unwrap();
    let mut timer = NoTimeout;
    let mut m = Measurement::default();
    let r = pzem.read(&mut m, &mut timer, None);
    assert!(matches!(r, Err(Error::WriteError(17))));
}

#[test]
fn read_failure_wraps_native_error() {
    let mut link = MockLink::new(vec![]);
    link.fail_read = true;
    let mut pzem = Pzem::new(link, None).unwrap();
    let mut timer = NoTimeout;
    let mut m = Measurement::default();
    let r = pzem.read(&mut m, &mut timer, None);
    assert!(matches!(r, Err(Error::ReadError(23))));
}

#[test]
fn error_descriptions() {
    type E = Error<u8, u8>;
    assert_eq!((E::TimedOut).describe(), "Communication timed out");
    assert_eq!((E::CrcMismatch).describe(), "CRC doesn't match");
    assert_eq!((E::PzemError).describe(), "Internal PZEM004T error");
    assert_eq!((E::IllegalAddress).describe(), "Illegal address");
    assert_eq!((E::WriteError(1)).describe(), "Could not write");
    assert_eq!((E::ReadError(2)).describe(), "Could not read");
}
