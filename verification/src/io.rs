//! Transport adapter: wraps a raw byte channel with the driver's blocking
//! semantics — write a whole buffer, read N bytes or time out, and discard
//! pending input.

use vstd::prelude::*;
use vstd::pervasive::VecAdditionalExecFns;

verus! {

/// Number of polls a countdown-bounded or draining loop makes before it
/// gives up. Polling is the only wait these loops do, so the budget only
/// bounds them formally: a real countdown expires, and a real channel
/// runs out of pending bytes, long before it is spent.
pub const POLL_BUDGET: u64 = 0xffff_ffff_ffff_ffff;

/// A byte-oriented duplex channel, implemented by a concrete peripheral
/// binding at the host boundary. The single-byte operations block until
/// the channel makes progress or fails hard; `try_read` alone returns
/// instead of waiting, so that draining and countdown-bounded reads can
/// poll between bytes.
pub trait DuplexByteChannel {
    /// Native error of the write half.
    type WriteError;

    /// Native error of the read half.
    type ReadError;

    /// Writes one byte, blocking until the channel accepts it.
    fn write_byte(&mut self, byte: u8) -> Result<(), Self::WriteError>;

    /// Blocks until every byte handed to the channel has left it.
    fn flush(&mut self) -> Result<(), Self::WriteError>;

    /// Reads one byte, blocking until one arrives.
    fn read_byte(&mut self) -> Result<u8, Self::ReadError>;

    /// Attempts to read one byte without blocking: `Ok(Some(byte))` on
    /// data, `Ok(None)` when nothing is pending, `Err` on a hard failure.
    fn try_read(&mut self) -> Result<Option<u8>, Self::ReadError>;
}

/// A countdown timer: started with a duration, it reports expiry by
/// polling rather than blocking.
pub trait Countdown {
    /// The duration unit the timer counts in.
    type Time;

    /// Starts the countdown.
    fn start(&mut self, count: Self::Time);

    /// Polls the countdown; `true` once it has expired.
    fn wait(&mut self) -> bool;
}

/// Writing a whole buffer, blocking on each byte.
pub trait WriteBlocking {
    /// Error reported by the underlying channel.
    type Error;

    /// Writes every byte of `buf` in order, blocking on each; fails with
    /// the channel's native error if a single write fails irrecoverably.
    fn write_blocking(&mut self, buf: &Vec<u8>) -> Result<(), Self::Error>;
}

impl<U: DuplexByteChannel> WriteBlocking for U {
    type Error = U::WriteError;

    #[verifier::loop_isolation(false)]
    fn write_blocking(&mut self, buf: &Vec<u8>) -> Result<(), U::WriteError> {
        let mut i: usize = 0;
        while i < buf.len()
            invariant
                i <= buf.len(),
            decreases buf.len() - i,
        {
            match self.write_byte(buf[i]) {
                Ok(()) => {}
                Err(e) => {
                    return Err(e);
                }
            }
            i = i + 1;
        }
        Ok(())
    }
}

/// Reading a fixed number of bytes, blocking with an optional bound.
pub trait ReadBlocking {
    /// Error reported by the underlying channel.
    type Error;

    /// Fills `buf` with up to `buf.len()` bytes.
    ///
    /// Without a timeout, blocks until the buffer is full or the channel
    /// fails hard; on success the returned count equals the buffer
    /// length. With a timeout, starts the countdown once and checks it
    /// before every byte attempt — so a slow trickle of bytes cannot
    /// extend the wait past one countdown period — and once it expires,
    /// returns the count of bytes accumulated so far, which may be less
    /// than requested: the short count is the timeout signal, not an
    /// error. Bytes past the returned count are left as they were.
    fn read_blocking<T: Countdown>(
        &mut self,
        timer: &mut T,
        timeout: Option<T::Time>,
        buf: &mut Vec<u8>,
    ) -> (r: Result<u8, Self::Error>)
        requires
            old(buf).len() <= 255,
        ensures
            final(buf).len() == old(buf).len(),
            r matches Ok(n) ==> n as int <= final(buf).len(),
            timeout is None ==> (r matches Ok(n) ==> n as int == final(buf).len()),
            r matches Ok(n) ==> forall|j: int|
                n as int <= j < final(buf).len() ==> final(buf)[j] == old(buf)[j],
    ;
}

impl<U: DuplexByteChannel> ReadBlocking for U {
    type Error = U::ReadError;

    #[verifier::loop_isolation(false)]
    fn read_blocking<T: Countdown>(
        &mut self,
        timer: &mut T,
        timeout: Option<T::Time>,
        buf: &mut Vec<u8>,
    ) -> (r: Result<u8, U::ReadError>) {
        let ghost buf0: Seq<u8> = buf@;
        let n = buf.len();
        let mut i: usize = 0;
        match timeout {
            Some(count) => {
                timer.start(count);
                let mut polls: u64 = POLL_BUDGET;
                let mut expired = false;
                while i < n && polls > 0 && !expired
                    invariant
                        i <= n,
                        n == buf.len(),
                        buf@.len() == buf0.len(),
                        forall|j: int| i <= j < buf@.len() ==> buf@[j] == buf0[j],
                    decreases polls,
                {
                    polls = polls - 1;
                    if timer.wait() {
                        expired = true;
                    } else {
                        match self.try_read() {
                            Ok(Some(byte)) => {
                                buf.set(i, byte);
                                i = i + 1;
                            }
                            Ok(None) => {}
                            Err(e) => {
                                return Err(e);
                            }
                        }
                    }
                }
                Ok(i as u8)
            }
            None => {
                while i < n
                    invariant
                        i <= n,
                        n == buf.len(),
                        n <= 255,
                        buf@.len() == buf0.len(),
                        forall|j: int| i <= j < buf@.len() ==> buf@[j] == buf0[j],
                    decreases n - i,
                {
                    match self.read_byte() {
                        Ok(byte) => {
                            buf.set(i, byte);
                            i = i + 1;
                        }
                        Err(e) => {
                            return Err(e);
                        }
                    }
                }
                Ok(i as u8)
            }
        }
    }
}

/// Discarding pending input.
pub trait Drain {
    /// Error reported by the underlying channel.
    type Error;

    /// Non-blockingly consumes and discards buffered input until the
    /// channel reports no data pending; fails with the channel's native
    /// error on a hard read failure. Used before every request to discard
    /// stale bytes from a prior aborted exchange.
    fn drain(&mut self) -> Result<(), Self::Error>;
}

impl<U: DuplexByteChannel> Drain for U {
    type Error = U::ReadError;

    #[verifier::loop_isolation(false)]
    fn drain(&mut self) -> Result<(), U::ReadError> {
        let mut polls: u64 = POLL_BUDGET;
        while polls > 0
            decreases polls,
        {
            polls = polls - 1;
            match self.try_read() {
                Ok(Some(_)) => {}
                Ok(None) => {
                    return Ok(());
                }
                Err(e) => {
                    return Err(e);
                }
            }
        }
        Ok(())
    }
}

} // verus!
