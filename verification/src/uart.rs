//! The pieces of the serial-port driver that are plain computation: the
//! pad-mapping query, the decoded status word, and the fractional baud-rate
//! arithmetic.

use vstd::prelude::*;

use crate::WouldBlock;

verus! {

/// Interrupt bit: the transmit data register is empty.
pub const INT_DRE: u8 = 1u8 << 0;

/// Interrupt bit: a received character is ready.
pub const INT_RXC: u8 = 1u8 << 2;

/// Interrupt bit: an error condition is flagged in the status register.
pub const INT_ERROR: u8 = 1u8 << 7;

/// Status bit: frame error.
pub const STATUS_FERR: u16 = 1u16 << 1;

/// The receive and transmit pad-out codes of a pad mapping. Only the pad
/// combinations fixed by the part make sense, so implementations come with
/// the pad definitions, not from users.
pub trait RxpoTxpo {
    fn rxpo_txpo(&self) -> (u8, u8);
}

/// The decoded line status of the port.
#[derive(Debug, Clone, Copy, PartialEq, Eq, Structural)]
pub struct Status {
    pub parity_error: bool,
    pub frame_error: bool,
    pub buffer_overflow: bool,
    pub clear_to_send: bool,
    pub inconsistent_sync: bool,
    pub collision: bool,
}

impl Status {
    /// Decode a captured status register value: parity error in bit 0,
    /// frame error in bit 1, buffer overflow in bit 2, clear-to-send in
    /// bit 3, inconsistent sync in bit 4 and collision in bit 5.
    pub fn from_bits(bits: u16) -> (s: Status)
        ensures
            s.parity_error == (bits & (1u16 << 0) != 0),
            s.frame_error == (bits & (1u16 << 1) != 0),
            s.buffer_overflow == (bits & (1u16 << 2) != 0),
            s.clear_to_send == (bits & (1u16 << 3) != 0),
            s.inconsistent_sync == (bits & (1u16 << 4) != 0),
            s.collision == (bits & (1u16 << 5) != 0),
    {
        Status {
            parity_error: bits & (1u16 << 0) != 0,
            frame_error: bits & (1u16 << 1) != 0,
            buffer_overflow: bits & (1u16 << 2) != 0,
            clear_to_send: bits & (1u16 << 3) != 0,
            inconsistent_sync: bits & (1u16 << 4) != 0,
            collision: bits & (1u16 << 5) != 0,
        }
    }
}

/// The serial engine's registers in asynchronous mode, as effective values.
pub struct UsartRegs {
    /// Pending interrupt flags, maintained by hardware; the error flag
    /// clears when acknowledged.
    pub intflag: u8,
    /// The line status word.
    pub status: u16,
    /// The data register: received characters are read here, characters to
    /// send are written here.
    pub data: u16,
}

/// The serial port over one engine instance.
pub struct Uart {
    pub sercom: UsartRegs,
}

impl Uart {
    /// Whether an error condition is flagged.
    pub fn has_error(&self) -> (r: bool)
        ensures
            r == (self.sercom.intflag & INT_ERROR != 0),
    {
        self.sercom.intflag & INT_ERROR != 0
    }

    /// Whether a received character is waiting.
    pub fn has_data(&self) -> (r: bool)
        ensures
            r == (self.sercom.intflag & INT_RXC != 0),
    {
        self.sercom.intflag & INT_RXC != 0
    }

    /// Acknowledge a flagged error condition.
    pub fn clear_error(&mut self)
        ensures
            final(self).sercom == (UsartRegs {
                intflag: old(self).sercom.intflag & !INT_ERROR,
                ..old(self).sercom
            }),
    {
        self.sercom.intflag = self.sercom.intflag & !INT_ERROR;
    }

    /// The decoded line status.
    pub fn status(&self) -> (s: Status)
        ensures
            s.parity_error == (self.sercom.status & (1u16 << 0) != 0),
            s.frame_error == (self.sercom.status & (1u16 << 1) != 0),
            s.buffer_overflow == (self.sercom.status & (1u16 << 2) != 0),
            s.clear_to_send == (self.sercom.status & (1u16 << 3) != 0),
            s.inconsistent_sync == (self.sercom.status & (1u16 << 4) != 0),
            s.collision == (self.sercom.status & (1u16 << 5) != 0),
    {
        Status::from_bits(self.sercom.status)
    }

    /// Reset the status word.
    pub fn clear_status(&mut self)
        ensures
            final(self).sercom == (UsartRegs { status: 0, ..old(self).sercom }),
    {
        self.sercom.status = 0;
    }

    /// Acknowledge a frame error.
    pub fn clear_frame_error(&mut self)
        ensures
            final(self).sercom == (UsartRegs {
                status: old(self).sercom.status & !STATUS_FERR,
                ..old(self).sercom
            }),
    {
        self.sercom.status = self.sercom.status & !STATUS_FERR;
    }

    /// Send one character, or signal that the data register is still full.
    pub fn write(&mut self, word: u8) -> (r: Result<(), WouldBlock>)
        ensures
            r is Ok <==> old(self).sercom.intflag & INT_DRE != 0,
            r is Ok ==> final(self).sercom == (UsartRegs {
                data: word as u16,
                ..old(self).sercom
            }),
            r is Err ==> final(self).sercom == old(self).sercom,
    {
        if self.sercom.intflag & INT_DRE == 0 {
            return Err(WouldBlock);
        }

        self.sercom.data = word as u16;

        Ok(())
    }

    /// Wait for the data register to drain: done exactly when it is empty.
    pub fn flush(&self) -> (r: Result<(), WouldBlock>)
        ensures
            r is Ok <==> self.sercom.intflag & INT_DRE != 0,
    {
        if self.sercom.intflag & INT_DRE == 0 {
            return Err(WouldBlock);
        }

        Ok(())
    }

    /// Receive one character, or signal that none is waiting.
    pub fn read(&mut self) -> (r: Result<u8, WouldBlock>)
        ensures
            final(self).sercom == old(self).sercom,
            r is Ok <==> old(self).sercom.intflag & INT_RXC != 0,
            r matches Ok(byte) ==> byte == old(self).sercom.data as u8,
    {
        let has_data = self.has_data();
        if !has_data {
            return Err(WouldBlock);
        }

        let data = self.sercom.data;

        Ok(#[verifier::truncate] (data as u8))
    }
}

/// The oversampling factor of the asynchronous fractional mode.
pub const SAMPLE_RATE: u32 = 16;

/// The eightfold baud value in fractional mode: the reference clock times
/// eight, divided by the oversampling factor times the requested rate.
pub open spec fn spec_baud8x(fref: u32, baud_hz: u32) -> int {
    (fref * 8) / ((SAMPLE_RATE * baud_hz) as int)
}

/// Compute the fractional baud-rate registers for `baud_hz` on a reference
/// clock of `fref`: the whole part and the eighths. The caller keeps the
/// clock small enough that the eightfold value is computable and its whole
/// part fits the register.
pub fn baud_params(fref: u32, baud_hz: u32) -> (r: (u16, u8))
    requires
        1 <= baud_hz,
        fref * 8 <= u32::MAX,
        SAMPLE_RATE * baud_hz <= u32::MAX,
        spec_baud8x(fref, baud_hz) / 8 <= 0xffff,
    ensures
        r.0 == spec_baud8x(fref, baud_hz) / 8,
        r.1 == spec_baud8x(fref, baud_hz) % 8,
{
    let baud8x: u32 = (fref * 8) / (SAMPLE_RATE * baud_hz);

    let fp: u8 = (baud8x % 8) as u8;
    let baud: u16 = (baud8x / 8) as u16;

    (baud, fp)
}

} // verus!
