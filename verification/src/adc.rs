//! The analog-to-digital converter: one-time bring-up to 10-bit,
//! half-scale-referenced, slow-sampled conversions, input selection, and
//! result-ready polling.

use vstd::prelude::*;

use crate::pm::PM;
use crate::WouldBlock;

verus! {

/// Control A: enable.
pub const CTRLA_ENABLE: u8 = 1u8 << 1;

/// Control A: keep running in standby.
pub const CTRLA_RUNSTDBY: u8 = 1u8 << 2;

/// Control B: the divide-by-512 prescaler selection in its field at bits
/// 8-10.
pub const CTRLB_PRESCALER_DIV512: u16 = 7u16 << 8;

/// Control B: mask of the prescaler field.
pub const CTRLB_PRESCALER_MASK: u16 = 7u16 << 8;

/// Control B: the 10-bit resolution selection in its field at bits 4-5.
pub const CTRLB_RESSEL_10BIT: u16 = 2u16 << 4;

/// Control B: mask of the resolution field.
pub const CTRLB_RESSEL_MASK: u16 = 3u16 << 4;

/// Input control: mask of the positive-input field (bits 0-4).
pub const INPUTCTRL_MUXPOS_MASK: u32 = 0x1f;

/// Input control: the ground selection of the negative-input field (bits
/// 8-12).
pub const INPUTCTRL_MUXNEG_GND: u32 = 0x18u32 << 8;

/// Input control: mask of the negative-input field.
pub const INPUTCTRL_MUXNEG_MASK: u32 = 0x1fu32 << 8;

/// Input control: the divide-by-two selection of the gain field (bits
/// 24-27).
pub const INPUTCTRL_GAIN_DIV2: u32 = 0x0fu32 << 24;

/// Input control: mask of the gain field.
pub const INPUTCTRL_GAIN_MASK: u32 = 0x0fu32 << 24;

/// Averaging control: mask of the adjusting-result field (bits 4-6).
pub const AVGCTRL_ADJRES_MASK: u8 = 7u8 << 4;

/// Averaging control: mask of the sample-count field (bits 0-3); one sample
/// encodes as zero.
pub const AVGCTRL_SAMPLENUM_MASK: u8 = 0x0f;

/// Reference control: the half-supply internal reference in its field at
/// bits 0-3.
pub const REFCTRL_REFSEL_INTVCC1: u8 = 2;

/// Reference control: mask of the reference-selection field.
pub const REFCTRL_REFSEL_MASK: u8 = 0x0f;

/// Event control: start a conversion on an input event.
pub const EVCTRL_STARTEI: u8 = 1u8 << 0;

/// Software trigger: start a conversion.
pub const SWTRIG_START: u8 = 1u8 << 1;

/// Interrupt bit: result ready.
pub const INT_RESRDY: u8 = 1u8 << 0;

/// The converter's registers, as effective values.
pub struct AdcRegs {
    /// Calibration: linearity in bits 0-7, bias in bits 8-10.
    pub calib: u16,
    /// Control A: enable, standby behaviour.
    pub ctrla: u8,
    /// Control B: prescaler, resolution.
    pub ctrlb: u16,
    /// Sampling-time control.
    pub sampctrl: u8,
    /// Input control: positive and negative inputs, gain.
    pub inputctrl: u32,
    /// Averaging control.
    pub avgctrl: u8,
    /// Reference control.
    pub refctrl: u8,
    /// Event control.
    pub evctrl: u8,
    /// Software trigger.
    pub swtrig: u8,
    /// Armed interrupt sources.
    pub int_enabled: u8,
    /// Pending interrupt flags; acknowledging clears them.
    pub intflag: u8,
    /// The last conversion's result.
    pub result: u16,
}

impl AdcRegs {
    /// A converter with every register at its reset value.
    pub fn reset() -> (r: AdcRegs)
        ensures
            r == spec_reset_regs(),
    {
        AdcRegs {
            calib: 0,
            ctrla: 0,
            ctrlb: 0,
            sampctrl: 0,
            inputctrl: 0,
            avgctrl: 0,
            refctrl: 0,
            evctrl: 0,
            swtrig: 0,
            int_enabled: 0,
            intflag: 0,
            result: 0,
        }
    }
}

/// The all-reset register state.
pub open spec fn spec_reset_regs() -> AdcRegs {
    AdcRegs {
        calib: 0,
        ctrla: 0,
        ctrlb: 0,
        sampctrl: 0,
        inputctrl: 0,
        avgctrl: 0,
        refctrl: 0,
        evctrl: 0,
        swtrig: 0,
        int_enabled: 0,
        intflag: 0,
        result: 0,
    }
}

/// A selectable positive input of the converter.
#[derive(Debug, Clone, Copy, PartialEq, Eq, Structural)]
pub enum Input {
    Pin0,
    Pin1,
    Pin2,
    Pin3,
    Pin4,
    Pin5,
    Pin6,
    Pin7,
    /// The internal temperature sensor.
    Temp,
}

impl Input {
    /// The positive-input field encoding of this input.
    pub open spec fn spec_code(self) -> u32 {
        match self {
            Input::Pin0 => 0,
            Input::Pin1 => 1,
            Input::Pin2 => 2,
            Input::Pin3 => 3,
            Input::Pin4 => 4,
            Input::Pin5 => 5,
            Input::Pin6 => 6,
            Input::Pin7 => 7,
            Input::Temp => 0x18,
        }
    }

    pub fn code(self) -> (r: u32)
        ensures
            r == self.spec_code(),
    {
        match self {
            Input::Pin0 => 0,
            Input::Pin1 => 1,
            Input::Pin2 => 2,
            Input::Pin3 => 3,
            Input::Pin4 => 4,
            Input::Pin5 => 5,
            Input::Pin6 => 6,
            Input::Pin7 => 7,
            Input::Temp => 0x18,
        }
    }
}

/// A source the converter can sample: the type names the converter's input
/// it is wired to.
pub trait Channel<Adc> {
    /// The channel-identity type: for this converter, an `Input`.
    type ID;

    /// The channel's identity.
    spec fn spec_channel() -> Self::ID;

    fn channel() -> (r: Self::ID)
        ensures
            r == Self::spec_channel(),
    ;
}

/// The internal temperature sensor as a sampleable channel.
pub struct InternalTemp;

impl Channel<ADC> for InternalTemp {
    type ID = Input;

    open spec fn spec_channel() -> Input {
        Input::Temp
    }

    fn channel() -> Input {
        Input::Temp
    }
}

/// The converter, brought up once and then polled per conversion.
pub struct ADC {
    pub adc: AdcRegs,
}

/// The register state `init` leaves behind, for given calibration values:
/// calibrated, clocked at the 512-divided rate, 10 bits against the
/// half-supply reference with halved gain and ground as the negative input,
/// slowest sampling, single-sample averaging, enabled also in standby; the
/// first conversion of the temperature sensor has been started and its
/// ready flag cleared.
pub open spec fn spec_init_regs(linearity_cal: u8, bias_cal: u8) -> AdcRegs {
    AdcRegs {
        calib: (linearity_cal as u16) | (((bias_cal as u16) & 0x07) << 8),
        ctrla: CTRLA_ENABLE | CTRLA_RUNSTDBY,
        ctrlb: CTRLB_PRESCALER_DIV512 | CTRLB_RESSEL_10BIT,
        sampctrl: 0x3f,
        inputctrl: ((INPUTCTRL_MUXNEG_GND | INPUTCTRL_GAIN_DIV2) & !INPUTCTRL_MUXPOS_MASK)
            | Input::Temp.spec_code(),
        avgctrl: 0,
        refctrl: REFCTRL_REFSEL_INTVCC1,
        evctrl: 0,
        swtrig: SWTRIG_START,
        int_enabled: 0,
        intflag: 0,
        result: 0,
    }
}

impl ADC {
    /// Bring the converter up from reset with the part's calibration values,
    /// open its bus clock, and perform the throwaway first conversion on the
    /// internal temperature sensor, leaving the ready flag clear.
    pub fn init(pm: &mut PM, linearity_cal: u8, bias_cal: u8) -> (r: ADC)
        ensures
            r.adc == spec_init_regs(linearity_cal, bias_cal),
            final(pm).apbcmask == old(pm).apbcmask | crate::pm::APBCMASK_ADC,
            final(pm).ahbmask == old(pm).ahbmask,
            final(pm).apbamask == old(pm).apbamask,
            final(pm).apbbmask == old(pm).apbbmask,
            final(pm).rcause == old(pm).rcause,
    {
        let mut adc = AdcRegs::reset();

        adc.calib = (linearity_cal as u16) | (((bias_cal as u16) & 0x07) << 8);

        pm.apbcmask = pm.apbcmask | crate::pm::APBCMASK_ADC;

        // Slow clock, 10-bit results.
        adc.ctrlb = CTRLB_PRESCALER_DIV512 | CTRLB_RESSEL_10BIT;

        // Longest sampling time.
        adc.sampctrl = 0x3f;

        // Single-ended against ground.
        adc.inputctrl = INPUTCTRL_MUXNEG_GND;

        // One sample, no result adjustment: the reset state already encodes
        // both.

        // Half gain against the half-supply internal reference.
        adc.inputctrl = adc.inputctrl | INPUTCTRL_GAIN_DIV2;
        adc.refctrl = REFCTRL_REFSEL_INTVCC1;

        adc.ctrla = CTRLA_ENABLE | CTRLA_RUNSTDBY;

        // First throwaway conversion.
        let mut new = ADC { adc };

        let mut input = InternalTemp;
        new.start(&mut input);
        let _result = new.result();
        new.clear_ready_interrupt();
        proof {
            assert(0u8 & !INT_RESRDY == 0u8) by (bit_vector);
        }

        new
    }

    /// Select `input` as the conversion source.
    pub fn set_input<PIN: Channel<Self, ID = Input>>(&mut self, _input: &mut PIN)
        ensures
            final(self).adc == (AdcRegs {
                inputctrl: (old(self).adc.inputctrl & !INPUTCTRL_MUXPOS_MASK)
                    | PIN::spec_channel().spec_code(),
                ..old(self).adc
            }),
    {
        let code = PIN::channel().code();
        self.adc.inputctrl = (self.adc.inputctrl & !INPUTCTRL_MUXPOS_MASK) | code;
    }

    /// Select `input` and start a conversion by software trigger.
    pub fn start<PIN: Channel<Self, ID = Input>>(&mut self, input: &mut PIN)
        ensures
            final(self).adc == (AdcRegs {
                inputctrl: (old(self).adc.inputctrl & !INPUTCTRL_MUXPOS_MASK)
                    | PIN::spec_channel().spec_code(),
                swtrig: SWTRIG_START,
                ..old(self).adc
            }),
    {
        self.set_input(input);

        self.adc.swtrig = SWTRIG_START;
    }

    /// Poll for the conversion's end: the result once it is ready, or the
    /// signal that none is yet.
    pub fn wait(&mut self) -> (r: Result<u16, WouldBlock>)
        ensures
            final(self).adc == old(self).adc,
            r is Ok <==> old(self).adc.intflag & INT_RESRDY != 0,
            r matches Ok(v) ==> v == old(self).adc.result,
    {
        if self.adc.intflag & INT_RESRDY != 0 {
            Ok(self.result())
        } else {
            Err(WouldBlock)
        }
    }

    /// The last conversion's result.
    pub fn result(&mut self) -> (r: u16)
        ensures
            final(self).adc == old(self).adc,
            r == old(self).adc.result,
    {
        self.adc.result
    }

    /// Arm the result-ready interrupt.
    pub fn enable_ready_interrupt(&mut self)
        ensures
            final(self).adc == (AdcRegs {
                int_enabled: old(self).adc.int_enabled | INT_RESRDY,
                ..old(self).adc
            }),
    {
        self.adc.int_enabled = self.adc.int_enabled | INT_RESRDY;
    }

    /// Acknowledge a pending result-ready flag.
    pub fn clear_ready_interrupt(&mut self)
        ensures
            final(self).adc == (AdcRegs {
                intflag: old(self).adc.intflag & !INT_RESRDY,
                ..old(self).adc
            }),
    {
        self.adc.intflag = self.adc.intflag & !INT_RESRDY;
    }

    /// Start a conversion on each input event.
    pub fn enable_start_conversion_event(&mut self)
        ensures
            final(self).adc == (AdcRegs {
                evctrl: old(self).adc.evctrl | EVCTRL_STARTEI,
                ..old(self).adc
            }),
    {
        self.adc.evctrl = self.adc.evctrl | EVCTRL_STARTEI;
    }
}

} // verus!
