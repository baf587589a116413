//! Choices a control panel offers, and their translation into engine
//! parameters. A panel keeps one selected waveform kind and one selected
//! filter kind next to their numeric settings, and builds the concrete
//! `Waveform` / `FilterType` when it pushes a message.

use vstd::prelude::*;
use crate::osc::Waveform;
use crate::filter::FilterType;

verus! {

/// The waveform choices a control panel offers.
#[derive(Clone, Copy, Debug, PartialEq, Eq, Structural)]
pub enum WaveformTypeUi {
    Sine,
    Square,
    Saw,
    Triangle,
}

impl WaveformTypeUi {
    /// The concrete waveform for this choice, carrying the panel's current
    /// pulse width (Q16) and triangle sharpness.
    pub fn to_waveform(&self, pulse_width: i64, curve: u32) -> (w: Waveform)
        ensures
            w == match *self {
                WaveformTypeUi::Sine => Waveform::Sine,
                WaveformTypeUi::Square => Waveform::Square { pulse_width },
                WaveformTypeUi::Saw => Waveform::Sawtooth,
                WaveformTypeUi::Triangle => Waveform::Triangle { curve },
            },
    {
        match self {
            WaveformTypeUi::Sine => Waveform::Sine,
            WaveformTypeUi::Square => Waveform::Square { pulse_width },
            WaveformTypeUi::Saw => Waveform::Sawtooth,
            WaveformTypeUi::Triangle => Waveform::Triangle { curve },
        }
    }
}

/// The filter choices a control panel offers.
#[derive(Clone, Copy, Debug, PartialEq, Eq, Structural)]
pub enum FilterTypeUi {
    OnePoleLpf,
    TwoPoleLpf,
}

impl FilterTypeUi {
    /// The concrete filter type for this choice, carrying the panel's
    /// current cutoff (millihertz) and resonance (Q16).
    pub fn to_filter_type(&self, cut_off: i64, q: i64) -> (f: FilterType)
        ensures
            f == match *self {
                FilterTypeUi::OnePoleLpf => FilterType::OnePoleLpf(cut_off),
                FilterTypeUi::TwoPoleLpf => FilterType::TwoPoleLpf(cut_off, q),
            },
    {
        match self {
            FilterTypeUi::OnePoleLpf => FilterType::OnePoleLpf(cut_off),
            FilterTypeUi::TwoPoleLpf => FilterType::TwoPoleLpf(cut_off, q),
        }
    }
}

} // verus!
