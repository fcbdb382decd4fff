//! Control logic of a guitar amp DSP firmware: stage bookkeeping, circular
//! delay-line addressing, preset lookup, Bluetooth and USB audio state.

pub mod tonestack;
pub mod bluetooth;
pub mod delay_line;
pub mod usb_audio;
pub mod preset;
pub mod cabinet_irs;
pub mod preamp;
pub mod fir_filter;
pub mod cabinet;
