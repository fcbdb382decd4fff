//! FIR filter bookkeeping: the tap budget, how many taps each filter design
//! uses, and the status report of a filter.

use vstd::prelude::*;

verus! {

/// Maximum number of FIR taps supported.
pub const MAX_TAPS: usize = 128;

/// Number of taps of the windowed-sinc designs (odd, for a symmetric response).
pub const DESIGN_TAPS: usize = 63;

/// The kind of filter that a parameter update asks for.
#[derive(Debug, Clone, Copy, PartialEq, Eq, Structural)]
pub enum FilterKind {
    /// Flat response (passthrough).
    Bypass,
    /// Windowed-sinc low-pass.
    LowPass,
    /// Spectrally inverted low-pass.
    HighPass,
    /// Difference of two low-pass designs.
    BandPass,
    /// Band-pass blended with the dry signal.
    Parametric,
    /// Coefficients sent by the phone app.
    Custom,
}

/// Number of active taps after an update to `kind`, from `current` taps,
/// when `custom_len` coefficients came with the update.
pub open spec fn spec_taps_after_update(kind: FilterKind, current: int, custom_len: int) -> int {
    match kind {
        FilterKind::Bypass => 1,
        FilterKind::Custom => if custom_len == 0 {
            current
        } else if custom_len < MAX_TAPS {
            custom_len
        } else {
            MAX_TAPS as int
        },
        _ => DESIGN_TAPS as int,
    }
}

/// Number of active taps after a parameter update: one for bypass, the design
/// length for the windowed-sinc designs, the number of custom coefficients
/// (at most [`MAX_TAPS`]) for a custom filter, and no change for a custom
/// update that brings no coefficients.
pub fn taps_after_update(kind: FilterKind, current: usize, custom_len: usize) -> (n: usize)
    ensures
        n == spec_taps_after_update(kind, current as int, custom_len as int),
        kind == FilterKind::Bypass ==> n == 1,
        kind != FilterKind::Bypass && kind != FilterKind::Custom ==> n == DESIGN_TAPS,
        kind == FilterKind::Custom && custom_len == 0 ==> n == current,
        kind == FilterKind::Custom && 1 <= custom_len <= MAX_TAPS ==> n == custom_len,
        kind == FilterKind::Custom && custom_len > MAX_TAPS ==> n == MAX_TAPS,
{
    match kind {
        FilterKind::Bypass => 1,
        FilterKind::Custom => if custom_len == 0 {
            current
        } else if custom_len < MAX_TAPS {
            custom_len
        } else {
            MAX_TAPS
        },
        _ => DESIGN_TAPS,
    }
}

/// Filter status information.
#[derive(Debug, Clone)]
pub struct FilterInfo {
    pub num_taps: usize,
    pub sample_rate: u32,
    pub is_updating: bool,
}

/// What an update does to the tap count, for every filter kind and every
/// starting count: bypass leaves one tap; the low-pass, high-pass, band-pass
/// and parametric designs use 63 taps; a custom update with `k` coefficients
/// uses `min(k, 128)` taps, all of them when `k <= 128`; a custom update
/// without coefficients keeps the current count.
pub proof fn lemma_taps_after_update(kind: FilterKind, current: int, custom_len: int)
    requires
        custom_len >= 0,
    ensures
        kind == FilterKind::Bypass ==> spec_taps_after_update(kind, current, custom_len) == 1,
        kind == FilterKind::LowPass || kind == FilterKind::HighPass || kind == FilterKind::BandPass
            || kind == FilterKind::Parametric ==> spec_taps_after_update(kind, current, custom_len)
            == 63,
        kind == FilterKind::Custom && custom_len == 0 ==> spec_taps_after_update(
            kind,
            current,
            custom_len,
        ) == current,
        kind == FilterKind::Custom && 1 <= custom_len <= 128 ==> spec_taps_after_update(
            kind,
            current,
            custom_len,
        ) == custom_len,
        kind == FilterKind::Custom && custom_len > 128 ==> spec_taps_after_update(
            kind,
            current,
            custom_len,
        ) == 128,
        kind == FilterKind::Custom && custom_len >= 1 ==> spec_taps_after_update(
            kind,
            current,
            custom_len,
        ) <= custom_len,
{
}

/// An update never leaves a filter with more taps than the delay line holds,
/// nor with none, when it starts from a valid tap count.
pub proof fn lemma_update_keeps_taps_in_range(kind: FilterKind, current: int, custom_len: int)
    requires
        1 <= current <= MAX_TAPS,
        custom_len >= 0,
    ensures
        1 <= spec_taps_after_update(kind, current, custom_len) <= MAX_TAPS,
{
}

} // verus!
