//! Optional architecture features, as the modelled core implements them: a Cortex-M3
//! without the DSP extension, the floating-point extension or trapping of division by zero.
use vstd::prelude::*;

verus! {

/// The core has no DSP extension.
pub open spec fn dsp_extension() -> bool {
    false
}

/// `HaveDSPExt()`: whether the DSP extension is implemented.
pub fn have_dsp_ext() -> (r: bool)
    ensures
        r == dsp_extension(),
{
    false
}

/// `HaveFPExt()`: whether the floating-point extension is implemented.
pub fn have_fp_ext() -> (r: bool)
    ensures
        !r,
{
    false
}

/// `IntegerZeroDivideTrappingEnabled()`: whether a division by zero traps (CCR.DIV_0_TRP).
pub fn integer_zero_divide_trapping_enabled() -> (r: bool)
    ensures
        !r,
{
    false
}

} // verus!
