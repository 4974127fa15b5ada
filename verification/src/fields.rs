//! Register bit fields, computed with `tock_registers`' field values.
//!
//! A [`FieldSetting`] is the plain-value form of a `tock_registers`
//! `FieldValue<u32, _>`: the bits under `mask` take the bits of `value`.
use vstd::prelude::*;
use tock_registers::fields::FieldValue;

verus! {

/// Bits `mask` of a 32-bit register are to take the bits of `value`.
pub struct FieldSetting {
    pub mask: u32,
    pub value: u32,
}

/// `FieldValue::<u32, ()>::new(mask, shift, value)`: the field of `mask`
/// placed at bit `shift`, holding `value` cut to the field's width.
/// Trusted: the crate computes `mask << shift` and `(value & mask) << shift`.
#[verifier::external_body]
pub(crate) fn field_setting(mask: u32, shift: usize, value: u32) -> (r: FieldSetting)
    requires
        shift < 32,
    ensures
        r.mask == mask << shift,
        r.value == (value & mask) << shift,
{
    let field = FieldValue::<u32, ()>::new(mask, shift, value);
    FieldSetting { mask: field.mask(), value: field.value }
}

/// `FieldValue + FieldValue`: both settings at once.
/// Trusted: the crate ors the masks and the values; each operand is first
/// rebuilt with `FieldValue::new(mask, 0, value)`, which keeps `value & mask`.
#[verifier::external_body]
pub(crate) fn combine(a: FieldSetting, b: FieldSetting) -> (r: FieldSetting)
    ensures
        r.mask == a.mask | b.mask,
        r.value == (a.value & a.mask) | (b.value & b.mask),
{
    let sum = FieldValue::<u32, ()>::new(a.mask, 0, a.value) + FieldValue::<u32, ()>::new(
        b.mask,
        0,
        b.value,
    );
    FieldSetting { mask: sum.mask(), value: sum.value }
}

/// `FieldValue::modify`: the register value `val` with the setting applied.
/// Trusted: the crate computes `(val & !mask) | value` on the field value
/// rebuilt with `FieldValue::new(mask, 0, value)`, so `value & mask` is used.
#[verifier::external_body]
pub(crate) fn modify(setting: FieldSetting, val: u32) -> (r: u32)
    ensures
        r == (val & !setting.mask) | (setting.value & setting.mask),
{
    FieldValue::<u32, ()>::new(setting.mask, 0, setting.value).modify(val)
}

/// The setting that sets every bit of the field of `mask` at `shift`.
pub fn field_set(mask: u32, shift: usize) -> (r: FieldSetting)
    requires
        shift < 32,
    ensures
        r.mask == mask << shift,
        r.value == mask << shift,
{
    let r = field_setting(mask, shift, mask);
    assert((mask & mask) == mask) by (bit_vector);
    r
}

/// The setting that clears every bit of the field of `mask` at `shift`.
pub fn field_clear(mask: u32, shift: usize) -> (r: FieldSetting)
    requires
        shift < 32,
    ensures
        r.mask == mask << shift,
        r.value == 0,
{
    let r = field_setting(mask, shift, 0);
    assert((0u32 & mask) == 0) by (bit_vector);
    assert(forall|s: usize| s < 32 ==> (0u32 << s) == 0u32) by (bit_vector);
    r
}

} // verus!
