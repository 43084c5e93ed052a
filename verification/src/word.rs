//! Arithmetic on 16-bit machine words: sign extension of instruction fields.

use vstd::prelude::*;

verus! {

/// The word whose low `width` bits are those of `value` and whose higher bits
/// all repeat bit `width - 1` of `value`.
pub open spec fn sext_spec(value: u16, width: u16) -> u16 {
    if width >= 16 {
        value
    } else if (value >> ((width - 1) as u16)) & 1u16 == 1u16 {
        value | (0xffffu16 << width)
    } else {
        value & !(0xffffu16 << width)
    }
}

/// Sign-extends the `width`-bit field held in the low bits of `value`.
pub fn sext(value: u16, width: u16) -> (r: u16)
    requires
        1 <= width <= 16,
    ensures
        r == sext_spec(value, width),
{
    if width >= 16 {
        value
    } else {
        let high: u16 = 0xffffu16 << width;
        if (value >> (width - 1)) & 1u16 == 1u16 {
            value | high
        } else {
            value & !high
        }
    }
}

/// Bounds on the fields of an instruction word: a three-bit field is below
/// eight, an eight-bit field below 256, the four-bit code below sixteen, and
/// a vector's table entry lies in 0x0100 to 0x01ff.
pub proof fn lemma_field_bounds(w: u16)
    by (bit_vector)
    ensures
        w & 7 < 8,
        (w >> 9) & 7 < 8,
        (w >> 6) & 7 < 8,
        ((w >> 9) & 7) & 7 == (w >> 9) & 7,
        ((w >> 6) & 7) & 7 == (w >> 6) & 7,
        w & 0xff < 0x100,
        0x100 <= 0x100 | w & 0xff < 0x200,
        w >> 12 < 16,
{
}

/// Sign extension to the full word width changes nothing, so extending a
/// field and then extending the result to sixteen bits gives the field's
/// extension again.
pub proof fn lemma_sext_full_width(value: u16, width: u16)
    requires
        1 <= width <= 16,
    ensures
        sext_spec(value, 16) == value,
        sext_spec(sext_spec(value, width), 16) == sext_spec(value, width),
{
}

/// A word that already is the extension of a `width`-bit field is left as it
/// is by every extension from `width` bits or more.
pub proof fn lemma_sext_idempotent(value: u16, width: u16, wider: u16)
    requires
        1 <= width <= wider <= 16,
    ensures
        sext_spec(sext_spec(value, width), wider) == sext_spec(value, width),
{
    if wider < 16 {
        assert(sext_spec(sext_spec(value, width), wider) == sext_spec(value, width)) by (bit_vector)
            requires
                1 <= width <= wider < 16,
        ;
    }
}

/// Sign extension keeps the field itself: the low `width` bits of the result
/// are the low `width` bits of the input.
pub proof fn lemma_sext_keeps_field(value: u16, width: u16)
    requires
        1 <= width < 16,
    ensures
        sext_spec(value, width) & !(0xffffu16 << width) == value & !(0xffffu16 << width),
{
    assert(sext_spec(value, width) & !(0xffffu16 << width) == value & !(0xffffu16 << width))
        by (bit_vector)
        requires
            1 <= width < 16,
    ;
}

/// Read as a two's-complement number, the extension of a field is the field's
/// own value: a field below half its range stands for itself, any other for
/// itself less two to the power `width`.
pub proof fn lemma_sext_value(value: u16, width: u16)
    requires
        1 <= width < 16,
        value < (1u16 << width),
    ensures
        value < (1u16 << ((width - 1) as u16)) ==> sext_spec(value, width) == value,
        value >= (1u16 << ((width - 1) as u16)) ==> sext_spec(value, width) == value + 0x10000
            - (1u16 << width),
{
    assert(value < (1u16 << ((width - 1) as u16)) ==> sext_spec(value, width) == value)
        by (bit_vector)
        requires
            1 <= width < 16,
            value < (1u16 << width),
    ;
    assert(value >= (1u16 << ((width - 1) as u16)) ==> sext_spec(value, width) == value + 0x10000
        - (1u16 << width)) by (bit_vector)
        requires
            1 <= width < 16,
            value < (1u16 << width),
    ;
}

} // verus!
