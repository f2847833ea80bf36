use vstd::prelude::*;

verus! {

/// The high surrogate of a scalar value beyond the BMP.
pub open spec fn high_surrogate(v: u32) -> u16 {
    (((v - 0x10000) / 0x400) + 0xD800) as u16
}

/// The low surrogate of a scalar value beyond the BMP.
pub open spec fn low_surrogate(v: u32) -> u16 {
    (((v - 0x10000) % 0x400) + 0xDC00) as u16
}

/// The sequence of 16-bit scan values that delivers one substitute: the
/// value itself for a BMP character, else the surrogate pair, high first,
/// low second.
pub open spec fn utf16_units(v: u32) -> Seq<u16> {
    if v <= 0xFFFF {
        seq![v as u16]
    } else {
        seq![high_surrogate(v), low_surrogate(v)]
    }
}

/// Converts a resolved substitute character into the synthetic Unicode
/// input events to submit, each event carrying one 16-bit scan value and no
/// virtual-key code. Order matters: receivers reconstruct a character
/// beyond the BMP only if the high surrogate arrives before the low one.
pub fn synthesize_units(substitute: char) -> (r: Vec<u16>)
    ensures
        r@ == utf16_units(substitute as u32),
{
    let v = substitute as u32;
    let mut out: Vec<u16> = Vec::new();
    if v <= 0xFFFF {
        out.push(v as u16);
    } else {
        let high: u16 = ((v - 0x10000) / 0x400 + 0xD800) as u16;
        let low: u16 = ((v - 0x10000) % 0x400 + 0xDC00) as u16;
        out.push(high);
        out.push(low);
    }
    out
}

/// Shape of the encoding: a BMP value is delivered as its single unit; a
/// value beyond the BMP as exactly two units, a high surrogate then a low
/// surrogate, from which the receiver reconstructs the original value.
pub proof fn lemma_utf16_units_shape(v: u32)
    requires
        v <= 0x10FFFF,
    ensures
        v <= 0xFFFF ==> utf16_units(v) == seq![v as u16],
        v > 0xFFFF ==> {
            &&& utf16_units(v).len() == 2
            &&& 0xD800 <= utf16_units(v)[0] < 0xDC00
            &&& 0xDC00 <= utf16_units(v)[1] < 0xE000
            &&& 0x10000 + (utf16_units(v)[0] - 0xD800) * 0x400 + (utf16_units(v)[1] - 0xDC00) == v
        },
{
}

} // verus!
