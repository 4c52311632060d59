//! Decoding of the packed fields that Win32 messages carry in their parameters.
use vstd::prelude::*;

verus! {

/// A 16-bit word read as a signed number.
pub open spec fn signed_word(word: int) -> int {
    if word < 0x8000 {
        word
    } else {
        word - 0x1_0000
    }
}

/// Bits 0 to 15 of `value`, as a number from 0 to 65535.
pub open spec fn low_word(value: int) -> int {
    value % 0x1_0000
}

/// Bits 16 to 31 of `value`, as a number from 0 to 65535.
pub open spec fn high_word(value: int) -> int {
    (value / 0x1_0000) % 0x1_0000
}

/// The pointer position that a mouse message carries: x in the low word, y in
/// the high word, both signed.
pub open spec fn x_y_of_lparam(l_param: isize) -> (i16, i16) {
    (
        signed_word(low_word(l_param as int)) as i16,
        signed_word(high_word(l_param as int)) as i16,
    )
}

/// The wheel rotation that a wheel message carries: the high word of
/// `w_param`, signed.
pub open spec fn wheel_delta_of_wparam(w_param: usize) -> i16 {
    signed_word(high_word(w_param as int)) as i16
}

/// Whether `l_param` holds the pair `(x, y)` in its two lowest words. Bits
/// above the second word are free.
pub open spec fn holds_x_y(l_param: isize, x: i16, y: i16) -> bool {
    &&& low_word(l_param as int) == (x as int) % 0x1_0000
    &&& high_word(l_param as int) == (y as int) % 0x1_0000
}

/// Reads the pointer position out of the `l_param` of a mouse message.
pub fn get_x_y_lparam(l_param: isize) -> (position: (i16, i16))
    ensures
        position == x_y_of_lparam(l_param),
{
    let low: isize = l_param & 0xFFFF;
    let high: isize = (l_param >> 16) & 0xFFFF;
    proof {
        assert((low as i16) as int == (if (l_param as int) % 0x1_0000 < 0x8000 {
            (l_param as int) % 0x1_0000
        } else {
            (l_param as int) % 0x1_0000 - 0x1_0000
        })) by (bit_vector)
            requires
                low == l_param & 0xFFFF,
        ;
        assert((high as i16) as int == (if ((l_param as int) / 0x1_0000) % 0x1_0000 < 0x8000 {
            ((l_param as int) / 0x1_0000) % 0x1_0000
        } else {
            ((l_param as int) / 0x1_0000) % 0x1_0000 - 0x1_0000
        })) by (bit_vector)
            requires
                high == (l_param >> 16) & 0xFFFF,
        ;
    }
    (#[verifier::truncate] (low as i16), #[verifier::truncate] (high as i16))
}

/// Reads the wheel rotation out of the `w_param` of a wheel message.
pub fn get_wheel_delta_wparam(w_param: usize) -> (delta: i16)
    ensures
        delta == wheel_delta_of_wparam(w_param),
{
    let high: usize = (w_param >> 16) & 0xFFFF;
    proof {
        assert((high as i16) as int == (if ((w_param as int) / 0x1_0000) % 0x1_0000 < 0x8000 {
            ((w_param as int) / 0x1_0000) % 0x1_0000
        } else {
            ((w_param as int) / 0x1_0000) % 0x1_0000 - 0x1_0000
        })) by (bit_vector)
            requires
                high == (w_param >> 16) & 0xFFFF,
        ;
    }
    #[verifier::truncate] (high as i16)
}

/// The pair `(x, y)` packed into 32 bits: `x` in the low word, `y` in the high
/// word, the whole read as a signed number.
pub open spec fn packed_x_y(x: i16, y: i16) -> int {
    let unsigned = (x as int) % 0x1_0000 + 0x1_0000 * ((y as int) % 0x1_0000);
    if unsigned < 0x8000_0000 {
        unsigned
    } else {
        unsigned - 0x1_0000_0000
    }
}

/// Packs a pointer position as mouse messages carry it.
pub fn make_lparam(x: i16, y: i16) -> (l_param: isize)
    ensures
        l_param == packed_x_y(x, y),
        holds_x_y(l_param, x, y),
{
    let low: u32 = (#[verifier::truncate] (x as u16)) as u32;
    let high: u32 = (#[verifier::truncate] (y as u16)) as u32;
    let packed: u32 = (high << 16) | low;
    let signed: i32 = #[verifier::truncate] (packed as i32);
    proof {
        assert(low as int == (x as int) % 0x1_0000) by (bit_vector)
            requires
                low == (x as u16) as u32,
        ;
        assert(high as int == (y as int) % 0x1_0000) by (bit_vector)
            requires
                high == (y as u16) as u32,
        ;
        assert(packed as int == low + 0x1_0000 * high) by (bit_vector)
            requires
                low < 0x1_0000,
                high < 0x1_0000,
                packed == (high << 16) | low,
        ;
        assert(signed as int == (if packed < 0x8000_0000 {
            packed as int
        } else {
            packed - 0x1_0000_0000
        })) by (bit_vector)
            requires
                signed == packed as i32,
        ;
    }
    signed as isize
}

/// Decoding gives back the position that was packed, whatever the bits above
/// the second word hold.
pub proof fn lemma_x_y_round_trip(l_param: isize, x: i16, y: i16)
    requires
        holds_x_y(l_param, x, y),
    ensures
        x_y_of_lparam(l_param) == (x, y),
{
}

} // verus!
