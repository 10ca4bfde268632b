use vstd::prelude::*;

verus! {

/// Reading and writing bit fields of an unsigned word.
///
/// A field is `len` bits wide and starts at bit `shift_left` (bit 0 is the
/// least significant one).
pub trait CanManipulateBits: Sized {
    /// The field lies within the word and the shifts that build its mask
    /// stay below the word's width.
    spec fn field_fits(shift_left: Self, len: Self) -> bool;

    /// Bit `shift_left` lies within the word.
    spec fn bit_fits(shift_left: Self) -> bool;

    /// The word whose bits `shift_left .. shift_left + len` are set, and no others.
    spec fn mask_spec(shift_left: Self, len: Self) -> Self;

    /// The value held by the field, moved down to bit 0.
    spec fn field_spec(x: Self, shift_left: Self, len: Self) -> Self;

    /// `x` with the field replaced by the low `len` bits of `val`.
    spec fn with_field_spec(x: Self, shift_left: Self, len: Self, val: Self) -> Self;

    /// `x` with bit `shift_left` set when `enable` holds and cleared otherwise.
    spec fn with_bit_spec(x: Self, shift_left: Self, enable: bool) -> Self;

    fn create_mask(shift_left: Self, len: Self) -> (r: Self)
        requires
            Self::field_fits(shift_left, len),
        ensures
            r == Self::mask_spec(shift_left, len),
    ;

    fn get_bits(&self, shift_left: Self, len: Self) -> (r: Self)
        requires
            Self::field_fits(shift_left, len),
        ensures
            r == Self::field_spec(*self, shift_left, len),
    ;

    fn set_bits(&self, shift_left: Self, len: Self, val: Self) -> (r: Self)
        requires
            Self::field_fits(shift_left, len),
        ensures
            r == Self::with_field_spec(*self, shift_left, len, val),
    ;

    fn set_one_bit(&self, shift_left: Self, enable: bool) -> (r: Self)
        requires
            Self::bit_fits(shift_left),
        ensures
            r == Self::with_bit_spec(*self, shift_left, enable),
    ;
}

impl CanManipulateBits for u64 {
    open spec fn field_fits(shift_left: u64, len: u64) -> bool {
        shift_left < 64 && len < 64 && shift_left + len <= 64
    }

    open spec fn bit_fits(shift_left: u64) -> bool {
        shift_left < 64
    }

    open spec fn mask_spec(shift_left: u64, len: u64) -> u64 {
        (((1u64 << len) - 1) as u64) << shift_left
    }

    open spec fn field_spec(x: u64, shift_left: u64, len: u64) -> u64 {
        (x >> shift_left) & (((1u64 << len) - 1) as u64)
    }

    open spec fn with_field_spec(x: u64, shift_left: u64, len: u64, val: u64) -> u64 {
        (x & !Self::mask_spec(shift_left, len)) | ((val << shift_left) & Self::mask_spec(
            shift_left,
            len,
        ))
    }

    open spec fn with_bit_spec(x: u64, shift_left: u64, enable: bool) -> u64 {
        if enable {
            x | (1u64 << shift_left)
        } else {
            x & !(1u64 << shift_left)
        }
    }

    fn create_mask(shift_left: u64, len: u64) -> (r: u64) {
        assert(1u64 << len >= 1) by (bit_vector)
            requires
                len < 64,
        ;
        ((1u64 << len) - 1) << shift_left
    }

    fn get_bits(&self, shift_left: u64, len: u64) -> (r: u64) {
        let m = Self::create_mask(0, len);
        assert(m == ((1u64 << len) - 1) as u64) by (bit_vector)
            requires
                m == (((1u64 << len) - 1) as u64) << 0u64,
        ;
        (*self >> shift_left) & m
    }

    fn set_bits(&self, shift_left: u64, len: u64, val: u64) -> (r: u64) {
        let mask = Self::create_mask(shift_left, len);
        (*self & !mask) | ((val << shift_left) & mask)
    }

    fn set_one_bit(&self, shift_left: u64, enable: bool) -> (r: u64) {
        let v: u64 = if enable {
            1
        } else {
            0
        };
        let r = self.set_bits(shift_left, 1, v);
        proof {
            let x = *self;
            let s = shift_left;
            if enable {
                assert(((x & !((((1u64 << 1u64) - 1) as u64) << s)) | ((1u64 << s) & ((((1u64
                    << 1u64) - 1) as u64) << s))) == x | (1u64 << s)) by (bit_vector)
                    requires
                        s < 64,
                ;
            } else {
                assert(((x & !((((1u64 << 1u64) - 1) as u64) << s)) | ((0u64 << s) & ((((1u64
                    << 1u64) - 1) as u64) << s))) == x & !(1u64 << s)) by (bit_vector)
                    requires
                        s < 64,
                ;
            }
        }
        r
    }
}

impl CanManipulateBits for u8 {
    open spec fn field_fits(shift_left: u8, len: u8) -> bool {
        shift_left < 8 && len < 8 && shift_left + len <= 8
    }

    open spec fn bit_fits(shift_left: u8) -> bool {
        shift_left < 8
    }

    open spec fn mask_spec(shift_left: u8, len: u8) -> u8 {
        (((1u8 << len) - 1) as u8) << shift_left
    }

    open spec fn field_spec(x: u8, shift_left: u8, len: u8) -> u8 {
        (x >> shift_left) & (((1u8 << len) - 1) as u8)
    }

    open spec fn with_field_spec(x: u8, shift_left: u8, len: u8, val: u8) -> u8 {
        (x & !Self::mask_spec(shift_left, len)) | ((val << shift_left) & Self::mask_spec(
            shift_left,
            len,
        ))
    }

    open spec fn with_bit_spec(x: u8, shift_left: u8, enable: bool) -> u8 {
        if enable {
            x | (1u8 << shift_left)
        } else {
            x & !(1u8 << shift_left)
        }
    }

    fn create_mask(shift_left: u8, len: u8) -> (r: u8) {
        assert(1u8 << len >= 1) by (bit_vector)
            requires
                len < 8,
        ;
        ((1u8 << len) - 1) << shift_left
    }

    fn get_bits(&self, shift_left: u8, len: u8) -> (r: u8) {
        let m = Self::create_mask(0, len);
        assert(m == ((1u8 << len) - 1) as u8) by (bit_vector)
            requires
                m == (((1u8 << len) - 1) as u8) << 0u8,
        ;
        (*self >> shift_left) & m
    }

    fn set_bits(&self, shift_left: u8, len: u8, val: u8) -> (r: u8) {
        let mask = Self::create_mask(shift_left, len);
        (*self & !mask) | ((val << shift_left) & mask)
    }

    fn set_one_bit(&self, shift_left: u8, enable: bool) -> (r: u8) {
        let v: u8 = if enable {
            1
        } else {
            0
        };
        let r = self.set_bits(shift_left, 1, v);
        proof {
            let x = *self;
            let s = shift_left;
            if enable {
                assert(((x & !((((1u8 << 1u8) - 1) as u8) << s)) | ((1u8 << s) & ((((1u8
                    << 1u8) - 1) as u8) << s))) == x | (1u8 << s)) by (bit_vector)
                    requires
                        s < 8,
                ;
            } else {
                assert(((x & !((((1u8 << 1u8) - 1) as u8) << s)) | ((0u8 << s) & ((((1u8
                    << 1u8) - 1) as u8) << s))) == x & !(1u8 << s)) by (bit_vector)
                    requires
                        s < 8,
                ;
            }
        }
        r
    }
}

impl CanManipulateBits for u16 {
    open spec fn field_fits(shift_left: u16, len: u16) -> bool {
        shift_left < 16 && len < 16 && shift_left + len <= 16
    }

    open spec fn bit_fits(shift_left: u16) -> bool {
        shift_left < 16
    }

    open spec fn mask_spec(shift_left: u16, len: u16) -> u16 {
        (((1u16 << len) - 1) as u16) << shift_left
    }

    open spec fn field_spec(x: u16, shift_left: u16, len: u16) -> u16 {
        (x >> shift_left) & (((1u16 << len) - 1) as u16)
    }

    open spec fn with_field_spec(x: u16, shift_left: u16, len: u16, val: u16) -> u16 {
        (x & !Self::mask_spec(shift_left, len)) | ((val << shift_left) & Self::mask_spec(
            shift_left,
            len,
        ))
    }

    open spec fn with_bit_spec(x: u16, shift_left: u16, enable: bool) -> u16 {
        if enable {
            x | (1u16 << shift_left)
        } else {
            x & !(1u16 << shift_left)
        }
    }

    fn create_mask(shift_left: u16, len: u16) -> (r: u16) {
        assert(1u16 << len >= 1) by (bit_vector)
            requires
                len < 16,
        ;
        ((1u16 << len) - 1) << shift_left
    }

    fn get_bits(&self, shift_left: u16, len: u16) -> (r: u16) {
        let m = Self::create_mask(0, len);
        assert(m == ((1u16 << len) - 1) as u16) by (bit_vector)
            requires
                m == (((1u16 << len) - 1) as u16) << 0u16,
        ;
        (*self >> shift_left) & m
    }

    fn set_bits(&self, shift_left: u16, len: u16, val: u16) -> (r: u16) {
        let mask = Self::create_mask(shift_left, len);
        (*self & !mask) | ((val << shift_left) & mask)
    }

    fn set_one_bit(&self, shift_left: u16, enable: bool) -> (r: u16) {
        let v: u16 = if enable {
            1
        } else {
            0
        };
        let r = self.set_bits(shift_left, 1, v);
        proof {
            let x = *self;
            let s = shift_left;
            if enable {
                assert(((x & !((((1u16 << 1u16) - 1) as u16) << s)) | ((1u16 << s) & ((((1u16
                    << 1u16) - 1) as u16) << s))) == x | (1u16 << s)) by (bit_vector)
                    requires
                        s < 16,
                ;
            } else {
                assert(((x & !((((1u16 << 1u16) - 1) as u16) << s)) | ((0u16 << s) & ((((1u16
                    << 1u16) - 1) as u16) << s))) == x & !(1u16 << s)) by (bit_vector)
                    requires
                        s < 16,
                ;
            }
        }
        r
    }
}

impl CanManipulateBits for u32 {
    open spec fn field_fits(shift_left: u32, len: u32) -> bool {
        shift_left < 32 && len < 32 && shift_left + len <= 32
    }

    open spec fn bit_fits(shift_left: u32) -> bool {
        shift_left < 32
    }

    open spec fn mask_spec(shift_left: u32, len: u32) -> u32 {
        (((1u32 << len) - 1) as u32) << shift_left
    }

    open spec fn field_spec(x: u32, shift_left: u32, len: u32) -> u32 {
        (x >> shift_left) & (((1u32 << len) - 1) as u32)
    }

    open spec fn with_field_spec(x: u32, shift_left: u32, len: u32, val: u32) -> u32 {
        (x & !Self::mask_spec(shift_left, len)) | ((val << shift_left) & Self::mask_spec(
            shift_left,
            len,
        ))
    }

    open spec fn with_bit_spec(x: u32, shift_left: u32, enable: bool) -> u32 {
        if enable {
            x | (1u32 << shift_left)
        } else {
            x & !(1u32 << shift_left)
        }
    }

    fn create_mask(shift_left: u32, len: u32) -> (r: u32) {
        assert(1u32 << len >= 1) by (bit_vector)
            requires
                len < 32,
        ;
        ((1u32 << len) - 1) << shift_left
    }

    fn get_bits(&self, shift_left: u32, len: u32) -> (r: u32) {
        let m = Self::create_mask(0, len);
        assert(m == ((1u32 << len) - 1) as u32) by (bit_vector)
            requires
                m == (((1u32 << len) - 1) as u32) << 0u32,
        ;
        (*self >> shift_left) & m
    }

    fn set_bits(&self, shift_left: u32, len: u32, val: u32) -> (r: u32) {
        let mask = Self::create_mask(shift_left, len);
        (*self & !mask) | ((val << shift_left) & mask)
    }

    fn set_one_bit(&self, shift_left: u32, enable: bool) -> (r: u32) {
        let v: u32 = if enable {
            1
        } else {
            0
        };
        let r = self.set_bits(shift_left, 1, v);
        proof {
            let x = *self;
            let s = shift_left;
            if enable {
                assert(((x & !((((1u32 << 1u32) - 1) as u32) << s)) | ((1u32 << s) & ((((1u32
                    << 1u32) - 1) as u32) << s))) == x | (1u32 << s)) by (bit_vector)
                    requires
                        s < 32,
                ;
            } else {
                assert(((x & !((((1u32 << 1u32) - 1) as u32) << s)) | ((0u32 << s) & ((((1u32
                    << 1u32) - 1) as u32) << s))) == x & !(1u32 << s)) by (bit_vector)
                    requires
                        s < 32,
                ;
            }
        }
        r
    }
}

} // verus!
