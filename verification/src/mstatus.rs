//! The packed `mstatus` register: one 32-bit word carrying the named
//! sub-fields of the privileged specification. Each accessor's contract is
//! stated over `mstatus_get` / `mstatus_set`, and one law proves that
//! writing a sub-field round-trips and leaves every other sub-field alone.

use vstd::prelude::*;

verus! {

/// The named sub-fields of `mstatus`, each a fixed one- or two-bit slice of
/// the packed word.
#[derive(Clone, Copy, Debug, PartialEq, Eq, Structural)]
pub enum MStatusField {
    Sie,
    Mie,
    Spie,
    Ube,
    Mpie,
    Spp,
    Vs,
    Mpp,
    Fs,
    Xs,
    Mprv,
    Sum,
    Mxr,
    Tvm,
    Tw,
    Tsr,
    Spelp,
    Sdt,
    Sd,
}

/// Bit position of the least significant bit of a sub-field.
pub open spec fn field_shift(f: MStatusField) -> u32 {
    match f {
        MStatusField::Sie => 1,
        MStatusField::Mie => 3,
        MStatusField::Spie => 5,
        MStatusField::Ube => 6,
        MStatusField::Mpie => 7,
        MStatusField::Spp => 8,
        MStatusField::Vs => 9,
        MStatusField::Mpp => 11,
        MStatusField::Fs => 13,
        MStatusField::Xs => 15,
        MStatusField::Mprv => 17,
        MStatusField::Sum => 18,
        MStatusField::Mxr => 19,
        MStatusField::Tvm => 20,
        MStatusField::Tw => 21,
        MStatusField::Tsr => 22,
        MStatusField::Spelp => 23,
        MStatusField::Sdt => 24,
        MStatusField::Sd => 31,
    }
}

/// Width mask of a sub-field: 1 for one-bit fields, 3 for two-bit fields.
pub open spec fn field_mask(f: MStatusField) -> u32 {
    match f {
        MStatusField::Vs => 3,
        MStatusField::Mpp => 3,
        MStatusField::Fs => 3,
        MStatusField::Xs => 3,
        _ => 1,
    }
}

/// The value of a sub-field within a packed word.
pub open spec fn mstatus_get(w: u32, f: MStatusField) -> u32 {
    (w >> field_shift(f)) & field_mask(f)
}

/// The packed word after writing `v` (masked to the field's width) into a
/// sub-field, all other bits kept.
pub open spec fn mstatus_set(w: u32, f: MStatusField, v: u32) -> u32 {
    (w & !(field_mask(f) << field_shift(f))) | ((v & field_mask(f)) << field_shift(f))
}

/// The bit a boolean sub-field stores.
pub open spec fn bool_bit(v: bool) -> u32 {
    if v {
        1
    } else {
        0
    }
}

/// Writing a bit slice and shifting it back out yields the written value.
proof fn lemma_bits_set_get(w: u32, s1: u32, m1: u32, v: u32)
    by (bit_vector)
    requires
        m1 == 1 && s1 < 32 || m1 == 3 && s1 < 31,
    ensures
        (((w & !(m1 << s1)) | ((v & m1) << s1)) >> s1) & m1 == v & m1,
{
}

/// Writing one bit slice leaves a disjoint bit slice unchanged.
proof fn lemma_bits_set_other(w: u32, s1: u32, m1: u32, s2: u32, m2: u32, v: u32)
    by (bit_vector)
    requires
        m1 == 1 && s1 < 32 || m1 == 3 && s1 < 31,
        m2 == 1 && s2 < 32 || m2 == 3 && s2 < 31,
        s1 + (if m1 == 3 { 2u32 } else { 1u32 }) <= s2 || s2 + (if m2 == 3 { 2u32 } else { 1u32 })
            <= s1,
    ensures
        (((w & !(m1 << s1)) | ((v & m1) << s1)) >> s2) & m2 == (w >> s2) & m2,
{
}

/// Every sub-field's mask is one or three, its shift leaves the field inside
/// the word, and two distinct sub-fields occupy disjoint bit ranges.
proof fn lemma_field_layout(f: MStatusField, g: MStatusField)
    ensures
        field_mask(f) == 1 && field_shift(f) < 32 || field_mask(f) == 3 && field_shift(f) < 31,
        f != g ==> field_shift(f) + (if field_mask(f) == 3 { 2u32 } else { 1u32 }) <= field_shift(g)
            || field_shift(g) + (if field_mask(g) == 3 { 2u32 } else { 1u32 }) <= field_shift(f),
{
}

/// Law: writing a named sub-field and reading it back yields the written
/// value (masked to the field's width), and any other named sub-field reads
/// the same before and after.
pub proof fn lemma_mstatus_field_roundtrip(w: u32, f: MStatusField, g: MStatusField, v: u32)
    ensures
        mstatus_get(mstatus_set(w, f, v), f) == v & field_mask(f),
        f != g ==> mstatus_get(mstatus_set(w, f, v), g) == mstatus_get(w, g),
{
    lemma_field_layout(f, g);
    lemma_bits_set_get(w, field_shift(f), field_mask(f), v);
    if f != g {
        lemma_bits_set_other(w, field_shift(f), field_mask(f), field_shift(g), field_mask(g), v);
    }
}

/// A boolean sub-field reads back exactly the boolean that was written.
pub proof fn lemma_mstatus_bool_roundtrip(w: u32, f: MStatusField, v: bool)
    requires
        field_mask(f) == 1,
    ensures
        mstatus_get(mstatus_set(w, f, bool_bit(v)), f) == bool_bit(v),
{
    lemma_mstatus_field_roundtrip(w, f, f, bool_bit(v));
    assert(bool_bit(v) & 1 == bool_bit(v)) by (bit_vector)
        requires
            bool_bit(v) == 0 || bool_bit(v) == 1,
    ;
}

/// The packed machine-status word.
#[derive(Clone, Copy, Debug, PartialEq, Eq, Structural)]
pub struct MStatus(pub u32);

impl MStatus {
    pub fn get_sie(&self) -> (r: bool)
        ensures
            r == (mstatus_get(self.0, MStatusField::Sie) == 1),
    {
        (self.0 >> 1) & 1 == 1
    }

    pub fn set_sie(&mut self, v: bool)
        ensures
            final(self).0 == mstatus_set(old(self).0, MStatusField::Sie, bool_bit(v)),
    {
        let bit: u32 = if v { 1 } else { 0 };
        self.0 = (self.0 & !(1u32 << 1)) | ((bit & 1) << 1);
    }

    pub fn get_mie(&self) -> (r: bool)
        ensures
            r == (mstatus_get(self.0, MStatusField::Mie) == 1),
    {
        (self.0 >> 3) & 1 == 1
    }

    pub fn set_mie(&mut self, v: bool)
        ensures
            final(self).0 == mstatus_set(old(self).0, MStatusField::Mie, bool_bit(v)),
    {
        let bit: u32 = if v { 1 } else { 0 };
        self.0 = (self.0 & !(1u32 << 3)) | ((bit & 1) << 3);
    }

    pub fn get_spie(&self) -> (r: bool)
        ensures
            r == (mstatus_get(self.0, MStatusField::Spie) == 1),
    {
        (self.0 >> 5) & 1 == 1
    }

    pub fn set_spie(&mut self, v: bool)
        ensures
            final(self).0 == mstatus_set(old(self).0, MStatusField::Spie, bool_bit(v)),
    {
        let bit: u32 = if v { 1 } else { 0 };
        self.0 = (self.0 & !(1u32 << 5)) | ((bit & 1) << 5);
    }

    pub fn get_ube(&self) -> (r: bool)
        ensures
            r == (mstatus_get(self.0, MStatusField::Ube) == 1),
    {
        (self.0 >> 6) & 1 == 1
    }

    pub fn set_ube(&mut self, v: bool)
        ensures
            final(self).0 == mstatus_set(old(self).0, MStatusField::Ube, bool_bit(v)),
    {
        let bit: u32 = if v { 1 } else { 0 };
        self.0 = (self.0 & !(1u32 << 6)) | ((bit & 1) << 6);
    }

    pub fn get_mpie(&self) -> (r: bool)
        ensures
            r == (mstatus_get(self.0, MStatusField::Mpie) == 1),
    {
        (self.0 >> 7) & 1 == 1
    }

    pub fn set_mpie(&mut self, v: bool)
        ensures
            final(self).0 == mstatus_set(old(self).0, MStatusField::Mpie, bool_bit(v)),
    {
        let bit: u32 = if v { 1 } else { 0 };
        self.0 = (self.0 & !(1u32 << 7)) | ((bit & 1) << 7);
    }

    pub fn get_spp(&self) -> (r: bool)
        ensures
            r == (mstatus_get(self.0, MStatusField::Spp) == 1),
    {
        (self.0 >> 8) & 1 == 1
    }

    pub fn set_spp(&mut self, v: bool)
        ensures
            final(self).0 == mstatus_set(old(self).0, MStatusField::Spp, bool_bit(v)),
    {
        let bit: u32 = if v { 1 } else { 0 };
        self.0 = (self.0 & !(1u32 << 8)) | ((bit & 1) << 8);
    }

    pub fn get_vs(&self) -> (r: u32)
        ensures
            r == mstatus_get(self.0, MStatusField::Vs),
    {
        (self.0 >> 9) & 3
    }

    pub fn set_vs(&mut self, v: u32)
        ensures
            final(self).0 == mstatus_set(old(self).0, MStatusField::Vs, v),
    {
        self.0 = (self.0 & !(3u32 << 9)) | ((v & 3) << 9);
    }

    pub fn get_mpp(&self) -> (r: u32)
        ensures
            r == mstatus_get(self.0, MStatusField::Mpp),
    {
        (self.0 >> 11) & 3
    }

    pub fn set_mpp(&mut self, v: u32)
        ensures
            final(self).0 == mstatus_set(old(self).0, MStatusField::Mpp, v),
    {
        self.0 = (self.0 & !(3u32 << 11)) | ((v & 3) << 11);
    }

    pub fn get_fs(&self) -> (r: u32)
        ensures
            r == mstatus_get(self.0, MStatusField::Fs),
    {
        (self.0 >> 13) & 3
    }

    pub fn set_fs(&mut self, v: u32)
        ensures
            final(self).0 == mstatus_set(old(self).0, MStatusField::Fs, v),
    {
        self.0 = (self.0 & !(3u32 << 13)) | ((v & 3) << 13);
    }

    pub fn get_xs(&self) -> (r: u32)
        ensures
            r == mstatus_get(self.0, MStatusField::Xs),
    {
        (self.0 >> 15) & 3
    }

    pub fn set_xs(&mut self, v: u32)
        ensures
            final(self).0 == mstatus_set(old(self).0, MStatusField::Xs, v),
    {
        self.0 = (self.0 & !(3u32 << 15)) | ((v & 3) << 15);
    }

    pub fn get_mprv(&self) -> (r: bool)
        ensures
            r == (mstatus_get(self.0, MStatusField::Mprv) == 1),
    {
        (self.0 >> 17) & 1 == 1
    }

    pub fn set_mprv(&mut self, v: bool)
        ensures
            final(self).0 == mstatus_set(old(self).0, MStatusField::Mprv, bool_bit(v)),
    {
        let bit: u32 = if v { 1 } else { 0 };
        self.0 = (self.0 & !(1u32 << 17)) | ((bit & 1) << 17);
    }

    pub fn get_sum(&self) -> (r: bool)
        ensures
            r == (mstatus_get(self.0, MStatusField::Sum) == 1),
    {
        (self.0 >> 18) & 1 == 1
    }

    pub fn set_sum(&mut self, v: bool)
        ensures
            final(self).0 == mstatus_set(old(self).0, MStatusField::Sum, bool_bit(v)),
    {
        let bit: u32 = if v { 1 } else { 0 };
        self.0 = (self.0 & !(1u32 << 18)) | ((bit & 1) << 18);
    }

    pub fn get_mxr(&self) -> (r: bool)
        ensures
            r == (mstatus_get(self.0, MStatusField::Mxr) == 1),
    {
        (self.0 >> 19) & 1 == 1
    }

    pub fn set_mxr(&mut self, v: bool)
        ensures
            final(self).0 == mstatus_set(old(self).0, MStatusField::Mxr, bool_bit(v)),
    {
        let bit: u32 = if v { 1 } else { 0 };
        self.0 = (self.0 & !(1u32 << 19)) | ((bit & 1) << 19);
    }

    pub fn get_tvm(&self) -> (r: bool)
        ensures
            r == (mstatus_get(self.0, MStatusField::Tvm) == 1),
    {
        (self.0 >> 20) & 1 == 1
    }

    pub fn set_tvm(&mut self, v: bool)
        ensures
            final(self).0 == mstatus_set(old(self).0, MStatusField::Tvm, bool_bit(v)),
    {
        let bit: u32 = if v { 1 } else { 0 };
        self.0 = (self.0 & !(1u32 << 20)) | ((bit & 1) << 20);
    }

    pub fn get_tw(&self) -> (r: bool)
        ensures
            r == (mstatus_get(self.0, MStatusField::Tw) == 1),
    {
        (self.0 >> 21) & 1 == 1
    }

    pub fn set_tw(&mut self, v: bool)
        ensures
            final(self).0 == mstatus_set(old(self).0, MStatusField::Tw, bool_bit(v)),
    {
        let bit: u32 = if v { 1 } else { 0 };
        self.0 = (self.0 & !(1u32 << 21)) | ((bit & 1) << 21);
    }

    pub fn get_tsr(&self) -> (r: bool)
        ensures
            r == (mstatus_get(self.0, MStatusField::Tsr) == 1),
    {
        (self.0 >> 22) & 1 == 1
    }

    pub fn set_tsr(&mut self, v: bool)
        ensures
            final(self).0 == mstatus_set(old(self).0, MStatusField::Tsr, bool_bit(v)),
    {
        let bit: u32 = if v { 1 } else { 0 };
        self.0 = (self.0 & !(1u32 << 22)) | ((bit & 1) << 22);
    }

    pub fn get_spelp(&self) -> (r: bool)
        ensures
            r == (mstatus_get(self.0, MStatusField::Spelp) == 1),
    {
        (self.0 >> 23) & 1 == 1
    }

    pub fn set_spelp(&mut self, v: bool)
        ensures
            final(self).0 == mstatus_set(old(self).0, MStatusField::Spelp, bool_bit(v)),
    {
        let bit: u32 = if v { 1 } else { 0 };
        self.0 = (self.0 & !(1u32 << 23)) | ((bit & 1) << 23);
    }

    pub fn get_sdt(&self) -> (r: bool)
        ensures
            r == (mstatus_get(self.0, MStatusField::Sdt) == 1),
    {
        (self.0 >> 24) & 1 == 1
    }

    pub fn set_sdt(&mut self, v: bool)
        ensures
            final(self).0 == mstatus_set(old(self).0, MStatusField::Sdt, bool_bit(v)),
    {
        let bit: u32 = if v { 1 } else { 0 };
        self.0 = (self.0 & !(1u32 << 24)) | ((bit & 1) << 24);
    }

    pub fn get_sd(&self) -> (r: bool)
        ensures
            r == (mstatus_get(self.0, MStatusField::Sd) == 1),
    {
        (self.0 >> 31) & 1 == 1
    }

    pub fn set_sd(&mut self, v: bool)
        ensures
            final(self).0 == mstatus_set(old(self).0, MStatusField::Sd, bool_bit(v)),
    {
        let bit: u32 = if v { 1 } else { 0 };
        self.0 = (self.0 & !(1u32 << 31)) | ((bit & 1) << 31);
    }
}

} // verus!
