//! CPU status flags, kept as separate 0/1 bytes and packed into the
//! NV-BDIZC status byte on demand (bit 5 always reads as 1).

use vstd::prelude::*;
use vstd::string::StringExecFns;

verus! {

/// The seven 6502 status flags. Each field is a 0/1 value; `wf()` states
/// that invariant and every method preserves it.
pub struct Flag {
    pub flag_n: u8,
    pub flag_v: u8,
    pub flag_b: u8,
    pub flag_d: u8,
    pub flag_i: u8,
    pub flag_z: u8,
    pub flag_c: u8,
}

impl Flag {
    /// All flag bytes are 0/1 values.
    pub open spec fn wf(self) -> bool {
        self.flag_n <= 1 && self.flag_v <= 1 && self.flag_b <= 1 && self.flag_d <= 1
            && self.flag_i <= 1 && self.flag_z <= 1 && self.flag_c <= 1
    }

    /// The packed status byte: NV-BDIZC with bit 5 set.
    pub open spec fn spec_sr(self) -> u8 {
        (self.flag_c | (self.flag_z << 1) | (self.flag_i << 2) | (self.flag_d << 3) | (
        self.flag_b << 4) | (1u8 << 5) | (self.flag_v << 6) | (self.flag_n << 7)) as u8
    }

    /// The flag assignment that unpacking `value` produces; bit 5 has no flag.
    pub open spec fn spec_from_sr(value: u8) -> Flag {
        Flag {
            flag_c: if value & (1u8 << 0) != 0 { 1u8 } else { 0u8 },
            flag_z: if value & (1u8 << 1) != 0 { 1u8 } else { 0u8 },
            flag_i: if value & (1u8 << 2) != 0 { 1u8 } else { 0u8 },
            flag_d: if value & (1u8 << 3) != 0 { 1u8 } else { 0u8 },
            flag_b: if value & (1u8 << 4) != 0 { 1u8 } else { 0u8 },
            flag_v: if value & (1u8 << 6) != 0 { 1u8 } else { 0u8 },
            flag_n: if value & (1u8 << 7) != 0 { 1u8 } else { 0u8 },
        }
    }

    pub fn get_sr(&self) -> (r: u8)
        ensures
            r == self.spec_sr(),
    {
        return self.flag_c | (self.flag_z << 1) | (self.flag_i << 2) | (self.flag_d << 3) | (
        self.flag_b << 4) | (1 << 5) | (self.flag_v << 6) | (self.flag_n << 7);
    }

    pub fn set_sr(&mut self, value: u8)
        ensures
            *final(self) == Flag::spec_from_sr(value),
            final(self).wf(),
    {
        self.flag_c = self.u8_to_bool(value & (1 << 0));
        self.flag_z = self.u8_to_bool(value & (1 << 1));
        self.flag_i = self.u8_to_bool(value & (1 << 2));
        self.flag_d = self.u8_to_bool(value & (1 << 3));
        self.flag_b = self.u8_to_bool(value & (1 << 4));
        self.flag_v = self.u8_to_bool(value & (1 << 6));
        self.flag_n = self.u8_to_bool(value & (1 << 7));
    }

    pub fn u8_to_bool(&self, set: u8) -> (r: u8)
        ensures
            r == (if set != 0 { 1u8 } else { 0u8 }),
    {
        return match set {
            0 => 0,
            _ => 1,
        };
    }

    pub fn bool_to_u8(&self, set: bool) -> (r: u8)
        ensures
            r == (if set { 1u8 } else { 0u8 }),
    {
        return match set {
            true => 1,
            false => 0,
        };
    }

    pub fn set_flag_n(&mut self, set: bool)
        ensures
            *final(self) == (Flag { flag_n: if set { 1u8 } else { 0u8 }, ..*old(self) }),
    {
        self.flag_n = self.bool_to_u8(set);
    }

    pub fn set_flag_v(&mut self, set: bool)
        ensures
            *final(self) == (Flag { flag_v: if set { 1u8 } else { 0u8 }, ..*old(self) }),
    {
        self.flag_v = self.bool_to_u8(set);
    }

    pub fn set_flag_b(&mut self, set: bool)
        ensures
            *final(self) == (Flag { flag_b: if set { 1u8 } else { 0u8 }, ..*old(self) }),
    {
        self.flag_b = self.bool_to_u8(set);
    }

    pub fn set_flag_d(&mut self, set: bool)
        ensures
            *final(self) == (Flag { flag_d: if set { 1u8 } else { 0u8 }, ..*old(self) }),
    {
        self.flag_d = self.bool_to_u8(set);
    }

    pub fn set_flag_i(&mut self, set: bool)
        ensures
            *final(self) == (Flag { flag_i: if set { 1u8 } else { 0u8 }, ..*old(self) }),
    {
        self.flag_i = self.bool_to_u8(set);
    }

    pub fn set_flag_z(&mut self, set: bool)
        ensures
            *final(self) == (Flag { flag_z: if set { 1u8 } else { 0u8 }, ..*old(self) }),
    {
        self.flag_z = self.bool_to_u8(set);
    }

    pub fn set_flag_c(&mut self, set: bool)
        ensures
            *final(self) == (Flag { flag_c: if set { 1u8 } else { 0u8 }, ..*old(self) }),
    {
        self.flag_c = self.bool_to_u8(set);
    }

    pub fn get_flag_n(&self) -> (r: bool)
        requires
            self.wf(),
        ensures
            r == (self.flag_n == 1),
    {
        return self.flag_n == 1;
    }

    pub fn get_flag_v(&self) -> (r: bool)
        requires
            self.wf(),
        ensures
            r == (self.flag_v == 1),
    {
        return self.flag_v == 1;
    }

    pub fn get_flag_b(&self) -> (r: bool)
        requires
            self.wf(),
        ensures
            r == (self.flag_b == 1),
    {
        return self.flag_b == 1;
    }

    pub fn get_flag_d(&self) -> (r: bool)
        requires
            self.wf(),
        ensures
            r == (self.flag_d == 1),
    {
        return self.flag_d == 1;
    }

    pub fn get_flag_i(&self) -> (r: bool)
        requires
            self.wf(),
        ensures
            r == (self.flag_i == 1),
    {
        return self.flag_i == 1;
    }

    pub fn get_flag_z(&self) -> (r: bool)
        requires
            self.wf(),
        ensures
            r == (self.flag_z == 1),
    {
        return self.flag_z == 1;
    }

    pub fn get_flag_c(&self) -> (r: bool)
        requires
            self.wf(),
        ensures
            r == (self.flag_c == 1),
    {
        return self.flag_c == 1;
    }

    /// The text form of the flags, NV-BDIZC order: each set flag's letter
    /// between brackets.
    pub open spec fn spec_formatted(self) -> Seq<char> {
        "[ "@ + (if self.flag_n == 1 {
            "N "@
        } else {
            Seq::<char>::empty()
        }) + (if self.flag_v == 1 {
            "V "@
        } else {
            Seq::<char>::empty()
        }) + (if self.flag_b == 1 {
            "B "@
        } else {
            Seq::<char>::empty()
        }) + (if self.flag_d == 1 {
            "D "@
        } else {
            Seq::<char>::empty()
        }) + (if self.flag_i == 1 {
            "I "@
        } else {
            Seq::<char>::empty()
        }) + (if self.flag_z == 1 {
            "Z "@
        } else {
            Seq::<char>::empty()
        }) + (if self.flag_c == 1 {
            "C "@
        } else {
            Seq::<char>::empty()
        }) + "]"@
    }

    pub fn get_formatted_str(&self) -> (r: String)
        requires
            self.wf(),
        ensures
            r@ == self.spec_formatted(),
    {
        let mut output = String::new();
        output.append("[ ");
        if self.get_flag_n() {
            output.append("N ");
        }
        if self.get_flag_v() {
            output.append("V ");
        }
        if self.get_flag_b() {
            output.append("B ");
        }
        if self.get_flag_d() {
            output.append("D ");
        }
        if self.get_flag_i() {
            output.append("I ");
        }
        if self.get_flag_z() {
            output.append("Z ");
        }
        if self.get_flag_c() {
            output.append("C ");
        }
        output.append("]");
        proof {
            assert(output@ =~= self.spec_formatted());
        }
        return output;
    }
}

/// Unpacking a packed status byte restores every flag, with the B flag taken
/// from bit 4 of the byte and bit 5 discarded: the round trip through
/// `get_sr` and `set_sr` is the identity on well-formed flags.
pub proof fn lemma_sr_round_trip(f: Flag)
    requires
        f.wf(),
    ensures
        Flag::spec_from_sr(f.spec_sr()) == f,
{
    let c = f.flag_c;
    let z = f.flag_z;
    let i = f.flag_i;
    let d = f.flag_d;
    let b = f.flag_b;
    let v = f.flag_v;
    let n = f.flag_n;
    let sr = f.spec_sr();
    assert((if sr & (1u8 << 0) != 0 { 1u8 } else { 0u8 }) == c && (if sr & (1u8 << 1) != 0 {
        1u8
    } else {
        0u8
    }) == z && (if sr & (1u8 << 2) != 0 { 1u8 } else { 0u8 }) == i && (if sr & (1u8 << 3) != 0 {
        1u8
    } else {
        0u8
    }) == d && (if sr & (1u8 << 4) != 0 { 1u8 } else { 0u8 }) == b && (if sr & (1u8 << 6) != 0 {
        1u8
    } else {
        0u8
    }) == v && (if sr & (1u8 << 7) != 0 { 1u8 } else { 0u8 }) == n) by (bit_vector)
        requires
            c <= 1 && z <= 1 && i <= 1 && d <= 1 && b <= 1 && v <= 1 && n <= 1,
            sr == (c | (z << 1) | (i << 2) | (d << 3) | (b << 4) | (1u8 << 5) | (v << 6) | (n
                << 7)) as u8,
    ;
}

} // verus!
