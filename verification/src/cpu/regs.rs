use vstd::prelude::*;
use crate::error::Error;

verus! {

/// The 16-bit value whose high byte is `hi` and whose low byte is `lo`.
pub open spec fn pair(hi: u8, lo: u8) -> u16 {
    (hi * 256 + lo) as u16
}

/// The high byte of a 16-bit value.
pub open spec fn high_byte(value: u16) -> u8 {
    (value / 256) as u8
}

/// The low byte of a 16-bit value.
pub open spec fn low_byte(value: u16) -> u8 {
    (value % 256) as u8
}

/// Splitting a 16-bit value into its bytes and pairing them again gives the value back,
/// and pairing two bytes and splitting the pair gives the bytes back.
pub proof fn lemma_pair_bytes(hi: u8, lo: u8, value: u16)
    ensures
        pair(high_byte(value), low_byte(value)) == value,
        high_byte(pair(hi, lo)) == hi,
        low_byte(pair(hi, lo)) == lo,
{
}

/// A register pair that was set to a value reads as that value, on either bank, and
/// setting it leaves the other three pairs as they were.
pub proof fn lemma_pair_round_trip(set: RegisterSet, value: u16)
    ensures
        set.with_af(value).af_value() == value,
        set.with_bc(value).bc_value() == value,
        set.with_de(value).de_value() == value,
        set.with_hl(value).hl_value() == value,
        set.with_af(value).bc_value() == set.bc_value(),
        set.with_af(value).de_value() == set.de_value(),
        set.with_af(value).hl_value() == set.hl_value(),
        set.with_bc(value).af_value() == set.af_value(),
        set.with_bc(value).de_value() == set.de_value(),
        set.with_bc(value).hl_value() == set.hl_value(),
        set.with_de(value).af_value() == set.af_value(),
        set.with_de(value).bc_value() == set.bc_value(),
        set.with_de(value).hl_value() == set.hl_value(),
        set.with_hl(value).af_value() == set.af_value(),
        set.with_hl(value).bc_value() == set.bc_value(),
        set.with_hl(value).de_value() == set.de_value(),
{
    lemma_pair_bytes(0, 0, value);
}

/// Joins two bytes into a 16-bit value, `hi` above `lo`.
pub fn make_pair(hi: u8, lo: u8) -> (value: u16)
    ensures
        value == pair(hi, lo),
{
    let value: u16 = (hi as u16) << 8 | (lo as u16);
    assert(((hi as u16) << 8 | (lo as u16)) == (hi as u16) * 256 + (lo as u16)) by (bit_vector);
    value
}

/// Splits a 16-bit value into its high and its low byte.
pub fn split_pair(value: u16) -> (bytes: (u8, u8))
    ensures
        bytes.0 == high_byte(value),
        bytes.1 == low_byte(value),
{
    let hi: u8 = (value >> 8) as u8;
    let lo: u8 = (value & 0x00FF) as u8;
    assert((value >> 8) as u8 == (value / 256) as u8) by (bit_vector);
    assert((value & 0x00FF) as u8 == (value % 256) as u8) by (bit_vector);
    (hi, lo)
}

/// The documented bits of the flag register.
#[derive(Clone, Copy, Debug, PartialEq, Eq, Structural)]
pub enum Flag {
    /// Sign, bit 7.
    S,
    /// Zero, bit 6.
    Z,
    /// Half-carry, bit 4.
    H,
    /// Parity or overflow, bit 2.
    PV,
    /// Add or subtract, bit 1.
    N,
    /// Carry, bit 0.
    C,
}

impl Flag {
    /// The byte that has the flag's bit set and no other.
    pub open spec fn mask(self) -> u8 {
        match self {
            Flag::S => 0x80,
            Flag::Z => 0x40,
            Flag::H => 0x10,
            Flag::PV => 0x04,
            Flag::N => 0x02,
            Flag::C => 0x01,
        }
    }

    /// The flag's mask, as a value to compute with.
    pub fn bit(self) -> (mask: u8)
        ensures
            mask == self.mask(),
    {
        match self {
            Flag::S => 0x80,
            Flag::Z => 0x40,
            Flag::H => 0x10,
            Flag::PV => 0x04,
            Flag::N => 0x02,
            Flag::C => 0x01,
        }
    }
}

/// One bank of the eight 8-bit registers.
#[derive(Clone, Copy, Debug, PartialEq, Eq, Structural)]
pub struct RegisterSet {
    pub a: u8,
    pub f: u8,
    pub b: u8,
    pub c: u8,
    pub d: u8,
    pub e: u8,
    pub h: u8,
    pub l: u8,
}

/// Whether `ix` is the 3-bit code of an 8-bit register. The code `0b110` stands for a
/// memory operand and names none.
pub open spec fn is_register_index(ix: u8) -> bool {
    ix < 8 && ix != 0b110
}

impl RegisterSet {
    /// A bank with every register zero.
    pub fn new() -> (set: Self)
        ensures
            set == (RegisterSet { a: 0, f: 0, b: 0, c: 0, d: 0, e: 0, h: 0, l: 0 }),
    {
        Self { a: 0, f: 0, b: 0, c: 0, d: 0, e: 0, h: 0, l: 0 }
    }

    pub fn a(&self) -> (value: u8)
        ensures
            value == self.a,
    {
        self.a
    }

    pub fn f(&self) -> (value: u8)
        ensures
            value == self.f,
    {
        self.f
    }

    pub fn b(&self) -> (value: u8)
        ensures
            value == self.b,
    {
        self.b
    }

    pub fn c(&self) -> (value: u8)
        ensures
            value == self.c,
    {
        self.c
    }

    pub fn d(&self) -> (value: u8)
        ensures
            value == self.d,
    {
        self.d
    }

    pub fn e(&self) -> (value: u8)
        ensures
            value == self.e,
    {
        self.e
    }

    pub fn h(&self) -> (value: u8)
        ensures
            value == self.h,
    {
        self.h
    }

    pub fn l(&self) -> (value: u8)
        ensures
            value == self.l,
    {
        self.l
    }

    pub fn set_a(&mut self, value: u8)
        ensures
            *final(self) == (RegisterSet { a: value, ..*old(self) }),
    {
        self.a = value;
    }

    pub fn set_f(&mut self, value: u8)
        ensures
            *final(self) == (RegisterSet { f: value, ..*old(self) }),
    {
        self.f = value;
    }

    pub fn set_b(&mut self, value: u8)
        ensures
            *final(self) == (RegisterSet { b: value, ..*old(self) }),
    {
        self.b = value;
    }

    pub fn set_c(&mut self, value: u8)
        ensures
            *final(self) == (RegisterSet { c: value, ..*old(self) }),
    {
        self.c = value;
    }

    pub fn set_d(&mut self, value: u8)
        ensures
            *final(self) == (RegisterSet { d: value, ..*old(self) }),
    {
        self.d = value;
    }

    pub fn set_e(&mut self, value: u8)
        ensures
            *final(self) == (RegisterSet { e: value, ..*old(self) }),
    {
        self.e = value;
    }

    pub fn set_h(&mut self, value: u8)
        ensures
            *final(self) == (RegisterSet { h: value, ..*old(self) }),
    {
        self.h = value;
    }

    pub fn set_l(&mut self, value: u8)
        ensures
            *final(self) == (RegisterSet { l: value, ..*old(self) }),
    {
        self.l = value;
    }

    /// The pair AF: A is its high byte and F its low byte.
    pub open spec fn af_value(self) -> u16 {
        pair(self.a, self.f)
    }

    /// The bank with AF set to `value` and every other register kept.
    pub open spec fn with_af(self, value: u16) -> RegisterSet {
        RegisterSet { a: high_byte(value), f: low_byte(value), ..self }
    }

    pub fn af(&self) -> (value: u16)
        ensures
            value == self.af_value(),
    {
        make_pair(self.a, self.f)
    }

    pub fn set_af(&mut self, value: u16)
        ensures
            *final(self) == old(self).with_af(value),
            final(self).af_value() == value,
    {
        let (hi, lo) = split_pair(value);
        self.a = hi;
        self.f = lo;
        proof {
            lemma_pair_bytes(0, 0, value);
        }
    }

    /// The pair BC: B is its high byte and C its low byte.
    pub open spec fn bc_value(self) -> u16 {
        pair(self.b, self.c)
    }

    /// The bank with BC set to `value` and every other register kept.
    pub open spec fn with_bc(self, value: u16) -> RegisterSet {
        RegisterSet { b: high_byte(value), c: low_byte(value), ..self }
    }

    pub fn bc(&self) -> (value: u16)
        ensures
            value == self.bc_value(),
    {
        make_pair(self.b, self.c)
    }

    pub fn set_bc(&mut self, value: u16)
        ensures
            *final(self) == old(self).with_bc(value),
            final(self).bc_value() == value,
    {
        let (hi, lo) = split_pair(value);
        self.b = hi;
        self.c = lo;
        proof {
            lemma_pair_bytes(0, 0, value);
        }
    }

    /// The pair DE: D is its high byte and E its low byte.
    pub open spec fn de_value(self) -> u16 {
        pair(self.d, self.e)
    }

    /// The bank with DE set to `value` and every other register kept.
    pub open spec fn with_de(self, value: u16) -> RegisterSet {
        RegisterSet { d: high_byte(value), e: low_byte(value), ..self }
    }

    pub fn de(&self) -> (value: u16)
        ensures
            value == self.de_value(),
    {
        make_pair(self.d, self.e)
    }

    pub fn set_de(&mut self, value: u16)
        ensures
            *final(self) == old(self).with_de(value),
            final(self).de_value() == value,
    {
        let (hi, lo) = split_pair(value);
        self.d = hi;
        self.e = lo;
        proof {
            lemma_pair_bytes(0, 0, value);
        }
    }

    /// The pair HL: H is its high byte and L its low byte.
    pub open spec fn hl_value(self) -> u16 {
        pair(self.h, self.l)
    }

    /// The bank with HL set to `value` and every other register kept.
    pub open spec fn with_hl(self, value: u16) -> RegisterSet {
        RegisterSet { h: high_byte(value), l: low_byte(value), ..self }
    }

    pub fn hl(&self) -> (value: u16)
        ensures
            value == self.hl_value(),
    {
        make_pair(self.h, self.l)
    }

    pub fn set_hl(&mut self, value: u16)
        ensures
            *final(self) == old(self).with_hl(value),
            final(self).hl_value() == value,
    {
        let (hi, lo) = split_pair(value);
        self.h = hi;
        self.l = lo;
        proof {
            lemma_pair_bytes(0, 0, value);
        }
    }

    /// The register that the 3-bit code `ix` names.
    pub open spec fn reg(self, ix: u8) -> u8
        recommends
            is_register_index(ix),
    {
        if ix == 0b000 {
            self.b
        } else if ix == 0b001 {
            self.c
        } else if ix == 0b010 {
            self.d
        } else if ix == 0b011 {
            self.e
        } else if ix == 0b100 {
            self.h
        } else if ix == 0b101 {
            self.l
        } else {
            self.a
        }
    }

    /// The bank with the register that `ix` names set to `value` and every other kept.
    pub open spec fn with_reg(self, ix: u8, value: u8) -> RegisterSet
        recommends
            is_register_index(ix),
    {
        if ix == 0b000 {
            RegisterSet { b: value, ..self }
        } else if ix == 0b001 {
            RegisterSet { c: value, ..self }
        } else if ix == 0b010 {
            RegisterSet { d: value, ..self }
        } else if ix == 0b011 {
            RegisterSet { e: value, ..self }
        } else if ix == 0b100 {
            RegisterSet { h: value, ..self }
        } else if ix == 0b101 {
            RegisterSet { l: value, ..self }
        } else {
            RegisterSet { a: value, ..self }
        }
    }

    /// Writes `value` to the register that `ix` names.
    pub fn set_reg(&mut self, ix: u8, value: u8) -> (result: Result<(), Error>)
        ensures
            is_register_index(ix) ==> result == Ok::<(), Error>(()) && *final(self) == old(self).with_reg(
                ix,
                value,
            ),
            !is_register_index(ix) ==> result == Err::<(), Error>(Error::BadRegisterIndex)
                && *final(self) == *old(self),
    {
        match ix {
            0b000 => {
                self.set_b(value);
                Ok(())
            },
            0b001 => {
                self.set_c(value);
                Ok(())
            },
            0b010 => {
                self.set_d(value);
                Ok(())
            },
            0b011 => {
                self.set_e(value);
                Ok(())
            },
            0b100 => {
                self.set_h(value);
                Ok(())
            },
            0b101 => {
                self.set_l(value);
                Ok(())
            },
            0b111 => {
                self.set_a(value);
                Ok(())
            },
            _ => Err(Error::BadRegisterIndex),
        }
    }

    /// Reads the register that `ix` names.
    pub fn get_reg(&self, ix: u8) -> (result: Result<u8, Error>)
        ensures
            is_register_index(ix) ==> result == Ok::<u8, Error>(self.reg(ix)),
            !is_register_index(ix) ==> result == Err::<u8, Error>(Error::BadRegisterIndex),
    {
        match ix {
            0b000 => Ok(self.b()),
            0b001 => Ok(self.c()),
            0b010 => Ok(self.d()),
            0b011 => Ok(self.e()),
            0b100 => Ok(self.h()),
            0b101 => Ok(self.l()),
            0b111 => Ok(self.a()),
            _ => Err(Error::BadRegisterIndex),
        }
    }

    /// Whether `flag` is set in F.
    pub open spec fn flag(self, flag: Flag) -> bool {
        self.f & flag.mask() != 0
    }

    /// The bank with `flag` set in F if `on` holds and cleared if not, and every other
    /// bit of F and every other register kept.
    pub open spec fn with_flag(self, flag: Flag, on: bool) -> RegisterSet {
        if on {
            RegisterSet { f: self.f | flag.mask(), ..self }
        } else {
            RegisterSet { f: self.f & !flag.mask(), ..self }
        }
    }

    /// Sets the bit of `flag` in F.
    pub fn set_flag(&mut self, flag: Flag)
        ensures
            *final(self) == old(self).with_flag(flag, true),
    {
        self.f = self.f | flag.bit();
    }

    /// Clears the bit of `flag` in F.
    pub fn reset_flag(&mut self, flag: Flag)
        ensures
            *final(self) == old(self).with_flag(flag, false),
    {
        self.f = self.f & !flag.bit();
    }

    /// Sets the bit of `flag` in F if `on` holds, and clears it if not.
    pub fn put_flag(&mut self, flag: Flag, on: bool)
        ensures
            *final(self) == old(self).with_flag(flag, on),
    {
        if on {
            self.set_flag(flag)
        } else {
            self.reset_flag(flag)
        }
    }

    /// Tells whether the bit of `flag` is set in F.
    pub fn get_flag(&self, flag: Flag) -> (set: bool)
        ensures
            set == self.flag(flag),
    {
        self.f & flag.bit() != 0
    }
}

/// After `flag` was put, it reads as it was put, and every other flag reads as before.
pub proof fn lemma_with_flag(set: RegisterSet, flag: Flag, on: bool, other: Flag)
    ensures
        set.with_flag(flag, on).flag(flag) == on,
        other != flag ==> set.with_flag(flag, on).flag(other) == set.flag(other),
{
    let f = set.f;
    let m = flag.mask();
    let n = other.mask();
    assert(m == 0x80 || m == 0x40 || m == 0x10 || m == 0x04 || m == 0x02 || m == 0x01);
    assert(n == 0x80 || n == 0x40 || n == 0x10 || n == 0x04 || n == 0x02 || n == 0x01);
    assert(other != flag ==> n != m);
    assert((m == 0x80 || m == 0x40 || m == 0x10 || m == 0x04 || m == 0x02 || m == 0x01) ==> ((f | m)
        & m != 0) && ((f & !m) & m == 0)) by (bit_vector);
    assert((m == 0x80 || m == 0x40 || m == 0x10 || m == 0x04 || m == 0x02 || m == 0x01) && (n
        == 0x80 || n == 0x40 || n == 0x10 || n == 0x04 || n == 0x02 || n == 0x01) && n != m ==> ((f
        | m) & n == f & n) && ((f & !m) & n == f & n)) by (bit_vector);
}

/// The interrupt mode, one of three.
#[derive(Clone, Copy, Debug, PartialEq, Eq, Structural)]
pub enum InterruptMode {
    Mode0,
    Mode1,
    Mode2,
}

/// The whole register file of the processor.
#[derive(Clone, Copy, Debug, PartialEq, Eq, Structural)]
pub struct Registers {
    /// The main bank.
    pub main: RegisterSet,
    /// The alternate bank.
    pub alt: RegisterSet,
    /// Program counter.
    pub pc: u16,
    /// Stack pointer.
    pub sp: u16,
    /// Index register IX.
    pub ix: u16,
    /// Index register IY.
    pub iy: u16,
    /// Interrupt vector.
    pub i: u8,
    /// Memory refresh.
    pub r: u8,
    /// Interrupt enable flip-flop 1.
    pub iff1: bool,
    /// Interrupt enable flip-flop 2.
    pub iff2: bool,
    /// Interrupt mode.
    pub im: InterruptMode,
}

impl Registers {
    /// The register file after power-on: every register zero, interrupts disabled, mode 0.
    pub open spec fn initial() -> Registers {
        Registers {
            main: RegisterSet { a: 0, f: 0, b: 0, c: 0, d: 0, e: 0, h: 0, l: 0 },
            alt: RegisterSet { a: 0, f: 0, b: 0, c: 0, d: 0, e: 0, h: 0, l: 0 },
            pc: 0,
            sp: 0,
            ix: 0,
            iy: 0,
            i: 0,
            r: 0,
            iff1: false,
            iff2: false,
            im: InterruptMode::Mode0,
        }
    }

    /// The register file after power-on.
    pub fn new() -> (regs: Self)
        ensures
            regs == Registers::initial(),
    {
        Self {
            main: RegisterSet::new(),
            alt: RegisterSet::new(),
            pc: 0,
            sp: 0,
            ix: 0,
            iy: 0,
            i: 0,
            r: 0,
            iff1: false,
            iff2: false,
            im: InterruptMode::Mode0,
        }
    }
}

} // verus!
