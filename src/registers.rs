use vstd::prelude::*;

verus! {

/// One of the four condition flags of the flag register.
#[derive(Clone, Copy, Debug, PartialEq, Eq, Structural)]
pub enum CpuFlag {
    Zero,
    Subtract,
    HalfCarry,
    Carry,
}

/// One of the 8-bit general registers.
#[derive(Clone, Copy, Debug, PartialEq, Eq, Structural)]
pub enum CpuReg {
    A,
    B,
    C,
    D,
    H,
    L,
}

/// The flag register, held as four booleans.
///
/// Packed, it is the byte `0bZNHC_0000`: zero at bit 7, subtract at bit 6,
/// half carry at bit 5 and carry at bit 4; the low nibble is always zero.
#[derive(Clone, Copy, Debug, PartialEq, Eq, Structural)]
pub struct Flags {
    pub zero: bool,
    pub subtract: bool,
    pub half_carry: bool,
    pub carry: bool,
}

/// The value a set bit contributes when `b` holds, else zero.
pub open spec fn bit_if(b: bool, weight: u8) -> u8 {
    if b {
        weight
    } else {
        0
    }
}

impl Flags {
    /// The packed byte `0bZNHC_0000` of these flags.
    pub open spec fn spec_byte(&self) -> u8 {
        (bit_if(self.zero, 0x80) + bit_if(self.subtract, 0x40) + bit_if(self.half_carry, 0x20)
            + bit_if(self.carry, 0x10)) as u8
    }

    /// The flags that the high nibble of `value` holds.
    pub open spec fn spec_from_bits(value: u8) -> Flags {
        Flags {
            zero: value & 0x80 != 0,
            subtract: value & 0x40 != 0,
            half_carry: value & 0x20 != 0,
            carry: value & 0x10 != 0,
        }
    }

    /// The state after boot: zero, half carry and carry set, subtract clear.
    pub fn new() -> (r: Self)
        ensures
            r == (Flags { zero: true, subtract: false, half_carry: true, carry: true }),
            r.spec_byte() == 0b1011_0000,
    {
        Self { zero: true, subtract: false, half_carry: true, carry: true }
    }

    /// Combines the flags into a byte of the form `0bZNHC_0000`.
    pub fn as_byte(&self) -> (r: u8)
        ensures
            r == self.spec_byte(),
    {
        let mut bits: u8 = 0;
        if self.zero {
            bits = bits + 0x80;
        }
        if self.subtract {
            bits = bits + 0x40;
        }
        if self.half_carry {
            bits = bits + 0x20;
        }
        if self.carry {
            bits = bits + 0x10;
        }
        bits
    }

    /// Sets the flags from the high nibble of `value`; the low nibble is ignored.
    pub fn set_bits(&mut self, value: u8)
        ensures
            *final(self) == Flags::spec_from_bits(value),
    {
        self.zero = value & 0b1000_0000 > 0;
        self.subtract = value & 0b0100_0000 > 0;
        self.half_carry = value & 0b0010_0000 > 0;
        self.carry = value & 0b0001_0000 > 0;
    }
}

/// Packing the flags of a byte gives back the byte's high nibble.
pub proof fn lemma_byte_of_bits(value: u8)
    ensures
        Flags::spec_from_bits(value).spec_byte() == value & 0xF0,
{
    assert((bit_if(value & 0x80 != 0, 0x80) + bit_if(value & 0x40 != 0, 0x40) + bit_if(
        value & 0x20 != 0,
        0x20,
    ) + bit_if(value & 0x10 != 0, 0x10)) as u8 == value & 0xF0) by (bit_vector);
}

/// Setting the flags from a byte and packing them again keeps the byte's high
/// nibble exactly and reads the low nibble as zero.
pub proof fn lemma_flags_set_then_read(value: u8)
    ensures
        Flags::spec_from_bits(value).spec_byte() & 0xF0 == value & 0xF0,
        Flags::spec_from_bits(value).spec_byte() & 0x0F == 0,
{
    lemma_byte_of_bits(value);
    assert((value & 0xF0) & 0xF0 == value & 0xF0) by (bit_vector);
    assert((value & 0xF0) & 0x0F == 0) by (bit_vector);
}

/// Packing flags and setting them back from that byte gives the same flags.
pub proof fn lemma_flags_read_then_set(f: Flags)
    ensures
        Flags::spec_from_bits(f.spec_byte()) == f,
{
    let z = f.zero;
    let n = f.subtract;
    let h = f.half_carry;
    let c = f.carry;
    let b = (bit_if(z, 0x80) + bit_if(n, 0x40) + bit_if(h, 0x20) + bit_if(c, 0x10)) as u8;
    assert(b == f.spec_byte());
    assert((b & 0x80 != 0) == z && (b & 0x40 != 0) == n && (b & 0x20 != 0) == h && (b & 0x10
        != 0) == c) by (bit_vector)
        requires
            b == (bit_if(z, 0x80) + bit_if(n, 0x40) + bit_if(h, 0x20) + bit_if(c, 0x10)) as u8,
    ;
}

/// The 16-bit word whose high byte is `hi` and low byte is `lo`: `hi * 256 + lo`.
pub open spec fn word(hi: u8, lo: u8) -> u16 {
    (hi as int * 256 + lo as int) as u16
}

/// The high byte of `v`: `v / 256`.
pub open spec fn high_byte(v: u16) -> u8 {
    (v / 256) as u8
}

/// The low byte of `v`: `v % 256`.
pub open spec fn low_byte(v: u16) -> u8 {
    (v % 256) as u8
}

/// The processor's register file.
///
/// The pairs BC, DE, HL and AF are not stored: they are views over two 8-bit
/// fields each, with the packed flags as the low byte of AF.
#[derive(Clone, Copy, Debug, PartialEq, Eq, Structural)]
pub struct Registers {
    pub a: u8,
    pub f: Flags,
    pub b: u8,
    pub c: u8,
    pub d: u8,
    pub e: u8,
    pub h: u8,
    pub l: u8,
    pub sp: u16,
    pub pc: u16,
    pub ime: bool,
}

impl Registers {
    pub open spec fn spec_bc(&self) -> u16 {
        word(self.b, self.c)
    }

    pub open spec fn spec_de(&self) -> u16 {
        word(self.d, self.e)
    }

    pub open spec fn spec_hl(&self) -> u16 {
        word(self.h, self.l)
    }

    pub open spec fn spec_af(&self) -> u16 {
        word(self.a, self.f.spec_byte())
    }

    /// These registers with BC set to `v`.
    pub open spec fn spec_with_bc(self, v: u16) -> Registers {
        Registers { b: high_byte(v), c: low_byte(v), ..self }
    }

    /// These registers with DE set to `v`.
    pub open spec fn spec_with_de(self, v: u16) -> Registers {
        Registers { d: high_byte(v), e: low_byte(v), ..self }
    }

    /// These registers with HL set to `v`.
    pub open spec fn spec_with_hl(self, v: u16) -> Registers {
        Registers { h: high_byte(v), l: low_byte(v), ..self }
    }

    /// These registers with AF set to `v`: the flags take the high nibble of
    /// the low byte.
    pub open spec fn spec_with_af(self, v: u16) -> Registers {
        Registers { a: high_byte(v), f: Flags::spec_from_bits(low_byte(v)), ..self }
    }

    /// The register state after boot.
    pub fn new() -> (r: Self)
        ensures
            r == (Registers {
                a: 0x01,
                f: Flags { zero: true, subtract: false, half_carry: true, carry: true },
                b: 0x00,
                c: 0x13,
                d: 0x00,
                e: 0xD8,
                h: 0x01,
                l: 0x4D,
                sp: 0xFFFE,
                pc: 0x0100,
                ime: true,
            }),
            r.f.spec_byte() == 0b1011_0000,
    {
        Self {
            a: 0x01,
            f: Flags::new(),
            b: 0x00,
            c: 0x13,
            d: 0x00,
            e: 0xD8,
            h: 0x01,
            l: 0x4D,
            sp: 0xFFFE,
            pc: 0x0100,
            ime: true,
        }
    }

    /// Gets the word stored in the `BC` register pair.
    pub fn get_bc(&self) -> (r: u16)
        ensures
            r == self.spec_bc(),
    {
        join(self.b, self.c)
    }

    /// Sets the word stored in the `BC` register pair.
    pub fn set_bc(&mut self, value: u16)
        ensures
            *final(self) == old(self).spec_with_bc(value),
    {
        self.b = high_of(value);
        self.c = low_of(value);
    }

    /// Gets the word stored in the `DE` register pair.
    pub fn get_de(&self) -> (r: u16)
        ensures
            r == self.spec_de(),
    {
        join(self.d, self.e)
    }

    /// Sets the word stored in the `DE` register pair.
    pub fn set_de(&mut self, value: u16)
        ensures
            *final(self) == old(self).spec_with_de(value),
    {
        self.d = high_of(value);
        self.e = low_of(value);
    }

    /// Gets the word stored in the `HL` register pair.
    pub fn get_hl(&self) -> (r: u16)
        ensures
            r == self.spec_hl(),
    {
        join(self.h, self.l)
    }

    /// Sets the word stored in the `HL` register pair.
    pub fn set_hl(&mut self, value: u16)
        ensures
            *final(self) == old(self).spec_with_hl(value),
    {
        self.h = high_of(value);
        self.l = low_of(value);
    }

    /// Gets the word stored in the `AF` register pair.
    pub fn get_af(&self) -> (r: u16)
        ensures
            r == self.spec_af(),
    {
        join(self.a, self.f.as_byte())
    }

    /// Sets the word stored in the `AF` register pair; the low nibble is dropped.
    pub fn set_af(&mut self, value: u16)
        ensures
            *final(self) == old(self).spec_with_af(value),
    {
        self.a = high_of(value);
        self.f.set_bits(low_of(value));
    }

    /// Gets the `zero` flag.
    pub fn get_zf(&self) -> (r: bool)
        ensures
            r == self.f.zero,
    {
        self.f.zero
    }

    /// Sets the `zero` flag.
    pub fn set_zf(&mut self, value: bool)
        ensures
            *final(self) == (Registers { f: Flags { zero: value, ..old(self).f }, ..*old(self) }),
    {
        self.f.zero = value;
    }

    /// Gets the `subtract` flag.
    pub fn get_nf(&self) -> (r: bool)
        ensures
            r == self.f.subtract,
    {
        self.f.subtract
    }

    /// Sets the `subtract` flag.
    pub fn set_nf(&mut self, value: bool)
        ensures
            *final(self) == (Registers {
                f: Flags { subtract: value, ..old(self).f },
                ..*old(self)
            }),
    {
        self.f.subtract = value;
    }

    /// Gets the `half carry` flag.
    pub fn get_hf(&self) -> (r: bool)
        ensures
            r == self.f.half_carry,
    {
        self.f.half_carry
    }

    /// Sets the `half carry` flag.
    pub fn set_hf(&mut self, value: bool)
        ensures
            *final(self) == (Registers {
                f: Flags { half_carry: value, ..old(self).f },
                ..*old(self)
            }),
    {
        self.f.half_carry = value;
    }

    /// Gets the `carry` flag.
    pub fn get_cf(&self) -> (r: bool)
        ensures
            r == self.f.carry,
    {
        self.f.carry
    }

    /// Sets the `carry` flag.
    pub fn set_cf(&mut self, value: bool)
        ensures
            *final(self) == (Registers { f: Flags { carry: value, ..old(self).f }, ..*old(self) }),
    {
        self.f.carry = value;
    }
}

/// Composes a word from its high and low bytes.
fn join(hi: u8, lo: u8) -> (r: u16)
    ensures
        r == word(hi, lo),
{
    let r = ((hi as u16) << 8) | lo as u16;
    assert(((hi as u16) << 8) | (lo as u16) == (hi as int * 256 + lo as int) as u16)
        by (bit_vector);
    r
}

/// The high byte of a word.
fn high_of(v: u16) -> (r: u8)
    ensures
        r == high_byte(v),
{
    let r = (v >> 8) as u8;
    assert((v >> 8) as u8 == (v / 256) as u8) by (bit_vector);
    r
}

/// The low byte of a word.
fn low_of(v: u16) -> (r: u8)
    ensures
        r == low_byte(v),
{
    let r = (v & 0xFF) as u8;
    assert((v & 0xFF) as u8 == (v % 256) as u8) by (bit_vector);
    r
}

/// Writing a register pair and reading it back gives the written word for BC,
/// DE and HL; for AF it gives the word with its low nibble cleared.
pub proof fn lemma_pairs_set_then_get(r: Registers, v: u16)
    ensures
        r.spec_with_bc(v).spec_bc() == v,
        r.spec_with_de(v).spec_de() == v,
        r.spec_with_hl(v).spec_hl() == v,
        r.spec_with_af(v).spec_af() & 0xFFF0 == v & 0xFFF0,
        r.spec_with_af(v).spec_af() & 0x000F == 0,
{
    assert(word(high_byte(v), low_byte(v)) == v) by (bit_vector);
    lemma_byte_of_bits(low_byte(v));
    assert(word(high_byte(v), low_byte(v) & 0xF0) & 0xFFF0 == v & 0xFFF0) by (bit_vector);
    assert(word(high_byte(v), low_byte(v) & 0xF0) & 0x000F == 0) by (bit_vector);
}

/// The uppercase hexadecimal digit of `d`, for `d < 16`.
pub open spec fn hex_digit(d: int) -> Seq<char> {
    if d == 0 {
        "0"@
    } else if d == 1 {
        "1"@
    } else if d == 2 {
        "2"@
    } else if d == 3 {
        "3"@
    } else if d == 4 {
        "4"@
    } else if d == 5 {
        "5"@
    } else if d == 6 {
        "6"@
    } else if d == 7 {
        "7"@
    } else if d == 8 {
        "8"@
    } else if d == 9 {
        "9"@
    } else if d == 10 {
        "A"@
    } else if d == 11 {
        "B"@
    } else if d == 12 {
        "C"@
    } else if d == 13 {
        "D"@
    } else if d == 14 {
        "E"@
    } else {
        "F"@
    }
}

/// `v` as `0x` and two uppercase hexadecimal digits.
pub open spec fn hex8(v: u8) -> Seq<char> {
    "0x"@ + hex_digit(v as int / 16) + hex_digit(v as int % 16)
}

/// `v` as `0x` and four uppercase hexadecimal digits.
pub open spec fn hex16(v: u16) -> Seq<char> {
    "0x"@ + hex_digit(v as int / 4096) + hex_digit((v as int / 256) % 16) + hex_digit(
        (v as int / 16) % 16,
    ) + hex_digit(v as int % 16)
}

/// The binary digits of the top `n` bits of `v`, most significant first.
pub open spec fn binary_digits(v: u8, n: nat) -> Seq<char>
    decreases n,
{
    if n == 0 {
        Seq::empty()
    } else {
        binary_digits(v, (n - 1) as nat) + if (v >> ((8 - n) as u8)) & 1 == 1 {
            "1"@
        } else {
            "0"@
        }
    }
}

/// The diagnostic text of a register file, one field per line.
pub open spec fn spec_dump(r: Registers) -> Seq<char> {
    "[REGISTER] a: "@ + hex8(r.a) + "\n[REGISTER] b: "@ + hex8(r.b) + "\n[REGISTER] c: "@ + hex8(r.c)
        + "\n[REGISTER] d: "@ + hex8(r.d) + "\n[REGISTER] e: "@ + hex8(r.e) + "\n[REGISTER] h: "@
        + hex8(r.h) + "\n[REGISTER] l: "@ + hex8(r.l) + "\n[REGISTER] sp: "@ + hex16(r.sp) + "\n[REGISTER] pc: "@ + hex16(r.pc)
        + "\n[REGISTER] ime: "@ + (if r.ime {
        "1"@
    } else {
        "0"@
    }) + "\n[REGISTER] flags: 0b"@ + binary_digits(r.f.spec_byte(), 8)
}

fn digit_text(d: u16) -> (r: &'static str)
    requires
        d < 16,
    ensures
        r@ == hex_digit(d as int),
{
    if d == 0 {
        "0"
    } else if d == 1 {
        "1"
    } else if d == 2 {
        "2"
    } else if d == 3 {
        "3"
    } else if d == 4 {
        "4"
    } else if d == 5 {
        "5"
    } else if d == 6 {
        "6"
    } else if d == 7 {
        "7"
    } else if d == 8 {
        "8"
    } else if d == 9 {
        "9"
    } else if d == 10 {
        "A"
    } else if d == 11 {
        "B"
    } else if d == 12 {
        "C"
    } else if d == 13 {
        "D"
    } else if d == 14 {
        "E"
    } else {
        "F"
    }
}

fn append_hex8(s: &mut String, v: u8)
    ensures
        final(s)@ == old(s)@ + hex8(v),
{
    s.append("0x");
    s.append(digit_text(v as u16 / 16));
    s.append(digit_text(v as u16 % 16));
}

fn append_hex16(s: &mut String, v: u16)
    ensures
        final(s)@ == old(s)@ + hex16(v),
{
    s.append("0x");
    s.append(digit_text(v / 4096));
    s.append(digit_text((v / 256) % 16));
    s.append(digit_text((v / 16) % 16));
    s.append(digit_text(v % 16));
}

fn append_binary8(s: &mut String, v: u8)
    ensures
        final(s)@ == old(s)@ + binary_digits(v, 8),
{
    let ghost start = s@;
    let mut n: u8 = 0;
    while n < 8
        invariant
            n <= 8,
            s@ == start + binary_digits(v, n as nat),
        decreases 8 - n,
    {
        if (v >> (7 - n)) & 1 == 1 {
            s.append("1");
        } else {
            s.append("0");
        }
        n = n + 1;
        assert(s@ =~= start + binary_digits(v, n as nat));
    }
}

impl Registers {
    /// The diagnostic text of the registers: each 8-bit register as `0x` and two
    /// hexadecimal digits, `sp` and `pc` with four, `ime` as `0` or `1`, and
    /// the packed flags as eight binary digits.
    pub fn dump(&self) -> (r: String)
        ensures
            r@ == spec_dump(*self),
    {
        let mut s = String::new();
        s.append("[REGISTER] a: ");
        append_hex8(&mut s, self.a);
        s.append("\n[REGISTER] b: ");
        append_hex8(&mut s, self.b);
        s.append("\n[REGISTER] c: ");
        append_hex8(&mut s, self.c);
        s.append("\n[REGISTER] d: ");
        append_hex8(&mut s, self.d);
        s.append("\n[REGISTER] e: ");
        append_hex8(&mut s, self.e);
        s.append("\n[REGISTER] h: ");
        append_hex8(&mut s, self.h);
        s.append("\n[REGISTER] l: ");
        append_hex8(&mut s, self.l);
        s.append("\n[REGISTER] sp: ");
        append_hex16(&mut s, self.sp);
        s.append("\n[REGISTER] pc: ");
        append_hex16(&mut s, self.pc);
        s.append("\n[REGISTER] ime: ");
        if self.ime {
            s.append("1");
        } else {
            s.append("0");
        }
        s.append("\n[REGISTER] flags: 0b");
        append_binary8(&mut s, self.f.as_byte());
        assert(s@ =~= spec_dump(*self));
        s
    }
}

} // verus!
