//! Handle mapping unsigned integers to bytes and back.

use vstd::prelude::*;

verus! {

/// The two bytes of `value`, most significant first.
pub open spec fn be_bytes_u16(value: u16) -> Seq<u8> {
    seq![(value / 0x100) as u8, (value % 0x100) as u8]
}

/// The four bytes of `value`, most significant first.
pub open spec fn be_bytes_u32(value: u32) -> Seq<u8> {
    seq![
        (value / 0x100_0000) as u8,
        (value / 0x1_0000 % 0x100) as u8,
        (value / 0x100 % 0x100) as u8,
        (value % 0x100) as u8,
    ]
}

/// The eight bytes of `value`, most significant first.
pub open spec fn be_bytes_u64(value: u64) -> Seq<u8> {
    seq![
        (value / 0x100_0000_0000_0000) as u8,
        (value / 0x1_0000_0000_0000 % 0x100) as u8,
        (value / 0x100_0000_0000 % 0x100) as u8,
        (value / 0x1_0000_0000 % 0x100) as u8,
        (value / 0x100_0000 % 0x100) as u8,
        (value / 0x1_0000 % 0x100) as u8,
        (value / 0x100 % 0x100) as u8,
        (value % 0x100) as u8,
    ]
}

/// The ASCII code of the upper-case hexadecimal digit for `nibble`.
pub open spec fn hex_digit(nibble: int) -> u8
    recommends
        0 <= nibble < 16,
{
    if nibble < 10 {
        (0x30 + nibble) as u8
    } else {
        (0x41 + nibble - 10) as u8
    }
}

/// A byte as two upper-case hexadecimal digits, such as `D2`.
pub open spec fn hex_pair(byte: u8) -> Seq<u8> {
    seq![hex_digit(byte as int / 16), hex_digit(byte as int % 16)]
}

/// A byte as a hexadecimal literal, such as `0xD2`.
pub open spec fn hex_literal(byte: u8) -> Seq<u8> {
    seq![0x30u8, 0x78u8] + hex_pair(byte)
}

/// A number in decimal, without leading zeros, as ASCII codes.
pub open spec fn decimal(value: nat) -> Seq<u8>
    decreases value,
{
    if value < 10 {
        seq![(0x30 + value) as u8]
    } else {
        decimal(value / 10).push((0x30 + value % 10) as u8)
    }
}

/// A number in upper-case hexadecimal, without leading zeros, as ASCII
/// codes.
pub open spec fn hex_number(value: nat) -> Seq<u8>
    decreases value,
{
    if value < 16 {
        seq![hex_digit(value as int)]
    } else {
        hex_number(value / 16).push(hex_digit((value % 16) as int))
    }
}

/// Whether every byte is an ASCII code.
pub open spec fn is_ascii_text(bytes: Seq<u8>) -> bool {
    forall|i: int| 0 <= i < bytes.len() ==> #[trigger] bytes[i] < 0x80
}

/// A decimal number is written in ASCII.
pub proof fn lemma_decimal_ascii(value: nat)
    ensures
        is_ascii_text(decimal(value)),
    decreases value,
{
    if value >= 10 {
        lemma_decimal_ascii(value / 10);
    }
}

/// A hexadecimal number is written in ASCII.
pub proof fn lemma_hex_number_ascii(value: nat)
    ensures
        is_ascii_text(hex_number(value)),
    decreases value,
{
    if value >= 16 {
        lemma_hex_number_ascii(value / 16);
    }
}

/// The text of a run of bytes is written in ASCII.
pub proof fn lemma_dump_ascii(bytes: Seq<u8>, hex: bool, commas: bool)
    ensures
        is_ascii_text(dump_text(bytes, hex, commas)),
    decreases bytes.len(),
{
    if bytes.len() > 0 {
        lemma_decimal_ascii(bytes.last() as nat);
        if bytes.len() > 1 {
            lemma_dump_ascii(bytes.drop_last(), hex, commas);
        }
    }
}

/// The text written for one byte: a hexadecimal literal where commas are
/// used, two bare hexadecimal digits where they are not, and the decimal
/// number when `hex` is off.
pub open spec fn byte_text(byte: u8, hex: bool, commas: bool) -> Seq<u8> {
    if !hex {
        decimal(byte as nat)
    } else if commas {
        hex_literal(byte)
    } else {
        hex_pair(byte)
    }
}

/// Whether a comma and a space stand between two bytes.  Decimal output
/// always has them.
pub open spec fn separated(hex: bool, commas: bool) -> bool {
    !hex || commas
}

/// The text written for a run of bytes.
pub open spec fn dump_text(bytes: Seq<u8>, hex: bool, commas: bool) -> Seq<u8>
    decreases bytes.len(),
{
    if bytes.len() == 0 {
        Seq::<u8>::empty()
    } else if bytes.len() == 1 {
        byte_text(bytes[0], hex, commas)
    } else {
        dump_text(bytes.drop_last(), hex, commas) + (if separated(hex, commas) {
            seq![0x2Cu8, 0x20u8]
        } else {
            Seq::<u8>::empty()
        }) + byte_text(bytes.last(), hex, commas)
    }
}

/// Append the upper-case hexadecimal digit for `nibble`.
fn push_hex_digit(target: &mut Vec<u8>, nibble: u8)
    requires
        nibble < 16,
    ensures
        final(target)@ == old(target)@.push(hex_digit(nibble as int)),
{
    if nibble < 10 {
        target.push(0x30 + nibble);
    } else {
        target.push(0x41 + (nibble - 10));
    }
}

/// Append a number in decimal.
pub fn push_decimal(target: &mut Vec<u8>, value: u64)
    ensures
        final(target)@ == old(target)@ + decimal(value as nat),
    decreases value,
{
    if value < 10 {
        target.push(0x30 + (value as u8));
    } else {
        push_decimal(target, value / 10);
        target.push(0x30 + ((value % 10) as u8));
    }
}

/// Append a number in upper-case hexadecimal.
pub fn push_hex_number(target: &mut Vec<u8>, value: u64)
    ensures
        final(target)@ == old(target)@ + hex_number(value as nat),
    decreases value,
{
    if value < 16 {
        push_hex_digit(target, value as u8);
    } else {
        push_hex_number(target, value / 16);
        push_hex_digit(target, (value % 16) as u8);
    }
}

/// Append the text for one byte.
fn push_byte_text(target: &mut Vec<u8>, byte: u8, hex: bool, commas: bool)
    ensures
        final(target)@ == old(target)@ + byte_text(byte, hex, commas),
{
    if !hex {
        push_decimal(target, byte as u64);
    } else {
        if commas {
            target.push(0x30u8);
            target.push(0x78u8);
        }
        push_hex_digit(target, byte / 16);
        push_hex_digit(target, byte % 16);
    }
}

/// A trait to convert integer types to byte arrays.
pub trait ByteDump {
    /// The bytes of the value, in big-endian order.
    spec fn be_bytes(&self) -> Seq<u8>;

    /// Get an array of bytes, in big-endian order, for the type.
    fn get_bytes(&self) -> (bytes: Box<[u8]>)
        ensures
            bytes@ == self.be_bytes(),
    ;

    /// Write the bytes, in big endian order, to the provided stream.
    /// Numbers can be printed in hexadecimal or decimal.  If printed
    /// in hexadecimal, then a leading `0x` is appended.  The output
    /// is comma-separated.
    ///
    /// For instance, 7u32 becomes `0x00, 0x00, 0x00, 0x07`.
    ///
    /// # Arguments
    /// * `target` - The stream to get the output.
    /// * `hex`    - If true, print the numbers in hexadecmial.
    fn dump_bytes(&self, target: &mut Vec<u8>, hex: bool)
        ensures
            final(target)@ == old(target)@ + dump_text(self.be_bytes(), hex, true),
    {
        let bytes = self.get_bytes();
        dump_slice(target, &bytes, hex, true);
    }
}

impl ByteDump for u8 {
    open spec fn be_bytes(&self) -> Seq<u8> {
        seq![*self]
    }

    fn get_bytes(&self) -> (bytes: Box<[u8]>) {
        let arr: [u8; 1] = [*self];
        Box::new(arr)
    }
}

impl ByteDump for u16 {
    open spec fn be_bytes(&self) -> Seq<u8> {
        be_bytes_u16(*self)
    }

    fn get_bytes(&self) -> (bytes: Box<[u8]>) {
        let v: u16 = *self;
        let arr: [u8; 2] = [(v >> 8) as u8, v as u8];
        assert((v >> 8) as u8 == (v / 0x100) as u8 && v as u8 == (v % 0x100) as u8)
            by (bit_vector);
        Box::new(arr)
    }
}

impl ByteDump for u32 {
    open spec fn be_bytes(&self) -> Seq<u8> {
        be_bytes_u32(*self)
    }

    fn get_bytes(&self) -> (bytes: Box<[u8]>) {
        let v: u32 = *self;
        let arr: [u8; 4] = [(v >> 24) as u8, (v >> 16) as u8, (v >> 8) as u8, v as u8];
        assert((v >> 24) as u8 == (v / 0x100_0000) as u8 && (v >> 16) as u8 == (v / 0x1_0000
            % 0x100) as u8 && (v >> 8) as u8 == (v / 0x100 % 0x100) as u8 && v as u8 == (v
            % 0x100) as u8) by (bit_vector);
        Box::new(arr)
    }
}

impl ByteDump for u64 {
    open spec fn be_bytes(&self) -> Seq<u8> {
        be_bytes_u64(*self)
    }

    fn get_bytes(&self) -> (bytes: Box<[u8]>) {
        let v: u64 = *self;
        let arr: [u8; 8] = [
            (v >> 56) as u8,
            (v >> 48) as u8,
            (v >> 40) as u8,
            (v >> 32) as u8,
            (v >> 24) as u8,
            (v >> 16) as u8,
            (v >> 8) as u8,
            v as u8,
        ];
        assert((v >> 56) as u8 == (v / 0x100_0000_0000_0000) as u8 && (v >> 48) as u8 == (v
            / 0x1_0000_0000_0000 % 0x100) as u8 && (v >> 40) as u8 == (v / 0x100_0000_0000
            % 0x100) as u8 && (v >> 32) as u8 == (v / 0x1_0000_0000 % 0x100) as u8)
            by (bit_vector);
        assert((v >> 24) as u8 == (v / 0x100_0000 % 0x100) as u8 && (v >> 16) as u8 == (v
            / 0x1_0000 % 0x100) as u8 && (v >> 8) as u8 == (v / 0x100 % 0x100) as u8 && v as u8
            == (v % 0x100) as u8) by (bit_vector);
        Box::new(arr)
    }
}

/// Append the text for a run of bytes.
pub fn dump_slice(target: &mut Vec<u8>, bytes: &[u8], hex: bool, commas: bool)
    ensures
        final(target)@ == old(target)@ + dump_text(bytes@, hex, commas),
{
    let mut index: usize = 0;
    while index < bytes.len()
        invariant
            index <= bytes@.len(),
            target@ == old(target)@ + dump_text(bytes@.take(index as int), hex, commas),
        decreases bytes@.len() - index,
    {
        if index > 0 && (!hex || commas) {
            target.push(0x2Cu8);
            target.push(0x20u8);
        }
        push_byte_text(target, bytes[index], hex, commas);
        assert(bytes@.take(index + 1).drop_last() =~= bytes@.take(index as int));
        index = index + 1;
    }
    assert(bytes@.take(index as int) =~= bytes@);
}

/// Dump a vector to the given stream as text.
///
/// The vector consists of a sequence of bytes that can be written in
/// either decimal or hexadecimal, and can be separated with commas.
///
/// For instance, `vec![7u8, 9u8, 210u8]` becomes
/// `0x07, 0x09, 0xD2` if both `hex` and `commas` are true.
///
/// Note that commas are always used for decimal output.
///
/// # Arguments
/// * `target` - The stream to get the output.
/// * `hex`    - If true, print the numbers in hexadecmial.
/// * `commas` - If true, print commas between numbers.
pub fn dump_vec(target: &mut Vec<u8>, bytes: &Vec<u8>, hex: bool, commas: bool)
    ensures
        final(target)@ == old(target)@ + dump_text(bytes@, hex, commas),
{
    dump_slice(target, bytes.as_slice(), hex, commas);
}

} // verus!
