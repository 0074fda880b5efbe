//! Small pieces of the rendered views: addresses in the image's word size,
//! table fields, headings and the hexadecimal dump.

use crate::text::{
    hex, pad_left, push_hex, push_hex_padded, push_pad_left, push_repeat, repeat,
};
use vstd::prelude::*;
use vstd::string::*;

verus! {

/// The word size of an image: 32 bits (`Little`) or 64 bits (`Big`).
#[derive(Clone, Copy, Debug, PartialEq, Eq, Structural)]
pub enum Container {
    Little,
    Big,
}

/// Renders addresses and sizes in the width of the image's words.
#[derive(Clone, Copy, Debug)]
pub struct SizePrint {
    pub size: Container,
}

/// One address or size, ready to be rendered.
#[derive(Clone, Copy, Debug)]
pub struct SizePrintHex {
    pub size: Container,
    pub value: u64,
}

/// A number in hexadecimal, split in two halves of `digits` digits each by an
/// apostrophe: `0x0000'1234`.
pub open spec fn split_hex(value: u64, digits: nat) -> Seq<char> {
    let unit: int = if digits == 4 {
        0x1_0000
    } else {
        0x1_0000_0000
    };
    "0x"@ + pad_left(hex((value as int / unit) as nat), digits, '0') + "'"@ + pad_left(
        hex((value as int % unit) as nat),
        digits,
        '0',
    )
}

impl SizePrint {
    pub fn new(size: Container) -> (sp: Self)
        ensures
            sp.size == size,
    {
        Self { size }
    }

    pub fn hex(&self, value: u64) -> (h: SizePrintHex)
        ensures
            h.size == self.size,
            h.value == value,
    {
        SizePrintHex { size: self.size, value }
    }

    /// The text of `value` in this word size.
    pub open spec fn hex_text(self, value: u64) -> Seq<char> {
        (SizePrintHex { size: self.size, value }).text()
    }
}

impl SizePrintHex {
    /// The rendered number: two halves of four digits for a 32-bit image, of
    /// eight digits for a 64-bit one.
    pub open spec fn text(self) -> Seq<char> {
        match self.size {
            Container::Little => split_hex(self.value, 4),
            Container::Big => split_hex(self.value, 8),
        }
    }

    /// Renders the number.
    pub fn to_text(&self) -> (s: String)
        ensures
            s@ == self.text(),
    {
        let mut s = String::new();
        s.append("0x");
        match self.size {
            Container::Little => {
                let v = self.value;
                assert(v >> 16 == v / 0x1_0000) by (bit_vector);
                assert(v & 0xffff == v % 0x1_0000) by (bit_vector);
                push_hex_padded(&mut s, self.value >> 16, 4);
                s.append("'");
                push_hex_padded(&mut s, self.value & 0xffff, 4);
            },
            Container::Big => {
                let v = self.value;
                assert(v >> 32 == v / 0x1_0000_0000) by (bit_vector);
                assert(v & 0xffff_ffff == v % 0x1_0000_0000) by (bit_vector);
                push_hex_padded(&mut s, self.value >> 32, 8);
                s.append("'");
                push_hex_padded(&mut s, self.value & 0xffff_ffff, 8);
            },
        }
        assert(s@ =~= self.text());
        s
    }
}

/// A table of names and values: the names are aligned to the right in a
/// column of the given width.
#[derive(Clone, Copy, Debug)]
pub struct PairTable(pub usize);

/// The text of a field's name in a column `width` wide.
pub open spec fn field_text(width: nat, name: Seq<char>) -> Seq<char> {
    "\x1b[37m"@ + pad_left(name, width, ' ') + "\x1b[0m \u{2502} "@
}

impl PairTable {
    /// The name of a field, aligned, and the bar that parts it from the
    /// value.
    pub fn field(&self, name: &str) -> (s: String)
        ensures
            s@ == field_text(self.0 as nat, name@),
    {
        let mut s = String::new();
        s.append("\x1b[37m");
        push_pad_left(&mut s, name, self.0, ' ');
        s.append("\x1b[0m \u{2502} ");
        assert(s@ =~= field_text(self.0 as nat, name@));
        s
    }
}

/// The number of bytes of a text in UTF-8.
pub open spec fn byte_len(text: Seq<char>) -> nat {
    vstd::utf8::encode_utf8(text).len()
}

/// A heading: the name between bars, and a rule that fills the line up to 70
/// columns less the bytes of the name.
pub open spec fn header_text(name: Seq<char>) -> Seq<char> {
    "\x1b[1;96m\u{2500}\u{2500}\u{2500}\u{2524} "@ + name + " \u{251c}"@ + repeat(
        '\u{2500}',
        if byte_len(name) <= 70 {
            (70 - byte_len(name)) as nat
        } else {
            0
        },
    ) + "\x1b[0m\n"@
}

/// The heading of a view.
pub fn print_header(name: &str) -> (s: String)
    ensures
        s@ == header_text(name@),
{
    let mut s = String::new();
    s.append("\x1b[1;96m\u{2500}\u{2500}\u{2500}\u{2524} ");
    s.append(name);
    s.append(" \u{251c}");
    let len = name.as_bytes().len();
    let fill = if len <= 70 {
        70 - len
    } else {
        0
    };
    push_repeat(&mut s, '\u{2500}', fill);
    s.append("\x1b[0m\n");
    assert(s@ =~= header_text(name@));
    s
}

/// A size in bytes, to be shown with a binary unit.
#[derive(Clone, Copy, Debug)]
pub struct BinSize(pub u64);

/// The texts of a size with a binary unit: as it stands in a sentence, and
/// as it stands in a column of ten.
#[derive(Clone, Debug)]
pub struct SizeText {
    pub plain: String,
    pub column: String,
}

/// The bar that parts the two halves of a row.
pub open spec fn half_bar() -> Seq<char> {
    "\x1b[97m\u{2502}\x1b[0m"@
}

/// Whether position `i` begins the second half of a row of sixteen.
pub open spec fn begins_second_half(i: int) -> bool {
    i % 8 == 0 && i % 16 != 0
}

/// The cell of position `i` in the hexadecimal part of a row: the byte in
/// two digits, or blanks behind the end of the data.
pub open spec fn hex_cell(data: Seq<u8>, i: int) -> Seq<char> {
    (if begins_second_half(i) {
        " "@ + half_bar()
    } else {
        Seq::<char>::empty()
    }) + (if i < data.len() {
        " "@ + pad_left(hex(data[i] as nat), 2, '0')
    } else {
        "   "@
    })
}

/// The cell of position `i` in the character part of a row: the byte as a
/// character where it is printable ASCII, else a cross; a dash behind the
/// end of the data.
pub open spec fn char_cell(data: Seq<u8>, i: int) -> Seq<char> {
    (if begins_second_half(i) {
        half_bar()
    } else {
        Seq::<char>::empty()
    }) + (if i < data.len() {
        if 0x20 <= data[i] <= 0x7e {
            seq![data[i] as char]
        } else {
            "\x1b[90m\u{2573}\x1b[0m"@
        }
    } else {
        "\x1b[90m\u{2500}\x1b[0m"@
    })
}

/// The first `n` hexadecimal cells of the row that begins at `start`.
pub open spec fn hex_cells(data: Seq<u8>, start: int, n: nat) -> Seq<char>
    decreases n,
{
    if n == 0 {
        Seq::<char>::empty()
    } else {
        hex_cells(data, start, (n - 1) as nat) + hex_cell(data, start + n - 1)
    }
}

/// The first `n` character cells of the row that begins at `start`.
pub open spec fn char_cells(data: Seq<u8>, start: int, n: nat) -> Seq<char>
    decreases n,
{
    if n == 0 {
        Seq::<char>::empty()
    } else {
        char_cells(data, start, (n - 1) as nat) + char_cell(data, start + n - 1)
    }
}

/// The row of the sixteen positions from `start` on: the offset, the bytes
/// in hexadecimal, the bytes as characters.
pub open spec fn row_text(data: Seq<u8>, start: int) -> Seq<char> {
    "\x1b[97m"@ + pad_left(hex(start as nat), 8, ' ') + " \u{2502}\x1b[0m "@ + hex_cells(
        data,
        start,
        16,
    ) + "  "@ + half_bar() + char_cells(data, start, 16) + half_bar() + "\n"@
}

/// The rows from `start` to the end of the data.
pub open spec fn dump_text(data: Seq<u8>, start: int) -> Seq<char>
    decreases
            (if start < data.len() {
                data.len() - start
            } else {
                0
            }),
{
    if start < 0 || start >= data.len() {
        Seq::<char>::empty()
    } else {
        row_text(data, start) + dump_text(data, start + 16)
    }
}

/// Appends the hexadecimal cell of position `start + k`.
pub fn push_hex_cell(s: &mut String, data: &[u8], start: usize, k: usize)
    requires
        start < data@.len(),
        k < 16,
    ensures
        final(s)@ == old(s)@ + hex_cell(data@, start + k),
{
    let second_half = (start % 16 + k) % 16 == 8;
    assert(second_half == begins_second_half(start + k));
    if second_half {
        s.append(" ");
        s.append("\x1b[97m\u{2502}\x1b[0m");
    }
    if k < data.len() - start {
        s.append(" ");
        push_hex_padded(s, data[start + k] as u64, 2);
    } else {
        s.append("   ");
    }
    assert(s@ =~= old(s)@ + hex_cell(data@, start + k));
}

/// Appends the character cell of position `start + k`.
pub fn push_char_cell(s: &mut String, data: &[u8], start: usize, k: usize)
    requires
        start < data@.len(),
        k < 16,
    ensures
        final(s)@ == old(s)@ + char_cell(data@, start + k),
{
    let second_half = (start % 16 + k) % 16 == 8;
    assert(second_half == begins_second_half(start + k));
    if second_half {
        s.append("\x1b[97m\u{2502}\x1b[0m");
    }
    if k < data.len() - start {
        let b = data[start + k];
        if b >= 0x20 && b <= 0x7e {
            s.push(b as char);
        } else {
            s.append("\x1b[90m\u{2573}\x1b[0m");
        }
    } else {
        s.append("\x1b[90m\u{2500}\x1b[0m");
    }
    assert(s@ =~= old(s)@ + char_cell(data@, start + k));
}

/// Renders one row of a dump.
pub fn hexdump_row(data: &[u8], start: usize) -> (s: String)
    requires
        start < data@.len(),
    ensures
        s@ == row_text(data@, start as int),
{
    let mut cells = String::new();
    let mut chars = String::new();
    let mut k: usize = 0;
    while k < 16
        invariant
            k <= 16,
            start < data@.len(),
            cells@ == hex_cells(data@, start as int, k as nat),
            chars@ == char_cells(data@, start as int, k as nat),
        decreases 16 - k,
    {
        push_hex_cell(&mut cells, data, start, k);
        push_char_cell(&mut chars, data, start, k);
        k += 1;
    }
    let mut s = String::new();
    s.append("\x1b[97m");
    let mut offset = String::new();
    push_hex(&mut offset, start as u64);
    assert(offset@ =~= hex(start as nat));
    push_pad_left(&mut s, offset.as_str(), 8, ' ');
    s.append(" \u{2502}\x1b[0m ");
    s.append(cells.as_str());
    s.append("  ");
    s.append("\x1b[97m\u{2502}\x1b[0m");
    s.append(chars.as_str());
    s.append("\x1b[97m\u{2502}\x1b[0m");
    s.append("\n");
    assert(s@ =~= row_text(data@, start as int));
    s
}

/// Dumps the data from offset `off` on, sixteen bytes to a row.
pub fn hexdump_off(data: &[u8], off: usize) -> (s: String)
    ensures
        s@ == dump_text(data@, off as int),
{
    let mut s = String::new();
    let mut start: usize = off;
    assert(s@ + dump_text(data@, start as int) =~= dump_text(data@, off as int));
    while start < data.len()
        invariant
            dump_text(data@, off as int) == s@ + dump_text(data@, start as int),
        decreases data@.len() - start,
    {
        let ghost before = s@;
        s.append(hexdump_row(data, start).as_str());
        assert(s@ + dump_text(data@, start + 16) =~= before + dump_text(data@, start as int));
        if data.len() - start <= 16 {
            start = data.len();
        } else {
            start += 16;
        }
    }
    assert(s@ + Seq::<char>::empty() =~= s@);
    s
}

/// Dumps the data, sixteen bytes to a row.
pub fn hexdump(data: &[u8]) -> (s: String)
    ensures
        s@ == dump_text(data@, 0),
{
    hexdump_off(data, 0)
}

} // verus!
