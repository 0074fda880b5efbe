//! Sections: the lookup by name, the names of section types, the listing of
//! all sections, and the detailed view of one.

use crate::args::SectionArgs;
use crate::elf::{Elf, SectionHeader, SHT_NOBITS, SHT_STRTAB};
use crate::print::{
    dump_text, field_text, header_text, hexdump, print_header, Container, PairTable, SizePrint,
    SizeText,
};
use crate::text::{
    debug_quoted, decimal, hex, pad_left, pad_right, push_decimal, push_decimal_padded,
    push_hex_padded, push_pad_left, push_pad_right, push_repeat, quoted, repeat, same_text,
    strip_prefix, without_prefix,
};
use crate::unwind_table::{eh_frame_hdr, table_of, table_text, TableError};
use vstd::prelude::*;
use vstd::string::*;

verus! {

/// Section `i` goes by `name` and none before it does.
pub open spec fn first_section(sections: Seq<SectionHeader>, i: int, name: Seq<char>) -> bool {
    &&& 0 <= i < sections.len()
    &&& named(sections[i], name)
    &&& forall|j: int| 0 <= j < i ==> !named(#[trigger] sections[j], name)
}

/// Whether a section goes by `name`.
pub open spec fn named(section: SectionHeader, name: Seq<char>) -> bool {
    section.name matches Some(n) && n@ == name
}

/// The first section that goes by `name`, if there is one.
pub open spec fn section_by_name(sections: Seq<SectionHeader>, name: Seq<char>) -> Option<
    SectionHeader,
> {
    if exists|i: int| first_section(sections, i, name) {
        Some(sections[choose|i: int| first_section(sections, i, name)])
    } else {
        None
    }
}

/// The index of the first section that goes by `name`, if there is one.
pub open spec fn section_position(sections: Seq<SectionHeader>, name: Seq<char>) -> Option<int> {
    if exists|i: int| first_section(sections, i, name) {
        Some(choose|i: int| first_section(sections, i, name))
    } else {
        None
    }
}

/// Finds the index of the first section that goes by `name`.
pub fn section_index(elf: &Elf, name: &str) -> (res: Option<usize>)
    ensures
        match res {
            Some(i) => section_position(elf.section_headers@, name@) == Some(i as int)
                && first_section(elf.section_headers@, i as int, name@),
            None => section_position(elf.section_headers@, name@) is None,
        },
{
    let mut i: usize = 0;
    while i < elf.section_headers.len()
        invariant
            i <= elf.section_headers.len(),
            forall|j: int| 0 <= j < i ==> !named(#[trigger] elf.section_headers@[j], name@),
        decreases elf.section_headers.len() - i,
    {
        let hit = match &elf.section_headers[i].name {
            Some(n) => same_text(n.as_str(), name),
            None => false,
        };
        if hit {
            assert(first_section(elf.section_headers@, i as int, name@));
            return Some(i);
        }
        i += 1;
    }
    None
}

/// Finds the first section that goes by `name`.
pub fn find_section<'a>(elf: &'a Elf, name: &str) -> (res: Option<&'a SectionHeader>)
    ensures
        match res {
            Some(sh) => section_by_name(elf.section_headers@, name@) == Some(*sh) && named(
                *sh,
                name@,
            ),
            None => section_by_name(elf.section_headers@, name@) is None,
        },
{
    match section_index(elf, name) {
        Some(i) => Some(&elf.section_headers[i]),
        None => None,
    }
}

/// The name of a section type, as `goblin::elf::section_header::sht_to_str`
/// gives it.
pub uninterp spec fn sht_text(typ: u32) -> Seq<char>;

/// `goblin::elf::section_header::sht_to_str`: the name of a section type.
#[verifier::external_body]
fn sht_name(typ: u32) -> (name: &'static str)
    ensures
        name@ == sht_text(typ),
{
    goblin::elf::section_header::sht_to_str(typ)
}

/// The colour and the short name shown for a section type, given the type's
/// full name: a colour of its own for the common types, and the name
/// without its `SHT_` for the rest.
pub open spec fn shown_type(full: Seq<char>) -> (Seq<char>, Seq<char>) {
    if full == "UNKNOWN_SHT"@ {
        ("93m"@, "[unknown]"@)
    } else if full == "SHT_PROGBITS"@ {
        ("34m"@, "PROGBITS"@)
    } else if full == "SHT_NULL"@ {
        ("90m"@, "NULL"@)
    } else if full == "SHT_NOBITS"@ {
        ("90m"@, "NOBITS"@)
    } else if full == "SHT_STRTAB"@ {
        ("32m"@, "STRTAB"@)
    } else if full == "SHT_DYNAMIC"@ {
        ("35m"@, "DYNAMIC"@)
    } else if full == "SHT_DYNSYM"@ {
        ("95m"@, "DYNSYM"@)
    } else if full == "SHT_RELA"@ {
        ("33m"@, "RELA"@)
    } else if full == "SHT_SYMTAB"@ {
        ("31m"@, "SYMTAB"@)
    } else if full == "SHT_NOTE"@ {
        ("36m"@, "NOTE"@)
    } else {
        ("0m"@, without_prefix(full, "SHT_"@))
    }
}

/// The colour and the short name shown for a section type, given the type's
/// full name.
pub fn short_type(full: &'static str) -> (res: (&'static str, &'static str))
    ensures
        res.0@ == shown_type(full@).0,
        res.1@ == shown_type(full@).1,
{
    if same_text(full, "UNKNOWN_SHT") {
        ("93m", "[unknown]")
    } else if same_text(full, "SHT_PROGBITS") {
        ("34m", "PROGBITS")
    } else if same_text(full, "SHT_NULL") {
        ("90m", "NULL")
    } else if same_text(full, "SHT_NOBITS") {
        ("90m", "NOBITS")
    } else if same_text(full, "SHT_STRTAB") {
        ("32m", "STRTAB")
    } else if same_text(full, "SHT_DYNAMIC") {
        ("35m", "DYNAMIC")
    } else if same_text(full, "SHT_DYNSYM") {
        ("95m", "DYNSYM")
    } else if same_text(full, "SHT_RELA") {
        ("33m", "RELA")
    } else if same_text(full, "SHT_SYMTAB") {
        ("31m", "SYMTAB")
    } else if same_text(full, "SHT_NOTE") {
        ("36m", "NOTE")
    } else {
        ("0m", strip_prefix(full, "SHT_"))
    }
}

/// The colour and the short name shown for a section type.
pub fn section_type(typ: u32) -> (res: (&'static str, &'static str))
    ensures
        res.0@ == shown_type(sht_text(typ)).0,
        res.1@ == shown_type(sht_text(typ)).1,
{
    short_type(sht_name(typ))
}

/// The width of the column of addresses for a word size.
pub open spec fn column_width(size: Container) -> nat {
    match size {
        Container::Big => 19,
        Container::Little => 11,
    }
}

/// The width of the column of addresses for a word size.
pub fn address_column(size: Container) -> (w: usize)
    ensures
        w == column_width(size),
{
    match size {
        Container::Big => 19,
        Container::Little => 11,
    }
}

/// A bright bar between two columns.
pub open spec fn bar() -> Seq<char> {
    "\x1b[97m\u{2502}\x1b[0m"@
}

/// The name shown for a section: its name, or a placeholder where it has
/// none.
pub open spec fn section_label(sh: SectionHeader) -> Seq<char> {
    match sh.name {
        Some(n) => n@,
        None => "???"@,
    }
}

/// The text of the size that goes with section `i`, for a column or for a
/// sentence; nothing where none was given.
pub open spec fn size_at(sizes: Seq<SizeText>, i: int, column: bool) -> Seq<char> {
    if 0 <= i < sizes.len() {
        if column {
            sizes[i].column@
        } else {
            sizes[i].plain@
        }
    } else {
        Seq::<char>::empty()
    }
}

/// The head of the listing of all sections: the heading, the names of the
/// columns, and a rule.
pub open spec fn listing_head(size: Container, count: nat) -> Seq<char> {
    header_text("SECTIONS ("@ + decimal(count) + ")"@) + "\x1b[97m"@ + pad_right("No"@, 2, ' ')
        + " \u{2502} "@ + pad_right("Name"@, 20, ' ') + " \u{2502} "@ + pad_right("Type"@, 12, ' ')
        + " \u{2502} "@ + pad_right("Virt. addr."@, column_width(size), ' ') + " \u{2502} "@
        + pad_right("Size"@, 22, ' ') + " \u{2502}\x1b[0m\n"@ + "\x1b[97m"@ + repeat('\u{2500}', 3)
        + "\u{253c}"@ + repeat('\u{2500}', 22) + "\u{253c}"@ + repeat('\u{2500}', 14)
        + "\u{253c}"@ + repeat('\u{2500}', column_width(size) + 2) + "\u{253c}"@ + repeat(
        '\u{2500}',
        24,
    ) + "\u{2524}\x1b[0m\n"@
}

/// The size of a section in hexadecimal: in the narrow form where it fits
/// 32 bits, else in the image's word size.
pub open spec fn size_hex(sp: SizePrint, size: u64) -> Seq<char> {
    if size < u32::MAX {
        (SizePrint { size: Container::Little }).hex_text(size)
    } else {
        sp.hex_text(size)
    }
}

/// The first half of a section's row: its number, its name and its type.
pub open spec fn row_names(i: nat, sh: SectionHeader) -> Seq<char> {
    pad_left(decimal(i), 2, ' ') + " "@ + bar() + " "@ + pad_right(section_label(sh), 20, ' ')
        + " "@ + bar() + " "@ + "\x1b["@ + shown_type(sht_text(sh.sh_type)).0 + pad_right(
        shown_type(sht_text(sh.sh_type)).1,
        12,
        ' ',
    ) + " "@ + bar() + " "@
}

/// The second half of a section's row: its address and its size; either is
/// greyed where it is zero.
pub open spec fn row_numbers(sh: SectionHeader, sp: SizePrint, size: Seq<char>) -> Seq<char> {
    (if sh.sh_addr == 0 {
        "\x1b[90m"@
    } else {
        Seq::<char>::empty()
    }) + sp.hex_text(sh.sh_addr) + " "@ + bar() + " "@ + (if sh.sh_size == 0 {
        "\x1b[90m"@
    } else {
        Seq::<char>::empty()
    }) + size_hex(sp, sh.sh_size) + " "@ + size + " "@ + bar() + "\n"@
}

/// The row of section `i`.
pub open spec fn section_row(i: nat, sh: SectionHeader, sp: SizePrint, size: Seq<char>) -> Seq<
    char,
> {
    row_names(i, sh) + row_numbers(sh, sp, size)
}

/// The rows of the first `n` sections.
pub open spec fn section_rows(
    sections: Seq<SectionHeader>,
    n: int,
    sp: SizePrint,
    sizes: Seq<SizeText>,
) -> Seq<char>
    decreases n,
{
    if n <= 0 {
        Seq::<char>::empty()
    } else {
        section_rows(sections, n - 1, sp, sizes) + section_row(
            (n - 1) as nat,
            sections[n - 1],
            sp,
            size_at(sizes, n - 1, true),
        )
    }
}

/// The listing of all sections.
pub open spec fn sections_text(elf: &Elf, sizes: Seq<SizeText>) -> Seq<char> {
    listing_head(elf.header.shown_container(), elf.section_headers@.len()) + section_rows(
        elf.section_headers@,
        elf.section_headers@.len() as int,
        elf.size_print(),
        sizes,
    )
}

/// Renders the head of the listing of all sections.
pub fn render_listing_head(size: Container, count: usize) -> (s: String)
    ensures
        s@ == listing_head(size, count as nat),
{
    let w = address_column(size);
    let mut title = String::new();
    title.append("SECTIONS (");
    push_decimal(&mut title, count as u64);
    title.append(")");
    assert(title@ =~= "SECTIONS ("@ + decimal(count as nat) + ")"@);
    let mut s = print_header(title.as_str());
    s.append("\x1b[97m");
    push_pad_right(&mut s, "No", 2, ' ');
    s.append(" \u{2502} ");
    push_pad_right(&mut s, "Name", 20, ' ');
    s.append(" \u{2502} ");
    push_pad_right(&mut s, "Type", 12, ' ');
    s.append(" \u{2502} ");
    push_pad_right(&mut s, "Virt. addr.", w, ' ');
    s.append(" \u{2502} ");
    push_pad_right(&mut s, "Size", 22, ' ');
    s.append(" \u{2502}\x1b[0m\n");
    s.append("\x1b[97m");
    push_repeat(&mut s, '\u{2500}', 3);
    s.append("\u{253c}");
    push_repeat(&mut s, '\u{2500}', 22);
    s.append("\u{253c}");
    push_repeat(&mut s, '\u{2500}', 14);
    s.append("\u{253c}");
    push_repeat(&mut s, '\u{2500}', w + 2);
    s.append("\u{253c}");
    push_repeat(&mut s, '\u{2500}', 24);
    s.append("\u{2524}\x1b[0m\n");
    assert(s@ =~= listing_head(size, count as nat));
    s
}

/// Renders the size of a section in hexadecimal.
pub fn render_size_hex(sp: SizePrint, size: u64) -> (s: String)
    ensures
        s@ == size_hex(sp, size),
{
    if size < 0xffff_ffff {
        SizePrint::new(Container::Little).hex(size).to_text()
    } else {
        sp.hex(size).to_text()
    }
}

/// Renders the first half of a section's row.
pub fn render_row_names(i: usize, sh: &SectionHeader) -> (s: String)
    ensures
        s@ == row_names(i as nat, *sh),
{
    let kind = section_type(sh.sh_type);
    let mut s = String::new();
    push_decimal_padded(&mut s, i as u64, 2);
    s.append(" ");
    s.append("\x1b[97m\u{2502}\x1b[0m");
    s.append(" ");
    match &sh.name {
        Some(n) => push_pad_right(&mut s, n.as_str(), 20, ' '),
        None => push_pad_right(&mut s, "???", 20, ' '),
    }
    s.append(" ");
    s.append("\x1b[97m\u{2502}\x1b[0m");
    s.append(" ");
    s.append("\x1b[");
    s.append(kind.0);
    push_pad_right(&mut s, kind.1, 12, ' ');
    s.append(" ");
    s.append("\x1b[97m\u{2502}\x1b[0m");
    s.append(" ");
    assert(s@ =~= row_names(i as nat, *sh));
    s
}

/// Renders the second half of a section's row.
pub fn render_row_numbers(sh: &SectionHeader, sp: SizePrint, size: &str) -> (t: String)
    ensures
        t@ == row_numbers(*sh, sp, size@),
{
    let mut t = String::new();
    if sh.sh_addr == 0 {
        t.append("\x1b[90m");
    }
    t.append(sp.hex(sh.sh_addr).to_text().as_str());
    t.append(" ");
    t.append("\x1b[97m\u{2502}\x1b[0m");
    t.append(" ");
    let ghost left = t@;
    let mut u = String::new();
    if sh.sh_size == 0 {
        u.append("\x1b[90m");
    }
    u.append(render_size_hex(sp, sh.sh_size).as_str());
    u.append(" ");
    u.append(size);
    u.append(" ");
    u.append("\x1b[97m\u{2502}\x1b[0m");
    u.append("\n");
    assert(left =~= (if sh.sh_addr == 0 {
        "\x1b[90m"@
    } else {
        Seq::<char>::empty()
    }) + sp.hex_text(sh.sh_addr) + " "@ + bar() + " "@);
    assert(u@ =~= (if sh.sh_size == 0 {
        "\x1b[90m"@
    } else {
        Seq::<char>::empty()
    }) + size_hex(sp, sh.sh_size) + " "@ + size@ + " "@ + bar() + "\n"@);
    t.append(u.as_str());
    assert(t@ =~= row_numbers(*sh, sp, size@));
    t
}

/// Renders the row of section `i`.
pub fn render_section_row(i: usize, sh: &SectionHeader, sp: SizePrint, size: &str) -> (s: String)
    ensures
        s@ == section_row(i as nat, *sh, sp, size@),
{
    let mut s = render_row_names(i, sh);
    s.append(render_row_numbers(sh, sp, size).as_str());
    s
}

/// The text of the size that goes with section `i`, for a column or for a
/// sentence.
pub fn size_text<'a>(sizes: &'a Vec<SizeText>, i: usize, column: bool) -> (text: &'a str)
    ensures
        text@ == size_at(sizes@, i as int, column),
{
    if i < sizes.len() {
        if column {
            sizes[i].column.as_str()
        } else {
            sizes[i].plain.as_str()
        }
    } else {
        proof {
            reveal_strlit("");
            assert(""@ =~= Seq::<char>::empty());
        }
        ""
    }
}

/// Lists all sections, one row each. `sizes` holds, for each section in
/// turn, the texts of its size with a binary unit.
pub fn all_sections(elf: &Elf, sizes: &Vec<SizeText>) -> (s: String)
    ensures
        s@ == sections_text(elf, sizes@),
{
    let sp = elf.sp();
    let mut s = render_listing_head(elf.header.display_container(), elf.section_headers.len());
    let ghost head = s@;
    let mut i: usize = 0;
    assert(s@ =~= head + section_rows(elf.section_headers@, 0, sp, sizes@));
    while i < elf.section_headers.len()
        invariant
            i <= elf.section_headers.len(),
            s@ == head + section_rows(elf.section_headers@, i as int, sp, sizes@),
        decreases elf.section_headers.len() - i,
    {
        let row = render_section_row(i, &elf.section_headers[i], sp, size_text(sizes, i, true));
        let ghost before = s@;
        s.append(row.as_str());
        i += 1;
        assert(section_rows(elf.section_headers@, i as int, sp, sizes@) == section_rows(
            elf.section_headers@,
            i - 1,
            sp,
            sizes@,
        ) + row@);
        assert(s@ =~= head + section_rows(elf.section_headers@, i as int, sp, sizes@));
    }
    s
}

/// Why a section cannot be shown.
#[derive(Clone, Copy, Debug, PartialEq, Eq, Structural)]
pub enum SectionError {
    /// No section goes by the name.
    NotFound,
    /// The section takes no space in the file, so there is nothing to
    /// export.
    NoContent,
    /// The section's unwind table cannot be decoded.
    Table(TableError),
    /// The section's string table cannot be read.
    Strtab,
}

/// What follows the fields of a section in its view.
#[derive(Clone, Debug)]
pub enum Content {
    /// Nothing: the section takes no space in the file.
    Nothing,
    /// The rendered content.
    Text(String),
    /// Frame information, to be read from the file's bytes from `start` up
    /// to `end`; `vaddr` is the section's address in memory.
    Frames { start: usize, end: usize, vaddr: u64 },
}

/// The view of one section, or of all where none was named.
#[derive(Clone, Debug)]
pub enum SectionView {
    /// The listing of all sections.
    Listing(String),
    /// The file's bytes from `start` up to `end` are to be written to the
    /// path asked for; `message` says that this was done.
    Export { warnings: String, start: usize, end: usize, message: String },
    /// The fields of the section and, where it has content, an empty line;
    /// then its content.
    Detail { warnings: String, text: String, content: Content },
}

/// The part of a file that is shown: it begins at `start` and ends before
/// `end`.
pub struct Shown {
    pub start: nat,
    pub end: nat,
}

/// Where a section's content starts once `skip` bytes are passed over.
pub open spec fn skipped_start(sh: SectionHeader, skip: Option<usize>) -> int {
    sh.sh_offset + (match skip {
        Some(n) => n as int,
        None => 0,
    })
}

/// Where the shown content ends: at the end of the section, or `size` bytes
/// behind the start where that comes first.
pub open spec fn limited_end(sh: SectionHeader, skip: Option<usize>, size: Option<usize>) -> int {
    let end = sh.sh_offset + sh.sh_size;
    match size {
        Some(most) => if end - skipped_start(sh, skip) > most {
            skipped_start(sh, skip) + most
        } else {
            end
        },
        None => end,
    }
}

/// The part of a file of `available` bytes that is shown of a section:
/// nothing for a section that takes no space in the file; else the
/// section's bytes without the first `skip` and cut to `size`, as far as
/// the file holds them. An empty part begins at 0.
pub open spec fn shown_part(
    sh: SectionHeader,
    skip: Option<usize>,
    size: Option<usize>,
    available: nat,
) -> Option<Shown> {
    if sh.sh_type == SHT_NOBITS {
        None
    } else {
        let start = skipped_start(sh, skip);
        let end = limited_end(sh, skip, size);
        if start >= end || start >= available {
            Some(Shown { start: 0, end: 0 })
        } else if end > available {
            Some(Shown { start: start as nat, end: available })
        } else {
            Some(Shown { start: start as nat, end: end as nat })
        }
    }
}

/// The warnings about what is asked of a section's content.
pub open spec fn range_warnings(
    sh: SectionHeader,
    skip: Option<usize>,
    size: Option<usize>,
    available: nat,
) -> Seq<char> {
    if sh.sh_type == SHT_NOBITS {
        (if skip is Some {
            "\x1b[93mWarning: byte skipping specified on a NOBITS section\x1b[0m\n"@
        } else {
            Seq::<char>::empty()
        }) + (if size is Some {
            "\x1b[93mWarning: number of bytes specified on a NOBITS section\x1b[0m\n"@
        } else {
            Seq::<char>::empty()
        })
    } else {
        (if skip is Some && skip->0 >= sh.sh_size {
            "\x1b[93mWarning: skipping more bytes than in section\x1b[0m\n"@
        } else {
            Seq::<char>::empty()
        }) + (if skipped_start(sh, skip) < limited_end(sh, skip, size) && limited_end(
            sh,
            skip,
            size,
        ) > available {
            "\x1b[93mWarning: section reaches past the end of the file\x1b[0m\n"@
        } else {
            Seq::<char>::empty()
        })
    }
}

/// Finds the part of a file of `available` bytes that is shown of a
/// section, and renders the warnings about what was asked.
pub fn content_range(sh: &SectionHeader, skip: Option<usize>, size: Option<usize>, available: usize) -> (res:
    (Option<(usize, usize)>, String))
    ensures
        match res.0 {
            Some(range) => shown_part(*sh, skip, size, available as nat) == Some(
                Shown { start: range.0 as nat, end: range.1 as nat },
            ) && range.0 <= range.1 <= available,
            None => shown_part(*sh, skip, size, available as nat) is None,
        },
        res.1@ == range_warnings(*sh, skip, size, available as nat),
{
    let mut first = String::new();
    let mut second = String::new();
    if sh.sh_type == SHT_NOBITS {
        if skip.is_some() {
            first.append("\x1b[93mWarning: byte skipping specified on a NOBITS section\x1b[0m\n");
        }
        if size.is_some() {
            second.append(
                "\x1b[93mWarning: number of bytes specified on a NOBITS section\x1b[0m\n",
            );
        }
        first.append(second.as_str());
        return (None, first);
    }
    let skipped: u128 = match skip {
        Some(n) => n as u128,
        None => 0,
    };
    if skip.is_some() && skipped >= sh.sh_size as u128 {
        first.append("\x1b[93mWarning: skipping more bytes than in section\x1b[0m\n");
    }
    let start: u128 = sh.sh_offset as u128 + skipped;
    let whole: u128 = sh.sh_offset as u128 + sh.sh_size as u128;
    let end: u128 = match size {
        Some(most) => if whole > start && whole - start > most as u128 {
            start + most as u128
        } else {
            whole
        },
        None => whole,
    };
    if start < end && end > available as u128 {
        second.append("\x1b[93mWarning: section reaches past the end of the file\x1b[0m\n");
    }
    first.append(second.as_str());
    let range = if start >= end || start >= available as u128 {
        (0, 0)
    } else if end > available as u128 {
        (start as usize, available)
    } else {
        (start as usize, end as usize)
    };
    (Some(range), first)
}

/// The strings of a string table, as `goblin::strtab::Strtab::to_vec`
/// reads them from the table's bytes with a zero byte as delimiter; nothing
/// where it fails.
pub uninterp spec fn strtab_strings(content: Seq<u8>) -> Option<Seq<Seq<char>>>;

/// The texts that strings hold.
pub open spec fn texts(strings: Seq<String>) -> Seq<Seq<char>> {
    strings.map_values(|s: String| s@)
}

/// `goblin::strtab::Strtab::new` with a zero byte as delimiter, and
/// `Strtab::to_vec`: the strings of a string table, or nothing where the
/// table cannot be read.
#[verifier::external_body]
fn read_strtab(content: &[u8]) -> (res: Option<Vec<String>>)
    ensures
        match res {
            Some(strings) => strtab_strings(content@) == Some(texts(strings@)),
            None => strtab_strings(content@) is None,
        },
{
    match goblin::strtab::Strtab::new(content, 0).to_vec() {
        Ok(strings) => Some(strings.into_iter().map(String::from).collect()),
        Err(_) => None,
    }
}

/// The listing of the first `n` strings: each with its number in a column
/// of four, between quotes.
pub open spec fn string_lines(strings: Seq<Seq<char>>, n: int) -> Seq<char>
    decreases n,
{
    if n <= 0 {
        Seq::<char>::empty()
    } else {
        string_lines(strings, n - 1) + pad_left(decimal((n - 1) as nat), 4, ' ') + " "@ + quoted(
            strings[n - 1],
        ) + "\n"@
    }
}

/// Lists strings, each with its number, between quotes.
pub fn list_strings(strings: &Vec<String>) -> (s: String)
    ensures
        s@ == string_lines(texts(strings@), strings.len() as int),
{
    let mut s = String::new();
    let mut i: usize = 0;
    while i < strings.len()
        invariant
            i <= strings.len(),
            s@ == string_lines(texts(strings@), i as int),
        decreases strings.len() - i,
    {
        let ghost before = s@;
        push_decimal_padded(&mut s, i as u64, 4);
        s.append(" ");
        s.append(debug_quoted(strings[i].as_str()).as_str());
        s.append("\n");
        assert(texts(strings@)[i as int] == strings@[i as int]@);
        i += 1;
        assert(s@ =~= before + pad_left(decimal((i - 1) as nat), 4, ' ') + " "@ + quoted(
            texts(strings@)[i - 1],
        ) + "\n"@);
    }
    s
}

/// The listing of a string table's strings; nothing where the table cannot
/// be read.
pub open spec fn strtab_text(content: Seq<u8>) -> Option<Seq<char>> {
    match strtab_strings(content) {
        Some(strings) => Some(string_lines(strings, strings.len() as int)),
        None => None,
    }
}

/// Lists the strings of a string table.
pub fn strtab(content: &[u8]) -> (res: Option<String>)
    ensures
        match res {
            Some(s) => strtab_text(content@) == Some(s@),
            None => strtab_text(content@) is None,
        },
{
    match read_strtab(content) {
        Some(strings) => Some(list_strings(&strings)),
        None => None,
    }
}

/// The first fields of a section's view: its name, its type and its
/// address.
pub open spec fn detail_top(sh: SectionHeader, name: Seq<char>, sp: SizePrint) -> Seq<char> {
    header_text("SECTION "@ + quoted(name)) + field_text(18, "Name"@) + name + "\n"@ + field_text(
        18,
        "Type"@,
    ) + "\x1b["@ + shown_type(sht_text(sh.sh_type)).0 + shown_type(sht_text(sh.sh_type)).1
        + "\x1b[0m (0x"@ + pad_left(hex(sh.sh_type as nat), 8, '0') + ")\n"@ + field_text(
        18,
        "Virtual address"@,
    ) + (if sh.sh_addr == 0 {
        "\x1b[90m"@
    } else {
        Seq::<char>::empty()
    }) + sp.hex_text(sh.sh_addr) + "\n"@
}

/// The other fields of a section's view: its offset, size, alignment and
/// entry size.
pub open spec fn detail_rest(sh: SectionHeader, sp: SizePrint, size: Seq<char>) -> Seq<char> {
    field_text(18, "Offset in ELF"@) + sp.hex_text(sh.sh_offset) + " B\n"@ + field_text(
        18,
        "Size"@,
    ) + sp.hex_text(sh.sh_size) + " B ("@ + size + ")\n"@ + field_text(18, "Alignment"@)
        + sp.hex_text(sh.sh_addralign) + " B\n"@ + field_text(18, "Entry size"@) + (
    if sh.sh_entsize == 0 {
        "\x1b[90m"@
    } else {
        Seq::<char>::empty()
    }) + sp.hex_text(sh.sh_entsize) + " B\x1b[0m\n"@
}

/// The fields of a section's view.
pub open spec fn detail_text(sh: SectionHeader, name: Seq<char>, sp: SizePrint, size: Seq<char>) -> Seq<
    char,
> {
    detail_top(sh, name, sp) + detail_rest(sh, sp, size)
}

/// Renders the first fields of a section's view.
pub fn render_detail_top(sh: &SectionHeader, name: &str, sp: SizePrint) -> (s: String)
    ensures
        s@ == detail_top(*sh, name@, sp),
{
    let table = PairTable(18);
    let kind = section_type(sh.sh_type);
    let mut title = String::new();
    title.append("SECTION ");
    title.append(debug_quoted(name).as_str());
    assert(title@ =~= "SECTION "@ + quoted(name@));
    let mut s = print_header(title.as_str());
    s.append(table.field("Name").as_str());
    s.append(name);
    s.append("\n");
    s.append(table.field("Type").as_str());
    s.append("\x1b[");
    s.append(kind.0);
    s.append(kind.1);
    s.append("\x1b[0m (0x");
    push_hex_padded(&mut s, sh.sh_type as u64, 8);
    s.append(")\n");
    s.append(table.field("Virtual address").as_str());
    let mut t = String::new();
    if sh.sh_addr == 0 {
        t.append("\x1b[90m");
    }
    assert(t@ =~= (if sh.sh_addr == 0 {
        "\x1b[90m"@
    } else {
        Seq::<char>::empty()
    }));
    s.append(t.as_str());
    s.append(sp.hex(sh.sh_addr).to_text().as_str());
    s.append("\n");
    assert(s@ =~= detail_top(*sh, name@, sp));
    s
}

/// Renders the other fields of a section's view.
pub fn render_detail_rest(sh: &SectionHeader, sp: SizePrint, size: &str) -> (s: String)
    ensures
        s@ == detail_rest(*sh, sp, size@),
{
    let table = PairTable(18);
    let mut s = String::new();
    s.append(table.field("Offset in ELF").as_str());
    s.append(sp.hex(sh.sh_offset).to_text().as_str());
    s.append(" B\n");
    s.append(table.field("Size").as_str());
    s.append(sp.hex(sh.sh_size).to_text().as_str());
    s.append(" B (");
    s.append(size);
    s.append(")\n");
    s.append(table.field("Alignment").as_str());
    s.append(sp.hex(sh.sh_addralign).to_text().as_str());
    s.append(" B\n");
    s.append(table.field("Entry size").as_str());
    let mut t = String::new();
    if sh.sh_entsize == 0 {
        t.append("\x1b[90m");
    }
    assert(t@ =~= (if sh.sh_entsize == 0 {
        "\x1b[90m"@
    } else {
        Seq::<char>::empty()
    }));
    s.append(t.as_str());
    s.append(sp.hex(sh.sh_entsize).to_text().as_str());
    s.append(" B\x1b[0m\n");
    assert(s@ =~= detail_rest(*sh, sp, size@));
    s
}

/// How the content of a section is shown.
#[derive(Clone, Copy, Debug, PartialEq, Eq, Structural)]
pub enum ContentKind {
    Hexdump,
    Strings,
    UnwindTable,
    Frames,
}

/// How the content of a section is shown: as a dump where that is asked
/// for; else a string table as its strings, `.eh_frame_hdr` as an unwind
/// table, `.eh_frame` as frame information, anything else as a dump.
pub open spec fn content_kind(sh: SectionHeader, name: Seq<char>, hexdump: bool) -> ContentKind {
    if hexdump {
        ContentKind::Hexdump
    } else if sh.sh_type == SHT_STRTAB {
        ContentKind::Strings
    } else if name == ".eh_frame_hdr"@ {
        ContentKind::UnwindTable
    } else if name == ".eh_frame"@ {
        ContentKind::Frames
    } else {
        ContentKind::Hexdump
    }
}

/// Tells how the content of a section is shown.
pub fn choose_content(sh: &SectionHeader, name: &str, hexdump: bool) -> (kind: ContentKind)
    ensures
        kind == content_kind(*sh, name@, hexdump),
{
    if hexdump {
        ContentKind::Hexdump
    } else if sh.sh_type == SHT_STRTAB {
        ContentKind::Strings
    } else if same_text(name, ".eh_frame_hdr") {
        ContentKind::UnwindTable
    } else if same_text(name, ".eh_frame") {
        ContentKind::Frames
    } else {
        ContentKind::Hexdump
    }
}

/// The rendered content of a section, where the library renders it.
pub open spec fn content_text(elf: &Elf, sh: SectionHeader, kind: ContentKind, content: Seq<u8>) -> Result<
    Seq<char>,
    SectionError,
> {
    match kind {
        ContentKind::Hexdump => Ok(dump_text(content, 0)),
        ContentKind::Strings => match strtab_text(content) {
            Some(text) => Ok(text),
            None => Err(SectionError::Strtab),
        },
        ContentKind::UnwindTable => match table_of(content, sh.sh_addr) {
            Ok(table) => Ok(table_text(table, elf.size_print())),
            Err(e) => Err(
                SectionError::Table(TableError { kind: e.0, offset: e.1 as usize }),
            ),
        },
        ContentKind::Frames => Ok(Seq::<char>::empty()),
    }
}

/// Renders the content of a section.
pub fn render_content(elf: &Elf, sh: &SectionHeader, kind: ContentKind, content: &[u8]) -> (res:
    Result<String, SectionError>)
    ensures
        match res {
            Ok(text) => content_text(elf, *sh, kind, content@) == Ok::<Seq<char>, SectionError>(
                text@,
            ),
            Err(e) => content_text(elf, *sh, kind, content@) == Err::<Seq<char>, SectionError>(e),
        },
{
    match kind {
        ContentKind::Hexdump => Ok(hexdump(content)),
        ContentKind::Strings => match strtab(content) {
            Some(text) => Ok(text),
            None => Err(SectionError::Strtab),
        },
        ContentKind::UnwindTable => match eh_frame_hdr(elf, sh.sh_addr, content) {
            Ok(text) => Ok(text),
            Err(e) => Err(SectionError::Table(e)),
        },
        ContentKind::Frames => Ok(String::new()),
    }
}

/// The message that a section was exported.
pub open spec fn export_message(name: Seq<char>, path: Seq<char>) -> Seq<char> {
    "Section "@ + quoted(name) + " has been saved to \""@ + path + "\"\n"@
}

/// Whether `view` is the view of the section that `opts` name, in a file
/// whose bytes are `bytes`; `index` is the section's place among the
/// sections.
pub open spec fn views_section(
    view: SectionView,
    elf: &Elf,
    bytes: Seq<u8>,
    opts: &SectionArgs,
    sizes: Seq<SizeText>,
    index: int,
) -> bool {
    let name = opts.name->0@;
    let sh = elf.section_headers@[index];
    let part = shown_part(sh, opts.skip, opts.size, bytes.len());
    let warned = range_warnings(sh, opts.skip, opts.size, bytes.len());
    match view {
        SectionView::Listing(_) => false,
        SectionView::Export { warnings, start, end, message } => {
            &&& opts.output is Some
            &&& part == Some(Shown { start: start as nat, end: end as nat })
            &&& warnings@ == warned
            &&& message@ == export_message(name, opts.output->0@)
        },
        SectionView::Detail { warnings, text, content } => {
            &&& opts.output is None
            &&& warnings@ == warned
            &&& text@ == detail_text(sh, name, elf.size_print(), size_at(sizes, index, false)) + (
            if part is Some {
                "\n"@
            } else {
                Seq::<char>::empty()
            })
            &&& match content {
                Content::Nothing => part is None,
                Content::Frames { start, end, vaddr } => {
                    &&& part == Some(Shown { start: start as nat, end: end as nat })
                    &&& vaddr == sh.sh_addr
                    &&& content_kind(sh, name, opts.hexdump) == ContentKind::Frames
                },
                Content::Text(shown) => {
                    &&& part is Some
                    &&& content_kind(sh, name, opts.hexdump) != ContentKind::Frames
                    &&& shown@ == content_text(
                        elf,
                        sh,
                        content_kind(sh, name, opts.hexdump),
                        bytes.subrange(part->0.start as int, part->0.end as int),
                    )->Ok_0
                },
            }
        },
    }
}

/// The error of the view that `opts` ask for, if it has one.
pub open spec fn section_failure(elf: &Elf, bytes: Seq<u8>, opts: &SectionArgs) -> Option<
    SectionError,
> {
    if opts.name is None {
        None
    } else {
        match section_position(elf.section_headers@, opts.name->0@) {
            None => Some(SectionError::NotFound),
            Some(index) => {
                let sh = elf.section_headers@[index];
                let part = shown_part(sh, opts.skip, opts.size, bytes.len());
                if opts.output is Some {
                    if part is None {
                        Some(SectionError::NoContent)
                    } else {
                        None
                    }
                } else if part is None {
                    None
                } else {
                    match content_text(
                        elf,
                        sh,
                        content_kind(sh, opts.name->0@, opts.hexdump),
                        bytes.subrange(part->0.start as int, part->0.end as int),
                    ) {
                        Err(e) => Some(e),
                        Ok(_) => None,
                    }
                }
            },
        }
    }
}

/// Shows one section: its fields and its content, or what is to be
/// exported of it; where `opts` name no section, the listing of all.
/// `sizes` holds, for each section in turn, the texts of its size with a
/// binary unit.
pub fn one_section(elf: &Elf, bytes: &[u8], opts: &SectionArgs, sizes: &Vec<SizeText>) -> (res: Result<
    SectionView,
    SectionError,
>)
    ensures
        match res {
            Err(e) => section_failure(elf, bytes@, opts) == Some(e),
            Ok(view) => section_failure(elf, bytes@, opts) is None && (if opts.name is None {
                view matches SectionView::Listing(text) && text@ == sections_text(elf, sizes@)
            } else {
                section_position(elf.section_headers@, opts.name->0@) matches Some(index)
                    && views_section(view, elf, bytes@, opts, sizes@, index)
            }),
        },
{
    let name = match &opts.name {
        None => {
            return Ok(SectionView::Listing(all_sections(elf, sizes)));
        },
        Some(name) => name.as_str(),
    };
    let index = match section_index(elf, name) {
        Some(index) => index,
        None => {
            return Err(SectionError::NotFound);
        },
    };
    let sh = &elf.section_headers[index];
    let (range, warnings) = content_range(sh, opts.skip, opts.size, bytes.len());
    match &opts.output {
        Some(path) => {
            let (start, end) = match range {
                Some(range) => range,
                None => {
                    return Err(SectionError::NoContent);
                },
            };
            let mut message = String::new();
            message.append("Section ");
            message.append(debug_quoted(name).as_str());
            message.append(" has been saved to \"");
            message.append(path.as_str());
            message.append("\"\n");
            assert(message@ =~= export_message(name@, path@));
            return Ok(SectionView::Export { warnings, start, end, message });
        },
        None => {},
    }
    let size: &str = size_text(sizes, index, false);
    let mut text = render_detail_top(sh, name, elf.sp());
    text.append(render_detail_rest(sh, elf.sp(), size).as_str());
    let ghost fields = text@;
    if range.is_some() {
        text.append("\n");
    }
    assert(text@ =~= fields + (if range is Some {
        "\n"@
    } else {
        Seq::<char>::empty()
    }));
    let content = match range {
        None => Content::Nothing,
        Some((start, end)) => {
            let kind = choose_content(sh, name, opts.hexdump);
            match kind {
                ContentKind::Frames => Content::Frames { start, end, vaddr: sh.sh_addr },
                _ => match render_content(elf, sh, kind, &bytes[start..end]) {
                    Ok(shown) => Content::Text(shown),
                    Err(e) => {
                        return Err(e);
                    },
                },
            }
        },
    };
    Ok(SectionView::Detail { warnings, text, content })
}

impl SectionError {
    /// What went wrong with the section called `name`, in words.
    pub open spec fn text(self, name: Seq<char>) -> Seq<char> {
        match self {
            SectionError::NotFound => "couldn't find section "@ + quoted(name),
            SectionError::NoContent => "section "@ + quoted(name)
                + " is NOBITS and, therefor, has no content to export."@,
            SectionError::Table(e) => "couldn't decode the unwind table of section "@ + quoted(
                name,
            ) + ": "@ + e.text(),
            SectionError::Strtab => "couldn't read the string table of section "@ + quoted(name),
        }
    }

    /// Says in words what went wrong with the section called `name`.
    pub fn message(&self, name: &str) -> (s: String)
        ensures
            s@ == self.text(name@),
    {
        let mut s = String::new();
        match self {
            SectionError::NotFound => {
                s.append("couldn't find section ");
                s.append(debug_quoted(name).as_str());
            },
            SectionError::NoContent => {
                s.append("section ");
                s.append(debug_quoted(name).as_str());
                s.append(" is NOBITS and, therefor, has no content to export.");
            },
            SectionError::Table(e) => {
                s.append("couldn't decode the unwind table of section ");
                s.append(debug_quoted(name).as_str());
                s.append(": ");
                s.append(e.message().as_str());
            },
            SectionError::Strtab => {
                s.append("couldn't read the string table of section ");
                s.append(debug_quoted(name).as_str());
            },
        }
        assert(s@ =~= self.text(name@));
        s
    }
}

} // verus!
