//! The file header and the program headers, rendered.

use crate::elf::{Elf, Header, ProgramHeader};
use crate::print::{
    field_text, header_text, print_header, Container, PairTable, SizePrint, SizeText,
};
use crate::sections::{address_column, all_sections, column_width, sections_text};
use crate::text::{
    decimal, hex, pad_left, pad_right, push_decimal, push_decimal_padded, push_hex_padded,
    push_pad_left, push_pad_right, push_repeat, repeat, same_text, strip_prefix, without_prefix,
};
use vstd::prelude::*;
use vstd::string::*;

verus! {

pub const ET_NONE: u16 = 0;

pub const ET_REL: u16 = 1;

pub const ET_EXEC: u16 = 2;

pub const ET_DYN: u16 = 3;

pub const ET_CORE: u16 = 4;

pub const ET_LOOS: u16 = 0xfe00;

pub const ET_HIOS: u16 = 0xfeff;

pub const ET_LOPROC: u16 = 0xff00;

pub const ET_HIPROC: u16 = 0xffff;

/// The name of a machine, as `goblin::elf::header::machine_to_str` gives
/// it.
pub uninterp spec fn machine_text(machine: u16) -> Seq<char>;

/// `goblin::elf::header::machine_to_str`: the name of a machine.
#[verifier::external_body]
fn machine_name(machine: u16) -> (name: &'static str)
    ensures
        name@ == machine_text(machine),
{
    goblin::elf::header::machine_to_str(machine)
}

/// The name of a segment type, as
/// `goblin::elf::program_header::pt_to_str` gives it.
pub uninterp spec fn pt_text(pt: u32) -> Seq<char>;

/// `goblin::elf::program_header::pt_to_str`: the name of a segment type.
#[verifier::external_body]
fn pt_name(pt: u32) -> (name: &'static str)
    ensures
        name@ == pt_text(pt),
{
    goblin::elf::program_header::pt_to_str(pt)
}

/// A number in hexadecimal after `0x`, with zeros up to `digits` digits.
pub open spec fn prefixed_hex(n: nat, digits: nat) -> Seq<char> {
    "0x"@ + pad_left(hex(n), digits, '0')
}

/// The description of a file type.
pub open spec fn file_type_text(e_type: u16) -> Seq<char> {
    if e_type == ET_NONE {
        "None"@
    } else if e_type == ET_REL {
        "Relocatable"@
    } else if e_type == ET_EXEC {
        "Executable"@
    } else if e_type == ET_DYN {
        "Shared object"@
    } else if e_type == ET_CORE {
        "Core file"@
    } else if ET_LOOS <= e_type < ET_HIOS {
        "OS-specific ("@ + prefixed_hex(e_type as nat, 4) + ")"@
    } else if ET_LOPROC <= e_type < ET_HIPROC {
        "Processor-specific ("@ + prefixed_hex(e_type as nat, 4) + ")"@
    } else {
        "Unknown ("@ + prefixed_hex(e_type as nat, 4) + ")"@
    }
}

/// The description of the identification's class byte.
pub open spec fn class_text(ident_class: u8) -> Seq<char> {
    if ident_class == 1 {
        "ELF32"@
    } else if ident_class == 2 {
        "ELF64"@
    } else {
        "\x1b[93m[warning: invalid ident class]\x1b[0m"@
    }
}

/// The description of the identification's data byte.
pub open spec fn data_text(ident_data: u8) -> Seq<char> {
    if ident_data == 1 {
        "Little-endian"@
    } else if ident_data == 2 {
        "Big-endian"@
    } else {
        "\x1b[93m[warning: invalid ident data]\x1b[0m"@
    }
}

/// The first fields of the file header: version, type, class, data and
/// machine.
pub open spec fn identity_text(h: Header) -> Seq<char> {
    header_text("ELF HEADER"@) + field_text(22, "Version"@) + decimal(h.e_version as nat) + "\n"@
        + field_text(22, "Type"@) + file_type_text(h.e_type) + "\n"@ + field_text(
        22,
        "Ident's class"@,
    ) + class_text(h.ident_class) + "\n"@ + field_text(22, "Ident's data"@) + data_text(
        h.ident_data,
    ) + "\n"@ + field_text(22, "Machine"@) + machine_text(h.e_machine) + "\n"@
}

/// The fields of the file header that say how the image is run: entry
/// point, flags, and the interpreter and the shared object's name where the
/// image names them.
pub open spec fn running_text(elf: &Elf) -> Seq<char> {
    field_text(22, "Entry point address"@) + (if elf.header.e_entry == 0 {
        "\x1b[90m"@
    } else {
        Seq::<char>::empty()
    }) + elf.size_print().hex_text(elf.header.e_entry) + "\n"@ + field_text(22, "Flags"@)
        + prefixed_hex(elf.header.e_flags as nat, 8) + "\n"@ + (match elf.interpreter {
        Some(path) => field_text(22, "Interpreter"@) + path@ + "\n"@,
        None => Seq::<char>::empty(),
    }) + (match elf.soname {
        Some(name) => field_text(22, "SO name"@) + name@ + "\n"@,
        None => Seq::<char>::empty(),
    })
}

/// One field of the layout: a number in a column of sixteen, with the unit
/// where it is a number of bytes.
pub open spec fn layout_field(name: Seq<char>, n: nat, bytes: bool) -> Seq<char> {
    field_text(22, name) + pad_left(decimal(n), 16, ' ') + (if bytes {
        " B\n"@
    } else {
        "\n"@
    })
}

/// The fields of the file header that say where the tables lie.
pub open spec fn layout_text(h: Header) -> Seq<char> {
    field_text(22, ""@) + "\n"@ + layout_field("Nr. prog. headers"@, h.e_phnum as nat, false)
        + layout_field("Prog. headers offset"@, h.e_phoff as nat, true) + layout_field(
        "Prog. header size"@,
        h.e_phentsize as nat,
        true,
    ) + layout_field("Nr. section headers"@, h.e_shnum as nat, false) + layout_field(
        "Section headers offset"@,
        h.e_shoff as nat,
        true,
    ) + layout_field("Section header size"@, h.e_shentsize as nat, true)
}

/// The rendered file header.
pub open spec fn elf_header_text(elf: &Elf) -> Seq<char> {
    identity_text(elf.header) + running_text(elf) + layout_text(elf.header)
}

/// Appends a number in hexadecimal after `0x`.
pub fn push_prefixed_hex(s: &mut String, n: u64, digits: usize)
    ensures
        final(s)@ == old(s)@ + prefixed_hex(n as nat, digits as nat),
{
    s.append("0x");
    push_hex_padded(s, n, digits);
    assert(s@ =~= old(s)@ + prefixed_hex(n as nat, digits as nat));
}

/// Describes a file type.
pub fn file_type(e_type: u16) -> (s: String)
    ensures
        s@ == file_type_text(e_type),
{
    let mut s = String::new();
    if e_type == ET_NONE {
        s.append("None");
    } else if e_type == ET_REL {
        s.append("Relocatable");
    } else if e_type == ET_EXEC {
        s.append("Executable");
    } else if e_type == ET_DYN {
        s.append("Shared object");
    } else if e_type == ET_CORE {
        s.append("Core file");
    } else {
        if ET_LOOS <= e_type && e_type < ET_HIOS {
            s.append("OS-specific (");
        } else if ET_LOPROC <= e_type && e_type < ET_HIPROC {
            s.append("Processor-specific (");
        } else {
            s.append("Unknown (");
        }
        push_prefixed_hex(&mut s, e_type as u64, 4);
        s.append(")");
    }
    assert(s@ =~= file_type_text(e_type));
    s
}

/// Renders the first fields of the file header.
pub fn render_identity(h: &Header) -> (s: String)
    ensures
        s@ == identity_text(*h),
{
    let table = PairTable(22);
    let mut s = print_header("ELF HEADER");
    s.append(table.field("Version").as_str());
    push_decimal(&mut s, h.e_version as u64);
    s.append("\n");
    s.append(table.field("Type").as_str());
    s.append(file_type(h.e_type).as_str());
    s.append("\n");
    s.append(table.field("Ident's class").as_str());
    let class = if h.ident_class == 1 {
        "ELF32"
    } else if h.ident_class == 2 {
        "ELF64"
    } else {
        "\x1b[93m[warning: invalid ident class]\x1b[0m"
    };
    s.append(class);
    s.append("\n");
    s.append(table.field("Ident's data").as_str());
    let data = if h.ident_data == 1 {
        "Little-endian"
    } else if h.ident_data == 2 {
        "Big-endian"
    } else {
        "\x1b[93m[warning: invalid ident data]\x1b[0m"
    };
    s.append(data);
    s.append("\n");
    s.append(table.field("Machine").as_str());
    s.append(machine_name(h.e_machine));
    s.append("\n");
    assert(s@ =~= identity_text(*h));
    s
}

/// Renders the fields that say how the image is run.
pub fn render_running(elf: &Elf) -> (s: String)
    ensures
        s@ == running_text(elf),
{
    let table = PairTable(22);
    let mut s = String::new();
    s.append(table.field("Entry point address").as_str());
    let mut grey = String::new();
    if elf.header.e_entry == 0 {
        grey.append("\x1b[90m");
    }
    assert(grey@ =~= (if elf.header.e_entry == 0 {
        "\x1b[90m"@
    } else {
        Seq::<char>::empty()
    }));
    s.append(grey.as_str());
    s.append(elf.sp().hex(elf.header.e_entry).to_text().as_str());
    s.append("\n");
    s.append(table.field("Flags").as_str());
    push_prefixed_hex(&mut s, elf.header.e_flags as u64, 8);
    s.append("\n");
    let mut first = String::new();
    match &elf.interpreter {
        Some(path) => {
            first.append(table.field("Interpreter").as_str());
            first.append(path.as_str());
            first.append("\n");
        },
        None => {},
    }
    assert(first@ =~= (match elf.interpreter {
        Some(path) => field_text(22, "Interpreter"@) + path@ + "\n"@,
        None => Seq::<char>::empty(),
    }));
    let mut second = String::new();
    match &elf.soname {
        Some(name) => {
            second.append(table.field("SO name").as_str());
            second.append(name.as_str());
            second.append("\n");
        },
        None => {},
    }
    assert(second@ =~= (match elf.soname {
        Some(name) => field_text(22, "SO name"@) + name@ + "\n"@,
        None => Seq::<char>::empty(),
    }));
    s.append(first.as_str());
    s.append(second.as_str());
    assert(s@ =~= running_text(elf));
    s
}

/// Renders one field of the layout.
pub fn render_layout_field(name: &str, n: u64, bytes: bool) -> (s: String)
    ensures
        s@ == layout_field(name@, n as nat, bytes),
{
    let mut s = PairTable(22).field(name);
    push_decimal_padded(&mut s, n, 16);
    if bytes {
        s.append(" B\n");
    } else {
        s.append("\n");
    }
    assert(s@ =~= layout_field(name@, n as nat, bytes));
    s
}

/// Renders the fields that say where the tables lie.
pub fn render_layout(h: &Header) -> (s: String)
    ensures
        s@ == layout_text(*h),
{
    let mut s = PairTable(22).field("");
    s.append("\n");
    s.append(render_layout_field("Nr. prog. headers", h.e_phnum as u64, false).as_str());
    s.append(render_layout_field("Prog. headers offset", h.e_phoff, true).as_str());
    s.append(render_layout_field("Prog. header size", h.e_phentsize as u64, true).as_str());
    s.append(render_layout_field("Nr. section headers", h.e_shnum as u64, false).as_str());
    s.append(render_layout_field("Section headers offset", h.e_shoff, true).as_str());
    s.append(render_layout_field("Section header size", h.e_shentsize as u64, true).as_str());
    assert(s@ =~= layout_text(*h));
    s
}

/// Renders the file header.
pub fn header(elf: &Elf) -> (s: String)
    ensures
        s@ == elf_header_text(elf),
{
    let mut s = render_identity(&elf.header);
    s.append(render_running(elf).as_str());
    s.append(render_layout(&elf.header).as_str());
    assert(s@ =~= elf_header_text(elf));
    s
}

/// The short name shown for a segment type, given the type's full name:
/// the name without its `PT_`, or a mark where the type is unknown.
pub open spec fn shown_segment_type(full: Seq<char>) -> Seq<char> {
    if full == "UNKNOWN_PT"@ {
        "\x1b[93m[unknown]\x1b[0m"@
    } else {
        without_prefix(full, "PT_"@)
    }
}

/// The short name shown for a segment type, given the type's full name.
pub fn short_segment_type(full: &'static str) -> (name: &'static str)
    ensures
        name@ == shown_segment_type(full@),
{
    if same_text(full, "UNKNOWN_PT") {
        "\x1b[93m[unknown]\x1b[0m"
    } else {
        strip_prefix(full, "PT_")
    }
}

/// The first line of the names of the columns.
pub open spec fn columns_top(w: nat) -> Seq<char> {
    "\x1b[37m"@ + pad_left("Type"@, 12, ' ') + " \x1b[97m\u{2502} \x1b[37m"@ + pad_right(
        "Virt. addr."@,
        w,
        ' ',
    ) + " \x1b[97m\u{2502} \x1b[37m"@ + pad_right("Phys. addr."@, w, ' ')
        + " \x1b[97m\u{2502} \x1b[37m"@ + pad_right("Flags"@, 8, ' ') + "\x1b[0m\n"@
}

/// The second line of the names of the columns.
pub open spec fn columns_bottom(w: nat) -> Seq<char> {
    "\x1b[37m"@ + pad_right(""@, 12, ' ') + " \x1b[97m\u{2502} \x1b[37m"@ + pad_right(
        "Memory size"@,
        w,
        ' ',
    ) + " \x1b[97m\u{2502} \x1b[37m"@ + pad_right("In-ELF size"@, w, ' ')
        + "\x1b[0m \x1b[97m\u{2502} \x1b[37m"@ + pad_right("In-ELF off."@, w, ' ') + "\n"@
}

/// The head of the listing of program headers: the heading, the names of
/// the columns in two lines, and a rule.
pub open spec fn segments_head(size: Container, count: nat) -> Seq<char> {
    header_text("PROGRAM HEADERS ("@ + decimal(count) + ")"@) + columns_top(column_width(size) + 1)
        + columns_bottom(column_width(size) + 1) + "\x1b[97m"@ + repeat('\u{2500}', 13)
        + "\u{253c}"@ + repeat('\u{2500}', column_width(size) + 3) + "\u{253c}"@ + repeat(
        '\u{2500}',
        column_width(size) + 3,
    ) + "\u{253c}\x1b[0m\n"@
}

/// The two lines of one program header: its type and its addresses, then,
/// underlined, its sizes in memory and in the file.
pub open spec fn segment_rows(ph: ProgramHeader, sp: SizePrint) -> Seq<char> {
    pad_left(shown_segment_type(pt_text(ph.p_type)), 12, ' ') + " \x1b[97m\u{2502}\x1b[0m "@
        + sp.hex_text(ph.p_vaddr) + " \x1b[97m\u{2576}\u{253c}>\x1b[0m "@ + sp.hex_text(ph.p_paddr)
        + "\n"@ + "\x1b[4m"@ + pad_left(""@, 12, ' ') + " \x1b[97m\u{2502}\x1b[0;4m "@
        + sp.hex_text(ph.p_memsz) + "  \x1b[97m\u{2502}\x1b[0;4m  "@ + sp.hex_text(ph.p_filesz)
        + "\x1b[0m\n"@
}

/// The lines of the first `n` program headers.
pub open spec fn segments_rows(phs: Seq<ProgramHeader>, n: int, sp: SizePrint) -> Seq<char>
    decreases n,
{
    if n <= 0 {
        Seq::<char>::empty()
    } else {
        segments_rows(phs, n - 1, sp) + segment_rows(phs[n - 1], sp)
    }
}

/// The listing of the program headers.
pub open spec fn segments_text(elf: &Elf) -> Seq<char> {
    segments_head(elf.header.shown_container(), elf.program_headers@.len()) + segments_rows(
        elf.program_headers@,
        elf.program_headers@.len() as int,
        elf.size_print(),
    )
}

/// Renders the first line of the names of the columns.
pub fn render_columns_top(w: usize) -> (s: String)
    ensures
        s@ == columns_top(w as nat),
{
    let mut s = String::new();
    s.append("\x1b[37m");
    push_pad_left(&mut s, "Type", 12, ' ');
    s.append(" \x1b[97m\u{2502} \x1b[37m");
    push_pad_right(&mut s, "Virt. addr.", w, ' ');
    s.append(" \x1b[97m\u{2502} \x1b[37m");
    push_pad_right(&mut s, "Phys. addr.", w, ' ');
    s.append(" \x1b[97m\u{2502} \x1b[37m");
    push_pad_right(&mut s, "Flags", 8, ' ');
    s.append("\x1b[0m\n");
    assert(s@ =~= columns_top(w as nat));
    s
}

/// Renders the second line of the names of the columns.
pub fn render_columns_bottom(w: usize) -> (s: String)
    ensures
        s@ == columns_bottom(w as nat),
{
    let mut s = String::new();
    s.append("\x1b[37m");
    push_pad_right(&mut s, "", 12, ' ');
    s.append(" \x1b[97m\u{2502} \x1b[37m");
    push_pad_right(&mut s, "Memory size", w, ' ');
    s.append(" \x1b[97m\u{2502} \x1b[37m");
    push_pad_right(&mut s, "In-ELF size", w, ' ');
    s.append("\x1b[0m \x1b[97m\u{2502} \x1b[37m");
    push_pad_right(&mut s, "In-ELF off.", w, ' ');
    s.append("\n");
    assert(s@ =~= columns_bottom(w as nat));
    s
}

/// Renders the head of the listing of program headers.
pub fn render_segments_head(size: Container, count: usize) -> (s: String)
    ensures
        s@ == segments_head(size, count as nat),
{
    let w = address_column(size);
    let mut title = String::new();
    title.append("PROGRAM HEADERS (");
    push_decimal(&mut title, count as u64);
    title.append(")");
    assert(title@ =~= "PROGRAM HEADERS ("@ + decimal(count as nat) + ")"@);
    let mut s = print_header(title.as_str());
    s.append(render_columns_top(w + 1).as_str());
    s.append(render_columns_bottom(w + 1).as_str());
    s.append("\x1b[97m");
    push_repeat(&mut s, '\u{2500}', 13);
    s.append("\u{253c}");
    push_repeat(&mut s, '\u{2500}', w + 3);
    s.append("\u{253c}");
    push_repeat(&mut s, '\u{2500}', w + 3);
    s.append("\u{253c}\x1b[0m\n");
    assert(s@ =~= segments_head(size, count as nat));
    s
}

/// Renders the two lines of one program header.
pub fn render_segment(ph: &ProgramHeader, sp: SizePrint) -> (s: String)
    ensures
        s@ == segment_rows(*ph, sp),
{
    let mut s = String::new();
    push_pad_left(&mut s, short_segment_type(pt_name(ph.p_type)), 12, ' ');
    s.append(" \x1b[97m\u{2502}\x1b[0m ");
    s.append(sp.hex(ph.p_vaddr).to_text().as_str());
    s.append(" \x1b[97m\u{2576}\u{253c}>\x1b[0m ");
    s.append(sp.hex(ph.p_paddr).to_text().as_str());
    s.append("\n");
    s.append("\x1b[4m");
    push_pad_left(&mut s, "", 12, ' ');
    s.append(" \x1b[97m\u{2502}\x1b[0;4m ");
    s.append(sp.hex(ph.p_memsz).to_text().as_str());
    s.append("  \x1b[97m\u{2502}\x1b[0;4m  ");
    s.append(sp.hex(ph.p_filesz).to_text().as_str());
    s.append("\x1b[0m\n");
    assert(s@ =~= segment_rows(*ph, sp));
    s
}

/// Lists the program headers, two lines each.
pub fn program_headers(elf: &Elf) -> (s: String)
    ensures
        s@ == segments_text(elf),
{
    let sp = elf.sp();
    let mut s = render_segments_head(elf.header.display_container(), elf.program_headers.len());
    let ghost head = s@;
    let mut i: usize = 0;
    assert(s@ =~= head + segments_rows(elf.program_headers@, 0, sp));
    while i < elf.program_headers.len()
        invariant
            i <= elf.program_headers.len(),
            s@ == head + segments_rows(elf.program_headers@, i as int, sp),
        decreases elf.program_headers.len() - i,
    {
        s.append(render_segment(&elf.program_headers[i], sp).as_str());
        i += 1;
        assert(s@ =~= head + segments_rows(elf.program_headers@, i as int, sp));
    }
    s
}

/// The summary of an image: the file header, the program headers and the
/// sections, an empty line between them.
pub open spec fn summary_text(elf: &Elf, sizes: Seq<SizeText>) -> Seq<char> {
    elf_header_text(elf) + "\n"@ + segments_text(elf) + "\n"@ + sections_text(elf, sizes)
}

/// Renders the summary of an image. `sizes` holds, for each section in
/// turn, the texts of its size with a binary unit.
pub fn summary(elf: &Elf, sizes: &Vec<SizeText>) -> (s: String)
    ensures
        s@ == summary_text(elf, sizes@),
{
    let mut s = header(elf);
    s.append("\n");
    s.append(program_headers(elf).as_str());
    s.append("\n");
    s.append(all_sections(elf, sizes).as_str());
    assert(s@ =~= summary_text(elf, sizes@));
    s
}

} // verus!
