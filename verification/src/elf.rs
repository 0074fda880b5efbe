//! The parts of an ELF image that the views read, and the lookups between
//! names, addresses and file offsets.

use crate::print::{Container, SizePrint};
use crate::text::same_text;
use std::fmt::Write;
use vstd::prelude::*;
use vstd::string::*;

verus! {

/// One symbol of a symbol table.
#[derive(Clone, Debug)]
pub struct Sym {
    /// The name from the string table, where the table holds one.
    pub name: Option<String>,
    /// The virtual address.
    pub st_value: u64,
    pub st_size: u64,
    /// Binding in the high nibble, type in the low one.
    pub st_info: u8,
    /// Visibility in the low three bits.
    pub st_other: u8,
}

/// One program header: a segment of the image.
#[derive(Clone, Copy, Debug)]
pub struct ProgramHeader {
    pub p_type: u32,
    pub p_flags: u32,
    pub p_offset: u64,
    pub p_vaddr: u64,
    pub p_paddr: u64,
    pub p_filesz: u64,
    pub p_memsz: u64,
    pub p_align: u64,
}

/// One section header.
#[derive(Clone, Debug)]
pub struct SectionHeader {
    /// The name from the section string table, where the table holds one.
    pub name: Option<String>,
    pub sh_type: u32,
    pub sh_flags: u64,
    pub sh_addr: u64,
    pub sh_offset: u64,
    pub sh_size: u64,
    pub sh_addralign: u64,
    pub sh_entsize: u64,
}

/// The file header.
#[derive(Clone, Copy, Debug)]
pub struct Header {
    /// The class byte of the identification: 1 for 32 bits, 2 for 64 bits.
    pub ident_class: u8,
    /// The data byte of the identification: 1 for little endian, 2 for big
    /// endian.
    pub ident_data: u8,
    pub e_type: u16,
    pub e_machine: u16,
    pub e_version: u32,
    pub e_entry: u64,
    pub e_phoff: u64,
    pub e_shoff: u64,
    pub e_flags: u32,
    pub e_phentsize: u16,
    pub e_phnum: u16,
    pub e_shentsize: u16,
    pub e_shnum: u16,
}

/// An ELF image as the views read it.
#[derive(Clone, Debug)]
pub struct Elf {
    pub header: Header,
    pub program_headers: Vec<ProgramHeader>,
    pub section_headers: Vec<SectionHeader>,
    pub syms: Vec<Sym>,
    pub dynsyms: Vec<Sym>,
    pub interpreter: Option<String>,
    pub soname: Option<String>,
}

pub const STB_LOCAL: u8 = 0;

pub const STB_GLOBAL: u8 = 1;

pub const STB_WEAK: u8 = 2;

pub const STB_NUM: u8 = 3;

pub const STB_GNU_UNIQUE: u8 = 10;

pub const STT_NOTYPE: u8 = 0;

pub const STT_OBJECT: u8 = 1;

pub const STT_FUNC: u8 = 2;

pub const STT_SECTION: u8 = 3;

pub const STT_FILE: u8 = 4;

pub const STT_COMMON: u8 = 5;

pub const STT_TLS: u8 = 6;

pub const STT_NUM: u8 = 7;

pub const STV_DEFAULT: u8 = 0;

pub const STV_INTERNAL: u8 = 1;

pub const STV_HIDDEN: u8 = 2;

pub const STV_PROTECTED: u8 = 3;

pub const STV_EXPORTED: u8 = 4;

pub const STV_SINGLETON: u8 = 5;

pub const STV_ELIMINATE: u8 = 6;

pub const SHT_STRTAB: u32 = 3;

pub const SHT_NOBITS: u32 = 8;

impl Header {
    /// The word size that the identification declares, if it is a valid one.
    pub fn container(&self) -> (c: Option<Container>)
        ensures
            c == (if self.ident_class == 1 {
                Some(Container::Little)
            } else if self.ident_class == 2 {
                Some(Container::Big)
            } else {
                None
            }),
    {
        if self.ident_class == 1 {
            Some(Container::Little)
        } else if self.ident_class == 2 {
            Some(Container::Big)
        } else {
            None
        }
    }

    /// The word size used for display: 64 bits unless the identification
    /// validly says 32.
    pub open spec fn shown_container(self) -> Container {
        if self.ident_class == 1 {
            Container::Little
        } else {
            Container::Big
        }
    }

    /// The word size used for display.
    pub fn display_container(&self) -> (c: Container)
        ensures
            c == self.shown_container(),
    {
        match self.container() {
            Some(c) => c,
            None => Container::Big,
        }
    }
}

impl Elf {
    /// How addresses of this image are rendered.
    pub open spec fn size_print(self) -> SizePrint {
        SizePrint { size: self.header.shown_container() }
    }

    /// How addresses of this image are rendered.
    pub fn sp(&self) -> (sp: SizePrint)
        ensures
            sp == self.size_print(),
    {
        SizePrint::new(self.header.display_container())
    }
}

impl Sym {
    /// The binding: the high nibble of the info byte.
    pub open spec fn bind(self) -> int {
        self.st_info as int / 16
    }

    /// The type: the low nibble of the info byte.
    pub open spec fn kind(self) -> int {
        self.st_info as int % 16
    }

    /// The visibility: the low three bits of the other byte.
    pub open spec fn visibility(self) -> int {
        self.st_other as int % 8
    }

    /// Whether the symbol is defined: its address is not zero.
    pub open spec fn defined(self) -> bool {
        self.st_value > 0
    }

    /// The addresses that the symbol covers hold `addr`.
    pub open spec fn covers(self, addr: u64) -> bool {
        self.st_value <= addr < self.st_value + self.st_size
    }

    pub fn st_bind(&self) -> (b: u8)
        ensures
            b == self.bind(),
    {
        let info = self.st_info;
        assert(info >> 4 == info / 16) by (bit_vector);
        info >> 4
    }

    pub fn st_type(&self) -> (t: u8)
        ensures
            t == self.kind(),
    {
        let info = self.st_info;
        assert(info & 0xf == info % 16) by (bit_vector);
        info & 0xf
    }

    pub fn st_visibility(&self) -> (v: u8)
        ensures
            v == self.visibility(),
    {
        let other = self.st_other;
        assert(other & 0x7 == other % 8) by (bit_vector);
        other & 0x7
    }
}

impl ProgramHeader {
    /// The segment's addresses in memory hold `vaddr`.
    pub open spec fn covers(self, vaddr: u64) -> bool {
        self.p_vaddr <= vaddr < self.p_vaddr + self.p_memsz
    }
}

/// The readable form of a mangled name, as `rustc_demangle::demangle`
/// displays it.
pub uninterp spec fn demangled(name: Seq<char>) -> Seq<char>;

/// `rustc_demangle::demangle`, displayed: the readable form of a mangled
/// name, or the name itself where it is not mangled.
#[verifier::external_body]
pub(crate) fn demangle(name: &str) -> (out: String)
    ensures
        out@ == demangled(name@),
{
    let mut out = String::new();
    let _ = write!(out, "{}", rustc_demangle::demangle(name));
    out
}

/// Whether a symbol goes by `name`: as it stands, or once demangled.
pub open spec fn goes_by(sym: Sym, name: Seq<char>, readable: bool) -> bool {
    match sym.name {
        Some(n) => if readable {
            demangled(n@) == name
        } else {
            n@ == name
        },
        None => false,
    }
}

/// Symbol `i` goes by `name` and none before it does.
pub open spec fn first_by_name(tab: Seq<Sym>, i: int, name: Seq<char>, readable: bool) -> bool {
    &&& 0 <= i < tab.len()
    &&& goes_by(tab[i], name, readable)
    &&& forall|j: int| 0 <= j < i ==> !goes_by(#[trigger] tab[j], name, readable)
}

/// No symbol goes by `name`.
pub open spec fn none_by_name(tab: Seq<Sym>, name: Seq<char>, readable: bool) -> bool {
    forall|j: int| 0 <= j < tab.len() ==> !goes_by(#[trigger] tab[j], name, readable)
}

/// Symbol `i` covers `addr` and none before it does.
pub open spec fn first_covering(tab: Seq<Sym>, i: int, addr: u64) -> bool {
    &&& 0 <= i < tab.len()
    &&& tab[i].covers(addr)
    &&& forall|j: int| 0 <= j < i ==> !(#[trigger] tab[j]).covers(addr)
}

/// Segment `i` covers `vaddr` and none before it does.
pub open spec fn first_segment(phs: Seq<ProgramHeader>, i: int, vaddr: u64) -> bool {
    &&& 0 <= i < phs.len()
    &&& phs[i].covers(vaddr)
    &&& forall|j: int| 0 <= j < i ==> !(#[trigger] phs[j]).covers(vaddr)
}

/// The index of the first symbol that goes by `name`, as it stands or once
/// demangled, if there is one.
pub open spec fn position_by_name(tab: Seq<Sym>, name: Seq<char>, readable: bool) -> Option<int> {
    if exists|i: int| first_by_name(tab, i, name, readable) {
        Some(choose|i: int| first_by_name(tab, i, name, readable))
    } else {
        None
    }
}

/// The symbol that a search for `name` finds: the first with that very
/// name, or, where none has it, the first whose demangled name it is.
pub open spec fn symbol_by_name(tab: Seq<Sym>, name: Seq<char>) -> Option<Sym> {
    match position_by_name(tab, name, false) {
        Some(i) => Some(tab[i]),
        None => match position_by_name(tab, name, true) {
            Some(i) => Some(tab[i]),
            None => None,
        },
    }
}

/// The first symbol whose addresses hold `addr`, if there is one.
pub open spec fn symbol_covering(tab: Seq<Sym>, addr: u64) -> Option<Sym> {
    if exists|i: int| first_covering(tab, i, addr) {
        Some(tab[choose|i: int| first_covering(tab, i, addr)])
    } else {
        None
    }
}

/// The first segment whose addresses in memory hold `vaddr`, if there is
/// one.
pub open spec fn segment_covering(phs: Seq<ProgramHeader>, vaddr: u64) -> Option<ProgramHeader> {
    if exists|i: int| first_segment(phs, i, vaddr) {
        Some(phs[choose|i: int| first_segment(phs, i, vaddr)])
    } else {
        None
    }
}

/// The symbol that a search for `name` finds in the symbol table, or, where
/// that has none, in the dynamic one.
pub open spec fn symbol_in_image(elf: &Elf, name: Seq<char>) -> Option<Sym> {
    match symbol_by_name(elf.syms@, name) {
        Some(sym) => Some(sym),
        None => symbol_by_name(elf.dynsyms@, name),
    }
}

/// The offset in the file of an address that lies in a segment.
pub open spec fn offset_in_file(ph: ProgramHeader, vaddr: u64) -> int {
    ph.p_offset + (vaddr - ph.p_vaddr)
}

/// The offset in the file of the symbol that goes by `name`: the offset of
/// the segment that holds its address, plus the address's distance from the
/// segment's start. Nothing where no symbol goes by the name, no segment
/// holds its address, or the offset is no 64-bit number.
pub open spec fn file_offset_of(elf: &Elf, name: Seq<char>) -> Option<u64> {
    match symbol_in_image(elf, name) {
        None => None,
        Some(sym) => match segment_covering(elf.program_headers@, sym.st_value) {
            None => None,
            Some(ph) => if offset_in_file(ph, sym.st_value) <= u64::MAX {
                Some(offset_in_file(ph, sym.st_value) as u64)
            } else {
                None
            },
        },
    }
}

/// The index of the first symbol that goes by `name`, as it stands or once
/// demangled.
pub fn symbol_position(tab: &Vec<Sym>, name: &str, readable: bool) -> (res: Option<usize>)
    ensures
        match res {
            Some(i) => position_by_name(tab@, name@, readable) == Some(i as int) && first_by_name(
                tab@,
                i as int,
                name@,
                readable,
            ),
            None => position_by_name(tab@, name@, readable) is None && none_by_name(
                tab@,
                name@,
                readable,
            ),
        },
{
    let mut i: usize = 0;
    while i < tab.len()
        invariant
            i <= tab.len(),
            forall|j: int| 0 <= j < i ==> !goes_by(#[trigger] tab@[j], name@, readable),
        decreases tab.len() - i,
    {
        match &tab[i].name {
            Some(n) => {
                let hit = if readable {
                    same_text(demangle(n.as_str()).as_str(), name)
                } else {
                    same_text(n.as_str(), name)
                };
                if hit {
                    assert(first_by_name(tab@, i as int, name@, readable));
                    return Some(i);
                }
            },
            None => {},
        }
        i += 1;
    }
    None
}

/// Finds a symbol by name: the first with that very name, or, where none
/// has it, the first whose demangled name it is.
pub fn find_symbol<'a>(tab: &'a Vec<Sym>, name: &str) -> (res: Option<&'a Sym>)
    ensures
        match res {
            Some(sym) => symbol_by_name(tab@, name@) == Some(*sym),
            None => symbol_by_name(tab@, name@) is None,
        },
{
    match symbol_position(tab, name, false) {
        Some(i) => Some(&tab[i]),
        None => match symbol_position(tab, name, true) {
            Some(i) => Some(&tab[i]),
            None => None,
        },
    }
}

/// Finds the first symbol whose addresses hold `addr`.
pub fn find_symbol_by_addr<'a>(tab: &'a Vec<Sym>, addr: u64) -> (res: Option<&'a Sym>)
    ensures
        match res {
            Some(sym) => symbol_covering(tab@, addr) == Some(*sym) && sym.covers(addr),
            None => symbol_covering(tab@, addr) is None,
        },
{
    let mut i: usize = 0;
    while i < tab.len()
        invariant
            i <= tab.len(),
            forall|j: int| 0 <= j < i ==> !(#[trigger] tab@[j]).covers(addr),
        decreases tab.len() - i,
    {
        let sym = &tab[i];
        if sym.st_value <= addr && addr - sym.st_value < sym.st_size {
            assert(first_covering(tab@, i as int, addr));
            return Some(sym);
        }
        i += 1;
    }
    None
}

/// Finds the first segment whose addresses in memory hold `vaddr`.
pub fn ph_by_vaddr<'a>(elf: &'a Elf, vaddr: u64) -> (res: Option<&'a ProgramHeader>)
    ensures
        match res {
            Some(ph) => segment_covering(elf.program_headers@, vaddr) == Some(*ph) && ph.covers(
                vaddr,
            ),
            None => segment_covering(elf.program_headers@, vaddr) is None,
        },
{
    let mut i: usize = 0;
    while i < elf.program_headers.len()
        invariant
            i <= elf.program_headers.len(),
            forall|j: int| 0 <= j < i ==> !(#[trigger] elf.program_headers@[j]).covers(vaddr),
        decreases elf.program_headers.len() - i,
    {
        let ph = &elf.program_headers[i];
        if ph.p_vaddr <= vaddr && vaddr - ph.p_vaddr < ph.p_memsz {
            assert(first_segment(elf.program_headers@, i as int, vaddr));
            return Some(ph);
        }
        i += 1;
    }
    None
}

/// Finds a symbol by name in the symbol table, then in the dynamic one.
pub fn find_any_symbol<'a>(elf: &'a Elf, name: &str) -> (res: Option<&'a Sym>)
    ensures
        match res {
            Some(sym) => symbol_in_image(elf, name@) == Some(*sym),
            None => symbol_in_image(elf, name@) is None,
        },
{
    match find_symbol(&elf.syms, name) {
        Some(sym) => Some(sym),
        None => find_symbol(&elf.dynsyms, name),
    }
}

/// The offset in the file of the symbol that goes by `sym_name`.
pub fn symbol_file_offset(elf: &Elf, sym_name: &str) -> (res: Option<u64>)
    ensures
        res == file_offset_of(elf, sym_name@),
{
    match find_any_symbol(elf, sym_name) {
        None => None,
        Some(sym) => match ph_by_vaddr(elf, sym.st_value) {
            None => None,
            Some(ph) => ph.p_offset.checked_add(sym.st_value - ph.p_vaddr),
        },
    }
}

} // verus!
