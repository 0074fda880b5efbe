//! The entries of a frame-information section: common information entries
//! (CIE), frame description entries (FDE), and the resolution of each FDE
//! against the CIE that it names.

use crate::args::EhArgs;
use crate::cfi::{
    register_name, register_text, replayed, start_state, CfiInstruction, EhInstrContext,
};
use crate::elf::{
    demangle, demangled, find_any_symbol, symbol_in_image, Elf, SectionHeader, Sym,
};
use crate::sections::{
    content_range, find_section, range_warnings, section_by_name, shown_part, Shown,
};
use crate::print::{field_text, PairTable, SizePrint};
use crate::sym::{addr_to_sym, symbol_below};
use crate::text::{
    debug_quoted, decimal, hex, push_decimal, push_hex, push_signed_decimal, quoted,
    signed_decimal,
};
use vstd::prelude::*;
use vstd::string::*;

verus! {

/// A common information entry: what a group of functions shares.
#[derive(Clone, Debug)]
pub struct Cie {
    /// Where the entry starts in its section; other entries name it by this.
    pub offset: u64,
    pub version: u8,
    /// The length of the entry, without its length field.
    pub length: u64,
    pub code_align: u64,
    pub data_align: i64,
    pub return_register: u16,
    /// The instructions that set up the initial rules.
    pub instructions: Vec<CfiInstruction>,
}

/// A frame description entry as it stands in the section: its CIE is named
/// by offset only.
#[derive(Clone, Debug)]
pub struct RawFde {
    pub offset: u64,
    pub cie_offset: u64,
    /// The first address of the function's instructions.
    pub initial_address: u64,
    /// The number of bytes of instructions that the entry covers.
    pub length: u64,
    pub instructions: Vec<CfiInstruction>,
}

/// One entry of a frame-information section.
#[derive(Clone, Debug)]
pub enum RawEntry {
    Cie(Cie),
    Fde(RawFde),
}

/// A frame description entry together with its CIE.
#[derive(Clone, Copy, Debug)]
pub struct Fde<'a> {
    pub offset: u64,
    pub cie: &'a Cie,
    pub initial_address: u64,
    pub length: u64,
    pub instructions: &'a Vec<CfiInstruction>,
}

/// An entry handed to a reader: an FDE comes with its CIE.
#[derive(Clone, Copy, Debug)]
pub enum Entry<'a> {
    Cie(&'a Cie),
    Fde(Fde<'a>),
}

/// Why an entry cannot be handed out.
#[derive(Clone, Copy, Debug, PartialEq, Eq, Structural)]
pub enum FrameError {
    /// The FDE at `fde_offset` names a CIE at `cie_offset`, and no CIE with
    /// that offset stands before it.
    UnresolvedCie { fde_offset: u64, cie_offset: u64 },
    /// The range of the FDE at `fde_offset` ends past the address space.
    RangeOverflow { fde_offset: u64 },
    /// An instruction of the entry at `offset` advances the location past
    /// the address space.
    LocationOverflow { offset: u64 },
    /// No FDE covers `address`.
    NoUnwindData { address: u64 },
}

/// Whether an address range holds an address: the start is in, the end is
/// out.
pub open spec fn range_contains(initial_address: u64, length: u64, address: u64) -> bool {
    initial_address <= address < initial_address + length
}

/// Whether an entry is a CIE at the given offset.
pub open spec fn is_cie_at(entry: RawEntry, offset: u64) -> bool {
    entry matches RawEntry::Cie(c) && c.offset == offset
}

/// A range holds its first address unless it is empty, and holds neither
/// the address before its first nor the address behind its last.
pub proof fn lemma_range_is_half_open(initial_address: u64, length: u64)
    ensures
        length > 0 ==> range_contains(initial_address, length, initial_address),
        initial_address > 0 ==> !range_contains(
            initial_address,
            length,
            (initial_address - 1) as u64,
        ),
        initial_address + length <= u64::MAX ==> !range_contains(
            initial_address,
            length,
            (initial_address + length) as u64,
        ),
{
}

/// The index of the latest CIE with the given offset among the first `k`
/// entries.
pub open spec fn cie_before(entries: Seq<RawEntry>, k: int, offset: u64) -> Option<int>
    decreases k,
{
    if k <= 0 || k > entries.len() {
        None
    } else if is_cie_at(entries[k - 1], offset) {
        Some(k - 1)
    } else {
        cie_before(entries, k - 1, offset)
    }
}

/// What reading entry `k` gives: a CIE as it is, an FDE with the CIE that it
/// names, or the error that no such CIE was seen.
pub open spec fn resolved_entry<'a>(entries: Seq<RawEntry>, k: int) -> Result<Entry<'a>, FrameError> {
    match entries[k] {
        RawEntry::Cie(c) => Ok(Entry::Cie(&c)),
        RawEntry::Fde(f) => match cie_before(entries, k, f.cie_offset) {
            Some(j) => Ok(
                Entry::Fde(
                    Fde {
                        offset: f.offset,
                        cie: &entries[j]->Cie_0,
                        initial_address: f.initial_address,
                        length: f.length,
                        instructions: &f.instructions,
                    },
                ),
            ),
            None => Err(
                FrameError::UnresolvedCie { fde_offset: f.offset, cie_offset: f.cie_offset },
            ),
        },
    }
}

impl<'a> Fde<'a> {
    /// Whether the entry covers `address`.
    pub fn contains(&self, address: u64) -> (b: bool)
        ensures
            b == range_contains(self.initial_address, self.length, address),
    {
        self.initial_address <= address && address - self.initial_address < self.length
    }
}

impl RawFde {
    /// Whether the entry covers `address`.
    pub fn contains(&self, address: u64) -> (b: bool)
        ensures
            b == range_contains(self.initial_address, self.length, address),
    {
        self.initial_address <= address && address - self.initial_address < self.length
    }
}

/// Finds the latest CIE with the given offset among the first `k` entries.
pub fn find_cie(entries: &Vec<RawEntry>, k: usize, offset: u64) -> (res: Option<usize>)
    requires
        k <= entries.len(),
    ensures
        match res {
            Some(j) => cie_before(entries@, k as int, offset) == Some(j as int) && j < k
                && entries[j as int] is Cie && entries[j as int]->Cie_0.offset == offset,
            None => cie_before(entries@, k as int, offset) is None,
        },
{
    let mut j: usize = k;
    while j > 0
        invariant
            j <= k <= entries.len(),
            cie_before(entries@, k as int, offset) == cie_before(entries@, j as int, offset),
        decreases j,
    {
        match &entries[j - 1] {
            RawEntry::Cie(c) => {
                if c.offset == offset {
                    return Some(j - 1);
                }
            },
            RawEntry::Fde(_) => {},
        }
        j -= 1;
    }
    None
}

/// Reads entry `k`: a CIE as it is, an FDE together with its CIE. An FDE
/// whose CIE does not stand before it is an error.
pub fn entry_at<'a>(entries: &'a Vec<RawEntry>, k: usize) -> (res: Result<Entry<'a>, FrameError>)
    requires
        k < entries.len(),
    ensures
        res == resolved_entry::<'a>(entries@, k as int),
{
    match &entries[k] {
        RawEntry::Cie(c) => Ok(Entry::Cie(c)),
        RawEntry::Fde(f) => match find_cie(entries, k, f.cie_offset) {
            Some(j) => match &entries[j] {
                RawEntry::Cie(c) => Ok(
                    Entry::Fde(
                        Fde {
                            offset: f.offset,
                            cie: c,
                            initial_address: f.initial_address,
                            length: f.length,
                            instructions: &f.instructions,
                        },
                    ),
                ),
                RawEntry::Fde(_) => Err(
                    FrameError::UnresolvedCie { fde_offset: f.offset, cie_offset: f.cie_offset },
                ),
            },
            None => Err(
                FrameError::UnresolvedCie { fde_offset: f.offset, cie_offset: f.cie_offset },
            ),
        },
    }
}

/// Entry `k` ends a search for the FDE of `address`: it is an FDE that
/// covers the address, or one whose CIE was not seen.
pub open spec fn ends_search(entries: Seq<RawEntry>, k: int, address: u64) -> bool {
    match entries[k] {
        RawEntry::Cie(_) => false,
        RawEntry::Fde(f) => cie_before(entries, k, f.cie_offset) is None || range_contains(
            f.initial_address,
            f.length,
            address,
        ),
    }
}

/// Entry `k` is the first that ends a search for the FDE of `address`.
pub open spec fn first_end(entries: Seq<RawEntry>, k: int, address: u64) -> bool {
    &&& 0 <= k < entries.len()
    &&& ends_search(entries, k, address)
    &&& forall|j: int| 0 <= j < k ==> !ends_search(entries, j, address)
}

/// The outcome of a search for the FDE of `address`: the first FDE that
/// covers it; the error of an FDE before that whose CIE was not seen; or
/// that there is no unwind data for the address.
pub open spec fn fde_search<'a>(entries: Seq<RawEntry>, address: u64) -> Result<
    Fde<'a>,
    FrameError,
> {
    if exists|k: int| first_end(entries, k, address) {
        match resolved_entry::<'a>(entries, choose|k: int| first_end(entries, k, address)) {
            Ok(Entry::Fde(fde)) => Ok(fde),
            Ok(Entry::Cie(_)) => Err(FrameError::NoUnwindData { address }),
            Err(e) => Err(e),
        }
    } else {
        Err(FrameError::NoUnwindData { address })
    }
}

/// At most one entry is the first that ends a search.
pub proof fn lemma_first_end_is_unique(entries: Seq<RawEntry>, i: int, j: int, address: u64)
    requires
        first_end(entries, i, address),
        first_end(entries, j, address),
    ensures
        i == j,
{
}

/// Finds the first FDE that covers `address`. An FDE before it whose CIE was
/// not seen ends the search with that error; where no FDE covers the
/// address, there is no unwind data for it.
pub fn fde_for_address<'a>(entries: &'a Vec<RawEntry>, address: u64) -> (res: Result<
    Fde<'a>,
    FrameError,
>)
    ensures
        res == fde_search::<'a>(entries@, address),
        res matches Ok(fde) ==> range_contains(fde.initial_address, fde.length, address),
{
    let mut k: usize = 0;
    while k < entries.len()
        invariant
            k <= entries.len(),
            forall|j: int| 0 <= j < k ==> !ends_search(entries@, j, address),
        decreases entries.len() - k,
    {
        match entry_at(entries, k) {
            Err(e) => {
                proof {
                    assert(first_end(entries@, k as int, address));
                    lemma_first_end_is_unique(
                        entries@,
                        k as int,
                        choose|i: int| first_end(entries@, i, address),
                        address,
                    );
                }
                return Err(e);
            },
            Ok(Entry::Fde(fde)) => {
                if fde.contains(address) {
                    proof {
                        assert(first_end(entries@, k as int, address));
                        lemma_first_end_is_unique(
                            entries@,
                            k as int,
                            choose|i: int| first_end(entries@, i, address),
                            address,
                        );
                    }
                    return Ok(fde);
                }
            },
            Ok(Entry::Cie(_)) => {},
        }
        k += 1;
    }
    Err(FrameError::NoUnwindData { address })
}

/// What stands before each line of a CIE's instructions.
pub open spec fn cie_line_prefix() -> Seq<char> {
    "\u{2502}  \u{251c}\u{2500}\u{2500}\u{2bae} "@
}

/// What stands before each line of an FDE's instructions.
pub open spec fn fde_line_prefix() -> Seq<char> {
    "\u{2502}  \u{2502}  \u{251c}\u{2500}\u{2500}\u{2bae} "@
}

/// The head of a CIE's listing: its offset and its fields, one per line.
pub open spec fn cie_header_text(cie: Cie, sp: SizePrint) -> Seq<char> {
    "\u{2502}\n\u{251c}\u{2574} \x1b[97mCIE\x1b[0m  offset="@ + sp.hex_text(cie.offset) + "\n"@
        + "\u{2502}  \u{251c}\u{2574}"@ + field_text(20, "Version"@) + decimal(cie.version as nat)
        + "\n"@ + "\u{2502}  \u{251c}\u{2574}"@ + field_text(20, "Length"@) + decimal(
        cie.length as nat,
    ) + "\n"@ + "\u{2502}  \u{251c}\u{2574}"@ + field_text(20, "Augmentation"@) + "\n"@
        + "\u{2502}  \u{251c}\u{2574}"@ + field_text(20, "Code alignment"@) + decimal(
        cie.code_align as nat,
    ) + "\n"@ + "\u{2502}  \u{251c}\u{2574}"@ + field_text(20, "Data alignment"@)
        + signed_decimal(cie.data_align as int) + "\n"@ + "\u{2502}  \u{251c}\u{2574}"@
        + field_text(20, "Return addr register"@) + decimal(cie.return_register as nat) + " (%"@
        + register_text(cie.return_register) + ")\n"@
}

/// The name shown for a symbol: its demangled name, or a placeholder where
/// it has none.
pub open spec fn symbol_label(sym: Sym) -> Seq<char> {
    demangled(
        match sym.name {
            Some(n) => n@,
            None => "???"@,
        },
    )
}

/// The head of an FDE's listing: its offset and that of its CIE, its range
/// of addresses, and the symbol nearest below its first address with the
/// distance from it.
pub open spec fn fde_header_text(fde: Fde, sp: SizePrint, sym: Option<Sym>) -> Seq<char> {
    "\u{2502}  \u{2502}\n\u{2502}  \u{251c}\u{2574} \x1b[97mFDE\x1b[0m  offset="@ + sp.hex_text(
        fde.offset,
    ) + "  CIE="@ + sp.hex_text(fde.cie.offset) + "\n"@ + "\u{2502}  \u{2502}  \u{251c}\u{2574}"@
        + field_text(10, "PC range"@) + sp.hex_text(fde.initial_address) + ".."@ + sp.hex_text(
        (fde.initial_address + fde.length) as u64,
    ) + "\n"@ + (match sym {
        Some(s) => "\u{2502}  \u{2502}  \u{251c}\u{2574}"@ + field_text(10, "Symbol"@)
            + symbol_label(s) + " + 0x"@ + hex((fde.initial_address - s.st_value) as nat) + "\n"@,
        None => Seq::<char>::empty(),
    })
}

/// The listing of a CIE: its head and its instructions, tracked from a
/// fresh rule. Nothing where an instruction cannot be applied.
pub open spec fn cie_text(cie: Cie, sp: SizePrint) -> Option<Seq<char>> {
    match replayed(start_state(0, cie.data_align, sp), cie.instructions@, cie_line_prefix()) {
        None => None,
        Some(end) => Some(cie_header_text(cie, sp) + end.1),
    }
}

/// The listing of an FDE: its head and its instructions, tracked from the
/// rule that its CIE's instructions set up. Nothing where an instruction
/// cannot be applied.
pub open spec fn fde_text(fde: Fde, sp: SizePrint, sym: Option<Sym>) -> Option<Seq<char>> {
    match replayed(
        start_state(fde.initial_address, fde.cie.data_align, sp),
        fde.cie.instructions@,
        ""@,
    ) {
        None => None,
        Some(initial) => match replayed(initial.0, fde.instructions@, fde_line_prefix()) {
            None => None,
            Some(end) => Some(fde_header_text(fde, sp, sym) + end.1),
        },
    }
}

/// The listing of entry `k`. An FDE that does not cover the address asked
/// for, where one is asked for, is passed over and gives no text.
pub open spec fn entry_text(
    entries: Seq<RawEntry>,
    k: int,
    syms: Seq<Sym>,
    sp: SizePrint,
    only: Option<u64>,
) -> Result<Seq<char>, FrameError> {
    match resolved_entry(entries, k) {
        Err(e) => Err(e),
        Ok(Entry::Cie(c)) => match cie_text(*c, sp) {
            None => Err(FrameError::LocationOverflow { offset: c.offset }),
            Some(t) => Ok(t),
        },
        Ok(Entry::Fde(f)) => if only is Some && !range_contains(
            f.initial_address,
            f.length,
            only->0,
        ) {
            Ok(Seq::<char>::empty())
        } else if f.initial_address + f.length > u64::MAX {
            Err(FrameError::RangeOverflow { fde_offset: f.offset })
        } else {
            match fde_text(f, sp, symbol_below(syms, f.initial_address)) {
                None => Err(FrameError::LocationOverflow { offset: f.offset }),
                Some(t) => Ok(t),
            }
        },
    }
}

/// The listing of the first `n` entries: the text of each in turn, or the
/// error of the first entry that has one.
pub open spec fn listing(
    entries: Seq<RawEntry>,
    n: int,
    syms: Seq<Sym>,
    sp: SizePrint,
    only: Option<u64>,
) -> Result<Seq<char>, FrameError>
    decreases n,
{
    if n <= 0 {
        Ok(Seq::<char>::empty())
    } else {
        match listing(entries, n - 1, syms, sp, only) {
            Err(e) => Err(e),
            Ok(before) => match entry_text(entries, n - 1, syms, sp, only) {
                Err(e) => Err(e),
                Ok(text) => Ok(before + text),
            },
        }
    }
}

/// The head of a CIE's listing.
pub fn print_cie_header(cie: &Cie, sp: SizePrint) -> (s: String)
    ensures
        s@ == cie_header_text(*cie, sp),
{
    let table = PairTable(20);
    let mut s = String::new();
    s.append("\u{2502}\n\u{251c}\u{2574} \x1b[97mCIE\x1b[0m  offset=");
    s.append(sp.hex(cie.offset).to_text().as_str());
    s.append("\n");
    s.append("\u{2502}  \u{251c}\u{2574}");
    s.append(table.field("Version").as_str());
    push_decimal(&mut s, cie.version as u64);
    s.append("\n");
    s.append("\u{2502}  \u{251c}\u{2574}");
    s.append(table.field("Length").as_str());
    push_decimal(&mut s, cie.length);
    s.append("\n");
    s.append("\u{2502}  \u{251c}\u{2574}");
    s.append(table.field("Augmentation").as_str());
    s.append("\n");
    s.append("\u{2502}  \u{251c}\u{2574}");
    s.append(table.field("Code alignment").as_str());
    push_decimal(&mut s, cie.code_align);
    s.append("\n");
    s.append("\u{2502}  \u{251c}\u{2574}");
    s.append(table.field("Data alignment").as_str());
    push_signed_decimal(&mut s, cie.data_align);
    s.append("\n");
    s.append("\u{2502}  \u{251c}\u{2574}");
    s.append(table.field("Return addr register").as_str());
    push_decimal(&mut s, cie.return_register as u64);
    s.append(" (%");
    s.append(register_name(cie.return_register));
    s.append(")\n");
    assert(s@ =~= cie_header_text(*cie, sp));
    s
}

/// The head of an FDE's listing, with the symbol nearest below its first
/// address taken from the image's symbol table.
pub fn print_fde_header(fde: &Fde, elf: &Elf) -> (s: String)
    requires
        fde.initial_address + fde.length <= u64::MAX,
    ensures
        s@ == fde_header_text(
            *fde,
            elf.size_print(),
            symbol_below(elf.syms@, fde.initial_address),
        ),
{
    let sp = elf.sp();
    let table = PairTable(10);
    let mut s = String::new();
    s.append("\u{2502}  \u{2502}\n\u{2502}  \u{251c}\u{2574} \x1b[97mFDE\x1b[0m  offset=");
    s.append(sp.hex(fde.offset).to_text().as_str());
    s.append("  CIE=");
    s.append(sp.hex(fde.cie.offset).to_text().as_str());
    s.append("\n");
    s.append("\u{2502}  \u{2502}  \u{251c}\u{2574}");
    s.append(table.field("PC range").as_str());
    s.append(sp.hex(fde.initial_address).to_text().as_str());
    s.append("..");
    s.append(sp.hex(fde.initial_address + fde.length).to_text().as_str());
    s.append("\n");
    match addr_to_sym(&elf.syms, fde.initial_address) {
        Some(sym) => {
            s.append("\u{2502}  \u{2502}  \u{251c}\u{2574}");
            s.append(table.field("Symbol").as_str());
            let name = match &sym.name {
                Some(n) => demangle(n.as_str()),
                None => demangle("???"),
            };
            s.append(name.as_str());
            s.append(" + 0x");
            push_hex(&mut s, fde.initial_address - sym.st_value);
            s.append("\n");
        },
        None => {},
    }
    assert(s@ =~= fde_header_text(*fde, sp, symbol_below(elf.syms@, fde.initial_address)));
    s
}

/// The listing of one entry, appended to `out`.
pub fn list_entry(elf: &Elf, entries: &Vec<RawEntry>, k: usize, only: Option<u64>, out: &mut String) -> (res:
    Result<(), FrameError>)
    requires
        k < entries.len(),
    ensures
        match res {
            Ok(()) => entry_text(
                entries@,
                k as int,
                elf.syms@,
                elf.size_print(),
                only,
            ) matches Ok(text) && final(out)@ == old(out)@ + text,
            Err(e) => entry_text(
                entries@,
                k as int,
                elf.syms@,
                elf.size_print(),
                only,
            ) == Err::<Seq<char>, FrameError>(e),
        },
{
    let sp = elf.sp();
    let mut ctx = EhInstrContext::new(sp);
    match entry_at(entries, k) {
        Err(e) => Err(e),
        Ok(Entry::Cie(cie)) => {
            ctx.reset(0, cie.data_align);
            let mut lines = String::new();
            match ctx.replay(
                &cie.instructions,
                "\u{2502}  \u{251c}\u{2500}\u{2500}\u{2bae} ",
                &mut lines,
            ) {
                Err(_) => Err(FrameError::LocationOverflow { offset: cie.offset }),
                Ok(()) => {
                    out.append(print_cie_header(cie, sp).as_str());
                    out.append(lines.as_str());
                    assert(final(out)@ =~= old(out)@ + cie_text(*cie, sp).unwrap());
                    Ok(())
                },
            }
        },
        Ok(Entry::Fde(fde)) => {
            let skip = match only {
                Some(address) => !fde.contains(address),
                None => false,
            };
            if skip {
                assert(out@ =~= old(out)@ + Seq::<char>::empty());
                Ok(())
            } else if fde.length > u64::MAX - fde.initial_address {
                Err(FrameError::RangeOverflow { fde_offset: fde.offset })
            } else {
                ctx.reset(fde.initial_address, fde.cie.data_align);
                let mut unseen = String::new();
                match ctx.replay(&fde.cie.instructions, "", &mut unseen) {
                    Err(_) => Err(FrameError::LocationOverflow { offset: fde.offset }),
                    Ok(()) => {
                        let mut lines = String::new();
                        match ctx.replay(
                            fde.instructions,
                            "\u{2502}  \u{2502}  \u{251c}\u{2500}\u{2500}\u{2bae} ",
                            &mut lines,
                        ) {
                            Err(_) => Err(FrameError::LocationOverflow { offset: fde.offset }),
                            Ok(()) => {
                                out.append(print_fde_header(&fde, elf).as_str());
                                out.append(lines.as_str());
                                assert(final(out)@ =~= old(out)@ + fde_text(
                                    fde,
                                    sp,
                                    symbol_below(elf.syms@, fde.initial_address),
                                ).unwrap());
                                Ok(())
                            },
                        }
                    },
                }
            }
        },
    }
}

/// Lists the entries of a frame-information section in their order: each
/// CIE, and each FDE with its CIE resolved; where `opts` names an address,
/// only the FDEs that cover it. The first entry that cannot be listed ends
/// the listing with its error.
pub fn eh_frame(elf: &Elf, entries: &Vec<RawEntry>, opts: &EhArgs) -> (res: Result<
    String,
    FrameError,
>)
    ensures
        match res {
            Ok(text) => listing(
                entries@,
                entries.len() as int,
                elf.syms@,
                elf.size_print(),
                opts.address,
            ) == Ok::<Seq<char>, FrameError>(text@),
            Err(e) => listing(
                entries@,
                entries.len() as int,
                elf.syms@,
                elf.size_print(),
                opts.address,
            ) == Err::<Seq<char>, FrameError>(e),
        },
{
    let ghost sp = elf.size_print();
    let mut out = String::new();
    let mut k: usize = 0;
    while k < entries.len()
        invariant
            k <= entries.len(),
            sp == elf.size_print(),
            listing(entries@, k as int, elf.syms@, sp, opts.address) == Ok::<Seq<char>, FrameError>(
                out@,
            ),
        decreases entries.len() - k,
    {
        match list_entry(elf, entries, k, opts.address, &mut out) {
            Err(e) => {
                proof {
                    lemma_listing_fails_with_front(
                        entries@,
                        k + 1,
                        entries.len() as int,
                        elf.syms@,
                        sp,
                        opts.address,
                    );
                }
                return Err(e);
            },
            Ok(()) => {},
        }
        k += 1;
    }
    Ok(out)
}

/// A listing that fails on its first `k` entries fails the same way on
/// more.
pub proof fn lemma_listing_fails_with_front(
    entries: Seq<RawEntry>,
    k: int,
    n: int,
    syms: Seq<Sym>,
    sp: SizePrint,
    only: Option<u64>,
)
    requires
        0 <= k <= n,
        listing(entries, k, syms, sp, only) is Err,
    ensures
        listing(entries, n, syms, sp, only) == listing(entries, k, syms, sp, only),
    decreases n - k,
{
    if k < n {
        lemma_listing_fails_with_front(entries, k, n - 1, syms, sp, only);
    }
}

/// An FDE that names a CIE which no entry before it is cannot be read: the
/// outcome is the unresolved-reference error, with both offsets.
pub proof fn lemma_unseen_cie_is_unresolved(entries: Seq<RawEntry>, k: int)
    requires
        0 <= k < entries.len(),
        entries[k] is Fde,
        forall|j: int|
            0 <= j < k ==> !is_cie_at(#[trigger] entries[j], entries[k]->Fde_0.cie_offset),
    ensures
        resolved_entry(entries, k) == Err::<Entry, FrameError>(
            FrameError::UnresolvedCie {
                fde_offset: entries[k]->Fde_0.offset,
                cie_offset: entries[k]->Fde_0.cie_offset,
            },
        ),
{
    lemma_no_cie_before(entries, k, entries[k]->Fde_0.cie_offset);
}

/// No CIE is found among the first `k` entries where none of them has the
/// offset.
pub proof fn lemma_no_cie_before(entries: Seq<RawEntry>, k: int, offset: u64)
    requires
        0 <= k <= entries.len(),
        forall|j: int| 0 <= j < k ==> !is_cie_at(#[trigger] entries[j], offset),
    ensures
        cie_before(entries, k, offset) is None,
    decreases k,
{
    if k > 0 {
        lemma_no_cie_before(entries, k - 1, offset);
    }
}

/// Why the call-frame information cannot be shown.
#[derive(Clone, Copy, Debug, PartialEq, Eq, Structural)]
pub enum EhError {
    /// No section goes by the name asked for.
    SectionNotFound,
    /// The image has neither `.eh_frame` nor `.debug_frame`.
    NoFrameSection,
    /// The section takes no space in the file.
    NoContent,
    /// No symbol goes by the name asked for.
    SymbolNotFound,
}

/// Where the call-frame information is to be read, and which of it is to be
/// shown.
#[derive(Clone, Debug)]
pub struct EhPlan {
    /// The address of the section in memory.
    pub vaddr: u64,
    /// The section's bytes in the file begin at `start` and end before
    /// `end`.
    pub start: usize,
    pub end: usize,
    /// Only the FDEs that cover this address are to be shown.
    pub address: Option<u64>,
    /// Warnings about the section, one per line.
    pub warnings: String,
}

/// The section that holds the call-frame information: the one asked for by
/// name, else `.eh_frame`, else `.debug_frame`.
pub open spec fn frame_section(elf: &Elf, opts: &EhArgs) -> Result<SectionHeader, EhError> {
    match opts.section {
        Some(name) => match section_by_name(elf.section_headers@, name@) {
            Some(sh) => Ok(sh),
            None => Err(EhError::SectionNotFound),
        },
        None => match section_by_name(elf.section_headers@, ".eh_frame"@) {
            Some(sh) => Ok(sh),
            None => match section_by_name(elf.section_headers@, ".debug_frame"@) {
                Some(sh) => Ok(sh),
                None => Err(EhError::NoFrameSection),
            },
        },
    }
}

/// The address to show the FDEs of: that of the symbol asked for by name,
/// else the address asked for, if any.
pub open spec fn frame_address(elf: &Elf, opts: &EhArgs) -> Result<Option<u64>, EhError> {
    match opts.symbol {
        Some(name) => match symbol_in_image(elf, name@) {
            Some(sym) => Ok(Some(sym.st_value)),
            None => Err(EhError::SymbolNotFound),
        },
        None => Ok(opts.address),
    }
}

/// What is to be read and shown of the call-frame information of a file of
/// `available` bytes, or why nothing can be.
pub open spec fn frame_plan(elf: &Elf, available: nat, opts: &EhArgs) -> Result<
    (SectionHeader, Shown, Option<u64>),
    EhError,
> {
    match frame_section(elf, opts) {
        Err(e) => Err(e),
        Ok(sh) => match shown_part(sh, None, None, available) {
            None => Err(EhError::NoContent),
            Some(part) => match frame_address(elf, opts) {
                Err(e) => Err(e),
                Ok(address) => Ok((sh, part, address)),
            },
        },
    }
}

/// Finds the section that holds the call-frame information.
pub fn select_frame_section<'a>(elf: &'a Elf, opts: &EhArgs) -> (res: Result<
    &'a SectionHeader,
    EhError,
>)
    ensures
        match res {
            Ok(sh) => frame_section(elf, opts) == Ok::<SectionHeader, EhError>(*sh),
            Err(e) => frame_section(elf, opts) == Err::<SectionHeader, EhError>(e),
        },
{
    match &opts.section {
        Some(name) => match find_section(elf, name.as_str()) {
            Some(sh) => Ok(sh),
            None => Err(EhError::SectionNotFound),
        },
        None => match find_section(elf, ".eh_frame") {
            Some(sh) => Ok(sh),
            None => match find_section(elf, ".debug_frame") {
                Some(sh) => Ok(sh),
                None => Err(EhError::NoFrameSection),
            },
        },
    }
}

/// Plans the view of the call-frame information of a file of `available`
/// bytes: which section holds it, where its bytes lie in the file, and
/// which address the FDEs shown are to cover.
pub fn eh(elf: &Elf, available: usize, opts: &EhArgs) -> (res: Result<EhPlan, EhError>)
    ensures
        match res {
            Err(e) => frame_plan(elf, available as nat, opts) == Err::<
                (SectionHeader, Shown, Option<u64>),
                EhError,
            >(e),
            Ok(plan) => frame_plan(elf, available as nat, opts) matches Ok(wanted) && {
                &&& plan.vaddr == wanted.0.sh_addr
                &&& plan.start == wanted.1.start
                &&& plan.end == wanted.1.end
                &&& plan.address == wanted.2
                &&& plan.warnings@ == range_warnings(wanted.0, None, None, available as nat)
                &&& plan.start <= plan.end <= available
            },
        },
{
    let sh = match select_frame_section(elf, opts) {
        Ok(sh) => sh,
        Err(e) => {
            return Err(e);
        },
    };
    let (range, warnings) = content_range(sh, None, None, available);
    let (start, end) = match range {
        Some(range) => range,
        None => {
            return Err(EhError::NoContent);
        },
    };
    let address = match &opts.symbol {
        Some(name) => match find_any_symbol(elf, name.as_str()) {
            Some(sym) => Some(sym.st_value),
            None => {
                return Err(EhError::SymbolNotFound);
            },
        },
        None => opts.address,
    };
    Ok(EhPlan { vaddr: sh.sh_addr, start, end, address, warnings })
}

impl FrameError {
    /// What went wrong, in words.
    pub open spec fn text(self) -> Seq<char> {
        match self {
            FrameError::UnresolvedCie { fde_offset, cie_offset } => "the FDE at offset 0x"@ + hex(
                fde_offset as nat,
            ) + " refers to a CIE at offset 0x"@ + hex(cie_offset as nat)
                + " that does not stand before it"@,
            FrameError::RangeOverflow { fde_offset } => "the range of the FDE at offset 0x"@ + hex(
                fde_offset as nat,
            ) + " ends past the address space"@,
            FrameError::LocationOverflow { offset } => "an instruction of the entry at offset 0x"@
                + hex(offset as nat) + " advances past the address space"@,
            FrameError::NoUnwindData { address } => "no unwind data for address 0x"@ + hex(
                address as nat,
            ),
        }
    }

    /// Says in words what went wrong.
    pub fn message(&self) -> (s: String)
        ensures
            s@ == self.text(),
    {
        let mut s = String::new();
        match self {
            FrameError::UnresolvedCie { fde_offset, cie_offset } => {
                s.append("the FDE at offset 0x");
                push_hex(&mut s, *fde_offset);
                s.append(" refers to a CIE at offset 0x");
                push_hex(&mut s, *cie_offset);
                s.append(" that does not stand before it");
            },
            FrameError::RangeOverflow { fde_offset } => {
                s.append("the range of the FDE at offset 0x");
                push_hex(&mut s, *fde_offset);
                s.append(" ends past the address space");
            },
            FrameError::LocationOverflow { offset } => {
                s.append("an instruction of the entry at offset 0x");
                push_hex(&mut s, *offset);
                s.append(" advances past the address space");
            },
            FrameError::NoUnwindData { address } => {
                s.append("no unwind data for address 0x");
                push_hex(&mut s, *address);
            },
        }
        assert(s@ =~= self.text());
        s
    }
}

/// The text of a name that may be missing, between quotes.
pub open spec fn quoted_or_empty(name: Option<String>) -> Seq<char> {
    quoted(
        match name {
            Some(n) => n@,
            None => Seq::<char>::empty(),
        },
    )
}

/// Puts a name that may be missing between quotes.
pub fn quote_name(name: &Option<String>) -> (s: String)
    ensures
        s@ == quoted_or_empty(*name),
{
    match name {
        Some(n) => debug_quoted(n.as_str()),
        None => {
            proof {
                reveal_strlit("");
                assert(""@ =~= Seq::<char>::empty());
            }
            debug_quoted("")
        },
    }
}

impl EhError {
    /// What went wrong with what `opts` asked for, in words.
    pub open spec fn text(self, opts: &EhArgs) -> Seq<char> {
        match self {
            EhError::SectionNotFound => "couldn't find section "@ + quoted_or_empty(opts.section),
            EhError::NoFrameSection => "couldn't find section `.eh_frame` or `.debug_frame`"@,
            EhError::NoContent => "section has no content"@,
            EhError::SymbolNotFound => "couldn't find any symbol matching "@ + quoted_or_empty(
                opts.symbol,
            ),
        }
    }

    /// Says in words what went wrong with what `opts` asked for.
    pub fn message(&self, opts: &EhArgs) -> (s: String)
        ensures
            s@ == self.text(opts),
    {
        let mut s = String::new();
        match self {
            EhError::SectionNotFound => {
                s.append("couldn't find section ");
                s.append(quote_name(&opts.section).as_str());
            },
            EhError::NoFrameSection => {
                s.append("couldn't find section `.eh_frame` or `.debug_frame`");
            },
            EhError::NoContent => {
                s.append("section has no content");
            },
            EhError::SymbolNotFound => {
                s.append("couldn't find any symbol matching ");
                s.append(quote_name(&opts.symbol).as_str());
            },
        }
        assert(s@ =~= self.text(opts));
        s
    }
}

} // verus!
