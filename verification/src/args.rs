//! What a caller can ask for: the views and their options.

use crate::elf::{
    STT_COMMON, STT_FILE, STT_FUNC, STT_NOTYPE, STT_NUM, STT_OBJECT, STT_SECTION, STT_TLS,
};
use vstd::prelude::*;

verus! {

/// The target image and the view asked of it.
#[derive(Clone, Debug)]
pub struct Options {
    /// The path of the image.
    pub elf: Option<String>,
    pub command: Option<Command>,
}

/// The views.
#[derive(Clone, Debug)]
pub enum Command {
    /// File header, program headers and section headers together.
    Summary,
    /// The file header.
    Header,
    /// All program headers.
    ProgramHeader,
    /// All sections.
    Sections,
    /// One section in detail, with its content.
    Section(SectionArgs),
    /// All symbols.
    Symbols(SymbolsArgs),
    /// The disassembly of a function.
    Fn(FnArgs),
    /// All relocation entries.
    Relocations,
    /// Call-frame information.
    Eh(EhArgs),
}

/// Which symbols to list.
#[derive(Clone, Debug)]
pub struct SymbolsArgs {
    pub no_demangle: bool,
    /// List the dynamic symbols.
    pub dynamic: bool,
    /// Leave out the symbols of Rust's standard, core and alloc libraries.
    pub no_rust_std: bool,
    /// A regular expression: only the names that it matches are listed.
    pub filter: Option<String>,
    /// Only local symbols.
    pub local: bool,
    /// Only global symbols, undefined ones included.
    pub global: bool,
    /// Only weak symbols.
    pub weak: bool,
    /// Only symbols with default visibility.
    pub visible: bool,
    /// Kept for the command line; the listing greys undefined symbols and
    /// leaves none out on this account.
    pub defined: bool,
    /// Only symbols of this type.
    pub kind: Option<SymbolType>,
}

/// A symbol type to filter by.
#[derive(Clone, Copy, Debug, PartialEq, Eq, Structural)]
pub enum SymbolType {
    NoType,
    Func,
    Section,
    Object,
    File,
    Common,
    Tls,
    Num,
}

impl SymbolType {
    /// The number that stands for the type in a symbol's info byte.
    pub open spec fn st_type(self) -> u8 {
        match self {
            SymbolType::NoType => STT_NOTYPE,
            SymbolType::Func => STT_FUNC,
            SymbolType::Section => STT_SECTION,
            SymbolType::Object => STT_OBJECT,
            SymbolType::File => STT_FILE,
            SymbolType::Common => STT_COMMON,
            SymbolType::Tls => STT_TLS,
            SymbolType::Num => STT_NUM,
        }
    }

    /// The number that stands for the type in a symbol's info byte.
    pub fn to_st_type(&self) -> (t: u8)
        ensures
            t == self.st_type(),
    {
        match self {
            SymbolType::NoType => STT_NOTYPE,
            SymbolType::Func => STT_FUNC,
            SymbolType::Section => STT_SECTION,
            SymbolType::Object => STT_OBJECT,
            SymbolType::File => STT_FILE,
            SymbolType::Common => STT_COMMON,
            SymbolType::Tls => STT_TLS,
            SymbolType::Num => STT_NUM,
        }
    }
}

/// Which section to show, and how much of its content.
#[derive(Clone, Debug)]
pub struct SectionArgs {
    /// The section's name, with its leading period.
    pub name: Option<String>,
    /// The path of a file to write the content to.
    pub output: Option<String>,
    /// Show the content as a hexadecimal dump, whatever the section's type.
    pub hexdump: bool,
    /// The greatest number of bytes to export or dump.
    pub size: Option<usize>,
    /// A number of bytes to skip before exporting or dumping.
    pub skip: Option<usize>,
}

/// The syntax of a disassembly.
#[derive(Clone, Copy, Debug, PartialEq, Eq, Structural)]
pub enum Syntax {
    /// GNU assembler (AT&T).
    Att,
    /// Intel.
    Intel,
}

impl Default for Syntax {
    fn default() -> (s: Self)
        ensures
            s == Syntax::Att,
    {
        Syntax::Att
    }
}

/// Which function to disassemble, and how.
#[derive(Clone, Debug)]
pub struct FnArgs {
    pub name: String,
    /// `name` is a hexadecimal address, with or without `0x` before it, and
    /// not a symbol's name.
    pub address: bool,
    /// Lay the call-frame information over the disassembly.
    pub cfi: bool,
    pub syntax: Syntax,
}

/// Which call-frame information to show.
#[derive(Clone, Debug)]
pub struct EhArgs {
    /// The section to read; by default `.eh_frame`, else `.debug_frame`.
    pub section: Option<String>,
    /// Only the entries that cover the address of this symbol.
    pub symbol: Option<String>,
    /// Only the entries that cover this address.
    pub address: Option<u64>,
}

impl Default for EhArgs {
    fn default() -> (args: Self)
        ensures
            args.section is None,
            args.symbol is None,
            args.address is None,
    {
        EhArgs { section: None, symbol: None, address: None }
    }
}

} // verus!
