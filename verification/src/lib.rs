//! Views of an ELF image: headers, sections, symbols, call-frame information
//! and annotated disassembly, rendered as text.

pub mod args;
pub mod cfi;
pub mod codec;
pub mod elf;
pub mod frame;
pub mod func;
pub mod header;
pub mod print;
pub mod sections;
pub mod sym;
pub mod text;
pub mod unwind_table;
