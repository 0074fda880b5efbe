use elf_info::args::{FnArgs, Syntax};
use elf_info::cfi::CfiInstruction;
use elf_info::elf::{Elf, Header, ProgramHeader, Sym};
use elf_info::frame::{Cie, FrameError, RawEntry, RawFde};
use elf_info::func::{
    disassemble, do_fn, instruction_spans, render_byte_column, render_line_prefix,
    render_overlay_warning, DisassOptions, EhFnCtx, FnError, Span,
};
use elf_info::print::{Container, SizePrint};

const MARK: &str = "\x1b[35m[CFI]\x1b[0m ";

fn cie(instructions: Vec<CfiInstruction>) -> Cie {
    Cie {
        offset: 0,
        version: 1,
        length: 20,
        code_align: 1,
        data_align: -8,
        return_register: 16,
        instructions,
    }
}

fn fde(initial_address: u64, length: u64, instructions: Vec<CfiInstruction>) -> RawFde {
    RawFde { offset: 24, cie_offset: 0, initial_address, length, instructions }
}

fn image(class: u8, syms: Vec<Sym>, program_headers: Vec<ProgramHeader>) -> Elf {
    Elf {
        header: Header {
            ident_class: class,
            ident_data: 1,
            e_type: 3,
            e_machine: 62,
            e_version: 1,
            e_entry: 0x1000,
            e_phoff: 64,
            e_shoff: 0,
            e_flags: 0,
            e_phentsize: 56,
            e_phnum: 0,
            e_shentsize: 64,
            e_shnum: 0,
        },
        program_headers,
        section_headers: vec![],
        syms,
        dynsyms: vec![],
        interpreter: None,
        soname: None,
    }
}

fn load(vaddr: u64, offset: u64, size: u64) -> ProgramHeader {
    ProgramHeader {
        p_type: 1,
        p_flags: 5,
        p_offset: offset,
        p_vaddr: vaddr,
        p_paddr: vaddr,
        p_filesz: size,
        p_memsz: size,
        p_align: 0x1000,
    }
}

fn func(name: &str, value: u64, size: u64) -> Sym {
    Sym { name: Some(name.to_string()), st_value: value, st_size: size, st_info: 0x12, st_other: 0 }
}

// sub rsp, 0x10 ; add rsp, 0x10
const TWO_OF_FOUR: [u8; 8] = [0x48, 0x83, 0xec, 0x10, 0x48, 0x83, 0xc4, 0x10];

// push rbp ; mov rbp, rsp ; pop rbp ; ret
const PROLOGUE: [u8; 6] = [0x55, 0x48, 0x89, 0xe5, 0x5d, 0xc3];

#[test]
fn machine_instructions_follow_one_another() {
    assert_eq!(
        instruction_spans(64, &PROLOGUE, 0x1000),
        vec![
            Span { offset: 0, len: 1, ip: 0x1000 },
            Span { offset: 1, len: 3, ip: 0x1001 },
            Span { offset: 4, len: 1, ip: 0x1004 },
            Span { offset: 5, len: 1, ip: 0x1005 },
        ]
    );
    assert_eq!(
        instruction_spans(64, &TWO_OF_FOUR, 0x2000),
        vec![Span { offset: 0, len: 4, ip: 0x2000 }, Span { offset: 4, len: 4, ip: 0x2004 }]
    );
    assert!(instruction_spans(64, &[], 0x1000).is_empty());
}

#[test]
fn the_mode_decides_how_bytes_decode() {
    // In 32-bit mode 0x48 is `dec eax`, an instruction of its own.
    assert_eq!(
        instruction_spans(32, &[0x48, 0x83, 0xec, 0x10], 0),
        vec![Span { offset: 0, len: 1, ip: 0 }, Span { offset: 1, len: 3, ip: 1 }]
    );
}

#[test]
fn spans_stop_where_addresses_end() {
    let spans = instruction_spans(64, &PROLOGUE, u64::MAX - 1);
    assert_eq!(
        spans,
        vec![
            Span { offset: 0, len: 1, ip: u64::MAX - 1 },
            Span { offset: 1, len: 3, ip: u64::MAX },
        ]
    );
}

#[test]
fn an_annotation_stands_between_the_instructions_it_lies_between() {
    let entries = vec![
        RawEntry::Cie(cie(vec![])),
        RawEntry::Fde(fde(
            0x1000,
            8,
            vec![
                CfiInstruction::AdvanceLoc { delta: 4 },
                CfiInstruction::DefCfaOffset { offset: 16 },
                CfiInstruction::AdvanceLoc { delta: 4 },
            ],
        )),
    ];
    let elf = image(2, vec![], vec![]);
    let opts = DisassOptions { syntax: Syntax::Att, cfi: true };
    let d = disassemble(&elf, &entries, 0x1000, &TWO_OF_FOUR, opts);
    assert_eq!(d.unwind, None);
    assert_eq!(d.lines.len(), 2);
    assert_eq!(d.lines[0].cfi, "");
    assert_eq!(
        d.lines[1].cfi,
        format!("{MARK}DW_CFA_def_cfa_offset(16)\tcfa = \x1b[90m%rax\x1b[0m + 16\n")
    );
    assert_eq!(d.lines[0].span, Span { offset: 0, len: 4, ip: 0x1000 });
    assert_eq!(d.lines[1].span, Span { offset: 4, len: 4, ip: 0x1004 });
    assert_eq!(
        d.lines[0].prefix,
        "0x00000000'00001000 \x1b[97m\u{2502}\x1b[0m  48 83 ec 10              \x1b[97m\u{2502}\x1b[0m  "
    );
}

#[test]
fn the_prologue_of_the_cie_comes_before_the_first_instruction() {
    let entries = vec![
        RawEntry::Cie(cie(vec![
            CfiInstruction::DefCfa { register: 7, offset: 8 },
            CfiInstruction::Offset { register: 16, factored_offset: 1 },
            CfiInstruction::Nop,
        ])),
        RawEntry::Fde(fde(
            0x1000,
            6,
            vec![
                CfiInstruction::AdvanceLoc { delta: 1 },
                CfiInstruction::DefCfaOffset { offset: 16 },
                CfiInstruction::Offset { register: 6, factored_offset: 2 },
                CfiInstruction::AdvanceLoc { delta: 3 },
                CfiInstruction::DefCfaRegister { register: 6 },
                CfiInstruction::AdvanceLoc { delta: 1 },
                CfiInstruction::DefCfa { register: 7, offset: 8 },
            ],
        )),
    ];
    let elf = image(2, vec![], vec![]);
    let opts = DisassOptions { syntax: Syntax::Att, cfi: true };
    let d = disassemble(&elf, &entries, 0x1000, &PROLOGUE, opts);
    let notes: Vec<&str> = d.lines.iter().map(|l| l.cfi.as_str()).collect();
    assert_eq!(
        notes,
        vec![
            format!(
                "{MARK}DW_CFA_def_cfa(7, 8)\t\tcfa = %rsp + 8\n{MARK}DW_CFA_offset(16, 1)\t\t%RA @ cfa \u{2212} 8\n"
            ),
            format!(
                "{MARK}DW_CFA_def_cfa_offset(16)\tcfa = \x1b[90m%rsp\x1b[0m + 16\n{MARK}DW_CFA_offset(6, 2)\t\t%rbp @ cfa \u{2212} 16\n"
            ),
            format!("{MARK}DW_CFA_def_cfa_register(6)\tcfa = %rbp + \x1b[90m16\x1b[0m\n"),
            format!("{MARK}DW_CFA_def_cfa(7, 8)\t\tcfa = %rsp + 8\n"),
        ]
    );
}

#[test]
fn an_advance_is_replayed_like_any_other_instruction() {
    let entries = vec![
        RawEntry::Cie(cie(vec![])),
        RawEntry::Fde(fde(
            0x1000,
            8,
            vec![
                CfiInstruction::AdvanceLoc { delta: 4 },
                CfiInstruction::DefCfaOffset { offset: 16 },
                CfiInstruction::AdvanceLoc { delta: 4 },
            ],
        )),
    ];
    let mut ctx = EhFnCtx::new(&entries, SizePrint::new(Container::Big), 0x1000).unwrap();
    assert_eq!((ctx.instr_index, ctx.curr_loc, ctx.cie_shown), (0, 0x1000, false));
    assert_eq!(ctx.at_ip(0x1000), "");
    assert_eq!((ctx.instr_index, ctx.curr_loc, ctx.cie_shown), (1, 0x1004, true));
    assert_eq!(
        ctx.at_ip(0x1004),
        format!("{MARK}DW_CFA_def_cfa_offset(16)\tcfa = \x1b[90m%rax\x1b[0m + 16\n")
    );
    assert_eq!((ctx.instr_index, ctx.curr_loc), (3, 0x1008));
    assert_eq!(ctx.instr_ctx.cfa_off, 16);
}

#[test]
fn the_cursor_never_rewinds() {
    let entries = vec![
        RawEntry::Cie(cie(vec![])),
        RawEntry::Fde(fde(
            0x1000,
            0x20,
            vec![
                CfiInstruction::AdvanceLoc { delta: 4 },
                CfiInstruction::DefCfaOffset { offset: 16 },
                CfiInstruction::AdvanceLoc { delta: 4 },
                CfiInstruction::DefCfaOffset { offset: 24 },
            ],
        )),
    ];
    let mut ctx = EhFnCtx::new(&entries, SizePrint::new(Container::Big), 0x1000).unwrap();
    assert_eq!(ctx.at_ip(0x1000), "");
    assert_eq!((ctx.instr_index, ctx.curr_loc), (1, 0x1004));
    assert!(ctx.at_ip(0x1008).contains("offset(24)"));
    assert_eq!((ctx.instr_index, ctx.curr_loc), (4, 0x1008));
    // Going back to an earlier address replays nothing and moves nothing.
    assert_eq!(ctx.at_ip(0x1000), "");
    assert_eq!((ctx.instr_index, ctx.curr_loc), (4, 0x1008));
    assert_eq!(ctx.at_ip(0x1008), "");
}

#[test]
fn the_merge_ends_with_the_location_beyond_the_address() {
    let entries = vec![
        RawEntry::Cie(cie(vec![])),
        RawEntry::Fde(fde(
            0x1000,
            0x20,
            vec![
                CfiInstruction::DefCfaOffset { offset: 8 },
                CfiInstruction::AdvanceLoc { delta: 2 },
                CfiInstruction::Nop,
                CfiInstruction::AdvanceLoc { delta: 2 },
                CfiInstruction::DefCfaOffset { offset: 16 },
            ],
        )),
    ];
    let mut ctx = EhFnCtx::new(&entries, SizePrint::new(Container::Big), 0x1000).unwrap();
    assert!(ctx.at_ip(0x1000).contains("offset(8)"));
    assert_eq!((ctx.instr_index, ctx.curr_loc), (2, 0x1002));
    assert_eq!(ctx.at_ip(0x1001), "");
    assert_eq!((ctx.instr_index, ctx.curr_loc), (2, 0x1002));
    assert_eq!(ctx.at_ip(0x1003), "");
    assert_eq!((ctx.instr_index, ctx.curr_loc), (4, 0x1004));
    assert!(ctx.at_ip(0x1004).contains("offset(16)"));
    assert_eq!((ctx.instr_index, ctx.curr_loc), (5, 0x1004));
}

#[test]
fn an_advance_past_the_last_address_stops_there() {
    let entries = vec![
        RawEntry::Cie(cie(vec![])),
        RawEntry::Fde(fde(
            u64::MAX - 4,
            4,
            vec![
                CfiInstruction::AdvanceLoc { delta: 9 },
                CfiInstruction::DefCfaOffset { offset: 16 },
            ],
        )),
    ];
    let mut ctx = EhFnCtx::new(&entries, SizePrint::new(Container::Big), u64::MAX - 4).unwrap();
    assert_eq!(ctx.at_ip(u64::MAX - 4), "");
    assert_eq!((ctx.instr_index, ctx.curr_loc), (1, u64::MAX));
    assert_eq!(ctx.at_ip(u64::MAX - 1), "");
    assert_eq!((ctx.instr_index, ctx.curr_loc), (1, u64::MAX));
    assert!(ctx.at_ip(u64::MAX).contains("offset(16)"));
    assert_eq!((ctx.instr_index, ctx.curr_loc), (2, u64::MAX));
}

#[test]
fn the_cie_is_replayed_at_the_first_machine_instruction() {
    let entries = vec![
        RawEntry::Cie(cie(vec![
            CfiInstruction::DefCfa { register: 7, offset: 8 },
            CfiInstruction::AdvanceLoc { delta: 2 },
        ])),
        RawEntry::Fde(fde(0x1000, 8, vec![CfiInstruction::DefCfaOffset { offset: 16 }])),
    ];
    let mut ctx = EhFnCtx::new(&entries, SizePrint::new(Container::Big), 0x1000).unwrap();
    assert_eq!((ctx.curr_loc, ctx.cie_shown, ctx.instr_ctx.cfa_reg), (0x1000, false, 0));
    assert_eq!(ctx.show_cie(), format!("{MARK}DW_CFA_def_cfa(7, 8)\t\tcfa = %rsp + 8\n"));
    assert_eq!((ctx.curr_loc, ctx.cie_shown, ctx.instr_ctx.cfa_reg), (0x1002, true, 7));
    assert_eq!(ctx.at_ip(0x1000), "");
    assert_eq!((ctx.instr_index, ctx.curr_loc), (0, 0x1002));
    assert_eq!(
        ctx.at_ip(0x1002),
        format!("{MARK}DW_CFA_def_cfa_offset(16)\tcfa = \x1b[90m%rsp\x1b[0m + 16\n")
    );
}

#[test]
fn merge_alone_leaves_the_cie_aside() {
    let entries = vec![
        RawEntry::Cie(cie(vec![CfiInstruction::DefCfa { register: 7, offset: 8 }])),
        RawEntry::Fde(fde(0x1000, 8, vec![CfiInstruction::DefCfaOffset { offset: 16 }])),
    ];
    let mut ctx = EhFnCtx::new(&entries, SizePrint::new(Container::Big), 0x1000).unwrap();
    assert_eq!(
        ctx.merge(0x1000),
        format!("{MARK}DW_CFA_def_cfa_offset(16)\tcfa = \x1b[90m%rax\x1b[0m + 16\n")
    );
    assert!(!ctx.cie_shown);
    assert_eq!(ctx.instr_index, 1);
}

#[test]
fn a_function_without_unwind_data_is_still_disassembled() {
    let entries = vec![RawEntry::Cie(cie(vec![])), RawEntry::Fde(fde(0x5000, 8, vec![]))];
    let elf = image(2, vec![], vec![]);
    let opts = DisassOptions { syntax: Syntax::Intel, cfi: true };
    let d = disassemble(&elf, &entries, 0x1000, &TWO_OF_FOUR, opts);
    assert_eq!(d.unwind, Some(FrameError::NoUnwindData { address: 0x1000 }));
    assert_eq!(d.lines.len(), 2);
    assert!(d.lines.iter().all(|l| l.cfi.is_empty()));
    assert_eq!(
        EhFnCtx::new(&entries, SizePrint::new(Container::Big), 0x1000).err(),
        Some(FrameError::NoUnwindData { address: 0x1000 })
    );
}

#[test]
fn without_the_overlay_nothing_is_searched() {
    let entries = vec![RawEntry::Fde(fde(0x1000, 8, vec![]))];
    let elf = image(1, vec![], vec![]);
    let d = disassemble(&elf, &entries, 0x1000, &[0x90, 0xc3], DisassOptions::default());
    assert_eq!(d.unwind, None);
    assert_eq!(d.lines.len(), 2);
    assert_eq!(
        d.lines[1].prefix,
        "0x0000'1001 \x1b[97m\u{2502}\x1b[0m  c3                       \x1b[97m\u{2502}\x1b[0m  "
    );
    let cfi = DisassOptions { syntax: Syntax::Att, cfi: true };
    let d = disassemble(&elf, &entries, 0x1000, &[0x90, 0xc3], cfi);
    assert_eq!(d.unwind, Some(FrameError::UnresolvedCie { fde_offset: 24, cie_offset: 0 }));
}

#[test]
fn an_advance_of_the_cie_past_the_last_address_stops_there() {
    let entries = vec![
        RawEntry::Cie(cie(vec![
            CfiInstruction::AdvanceLoc { delta: 16 },
            CfiInstruction::DefCfa { register: 7, offset: 8 },
        ])),
        RawEntry::Fde(fde(u64::MAX - 8, 8, vec![CfiInstruction::DefCfaOffset { offset: 16 }])),
    ];
    let mut ctx = EhFnCtx::new(&entries, SizePrint::new(Container::Big), u64::MAX - 8).unwrap();
    assert_eq!(
        ctx.at_ip(u64::MAX - 8),
        format!("{MARK}DW_CFA_def_cfa(7, 8)\t\tcfa = %rsp + 8\n")
    );
    assert_eq!((ctx.instr_index, ctx.curr_loc), (0, u64::MAX));
}

#[test]
fn the_byte_column_is_24_wide_unless_the_bytes_need_more() {
    assert_eq!(render_byte_column(&[]), " ".repeat(24));
    assert_eq!(render_byte_column(&[0x0f, 0x05]), format!("0f 05 {}", " ".repeat(18)));
    assert_eq!(render_byte_column(&[0xab; 8]), "ab ".repeat(8));
    assert_eq!(render_byte_column(&[0xab; 12]), "ab ".repeat(12));
    assert_eq!(render_byte_column(&[0xab; 13]), "ab".repeat(13));
    assert_eq!(
        render_line_prefix(SizePrint::new(Container::Little), &[0xc3], 0x12_3456),
        "0x0012'3456 \x1b[97m\u{2502}\x1b[0m  c3                       \x1b[97m\u{2502}\x1b[0m  "
    );
}

fn args(name: &str, address: bool) -> FnArgs {
    FnArgs { name: name.to_string(), address, cfi: false, syntax: Syntax::Att }
}

fn file() -> Vec<u8> {
    let mut bytes = vec![0u8; 0x110];
    bytes[0x100..0x106].copy_from_slice(&PROLOGUE);
    bytes
}

#[test]
fn shows_a_function_by_name() {
    let elf = image(2, vec![func("start", 0x1100, 6)], vec![load(0x1000, 0, 0x200)]);
    let view = do_fn(&elf, &file(), &vec![], &args("start", false)).unwrap();
    assert_eq!(view.title, "\x1b[97mstart:\x1b[0m\n");
    assert_eq!(view.warnings, "");
    assert_eq!((view.start, view.len), (0x100, 6));
    assert_eq!(view.disassembly.lines.len(), 4);
    assert_eq!(view.disassembly.lines[1].span, Span { offset: 1, len: 3, ip: 0x1101 });
}

#[test]
fn shows_a_function_by_address() {
    let elf = image(
        2,
        vec![func("first", 0x1000, 0x100), func("start", 0x1100, 6)],
        vec![load(0x1000, 0, 0x200)],
    );
    for text in ["0x1102", "1102", "0x0x1102", "+1102"] {
        let view = do_fn(&elf, &file(), &vec![], &args(text, true)).unwrap();
        assert_eq!(view.title, "\x1b[97mstart:\x1b[0m\n");
        assert_eq!((view.start, view.len), (0x100, 6));
    }
    assert_eq!(do_fn(&elf, &file(), &vec![], &args("zz", true)).err(), Some(FnError::BadAddress));
    assert_eq!(do_fn(&elf, &file(), &vec![], &args("", true)).err(), Some(FnError::BadAddress));
    assert_eq!(
        do_fn(&elf, &file(), &vec![], &args("0x5000", true)).err(),
        Some(FnError::SymbolNotFound)
    );
}

#[test]
fn a_function_that_cannot_be_found_is_an_error() {
    let unnamed = Sym { name: None, st_value: 0x1100, st_size: 6, st_info: 0x12, st_other: 0 };
    let elf = image(2, vec![unnamed, func("far", 0x9000, 6)], vec![load(0x1000, 0, 0x200)]);
    assert_eq!(
        do_fn(&elf, &file(), &vec![], &args("nothing", false)).err(),
        Some(FnError::SymbolNotFound)
    );
    assert_eq!(
        do_fn(&elf, &file(), &vec![], &args("1100", true)).err(),
        Some(FnError::UnnamedSymbol)
    );
    assert_eq!(
        do_fn(&elf, &file(), &vec![], &args("far", false)).err(),
        Some(FnError::NoFileOffset)
    );
}

#[test]
fn odd_symbols_give_warnings_and_are_shown_as_far_as_they_go() {
    let mut object = func("table", 0x1100, 6);
    object.st_info = 0x11;
    let elf = image(
        2,
        vec![object, func("empty", 0x1104, 0), func("long", 0x1108, 0x100)],
        vec![load(0x1000, 0, 0x200)],
    );
    let view = do_fn(&elf, &file(), &vec![], &args("table", false)).unwrap();
    assert_eq!(
        view.warnings,
        "\x1b[93mwarning\x1b[0m: Symbol \"table\" has type \x1b[34mOBJECT\x1b[0m\n"
    );
    let view = do_fn(&elf, &file(), &vec![], &args("empty", false)).unwrap();
    assert_eq!(view.warnings, "\x1b[93mwarning\x1b[0m: Symbol \"empty\" has no size\n");
    assert_eq!((view.start, view.len), (0x104, 0));
    assert!(view.disassembly.lines.is_empty());
    let view = do_fn(&elf, &file(), &vec![], &args("long", false)).unwrap();
    assert_eq!(
        view.warnings,
        "\x1b[93mwarning\x1b[0m: Symbol \"long\" reaches past the end of the file\n"
    );
    assert_eq!((view.start, view.len), (0x108, 8));
}

#[test]
fn function_failures_are_said_in_words() {
    let wanted = args("0xzz", true);
    assert_eq!(FnError::BadAddress.message(&wanted), "couldn't parse memory address '0xzz'");
    assert_eq!(
        FnError::SymbolNotFound.message(&wanted),
        "couldn't find any symbol matching \"0xzz\""
    );
    assert_eq!(
        FnError::UnnamedSymbol.message(&wanted),
        "the symbol that covers the address has no name"
    );
    assert_eq!(FnError::NoFileOffset.message(&wanted), "couldn't find the file offset");
    assert_eq!(
        render_overlay_warning(FrameError::NoUnwindData { address: 0x1000 }),
        "\x1b[93mwarning\x1b[0m: no call-frame information is shown: no unwind data for address 0x1000\n"
    );
}
