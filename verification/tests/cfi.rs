use elf_info::cfi::{register_name, CfiError, CfiInstruction, EhInstrContext};
use elf_info::print::{Container, SizePrint};

fn tracker(data_align: i64) -> EhInstrContext {
    let mut ctx = EhInstrContext::new(SizePrint::new(Container::Big));
    ctx.reset(0x1000, data_align);
    ctx
}

#[test]
fn names_registers_of_x86_64() {
    assert_eq!(register_name(0), "rax");
    assert_eq!(register_name(6), "rbp");
    assert_eq!(register_name(7), "rsp");
    assert_eq!(register_name(16), "RA");
    assert_eq!(register_name(9999), "???");
}

#[test]
fn a_factored_offset_is_scaled_by_the_data_alignment() {
    let mut ctx = tracker(-8);
    let line = ctx.print(&CfiInstruction::Offset { register: 16, factored_offset: 2 }).unwrap();
    assert_eq!(line, "DW_CFA_offset(16, 2)\t\t%RA @ cfa \u{2212} 16");
    let mut ctx = tracker(4);
    let line = ctx.print(&CfiInstruction::Offset { register: 6, factored_offset: 3 }).unwrap();
    assert_eq!(line, "DW_CFA_offset(6, 3)\t\t%rbp @ cfa + 12");
    let mut ctx = tracker(-8);
    let line = ctx.print(&CfiInstruction::Offset { register: 6, factored_offset: 0 }).unwrap();
    assert_eq!(line, "DW_CFA_offset(6, 0)\t\t%rbp @ cfa + 0");
}

#[test]
fn a_scaled_offset_never_wraps() {
    let mut ctx = tracker(i64::MIN);
    let line =
        ctx.print(&CfiInstruction::Offset { register: 0, factored_offset: u64::MAX }).unwrap();
    assert_eq!(
        line,
        "DW_CFA_offset(0, 18446744073709551615)\t\t%rax @ cfa \u{2212} 170141183460469231722463931679029329920"
    );
}

#[test]
fn the_cfa_is_redefined_whole_or_in_part() {
    let mut ctx = tracker(-8);
    assert_eq!(
        ctx.print(&CfiInstruction::DefCfa { register: 7, offset: 8 }).unwrap(),
        "DW_CFA_def_cfa(7, 8)\t\tcfa = %rsp + 8"
    );
    assert_eq!((ctx.cfa_reg, ctx.cfa_off), (7, 8));
    assert_eq!(
        ctx.print(&CfiInstruction::DefCfaOffset { offset: 16 }).unwrap(),
        "DW_CFA_def_cfa_offset(16)\tcfa = \x1b[90m%rsp\x1b[0m + 16"
    );
    assert_eq!((ctx.cfa_reg, ctx.cfa_off), (7, 16));
    assert_eq!(
        ctx.print(&CfiInstruction::DefCfaRegister { register: 6 }).unwrap(),
        "DW_CFA_def_cfa_register(6)\tcfa = %rbp + \x1b[90m16\x1b[0m"
    );
    assert_eq!((ctx.cfa_reg, ctx.cfa_off), (6, 16));
}

#[test]
fn an_advance_moves_the_location_forward() {
    let mut ctx = tracker(-8);
    assert_eq!(
        ctx.print(&CfiInstruction::AdvanceLoc { delta: 4 }).unwrap(),
        "DW_CFA_advance_loc(4)\tloc += 4\tloc = 0x00000000'00001004"
    );
    assert_eq!(ctx.loc, 0x1004);
    let mut small = EhInstrContext::new(SizePrint::new(Container::Little));
    small.reset(0x1_fffe, 1);
    assert_eq!(
        small.print(&CfiInstruction::AdvanceLoc { delta: 3 }).unwrap(),
        "DW_CFA_advance_loc(3)\tloc += 3\tloc = 0x0002'0001"
    );
}

#[test]
fn an_advance_past_the_address_space_is_refused() {
    let mut ctx = tracker(1);
    ctx.reset(u64::MAX - 3, 1);
    assert_eq!(ctx.print(&CfiInstruction::AdvanceLoc { delta: 4 }), Err(CfiError::LocationOverflow));
    assert_eq!(ctx.loc, u64::MAX - 3);
    assert!(ctx.print(&CfiInstruction::AdvanceLoc { delta: 3 }).is_ok());
    assert_eq!(ctx.loc, u64::MAX);
}

#[test]
fn the_location_never_moves_backward() {
    let mut ctx = tracker(-8);
    let stream = vec![
        CfiInstruction::SetLoc { address: 4 },
        CfiInstruction::AdvanceLoc { delta: 1 },
        CfiInstruction::DefCfa { register: 7, offset: 8 },
        CfiInstruction::RememberState,
        CfiInstruction::AdvanceLoc { delta: 0 },
        CfiInstruction::RestoreState,
        CfiInstruction::Nop,
        CfiInstruction::AdvanceLoc { delta: 100 },
    ];
    let mut last = ctx.loc;
    for instr in &stream {
        ctx.print(instr).unwrap();
        assert!(ctx.loc >= last);
        last = ctx.loc;
    }
    assert_eq!(ctx.loc, 0x1000 + 101);
}

#[test]
fn remember_and_restore_keep_a_stack_of_rules() {
    let mut ctx = tracker(-8);
    ctx.print(&CfiInstruction::DefCfa { register: 7, offset: 8 }).unwrap();
    assert_eq!(ctx.print(&CfiInstruction::RememberState).unwrap(), "DW_CFA_remember_state()");
    ctx.print(&CfiInstruction::DefCfa { register: 6, offset: 16 }).unwrap();
    ctx.print(&CfiInstruction::RememberState).unwrap();
    ctx.print(&CfiInstruction::DefCfaOffset { offset: 64 }).unwrap();
    assert_eq!(ctx.print(&CfiInstruction::RestoreState).unwrap(), "DW_CFA_restore_state()");
    assert_eq!((ctx.cfa_reg, ctx.cfa_off), (6, 16));
    ctx.print(&CfiInstruction::RestoreState).unwrap();
    assert_eq!((ctx.cfa_reg, ctx.cfa_off), (7, 8));
    ctx.print(&CfiInstruction::RestoreState).unwrap();
    assert_eq!((ctx.cfa_reg, ctx.cfa_off), (7, 8));
    assert_eq!(
        ctx.print(&CfiInstruction::DefCfaRegister { register: 6 }).unwrap(),
        "DW_CFA_def_cfa_register(6)\tcfa = %rbp + \x1b[90m8\x1b[0m"
    );
}

#[test]
fn register_rules_are_described() {
    let mut ctx = tracker(-8);
    assert_eq!(
        ctx.print(&CfiInstruction::Undefined { register: 16 }).unwrap(),
        "DW_CFA_undefined(16)\t\t%RA @ ??? (unrecoverable)"
    );
    assert_eq!(
        ctx.print(&CfiInstruction::SameValue { register: 3 }).unwrap(),
        "DW_CFA_same_value(3)\t\t%rbx untouched"
    );
    assert_eq!(
        ctx.print(&CfiInstruction::Register { dest_register: 6, src_register: 7 }).unwrap(),
        "DW_CFA_register(6, 7)\t%rbp = %rsp"
    );
    assert_eq!(
        ctx.print(&CfiInstruction::Restore { register: 6 }).unwrap(),
        "DW_CFA_restore(6)\t\t%rbp @ (initial rule)"
    );
    assert_eq!(
        ctx.print(&CfiInstruction::Undefined { register: 4242 }).unwrap(),
        "DW_CFA_undefined(4242)\t\t%??? @ ??? (unrecoverable)"
    );
}

#[test]
fn expressions_are_shown_byte_by_byte() {
    let mut ctx = tracker(-8);
    assert_eq!(
        ctx.print(&CfiInstruction::DefCfaExpression { expression: vec![0x77, 0x08, 0xa] })
            .unwrap(),
        "DW_CFA_def_cfa_expression([77, 08, 0a])"
    );
    assert_eq!(
        ctx.print(&CfiInstruction::Expression { register: 6, expression: vec![] }).unwrap(),
        "DW_CFA_expression(6, [])\t\t%rbp = ..."
    );
    assert_eq!(
        ctx.print(&CfiInstruction::ValExpression { register: 6, expression: vec![0xff] })
            .unwrap(),
        "DW_CFA_val_expression(6, [ff])"
    );
}

#[test]
fn set_loc_moves_the_location_forward() {
    let mut ctx = tracker(-8);
    assert_eq!(
        ctx.print(&CfiInstruction::SetLoc { address: 0x2000 }).unwrap(),
        "DW_CFA_set_loc(8192)\tloc = 8192"
    );
    assert_eq!(ctx.loc, 0x2000);
    assert_eq!(
        ctx.print(&CfiInstruction::AdvanceLoc { delta: 4 }).unwrap(),
        "DW_CFA_advance_loc(4)\tloc += 4\tloc = 0x00000000'00002004"
    );
    assert_eq!(ctx.loc, 0x2004);
    assert_eq!((ctx.cfa_reg, ctx.cfa_off, ctx.data_align), (0, 0, -8));
    let mut fresh = EhInstrContext::new(SizePrint::new(Container::Big));
    fresh.print(&CfiInstruction::SetLoc { address: 0x2000 }).unwrap();
    fresh.print(&CfiInstruction::AdvanceLoc { delta: 4 }).unwrap();
    assert_eq!(fresh.loc, 0x2004);
}

#[test]
fn set_loc_to_the_location_itself_changes_nothing() {
    let mut ctx = tracker(-8);
    assert_eq!(
        ctx.print(&CfiInstruction::SetLoc { address: 4096 }).unwrap(),
        "DW_CFA_set_loc(4096)\tloc = 4096"
    );
    assert_eq!(ctx.loc, 0x1000);
}

#[test]
fn set_loc_never_moves_the_location_backward() {
    let mut ctx = tracker(-8);
    assert_eq!(
        ctx.print(&CfiInstruction::SetLoc { address: 0xfff }).unwrap(),
        "DW_CFA_set_loc(4095)\tloc = 4095\t\x1b[93mbehind the location, not applied\x1b[0m"
    );
    assert_eq!(ctx.loc, 0x1000);
    ctx.print(&CfiInstruction::SetLoc { address: u64::MAX }).unwrap();
    assert_eq!(ctx.loc, u64::MAX);
    ctx.print(&CfiInstruction::SetLoc { address: 0 }).unwrap();
    assert_eq!(ctx.loc, u64::MAX);
}

#[test]
fn the_signed_definitions_of_the_cfa_are_scaled_and_applied() {
    let mut ctx = tracker(-8);
    assert_eq!(
        ctx.print(&CfiInstruction::DefCfaSf { register: 7, factored_offset: -2 }).unwrap(),
        "DW_CFA_def_cfa_sf(7, -2)\tcfa = %rsp + 16"
    );
    assert_eq!((ctx.cfa_reg, ctx.cfa_off, ctx.loc), (7, 16, 0x1000));
    assert_eq!(
        ctx.print(&CfiInstruction::DefCfaOffsetSf { factored_offset: 3 }).unwrap(),
        "DW_CFA_def_cfa_offset_sf(3)\tcfa = \x1b[90m%rsp\x1b[0m \u{2212} 24"
    );
    assert_eq!((ctx.cfa_reg, ctx.cfa_off, ctx.loc), (7, -24, 0x1000));
    assert_eq!(
        ctx.print(&CfiInstruction::DefCfaRegister { register: 6 }).unwrap(),
        "DW_CFA_def_cfa_register(6)\tcfa = %rbp \u{2212} \x1b[90m24\x1b[0m"
    );
    assert_eq!((ctx.cfa_reg, ctx.cfa_off), (6, -24));
    assert_eq!(
        ctx.print(&CfiInstruction::DefCfaSf { register: 3, factored_offset: 0 }).unwrap(),
        "DW_CFA_def_cfa_sf(3, 0)\tcfa = %rbx + 0"
    );
    assert_eq!((ctx.cfa_reg, ctx.cfa_off), (3, 0));
}

#[test]
fn a_scaled_cfa_offset_never_wraps() {
    let mut ctx = tracker(i64::MIN);
    assert_eq!(
        ctx.print(&CfiInstruction::DefCfaOffsetSf { factored_offset: i64::MIN }).unwrap(),
        "DW_CFA_def_cfa_offset_sf(-9223372036854775808)\tcfa = \x1b[90m%rax\x1b[0m + 85070591730234615865843651857942052864"
    );
    assert_eq!(ctx.cfa_off, 1i128 << 126);
    ctx.print(&CfiInstruction::DefCfaSf { register: 1, factored_offset: i64::MAX }).unwrap();
    assert_eq!(ctx.cfa_off, -(i64::MAX as i128) * (1i128 << 63));
    ctx.print(&CfiInstruction::DefCfa { register: 1, offset: u64::MAX }).unwrap();
    assert_eq!(ctx.cfa_off, u64::MAX as i128);
}

#[test]
fn a_remembered_rule_keeps_its_sign() {
    let mut ctx = tracker(-8);
    ctx.print(&CfiInstruction::DefCfaSf { register: 7, factored_offset: 2 }).unwrap();
    ctx.print(&CfiInstruction::RememberState).unwrap();
    ctx.print(&CfiInstruction::DefCfa { register: 6, offset: 16 }).unwrap();
    ctx.print(&CfiInstruction::RestoreState).unwrap();
    assert_eq!((ctx.cfa_reg, ctx.cfa_off), (7, -16));
}

#[test]
fn register_rules_with_an_offset_show_it_scaled() {
    let mut ctx = tracker(-8);
    assert_eq!(
        ctx.print(&CfiInstruction::OffsetExtendedSf { register: 3, factored_offset: 5 }).unwrap(),
        "DW_CFA_offset_extended_sf(3, 5)\t%rbx @ cfa \u{2212} 40"
    );
    assert_eq!(
        ctx.print(&CfiInstruction::OffsetExtendedSf { register: 3, factored_offset: -5 })
            .unwrap(),
        "DW_CFA_offset_extended_sf(3, -5)\t%rbx @ cfa + 40"
    );
    assert_eq!(
        ctx.print(&CfiInstruction::ValOffset { register: 3, factored_offset: 5 }).unwrap(),
        "DW_CFA_val_offset(3, 5)\t%rbx = cfa \u{2212} 40"
    );
    assert_eq!(
        ctx.print(&CfiInstruction::ValOffsetSf { register: 3, factored_offset: -5 }).unwrap(),
        "DW_CFA_val_offset_sf(3, -5)\t%rbx = cfa + 40"
    );
    assert_eq!((ctx.cfa_reg, ctx.cfa_off, ctx.loc), (0, 0, 0x1000));
}

#[test]
fn the_other_instructions_show_their_operands() {
    let mut ctx = tracker(-8);
    assert_eq!(
        ctx.print(&CfiInstruction::ArgsSize { size: 32 }).unwrap(),
        "DW_CFA_GNU_args_size(32)"
    );
    assert_eq!(ctx.print(&CfiInstruction::Nop).unwrap(), "\x1b[90mDW_CFA_nop()\x1b[0m");
    assert_eq!((ctx.cfa_reg, ctx.cfa_off, ctx.loc), (0, 0, 0x1000));
}

#[test]
fn describe_takes_the_names_it_is_given() {
    let ctx = tracker(-8);
    let text = ctx.describe(
        &CfiInstruction::Register { dest_register: 1, src_register: 2 },
        "first",
        "second",
    );
    assert_eq!(text, "DW_CFA_register(1, 2)\t%first = %second");
}

#[test]
fn replay_writes_one_line_for_each_instruction() {
    let mut ctx = tracker(-8);
    let mut out = String::from(">");
    let stream = vec![
        CfiInstruction::DefCfa { register: 7, offset: 8 },
        CfiInstruction::Offset { register: 16, factored_offset: 1 },
        CfiInstruction::Nop,
    ];
    ctx.replay(&stream, "| ", &mut out).unwrap();
    assert_eq!(
        out,
        ">| DW_CFA_def_cfa(7, 8)\t\tcfa = %rsp + 8\n| DW_CFA_offset(16, 1)\t\t%RA @ cfa \u{2212} 8\n| \x1b[90mDW_CFA_nop()\x1b[0m\n"
    );
}
