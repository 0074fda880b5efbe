//! Call-frame instructions and the tracker of the canonical frame address
//! (CFA): each instruction changes the tracked rule and is described in one
//! line of text.

use crate::print::SizePrint;
use crate::text::{
    decimal, hex, pad_left, push_decimal, push_decimal_wide, push_hex_padded,
    push_signed_decimal, signed_decimal,
};
use vstd::prelude::*;
use vstd::string::*;

verus! {

/// One call-frame instruction, with registers by their DWARF number.
#[allow(inconsistent_fields)]
#[derive(Clone, Debug)]
pub enum CfiInstruction {
    SetLoc { address: u64 },
    AdvanceLoc { delta: u32 },
    DefCfa { register: u16, offset: u64 },
    DefCfaSf { register: u16, factored_offset: i64 },
    DefCfaRegister { register: u16 },
    DefCfaOffset { offset: u64 },
    DefCfaOffsetSf { factored_offset: i64 },
    DefCfaExpression { expression: Vec<u8> },
    Undefined { register: u16 },
    SameValue { register: u16 },
    Offset { register: u16, factored_offset: u64 },
    OffsetExtendedSf { register: u16, factored_offset: i64 },
    ValOffset { register: u16, factored_offset: u64 },
    ValOffsetSf { register: u16, factored_offset: i64 },
    Register { dest_register: u16, src_register: u16 },
    Expression { register: u16, expression: Vec<u8> },
    ValExpression { register: u16, expression: Vec<u8> },
    Restore { register: u16 },
    RememberState,
    RestoreState,
    ArgsSize { size: u64 },
    Nop,
}

/// Why an instruction could not be applied.
#[derive(Clone, Copy, Debug, PartialEq, Eq, Structural)]
pub enum CfiError {
    /// The advance would move the location past the end of the address
    /// space.
    LocationOverflow,
}

/// The name of an x86-64 register by its DWARF number, as
/// `gimli::X86_64::register_name` gives it.
pub uninterp spec fn x86_64_register_name(register: u16) -> Option<Seq<char>>;

/// `gimli::X86_64::register_name`: the name of the register with this DWARF
/// number, or nothing for a number that the architecture does not define.
#[verifier::external_body]
fn x86_64_name(register: u16) -> (name: Option<&'static str>)
    ensures
        match name {
            Some(s) => x86_64_register_name(register) == Some(s@),
            None => x86_64_register_name(register) is None,
        },
{
    gimli::X86_64::register_name(gimli::Register(register))
}

/// The name shown for an unknown register.
pub open spec fn unknown_register() -> Seq<char> {
    "???"@
}

/// The name shown for a register: its architectural name, or a placeholder.
pub open spec fn register_text(register: u16) -> Seq<char> {
    match x86_64_register_name(register) {
        Some(name) => name,
        None => unknown_register(),
    }
}

/// The name shown for a register.
pub fn register_name(register: u16) -> (name: &'static str)
    ensures
        name@ == register_text(register),
{
    match x86_64_name(register) {
        Some(name) => name,
        None => "???",
    }
}

/// The tracked rule: the CFA is the value of `cfa_reg` plus `cfa_off`, which
/// may be negative; `loc` is the address that the rule holds from; `saved`
/// are the rules put aside by `RememberState`, the latest last.
pub struct CfaState {
    pub cfa_reg: u16,
    pub cfa_off: i128,
    pub loc: u64,
    pub data_align: i64,
    pub sp: SizePrint,
    pub saved: Seq<(u16, i128)>,
}

/// The tracker of the CFA rule.
#[derive(Clone, Debug)]
pub struct EhInstrContext {
    pub cfa_reg: u16,
    pub cfa_off: i128,
    pub loc: u64,
    pub data_align: i64,
    pub sp: SizePrint,
    pub saved: Vec<(u16, i128)>,
}

impl View for EhInstrContext {
    type V = CfaState;

    open spec fn view(&self) -> CfaState {
        CfaState {
            cfa_reg: self.cfa_reg,
            cfa_off: self.cfa_off,
            loc: self.loc,
            data_align: self.data_align,
            sp: self.sp,
            saved: self.saved@,
        }
    }
}

/// Bytes as two hexadecimal digits each, separated by a comma and a space.
pub open spec fn hex_items(bytes: Seq<u8>) -> Seq<char>
    decreases bytes.len(),
{
    if bytes.len() == 0 {
        Seq::<char>::empty()
    } else if bytes.len() == 1 {
        pad_left(hex(bytes[0] as nat), 2, '0')
    } else {
        hex_items(bytes.drop_last()) + ", "@ + pad_left(hex(bytes.last() as nat), 2, '0')
    }
}

/// Bytes as a bracketed list of two-digit hexadecimal numbers.
pub open spec fn hex_list(bytes: Seq<u8>) -> Seq<char> {
    "["@ + hex_items(bytes) + "]"@
}

/// The byte offset that a factored offset stands for: the operand times the
/// data alignment factor.
pub open spec fn scaled_offset(factored_offset: int, data_align: i64) -> int {
    factored_offset * data_align as int
}

/// The absolute value of a number.
pub open spec fn magnitude(n: int) -> nat {
    if n < 0 {
        (-n) as nat
    } else {
        n as nat
    }
}

/// The sign of an offset as it is shown: a plus, or a minus for a negative
/// one.
pub open spec fn sign_of(offset: int) -> Seq<char> {
    if offset < 0 {
        "\u{2212}"@
    } else {
        "+"@
    }
}

/// An offset as it is shown behind what it is added to: its sign, a blank,
/// its absolute value.
pub open spec fn signed_term(offset: int) -> Seq<char> {
    sign_of(offset) + " "@ + decimal(magnitude(offset))
}

impl CfaState {
    /// The state after an instruction, or nothing where the instruction
    /// cannot be applied. The location is set or advanced, never moved
    /// backward: a `SetLoc` to an address behind it leaves it where it is.
    /// Every definition of the CFA is applied, a factored offset times the
    /// data alignment factor.
    pub open spec fn step(self, instr: CfiInstruction) -> Option<CfaState> {
        match instr {
            CfiInstruction::SetLoc { address } => if address >= self.loc {
                Some(CfaState { loc: address, ..self })
            } else {
                Some(self)
            },
            CfiInstruction::AdvanceLoc { delta } => if self.loc + delta <= u64::MAX {
                Some(CfaState { loc: (self.loc + delta) as u64, ..self })
            } else {
                None
            },
            CfiInstruction::DefCfa { register, offset } => Some(
                CfaState { cfa_reg: register, cfa_off: offset as i128, ..self },
            ),
            CfiInstruction::DefCfaSf { register, factored_offset } => Some(
                CfaState {
                    cfa_reg: register,
                    cfa_off: scaled_offset(factored_offset as int, self.data_align) as i128,
                    ..self
                },
            ),
            CfiInstruction::DefCfaRegister { register } => Some(
                CfaState { cfa_reg: register, ..self },
            ),
            CfiInstruction::DefCfaOffset { offset } => Some(
                CfaState { cfa_off: offset as i128, ..self },
            ),
            CfiInstruction::DefCfaOffsetSf { factored_offset } => Some(
                CfaState {
                    cfa_off: scaled_offset(factored_offset as int, self.data_align) as i128,
                    ..self
                },
            ),
            CfiInstruction::RememberState => Some(
                CfaState { saved: self.saved.push((self.cfa_reg, self.cfa_off)), ..self },
            ),
            CfiInstruction::RestoreState => if self.saved.len() > 0 {
                Some(
                    CfaState {
                        cfa_reg: self.saved.last().0,
                        cfa_off: self.saved.last().1,
                        saved: self.saved.drop_last(),
                        ..self
                    },
                )
            } else {
                Some(self)
            },
            _ => Some(self),
        }
    }

    /// The two registers whose names the description of an instruction
    /// shows; where it shows fewer, the rest is register 0.
    pub open spec fn shown_registers(self, instr: CfiInstruction) -> (u16, u16) {
        match instr {
            CfiInstruction::DefCfa { register, .. } => (register, 0u16),
            CfiInstruction::DefCfaSf { register, .. } => (register, 0u16),
            CfiInstruction::DefCfaRegister { register } => (register, 0u16),
            CfiInstruction::DefCfaOffset { .. } => (self.cfa_reg, 0u16),
            CfiInstruction::DefCfaOffsetSf { .. } => (self.cfa_reg, 0u16),
            CfiInstruction::Undefined { register } => (register, 0u16),
            CfiInstruction::SameValue { register } => (register, 0u16),
            CfiInstruction::Offset { register, .. } => (register, 0u16),
            CfiInstruction::OffsetExtendedSf { register, .. } => (register, 0u16),
            CfiInstruction::ValOffset { register, .. } => (register, 0u16),
            CfiInstruction::ValOffsetSf { register, .. } => (register, 0u16),
            CfiInstruction::Register { dest_register, src_register } => (
                dest_register,
                src_register,
            ),
            CfiInstruction::Expression { register, .. } => (register, 0u16),
            CfiInstruction::Restore { register } => (register, 0u16),
            _ => (0u16, 0u16),
        }
    }

    /// The line that describes an instruction applied in this state, given
    /// the names of its shown registers: the instruction with its operands,
    /// then its effect.
    pub open spec fn described(self, instr: CfiInstruction, first: Seq<char>, second: Seq<char>) -> Seq<
        char,
    > {
        match instr {
            CfiInstruction::SetLoc { address } => "DW_CFA_set_loc("@ + decimal(address as nat)
                + ")\tloc = "@ + decimal(address as nat) + (if address >= self.loc {
                Seq::<char>::empty()
            } else {
                "\t\x1b[93mbehind the location, not applied\x1b[0m"@
            }),
            CfiInstruction::AdvanceLoc { delta } => "DW_CFA_advance_loc("@ + decimal(delta as nat)
                + ")\tloc += "@ + decimal(delta as nat) + "\tloc = "@ + self.sp.hex_text(
                (self.loc + delta) as u64,
            ),
            CfiInstruction::DefCfa { register, offset } => "DW_CFA_def_cfa("@ + decimal(
                register as nat,
            ) + ", "@ + decimal(offset as nat) + ")\t\tcfa = %"@ + first + " "@ + signed_term(
                offset as int,
            ),
            CfiInstruction::DefCfaSf { register, factored_offset } => "DW_CFA_def_cfa_sf("@
                + decimal(register as nat) + ", "@ + signed_decimal(factored_offset as int)
                + ")\tcfa = %"@ + first + " "@ + signed_term(
                scaled_offset(factored_offset as int, self.data_align),
            ),
            CfiInstruction::DefCfaRegister { register } => "DW_CFA_def_cfa_register("@ + decimal(
                register as nat,
            ) + ")\tcfa = %"@ + first + " "@ + sign_of(self.cfa_off as int) + " \x1b[90m"@
                + decimal(magnitude(self.cfa_off as int)) + "\x1b[0m"@,
            CfiInstruction::DefCfaOffset { offset } => "DW_CFA_def_cfa_offset("@ + decimal(
                offset as nat,
            ) + ")\tcfa = \x1b[90m%"@ + first + "\x1b[0m "@ + signed_term(offset as int),
            CfiInstruction::DefCfaOffsetSf { factored_offset } => "DW_CFA_def_cfa_offset_sf("@
                + signed_decimal(factored_offset as int) + ")\tcfa = \x1b[90m%"@ + first
                + "\x1b[0m "@ + signed_term(scaled_offset(factored_offset as int, self.data_align)),
            CfiInstruction::DefCfaExpression { expression } => "DW_CFA_def_cfa_expression("@
                + hex_list(expression@) + ")"@,
            CfiInstruction::Undefined { register } => "DW_CFA_undefined("@ + decimal(
                register as nat,
            ) + ")\t\t%"@ + first + " @ ??? (unrecoverable)"@,
            CfiInstruction::SameValue { register } => "DW_CFA_same_value("@ + decimal(
                register as nat,
            ) + ")\t\t%"@ + first + " untouched"@,
            CfiInstruction::Offset { register, factored_offset } => "DW_CFA_offset("@ + decimal(
                register as nat,
            ) + ", "@ + decimal(factored_offset as nat) + ")\t\t%"@ + first + " @ cfa "@
                + signed_term(scaled_offset(factored_offset as int, self.data_align)),
            CfiInstruction::OffsetExtendedSf { register, factored_offset } =>
                "DW_CFA_offset_extended_sf("@ + decimal(register as nat) + ", "@ + signed_decimal(
                factored_offset as int,
            ) + ")\t%"@ + first + " @ cfa "@ + signed_term(
                scaled_offset(factored_offset as int, self.data_align),
            ),
            CfiInstruction::ValOffset { register, factored_offset } => "DW_CFA_val_offset("@
                + decimal(register as nat) + ", "@ + decimal(factored_offset as nat) + ")\t%"@
                + first + " = cfa "@ + signed_term(
                scaled_offset(factored_offset as int, self.data_align),
            ),
            CfiInstruction::ValOffsetSf { register, factored_offset } => "DW_CFA_val_offset_sf("@
                + decimal(register as nat) + ", "@ + signed_decimal(factored_offset as int)
                + ")\t%"@ + first + " = cfa "@ + signed_term(
                scaled_offset(factored_offset as int, self.data_align),
            ),
            CfiInstruction::Register { dest_register, src_register } => "DW_CFA_register("@
                + decimal(dest_register as nat) + ", "@ + decimal(src_register as nat) + ")\t%"@
                + first + " = %"@ + second,
            CfiInstruction::Expression { register, expression } => "DW_CFA_expression("@
                + decimal(register as nat) + ", "@ + hex_list(expression@) + ")\t\t%"@ + first
                + " = ..."@,
            CfiInstruction::ValExpression { register, expression } => "DW_CFA_val_expression("@
                + decimal(register as nat) + ", "@ + hex_list(expression@) + ")"@,
            CfiInstruction::Restore { register } => "DW_CFA_restore("@ + decimal(register as nat)
                + ")\t\t%"@ + first + " @ (initial rule)"@,
            CfiInstruction::RememberState => "DW_CFA_remember_state()"@,
            CfiInstruction::RestoreState => "DW_CFA_restore_state()"@,
            CfiInstruction::ArgsSize { size } => "DW_CFA_GNU_args_size("@ + decimal(size as nat)
                + ")"@,
            CfiInstruction::Nop => "\x1b[90mDW_CFA_nop()\x1b[0m"@,
        }
    }
}

/// A tracked rule at its start: register 0 plus 0, nothing put aside.
pub open spec fn start_state(loc: u64, data_align: i64, sp: SizePrint) -> CfaState {
    CfaState { cfa_reg: 0, cfa_off: 0, loc, data_align, sp, saved: Seq::<(u16, i128)>::empty() }
}

/// The line that describes an instruction applied in a state, with the
/// registers by their names.
pub open spec fn line_of(state: CfaState, instr: CfiInstruction) -> Seq<char> {
    state.described(
        instr,
        register_text(state.shown_registers(instr).0),
        register_text(state.shown_registers(instr).1),
    )
}

/// The state after a sequence of instructions and the lines that describe
/// them, each after `prefix` and ended by a line feed; nothing where one of
/// the instructions cannot be applied.
pub open spec fn replayed(state: CfaState, instrs: Seq<CfiInstruction>, prefix: Seq<char>) -> Option<
    (CfaState, Seq<char>),
>
    decreases instrs.len(),
{
    if instrs.len() == 0 {
        Some((state, Seq::<char>::empty()))
    } else {
        match replayed(state, instrs.drop_last(), prefix) {
            None => None,
            Some((before, lines)) => match before.step(instrs.last()) {
                None => None,
                Some(after) => Some(
                    (after, lines + prefix + line_of(before, instrs.last()) + "\n"@),
                ),
            },
        }
    }
}

/// A sequence of instructions cannot be applied where a front part of it
/// cannot.
pub proof fn lemma_replay_fails_with_front(
    state: CfaState,
    instrs: Seq<CfiInstruction>,
    k: int,
    prefix: Seq<char>,
)
    requires
        0 <= k <= instrs.len(),
        replayed(state, instrs.take(k), prefix) is None,
    ensures
        replayed(state, instrs, prefix) is None,
    decreases instrs.len(),
{
    if k == instrs.len() {
        assert(instrs.take(k) =~= instrs);
    } else {
        assert(instrs.drop_last().take(k) =~= instrs.take(k));
        lemma_replay_fails_with_front(state, instrs.drop_last(), k, prefix);
    }
}

/// Appends bytes as a bracketed list of two-digit hexadecimal numbers.
pub fn push_hex_list(s: &mut String, bytes: &Vec<u8>)
    ensures
        final(s)@ == old(s)@ + hex_list(bytes@),
{
    let mut t = String::new();
    let mut i: usize = 0;
    while i < bytes.len()
        invariant
            i <= bytes.len(),
            t@ == hex_items(bytes@.take(i as int)),
        decreases bytes.len() - i,
    {
        if i > 0 {
            t.append(", ");
        }
        push_hex_padded(&mut t, bytes[i] as u64, 2);
        i += 1;
        proof {
            let now = bytes@.take(i as int);
            assert(now.drop_last() =~= bytes@.take(i - 1));
            assert(now.last() == bytes@[i - 1]);
            assert(t@ =~= hex_items(now));
        }
    }
    assert(bytes@.take(i as int) =~= bytes@);
    s.append("[");
    s.append(t.as_str());
    s.append("]");
    assert(s@ =~= old(s)@ + hex_list(bytes@));
}

/// A factored offset times the data alignment factor.
pub fn scale_offset(factored_offset: i128, data_align: i64) -> (product: i128)
    requires
        -0x8000_0000_0000_0000 <= factored_offset <= 0xffff_ffff_ffff_ffff,
    ensures
        product == scaled_offset(factored_offset as int, data_align),
{
    assert(-0xffff_ffff_ffff_ffff * 0x8000_0000_0000_0000 <= factored_offset as int
        * data_align as int <= 0xffff_ffff_ffff_ffff * 0x8000_0000_0000_0000)
        by (nonlinear_arith)
        requires
            -0x8000_0000_0000_0000 <= factored_offset as int <= 0xffff_ffff_ffff_ffff,
            -0x8000_0000_0000_0000 <= data_align as int <= 0x7fff_ffff_ffff_ffff,
    ;
    factored_offset * data_align as i128
}

/// Appends the sign of an offset.
pub fn push_sign(s: &mut String, offset: i128)
    ensures
        final(s)@ == old(s)@ + sign_of(offset as int),
{
    if offset < 0 {
        s.append("\u{2212}");
    } else {
        s.append("+");
    }
}

/// Appends the absolute value of an offset.
pub fn push_magnitude(s: &mut String, offset: i128)
    ensures
        final(s)@ == old(s)@ + decimal(magnitude(offset as int)),
{
    let size: u128 = if offset == i128::MIN {
        0x8000_0000_0000_0000_0000_0000_0000_0000u128
    } else if offset < 0 {
        (-offset) as u128
    } else {
        offset as u128
    };
    push_decimal_wide(s, size);
}

/// Appends an offset as it is shown behind what it is added to.
pub fn push_signed_term(s: &mut String, offset: i128)
    ensures
        final(s)@ == old(s)@ + signed_term(offset as int),
{
    push_sign(s, offset);
    s.append(" ");
    push_magnitude(s, offset);
    assert(s@ =~= old(s)@ + signed_term(offset as int));
}

impl EhInstrContext {
    /// A tracker with the CFA at register 0 plus 0, at location 0, with
    /// alignment factor 1 and nothing put aside.
    pub fn new(sp: SizePrint) -> (ctx: Self)
        ensures
            ctx@ == (CfaState {
                cfa_reg: 0,
                cfa_off: 0,
                loc: 0,
                data_align: 1,
                sp,
                saved: Seq::<(u16, i128)>::empty(),
            }),
    {
        EhInstrContext { cfa_reg: 0, cfa_off: 0, loc: 0, data_align: 1, sp, saved: Vec::new() }
    }

    /// Starts over for another entry: the rule goes back to register 0 plus
    /// 0 with nothing put aside, at the given location and alignment factor.
    pub fn reset(&mut self, initial_location: u64, data_alignment: i64)
        ensures
            final(self)@ == (CfaState {
                cfa_reg: 0,
                cfa_off: 0,
                loc: initial_location,
                data_align: data_alignment,
                sp: old(self).sp,
                saved: Seq::<(u16, i128)>::empty(),
            }),
    {
        self.cfa_reg = 0;
        self.cfa_off = 0;
        self.loc = initial_location;
        self.data_align = data_alignment;
        self.saved = Vec::new();
    }

    /// The registers whose names the description of `instr` shows.
    pub fn shown_registers(&self, instr: &CfiInstruction) -> (regs: (u16, u16))
        ensures
            regs == self@.shown_registers(*instr),
    {
        match instr {
            CfiInstruction::DefCfa { register, .. } => (*register, 0),
            CfiInstruction::DefCfaSf { register, .. } => (*register, 0),
            CfiInstruction::DefCfaRegister { register } => (*register, 0),
            CfiInstruction::DefCfaOffset { .. } => (self.cfa_reg, 0),
            CfiInstruction::DefCfaOffsetSf { .. } => (self.cfa_reg, 0),
            CfiInstruction::Undefined { register } => (*register, 0),
            CfiInstruction::SameValue { register } => (*register, 0),
            CfiInstruction::Offset { register, .. } => (*register, 0),
            CfiInstruction::OffsetExtendedSf { register, .. } => (*register, 0),
            CfiInstruction::ValOffset { register, .. } => (*register, 0),
            CfiInstruction::ValOffsetSf { register, .. } => (*register, 0),
            CfiInstruction::Register { dest_register, src_register } => (
                *dest_register,
                *src_register,
            ),
            CfiInstruction::Expression { register, .. } => (*register, 0),
            CfiInstruction::Restore { register } => (*register, 0),
            _ => (0, 0),
        }
    }

    /// Describes `instr` as applied in the current state, with `first` and
    /// `second` as the names of its shown registers.
    pub fn describe(&self, instr: &CfiInstruction, first: &str, second: &str) -> (text: String)
        requires
            self@.step(*instr) is Some,
        ensures
            text@ == self@.described(*instr, first@, second@),
    {
        let mut t = String::new();
        match instr {
            CfiInstruction::SetLoc { address } => {
                t.append("DW_CFA_set_loc(");
                push_decimal(&mut t, *address);
                t.append(")\tloc = ");
                push_decimal(&mut t, *address);
                if *address < self.loc {
                    t.append("\t\x1b[93mbehind the location, not applied\x1b[0m");
                }
            },
            CfiInstruction::AdvanceLoc { delta } => {
                t.append("DW_CFA_advance_loc(");
                push_decimal(&mut t, *delta as u64);
                t.append(")\tloc += ");
                push_decimal(&mut t, *delta as u64);
                t.append("\tloc = ");
                let shown = self.sp.hex(self.loc + *delta as u64).to_text();
                t.append(shown.as_str());
            },
            CfiInstruction::DefCfa { register, offset } => {
                t.append("DW_CFA_def_cfa(");
                push_decimal(&mut t, *register as u64);
                t.append(", ");
                push_decimal(&mut t, *offset);
                t.append(")\t\tcfa = %");
                t.append(first);
                t.append(" ");
                push_signed_term(&mut t, *offset as i128);
            },
            CfiInstruction::DefCfaSf { register, factored_offset } => {
                t.append("DW_CFA_def_cfa_sf(");
                push_decimal(&mut t, *register as u64);
                t.append(", ");
                push_signed_decimal(&mut t, *factored_offset);
                t.append(")\tcfa = %");
                t.append(first);
                t.append(" ");
                push_signed_term(&mut t, scale_offset(*factored_offset as i128, self.data_align));
            },
            CfiInstruction::DefCfaRegister { register } => {
                t.append("DW_CFA_def_cfa_register(");
                push_decimal(&mut t, *register as u64);
                t.append(")\tcfa = %");
                t.append(first);
                t.append(" ");
                push_sign(&mut t, self.cfa_off);
                t.append(" \x1b[90m");
                push_magnitude(&mut t, self.cfa_off);
                t.append("\x1b[0m");
            },
            CfiInstruction::DefCfaOffset { offset } => {
                t.append("DW_CFA_def_cfa_offset(");
                push_decimal(&mut t, *offset);
                t.append(")\tcfa = \x1b[90m%");
                t.append(first);
                t.append("\x1b[0m ");
                push_signed_term(&mut t, *offset as i128);
            },
            CfiInstruction::DefCfaOffsetSf { factored_offset } => {
                t.append("DW_CFA_def_cfa_offset_sf(");
                push_signed_decimal(&mut t, *factored_offset);
                t.append(")\tcfa = \x1b[90m%");
                t.append(first);
                t.append("\x1b[0m ");
                push_signed_term(&mut t, scale_offset(*factored_offset as i128, self.data_align));
            },
            CfiInstruction::DefCfaExpression { expression } => {
                t.append("DW_CFA_def_cfa_expression(");
                push_hex_list(&mut t, expression);
                t.append(")");
            },
            CfiInstruction::Undefined { register } => {
                t.append("DW_CFA_undefined(");
                push_decimal(&mut t, *register as u64);
                t.append(")\t\t%");
                t.append(first);
                t.append(" @ ??? (unrecoverable)");
            },
            CfiInstruction::SameValue { register } => {
                t.append("DW_CFA_same_value(");
                push_decimal(&mut t, *register as u64);
                t.append(")\t\t%");
                t.append(first);
                t.append(" untouched");
            },
            CfiInstruction::Offset { register, factored_offset } => {
                t.append("DW_CFA_offset(");
                push_decimal(&mut t, *register as u64);
                t.append(", ");
                push_decimal(&mut t, *factored_offset);
                t.append(")\t\t%");
                t.append(first);
                t.append(" @ cfa ");
                push_signed_term(&mut t, scale_offset(*factored_offset as i128, self.data_align));
            },
            CfiInstruction::OffsetExtendedSf { register, factored_offset } => {
                t.append("DW_CFA_offset_extended_sf(");
                push_decimal(&mut t, *register as u64);
                t.append(", ");
                push_signed_decimal(&mut t, *factored_offset);
                t.append(")\t%");
                t.append(first);
                t.append(" @ cfa ");
                push_signed_term(&mut t, scale_offset(*factored_offset as i128, self.data_align));
            },
            CfiInstruction::ValOffset { register, factored_offset } => {
                t.append("DW_CFA_val_offset(");
                push_decimal(&mut t, *register as u64);
                t.append(", ");
                push_decimal(&mut t, *factored_offset);
                t.append(")\t%");
                t.append(first);
                t.append(" = cfa ");
                push_signed_term(&mut t, scale_offset(*factored_offset as i128, self.data_align));
            },
            CfiInstruction::ValOffsetSf { register, factored_offset } => {
                t.append("DW_CFA_val_offset_sf(");
                push_decimal(&mut t, *register as u64);
                t.append(", ");
                push_signed_decimal(&mut t, *factored_offset);
                t.append(")\t%");
                t.append(first);
                t.append(" = cfa ");
                push_signed_term(&mut t, scale_offset(*factored_offset as i128, self.data_align));
            },
            CfiInstruction::Register { dest_register, src_register } => {
                t.append("DW_CFA_register(");
                push_decimal(&mut t, *dest_register as u64);
                t.append(", ");
                push_decimal(&mut t, *src_register as u64);
                t.append(")\t%");
                t.append(first);
                t.append(" = %");
                t.append(second);
            },
            CfiInstruction::Expression { register, expression } => {
                t.append("DW_CFA_expression(");
                push_decimal(&mut t, *register as u64);
                t.append(", ");
                push_hex_list(&mut t, expression);
                t.append(")\t\t%");
                t.append(first);
                t.append(" = ...");
            },
            CfiInstruction::ValExpression { register, expression } => {
                t.append("DW_CFA_val_expression(");
                push_decimal(&mut t, *register as u64);
                t.append(", ");
                push_hex_list(&mut t, expression);
                t.append(")");
            },
            CfiInstruction::Restore { register } => {
                t.append("DW_CFA_restore(");
                push_decimal(&mut t, *register as u64);
                t.append(")\t\t%");
                t.append(first);
                t.append(" @ (initial rule)");
            },
            CfiInstruction::RememberState => {
                t.append("DW_CFA_remember_state()");
            },
            CfiInstruction::RestoreState => {
                t.append("DW_CFA_restore_state()");
            },
            CfiInstruction::ArgsSize { size } => {
                t.append("DW_CFA_GNU_args_size(");
                push_decimal(&mut t, *size);
                t.append(")");
            },
            CfiInstruction::Nop => {
                t.append("\x1b[90mDW_CFA_nop()\x1b[0m");
            },
        }
        assert(t@ =~= self@.described(*instr, first@, second@));
        t
    }

    /// Changes the tracked rule as `instr` says.
    pub fn apply(&mut self, instr: &CfiInstruction)
        requires
            old(self)@.step(*instr) is Some,
        ensures
            old(self)@.step(*instr) == Some(final(self)@),
            final(self).loc >= old(self).loc,
    {
        match instr {
            CfiInstruction::SetLoc { address } => {
                if *address >= self.loc {
                    self.loc = *address;
                }
            },
            CfiInstruction::AdvanceLoc { delta } => {
                self.loc = self.loc + *delta as u64;
            },
            CfiInstruction::DefCfa { register, offset } => {
                self.cfa_reg = *register;
                self.cfa_off = *offset as i128;
            },
            CfiInstruction::DefCfaSf { register, factored_offset } => {
                self.cfa_reg = *register;
                self.cfa_off = scale_offset(*factored_offset as i128, self.data_align);
            },
            CfiInstruction::DefCfaRegister { register } => {
                self.cfa_reg = *register;
            },
            CfiInstruction::DefCfaOffset { offset } => {
                self.cfa_off = *offset as i128;
            },
            CfiInstruction::DefCfaOffsetSf { factored_offset } => {
                self.cfa_off = scale_offset(*factored_offset as i128, self.data_align);
            },
            CfiInstruction::RememberState => {
                self.saved.push((self.cfa_reg, self.cfa_off));
            },
            CfiInstruction::RestoreState => {
                match self.saved.pop() {
                    Some(rule) => {
                        self.cfa_reg = rule.0;
                        self.cfa_off = rule.1;
                    },
                    None => {},
                }
            },
            _ => {},
        }
        assert(old(self)@.step(*instr).unwrap().saved =~= self@.saved);
    }

    /// Applies `instr` to the tracked rule and describes its effect in one
    /// line. An advance past the end of the address space is refused and
    /// leaves the rule as it was.
    pub fn print(&mut self, instr: &CfiInstruction) -> (res: Result<String, CfiError>)
        ensures
            match res {
                Ok(text) => {
                    &&& old(self)@.step(*instr) == Some(final(self)@)
                    &&& text@ == old(self)@.described(
                        *instr,
                        register_text(old(self)@.shown_registers(*instr).0),
                        register_text(old(self)@.shown_registers(*instr).1),
                    )
                },
                Err(e) => {
                    &&& e == CfiError::LocationOverflow
                    &&& old(self)@.step(*instr) is None
                    &&& final(self)@ == old(self)@
                },
            },
            final(self).loc >= old(self).loc,
    {
        match instr {
            CfiInstruction::AdvanceLoc { delta } => {
                if *delta as u64 > u64::MAX - self.loc {
                    return Err(CfiError::LocationOverflow);
                }
            },
            _ => {},
        }
        let regs = self.shown_registers(instr);
        let text = self.describe(instr, register_name(regs.0), register_name(regs.1));
        self.apply(instr);
        Ok(text)
    }
    /// Applies a sequence of instructions in turn and appends the line of
    /// each to `out`, after `prefix` and ended by a line feed. It stops at
    /// the first instruction that cannot be applied.
    pub fn replay(&mut self, instrs: &Vec<CfiInstruction>, prefix: &str, out: &mut String) -> (res:
        Result<(), CfiError>)
        ensures
            match res {
                Ok(()) => replayed(old(self)@, instrs@, prefix@) matches Some(end) && end.0
                    == final(self)@ && final(out)@ == old(out)@ + end.1,
                Err(e) => e == CfiError::LocationOverflow && replayed(
                    old(self)@,
                    instrs@,
                    prefix@,
                ) is None,
            },
    {
        let mut i: usize = 0;
        let ghost mut lines = Seq::<char>::empty();
        assert(instrs@.take(0) =~= Seq::<CfiInstruction>::empty());
        while i < instrs.len()
            invariant
                i <= instrs.len(),
                replayed(old(self)@, instrs@.take(i as int), prefix@) == Some((self@, lines)),
                out@ == old(out)@ + lines,
            decreases instrs.len() - i,
        {
            let ghost before = self@;
            assert(instrs@.take(i + 1).drop_last() =~= instrs@.take(i as int));
            assert(instrs@.take(i + 1).last() == instrs@[i as int]);
            match self.print(&instrs[i]) {
                Ok(line) => {
                    out.append(prefix);
                    out.append(line.as_str());
                    out.append("\n");
                    proof {
                        let longer = lines + prefix@ + line_of(before, instrs@[i as int]) + "\n"@;
                        assert(out@ =~= old(out)@ + longer);
                        lines = longer;
                    }
                },
                Err(e) => {
                    proof {
                        lemma_replay_fails_with_front(old(self)@, instrs@, i + 1, prefix@);
                    }
                    return Err(e);
                },
            }
            i += 1;
        }
        assert(instrs@.take(i as int) =~= instrs@);
        Ok(())
    }
}

/// No instruction moves the location backward.
pub proof fn lemma_location_never_decreases(state: CfaState, instr: CfiInstruction)
    ensures
        state.step(instr) matches Some(next) ==> next.loc >= state.loc,
{
}

/// `SetLoc` to an address at or beyond the location moves the location
/// there and changes nothing else; an advance after it starts from there.
pub proof fn lemma_set_loc_moves_forward(state: CfaState, address: u64, delta: u32)
    requires
        address >= state.loc,
    ensures
        state.step(CfiInstruction::SetLoc { address }) == Some(
            CfaState { loc: address, ..state },
        ),
        address + delta <= u64::MAX ==> (CfaState { loc: address, ..state }).step(
            CfiInstruction::AdvanceLoc { delta },
        ) == Some(CfaState { loc: (address + delta) as u64, ..state }),
{
}

/// The signed definitions of the CFA take the factored offset times the
/// data alignment factor: `DefCfaSf` with its register, `DefCfaOffsetSf`
/// with the register as it was. Neither moves the location.
pub proof fn lemma_signed_definitions_are_scaled(
    state: CfaState,
    register: u16,
    factored_offset: i64,
)
    ensures
        state.step(CfiInstruction::DefCfaSf { register, factored_offset }) matches Some(next)
            && next.cfa_reg == register && next.cfa_off == factored_offset * state.data_align
            && next.loc == state.loc,
        state.step(CfiInstruction::DefCfaOffsetSf { factored_offset }) matches Some(next)
            && next.cfa_reg == state.cfa_reg && next.cfa_off == factored_offset
            * state.data_align && next.loc == state.loc,
{
    assert(-0x8000_0000_0000_0000 * 0x8000_0000_0000_0000 <= factored_offset as int
        * state.data_align as int <= 0x8000_0000_0000_0000 * 0x8000_0000_0000_0000)
        by (nonlinear_arith)
        requires
            -0x8000_0000_0000_0000 <= factored_offset as int <= 0x7fff_ffff_ffff_ffff,
            -0x8000_0000_0000_0000 <= state.data_align as int <= 0x7fff_ffff_ffff_ffff,
    ;
}

/// What `RememberState` puts aside, `RestoreState` brings back, whatever
/// the rule became in between, as long as the rules put aside are the same.
pub proof fn lemma_restore_undoes_remember(state: CfaState, between: CfaState)
    requires
        between.saved == state.saved.push((state.cfa_reg, state.cfa_off)),
    ensures
        state.step(CfiInstruction::RememberState) matches Some(kept) && kept.saved
            == between.saved,
        between.step(CfiInstruction::RestoreState) matches Some(back) && back.cfa_reg
            == state.cfa_reg && back.cfa_off == state.cfa_off && back.saved == state.saved,
{
    assert(between.saved.drop_last() =~= state.saved);
}

} // verus!
