//! The disassembly of a function with its call-frame information laid over
//! it: two streams that only move forward, merged by address.

use crate::cfi::{line_of, start_state, CfaState, CfiInstruction, EhInstrContext};
use crate::frame::{fde_for_address, fde_search, range_contains, Fde, FrameError, RawEntry};
use crate::args::{FnArgs, Syntax};
use crate::elf::{
    file_offset_of, find_any_symbol, find_symbol_by_addr, symbol_covering, symbol_file_offset,
    symbol_in_image, Elf, Sym, STT_FUNC,
};
use crate::sym::{sym_type, sym_type_text};
use crate::print::{Container, SizePrint};
use crate::text::{
    debug_quoted, hex, hex_number, pad_left, parse_hex, push_hex_padded, push_repeat, quoted,
    repeat,
};
use vstd::prelude::*;
use vstd::string::*;

verus! {

/// What stands before each annotation.
pub open spec fn cfi_mark() -> Seq<char> {
    "\x1b[35m[CFI]\x1b[0m "@
}

/// The state of the overlay between two machine instructions.
pub struct OverlayState {
    /// The tracked rule.
    pub rule: CfaState,
    /// The location that the call-frame instructions have reached.
    pub loc: u64,
    /// The number of the FDE's instructions that were replayed.
    pub index: int,
}

/// The location that an advance by `delta` reaches from `loc`: their sum,
/// or the last address where the sum lies beyond it.
pub open spec fn advanced(loc: u64, delta: u32) -> u64 {
    if loc + delta <= u64::MAX {
        (loc + delta) as u64
    } else {
        u64::MAX
    }
}

/// The effect of one call-frame instruction on the overlay: padding does
/// nothing, an advance moves the location, any other changes the rule and is
/// annotated.
pub open spec fn overlaid(rule: CfaState, loc: u64, instr: CfiInstruction) -> (
    CfaState,
    u64,
    Seq<char>,
) {
    match instr {
        CfiInstruction::Nop => (rule, loc, Seq::<char>::empty()),
        CfiInstruction::AdvanceLoc { delta } => (rule, advanced(loc, delta), Seq::<char>::empty()),
        _ => (rule.step(instr).unwrap(), loc, cfi_mark() + line_of(rule, instr) + "\n"@),
    }
}

/// The effect of a whole sequence of call-frame instructions, replayed in
/// full.
pub open spec fn overlaid_all(rule: CfaState, loc: u64, instrs: Seq<CfiInstruction>) -> (
    CfaState,
    u64,
    Seq<char>,
)
    decreases instrs.len(),
{
    if instrs.len() == 0 {
        (rule, loc, Seq::<char>::empty())
    } else {
        let before = overlaid_all(rule, loc, instrs.drop_last());
        let after = overlaid(before.0, before.1, instrs.last());
        (after.0, after.1, before.2 + after.2)
    }
}

/// The merge at one machine instruction: from `index` on, the instructions
/// are replayed, advances like any other, as long as the location reached
/// does not exceed `ip`. The result is the state where the location has
/// passed `ip`, or at the end, and the annotations on the way.
pub open spec fn merged(
    rule: CfaState,
    loc: u64,
    instrs: Seq<CfiInstruction>,
    index: int,
    ip: u64,
) -> (OverlayState, Seq<char>)
    decreases instrs.len() - index,
{
    if index < 0 || index >= instrs.len() || loc > ip {
        (OverlayState { rule, loc, index }, Seq::<char>::empty())
    } else {
        let now = overlaid(rule, loc, instrs[index]);
        let rest = merged(now.0, now.1, instrs, index + 1, ip);
        (rest.0, now.2 + rest.1)
    }
}

/// What the overlay does at the machine instruction at `ip`: before the
/// first machine instruction the CIE's instructions are replayed in full;
/// then the FDE's instructions are merged. The result is the cursor
/// afterwards and the annotations.
pub open spec fn brought_to(
    state: OverlayState,
    shown: bool,
    cie: Seq<CfiInstruction>,
    instrs: Seq<CfiInstruction>,
    ip: u64,
) -> (OverlayState, Seq<char>) {
    if shown {
        merged(state.rule, state.loc, instrs, state.index, ip)
    } else {
        let first = overlaid_all(state.rule, state.loc, cie);
        let then = merged(first.0, first.1, instrs, state.index, ip);
        (then.0, first.2 + then.1)
    }
}

/// The annotations that stand before each machine instruction in turn: the
/// overlay is brought to the first, then from there to the second, and so
/// on.
pub open spec fn notes_from(
    state: OverlayState,
    shown: bool,
    cie: Seq<CfiInstruction>,
    instrs: Seq<CfiInstruction>,
    spans: Seq<Span>,
) -> Seq<Seq<char>>
    decreases spans.len(),
{
    if spans.len() == 0 {
        Seq::<Seq<char>>::empty()
    } else {
        let now = brought_to(state, shown, cie, instrs, spans[0].ip);
        seq![now.1] + notes_from(now.0, true, cie, instrs, spans.drop_first())
    }
}

/// There is one annotation, possibly empty, for each machine instruction.
pub proof fn lemma_one_note_each(
    state: OverlayState,
    shown: bool,
    cie: Seq<CfiInstruction>,
    instrs: Seq<CfiInstruction>,
    spans: Seq<Span>,
)
    ensures
        notes_from(state, shown, cie, instrs, spans).len() == spans.len(),
    decreases spans.len(),
{
    if spans.len() > 0 {
        let now = brought_to(state, shown, cie, instrs, spans[0].ip);
        lemma_one_note_each(now.0, true, cie, instrs, spans.drop_first());
    }
}

/// The overlay of one function: the FDE that covers it, the tracked rule,
/// and how far its instructions were replayed.
pub struct EhFnCtx<'a> {
    pub fde: Fde<'a>,
    pub instr_ctx: EhInstrContext,
    /// The location that the call-frame instructions have reached.
    pub curr_loc: u64,
    /// Whether the CIE's instructions were replayed.
    pub cie_shown: bool,
    /// The number of the FDE's instructions that were replayed.
    pub instr_index: usize,
}

impl<'a> EhFnCtx<'a> {
    /// The state of the merge.
    pub open spec fn state(&self) -> OverlayState {
        OverlayState { rule: self.instr_ctx@, loc: self.curr_loc, index: self.instr_index as int }
    }

    /// Applies one call-frame instruction: padding does nothing, an advance
    /// moves the location, any other changes the rule and is annotated.
    pub fn print_instr(&mut self, instr: &CfiInstruction) -> (text: String)
        ensures
            final(self).fde == old(self).fde,
            final(self).cie_shown == old(self).cie_shown,
            final(self).instr_index == old(self).instr_index,
            overlaid(old(self).instr_ctx@, old(self).curr_loc, *instr) == (
                final(self).instr_ctx@,
                final(self).curr_loc,
                text@,
            ),
            final(self).curr_loc >= old(self).curr_loc,
    {
        match instr {
            CfiInstruction::Nop => String::new(),
            CfiInstruction::AdvanceLoc { delta } => {
                if *delta as u64 > u64::MAX - self.curr_loc {
                    self.curr_loc = u64::MAX;
                } else {
                    self.curr_loc = self.curr_loc + *delta as u64;
                }
                String::new()
            },
            _ => {
                let ghost before = self.instr_ctx@;
                let mut text = String::new();
                match self.instr_ctx.print(instr) {
                    Ok(line) => {
                        text.append("\x1b[35m[CFI]\x1b[0m ");
                        text.append(line.as_str());
                        text.append("\n");
                        assert(text@ =~= cfi_mark() + line_of(before, *instr) + "\n"@);
                    },
                    Err(_) => {},
                }
                text
            },
        }
    }

    /// Finds the FDE that covers `ip`. The overlay starts with a fresh rule
    /// at the FDE's first address, with nothing replayed.
    pub fn new(entries: &'a Vec<RawEntry>, sp: SizePrint, ip: u64) -> (res: Result<
        EhFnCtx<'a>,
        FrameError,
    >)
        ensures
            match res {
                Ok(ctx) => {
                    &&& fde_search::<'a>(entries@, ip) == Ok::<Fde<'a>, FrameError>(ctx.fde)
                    &&& range_contains(ctx.fde.initial_address, ctx.fde.length, ip)
                    &&& ctx.instr_ctx@ == start_state(
                        ctx.fde.initial_address,
                        ctx.fde.cie.data_align,
                        sp,
                    )
                    &&& ctx.curr_loc == ctx.fde.initial_address
                    &&& !ctx.cie_shown
                    &&& ctx.instr_index == 0
                },
                Err(e) => fde_search::<'a>(entries@, ip) == Err::<Fde<'a>, FrameError>(e),
            },
    {
        let fde = match fde_for_address(entries, ip) {
            Ok(fde) => fde,
            Err(e) => {
                return Err(e);
            },
        };
        let mut instr_ctx = EhInstrContext::new(sp);
        instr_ctx.reset(fde.initial_address, fde.cie.data_align);
        Ok(
            EhFnCtx {
                fde,
                instr_ctx,
                curr_loc: fde.initial_address,
                cie_shown: false,
                instr_index: 0,
            },
        )
    }

    /// Replays the CIE's instructions in full and hands out their
    /// annotations.
    pub fn show_cie(&mut self) -> (text: String)
        ensures
            final(self).fde == old(self).fde,
            final(self).instr_index == old(self).instr_index,
            final(self).cie_shown,
            overlaid_all(old(self).instr_ctx@, old(self).curr_loc, old(self).fde.cie.instructions@)
                == (final(self).instr_ctx@, final(self).curr_loc, text@),
            final(self).curr_loc >= old(self).curr_loc,
    {
        let instrs: &'a Vec<CfiInstruction> = &self.fde.cie.instructions;
        let mut text = String::new();
        let mut i: usize = 0;
        assert(instrs@.take(0) =~= Seq::<CfiInstruction>::empty());
        while i < instrs.len()
            invariant
                i <= instrs.len(),
                self.fde == old(self).fde,
                self.instr_index == old(self).instr_index,
                self.cie_shown == old(self).cie_shown,
                self.curr_loc >= old(self).curr_loc,
                instrs == &old(self).fde.cie.instructions,
                overlaid_all(old(self).instr_ctx@, old(self).curr_loc, instrs@.take(i as int)) == (
                    self.instr_ctx@,
                    self.curr_loc,
                    text@,
                ),
            decreases instrs.len() - i,
        {
            assert(instrs@.take(i + 1).drop_last() =~= instrs@.take(i as int));
            assert(instrs@.take(i + 1).last() == instrs@[i as int]);
            let note = self.print_instr(&instrs[i]);
            text.append(note.as_str());
            i += 1;
        }
        assert(instrs@.take(i as int) =~= instrs@);
        self.cie_shown = true;
        text
    }

    /// Replays the FDE's instructions from the cursor on, advances like any
    /// other, while the location reached does not exceed `ip`, and hands
    /// out their annotations. On return the instructions are at their end
    /// or the location lies beyond `ip`.
    pub fn merge(&mut self, ip: u64) -> (text: String)
        ensures
            final(self).fde == old(self).fde,
            final(self).cie_shown == old(self).cie_shown,
            (final(self).state(), text@) == merged(
                old(self).instr_ctx@,
                old(self).curr_loc,
                old(self).fde.instructions@,
                old(self).instr_index as int,
                ip,
            ),
            final(self).instr_index >= old(self).instr_index,
            final(self).curr_loc >= old(self).curr_loc,
            final(self).instr_index >= final(self).fde.instructions@.len() || final(self).curr_loc
                > ip,
    {
        let mut text = String::new();
        let ghost goal = merged(
            old(self).instr_ctx@,
            old(self).curr_loc,
            old(self).fde.instructions@,
            old(self).instr_index as int,
            ip,
        );
        let instrs: &'a Vec<CfiInstruction> = self.fde.instructions;
        assert(text@ + goal.1 =~= goal.1);
        while self.instr_index < instrs.len() && self.curr_loc <= ip
            invariant
                self.fde == old(self).fde,
                self.cie_shown == old(self).cie_shown,
                instrs == self.fde.instructions,
                self.instr_index >= old(self).instr_index,
                self.curr_loc >= old(self).curr_loc,
                goal.0 == merged(
                    self.instr_ctx@,
                    self.curr_loc,
                    instrs@,
                    self.instr_index as int,
                    ip,
                ).0,
                goal.1 == text@ + merged(
                    self.instr_ctx@,
                    self.curr_loc,
                    instrs@,
                    self.instr_index as int,
                    ip,
                ).1,
            decreases instrs@.len() - self.instr_index,
        {
            let ghost before = text@;
            let ghost rest = merged(
                self.instr_ctx@,
                self.curr_loc,
                instrs@,
                self.instr_index as int,
                ip,
            );
            let note = self.print_instr(&instrs[self.instr_index]);
            text.append(note.as_str());
            proof {
                let next = merged(
                    self.instr_ctx@,
                    self.curr_loc,
                    instrs@,
                    self.instr_index + 1,
                    ip,
                );
                assert(rest.1 == note@ + next.1);
                assert(goal.1 =~= (before + note@) + next.1);
            }
            self.instr_index += 1;
        }
        assert(text@ + Seq::<char>::empty() =~= text@);
        text
    }

    /// Brings the overlay up to the machine instruction at `ip` and hands
    /// out the annotations that stand before it: before the first machine
    /// instruction the CIE's instructions are replayed in full; then the
    /// FDE's instructions are replayed from the cursor on while the
    /// location reached does not exceed `ip`. The cursor and the location
    /// never move backward; on return the instructions are at their end or
    /// the location lies beyond `ip`.
    pub fn at_ip(&mut self, ip: u64) -> (text: String)
        ensures
            final(self).fde == old(self).fde,
            final(self).cie_shown,
            (final(self).state(), text@) == brought_to(
                old(self).state(),
                old(self).cie_shown,
                old(self).fde.cie.instructions@,
                old(self).fde.instructions@,
                ip,
            ),
            final(self).instr_index >= old(self).instr_index,
            final(self).curr_loc >= old(self).curr_loc,
            final(self).instr_index >= final(self).fde.instructions@.len() || final(self).curr_loc
                > ip,
    {
        let mut text = String::new();
        if !self.cie_shown {
            text = self.show_cie();
        }
        let notes = self.merge(ip);
        text.append(notes.as_str());
        assert(old(self).cie_shown ==> text@ =~= notes@);
        text
    }

    /// Brings the overlay up to each machine instruction in turn and hands
    /// out the annotations that stand before each.
    pub fn annotate(&mut self, spans: &Vec<Span>) -> (notes: Vec<String>)
        ensures
            final(self).fde == old(self).fde,
            notes.len() == spans.len(),
            forall|i: int|
                0 <= i < spans.len() ==> (#[trigger] notes[i])@ == notes_from(
                    old(self).state(),
                    old(self).cie_shown,
                    old(self).fde.cie.instructions@,
                    old(self).fde.instructions@,
                    spans@,
                )[i],
    {
        let ghost cie = old(self).fde.cie.instructions@;
        let ghost instrs = old(self).fde.instructions@;
        let ghost goal = notes_from(old(self).state(), old(self).cie_shown, cie, instrs, spans@);
        let ghost mut done = Seq::<Seq<char>>::empty();
        proof {
            lemma_one_note_each(old(self).state(), old(self).cie_shown, cie, instrs, spans@);
        }
        let mut notes: Vec<String> = Vec::new();
        let mut i: usize = 0;
        assert(spans@.skip(0) =~= spans@);
        assert(done + goal =~= goal);
        while i < spans.len()
            invariant
                i <= spans.len(),
                self.fde == old(self).fde,
                cie == old(self).fde.cie.instructions@,
                instrs == old(self).fde.instructions@,
                i > 0 ==> self.cie_shown,
                i == 0 ==> self.cie_shown == old(self).cie_shown,
                notes.len() == i,
                done.len() == i,
                goal == done + notes_from(
                    self.state(),
                    self.cie_shown,
                    cie,
                    instrs,
                    spans@.skip(i as int),
                ),
                goal.len() == spans.len(),
                forall|j: int| 0 <= j < i ==> (#[trigger] notes[j])@ == done[j],
            decreases spans.len() - i,
        {
            let ghost rest = spans@.skip(i as int);
            let ghost now = brought_to(
                self.state(),
                self.cie_shown,
                cie,
                instrs,
                spans@[i as int].ip,
            );
            assert(rest[0] == spans@[i as int]);
            assert(rest.drop_first() =~= spans@.skip(i + 1));
            let note = self.at_ip(spans[i].ip);
            proof {
                let after = notes_from(self.state(), true, cie, instrs, spans@.skip(i + 1));
                assert(goal =~= done.push(now.1) + after);
                done = done.push(now.1);
            }
            notes.push(note);
            i += 1;
        }
        proof {
            assert(spans@.skip(i as int) =~= Seq::<Span>::empty());
            assert(goal =~= done);
        }
        notes
    }
}

/// No instruction moves the overlay's location backward.
pub proof fn lemma_overlay_moves_forward(rule: CfaState, loc: u64, instr: CfiInstruction)
    ensures
        overlaid(rule, loc, instr).1 >= loc,
{
}

/// The merge never rewinds: the cursor and the location only move forward.
/// It ends at the end of the instructions, or where the location has passed
/// `ip`.
pub proof fn lemma_merge_moves_forward(
    rule: CfaState,
    loc: u64,
    instrs: Seq<CfiInstruction>,
    index: int,
    ip: u64,
)
    requires
        0 <= index <= instrs.len(),
    ensures
        ({
            let end = merged(rule, loc, instrs, index, ip).0;
            &&& index <= end.index <= instrs.len()
            &&& loc <= end.loc
            &&& end.index == instrs.len() || end.loc > ip
            &&& end.index == index ==> end.loc == loc && end.rule == rule
        }),
    decreases instrs.len() - index,
{
    if index < instrs.len() && loc <= ip {
        let now = overlaid(rule, loc, instrs[index]);
        lemma_merge_moves_forward(now.0, now.1, instrs, index + 1, ip);
    }
}

/// Merging twice at one address is merging once: the second merge replays
/// nothing and annotates nothing.
pub proof fn lemma_merge_is_settled(
    rule: CfaState,
    loc: u64,
    instrs: Seq<CfiInstruction>,
    index: int,
    ip: u64,
)
    requires
        0 <= index <= instrs.len(),
    ensures
        ({
            let end = merged(rule, loc, instrs, index, ip).0;
            merged(end.rule, end.loc, instrs, end.index, ip) == (end, Seq::<char>::empty())
        }),
{
    lemma_merge_moves_forward(rule, loc, instrs, index, ip);
}

/// Nothing is annotated before its address: where the location reached lies
/// beyond `ip`, the merge replays and annotates nothing.
pub proof fn lemma_nothing_is_annotated_early(
    rule: CfaState,
    loc: u64,
    instrs: Seq<CfiInstruction>,
    index: int,
    ip: u64,
)
    requires
        0 <= index <= instrs.len(),
        loc > ip,
    ensures
        merged(rule, loc, instrs, index, ip) == (
            OverlayState { rule, loc, index },
            Seq::<char>::empty(),
        ),
{
}

/// An advance at the cursor is replayed at once where the location reached
/// does not exceed `ip`, so that what follows it is annotated only at a
/// machine instruction at or beyond the location that it moves to.
pub proof fn lemma_advance_is_taken_at_once(
    rule: CfaState,
    loc: u64,
    instrs: Seq<CfiInstruction>,
    index: int,
    ip: u64,
)
    requires
        0 <= index < instrs.len(),
        instrs[index] is AdvanceLoc,
        loc <= ip,
    ensures
        merged(rule, loc, instrs, index, ip) == merged(
            rule,
            advanced(loc, instrs[index]->AdvanceLoc_delta),
            instrs,
            index + 1,
            ip,
        ),
{
    let now = overlaid(rule, loc, instrs[index]);
    let rest = merged(now.0, now.1, instrs, index + 1, ip);
    assert(now.2 + rest.1 =~= rest.1);
}

/// The length in bytes of the x86 instruction at the front of `code`, as
/// `iced_x86`'s decoder finds it in the given mode at address `ip`.
pub uninterp spec fn x86_instruction_len(bitness: u32, code: Seq<u8>, ip: u64) -> nat;

/// `iced_x86::Decoder::with_ip`, `Decoder::decode` and `Instruction::len`:
/// the length of the first instruction of `code`. The decoder refuses any
/// mode but 16, 32 and 64 bits.
#[verifier::external_body]
fn instruction_len(bitness: u32, code: &[u8], ip: u64) -> (len: usize)
    requires
        bitness == 16 || bitness == 32 || bitness == 64,
    ensures
        len == x86_instruction_len(bitness, code@, ip),
{
    iced_x86::Decoder::with_ip(bitness, code, ip, iced_x86::DecoderOptions::NONE).decode().len()
}

/// Where one machine instruction lies: its offset in the function's bytes,
/// its length and its address.
#[derive(Clone, Copy, Debug, PartialEq, Eq, Structural)]
pub struct Span {
    pub offset: usize,
    pub len: usize,
    pub ip: u64,
}

/// The machine instructions from offset `off` on, one after the other. The
/// sequence ends at the end of the bytes, or where the decoder makes no
/// progress, or where an address leaves the address space.
pub open spec fn spans_from(bitness: u32, content: Seq<u8>, ip: u64, off: int) -> Seq<Span>
    decreases content.len() - off,
{
    if off < 0 || off >= content.len() || ip + off > u64::MAX {
        Seq::<Span>::empty()
    } else {
        let len = x86_instruction_len(
            bitness,
            content.subrange(off, content.len() as int),
            (ip + off) as u64,
        );
        if len == 0 || off + len > content.len() {
            Seq::<Span>::empty()
        } else {
            seq![Span { offset: off as usize, len: len as usize, ip: (ip + off) as u64 }]
                + spans_from(bitness, content, ip, off + len)
        }
    }
}

/// Every span lies within the bytes and is not empty.
pub proof fn lemma_spans_lie_within(bitness: u32, content: Seq<u8>, ip: u64, off: int)
    requires
        0 <= off,
        content.len() <= usize::MAX,
    ensures
        forall|i: int|
            0 <= i < spans_from(bitness, content, ip, off).len() ==> {
                let span = #[trigger] spans_from(bitness, content, ip, off)[i];
                &&& off <= span.offset
                &&& span.len > 0
                &&& span.offset + span.len <= content.len()
                &&& span.ip == ip + span.offset
            },
    decreases content.len() - off,
{
    if off < content.len() && ip + off <= u64::MAX {
        let len = x86_instruction_len(
            bitness,
            content.subrange(off, content.len() as int),
            (ip + off) as u64,
        );
        if !(len == 0 || off + len > content.len()) {
            lemma_spans_lie_within(bitness, content, ip, off + len);
            let rest = spans_from(bitness, content, ip, off + len);
            let all = spans_from(bitness, content, ip, off);
            assert forall|i: int| 0 <= i < all.len() implies {
                let span = #[trigger] all[i];
                &&& off <= span.offset
                &&& span.len > 0
                &&& span.offset + span.len <= content.len()
                &&& span.ip == ip + span.offset
            } by {
                if i > 0 {
                    assert(all[i] == rest[i - 1]);
                }
            }
        }
    }
}

/// Each span begins where the one before it ends, and the first begins at
/// `off`.
pub proof fn lemma_spans_follow_one_another(bitness: u32, content: Seq<u8>, ip: u64, off: int)
    requires
        0 <= off,
        content.len() <= usize::MAX,
    ensures
        spans_from(bitness, content, ip, off).len() > 0 ==> spans_from(
            bitness,
            content,
            ip,
            off,
        )[0].offset == off,
        forall|i: int|
            0 < i < spans_from(bitness, content, ip, off).len() ==> (#[trigger] spans_from(
                bitness,
                content,
                ip,
                off,
            )[i]).offset == spans_from(bitness, content, ip, off)[i - 1].offset + spans_from(
                bitness,
                content,
                ip,
                off,
            )[i - 1].len,
    decreases content.len() - off,
{
    if off < content.len() && ip + off <= u64::MAX {
        let len = x86_instruction_len(
            bitness,
            content.subrange(off, content.len() as int),
            (ip + off) as u64,
        );
        if !(len == 0 || off + len > content.len()) {
            lemma_spans_follow_one_another(bitness, content, ip, off + len);
            let rest = spans_from(bitness, content, ip, off + len);
            let all = spans_from(bitness, content, ip, off);
            assert(all[0].offset == off && all[0].len == len);
            assert forall|i: int| 0 < i < all.len() implies (#[trigger] all[i]).offset == all[i
                - 1].offset + all[i - 1].len by {
                assert(all[i] == rest[i - 1]);
                if i > 1 {
                    assert(all[i - 1] == rest[i - 2]);
                }
            }
        }
    }
}

/// Decodes the machine instructions of a function one after the other and
/// tells where each lies.
pub fn instruction_spans(bitness: u32, content: &[u8], ip: u64) -> (spans: Vec<Span>)
    requires
        bitness == 16 || bitness == 32 || bitness == 64,
    ensures
        spans@ == spans_from(bitness, content@, ip, 0),
{
    let mut spans: Vec<Span> = Vec::new();
    let mut off: usize = 0;
    assert(spans@ + spans_from(bitness, content@, ip, 0) =~= spans_from(bitness, content@, ip, 0));
    while off < content.len()
        invariant
            off <= content@.len(),
            bitness == 16 || bitness == 32 || bitness == 64,
            spans_from(bitness, content@, ip, 0) == spans@ + spans_from(
                bitness,
                content@,
                ip,
                off as int,
            ),
        ensures
            spans_from(bitness, content@, ip, 0) == spans@,
        decreases content@.len() - off,
    {
        if off as u64 > u64::MAX - ip {
            assert(spans@ + Seq::<Span>::empty() =~= spans@);
            break ;
        }
        let at = ip + off as u64;
        let len = instruction_len(bitness, &content[off..content.len()], at);
        if len == 0 || len > content.len() - off {
            assert(spans@ + Seq::<Span>::empty() =~= spans@);
            break ;
        }
        proof {
            let rest = spans_from(bitness, content@, ip, off + len);
            assert(spans@.push(Span { offset: off, len, ip: at }) + rest =~= spans@ + (seq![
                Span { offset: off, len, ip: at },
            ] + rest));
        }
        spans.push(Span { offset: off, len, ip: at });
        off += len;
    }
    assert(spans@ + Seq::<Span>::empty() =~= spans@);
    spans
}

/// Bytes as two hexadecimal digits each, every one followed by `gap`.
pub open spec fn hex_run(bytes: Seq<u8>, gap: Seq<char>) -> Seq<char>
    decreases bytes.len(),
{
    if bytes.len() == 0 {
        Seq::<char>::empty()
    } else {
        hex_run(bytes.drop_last(), gap) + pad_left(hex(bytes.last() as nat), 2, '0') + gap
    }
}

/// The column of an instruction's bytes: each byte in hexadecimal, apart by
/// a blank unless there are more than twelve, and blanks up to 24 columns.
pub open spec fn byte_column(bytes: Seq<u8>) -> Seq<char> {
    if bytes.len() > 12 {
        hex_run(bytes, Seq::<char>::empty())
    } else {
        hex_run(bytes, " "@) + repeat(
            ' ',
            if 3 * bytes.len() <= 24 {
                (24 - 3 * bytes.len()) as nat
            } else {
                0
            },
        )
    }
}

/// What stands on an instruction's line before the instruction itself: its
/// address and its bytes.
pub open spec fn line_prefix(sp: SizePrint, bytes: Seq<u8>, ip: u64) -> Seq<char> {
    sp.hex_text(ip) + " \x1b[97m\u{2502}\x1b[0m  "@ + byte_column(bytes)
        + " \x1b[97m\u{2502}\x1b[0m  "@
}

/// Renders the column of an instruction's bytes.
pub fn render_byte_column(bytes: &[u8]) -> (s: String)
    ensures
        s@ == byte_column(bytes@),
{
    let packed = bytes.len() > 12;
    let ghost gap = if packed {
        Seq::<char>::empty()
    } else {
        " "@
    };
    let mut s = String::new();
    let mut i: usize = 0;
    assert(bytes@.take(0) =~= Seq::<u8>::empty());
    while i < bytes.len()
        invariant
            i <= bytes.len(),
            packed == (bytes@.len() > 12),
            gap == (if packed {
                Seq::<char>::empty()
            } else {
                " "@
            }),
            s@ == hex_run(bytes@.take(i as int), gap),
        decreases bytes.len() - i,
    {
        let ghost before = s@;
        push_hex_padded(&mut s, bytes[i] as u64, 2);
        if !packed {
            s.append(" ");
        }
        i += 1;
        proof {
            let now = bytes@.take(i as int);
            assert(now.drop_last() =~= bytes@.take(i - 1));
            assert(now.last() == bytes@[i - 1]);
            assert(s@ =~= before + pad_left(hex(bytes@[i - 1] as nat), 2, '0') + gap);
        }
    }
    assert(bytes@.take(i as int) =~= bytes@);
    if !packed && bytes.len() <= 8 {
        push_repeat(&mut s, ' ', 24 - 3 * bytes.len());
    }
    assert(repeat(' ', 0) =~= Seq::<char>::empty());
    assert(s@ =~= byte_column(bytes@));
    s
}

/// Renders what stands on an instruction's line before the instruction.
pub fn render_line_prefix(sp: SizePrint, bytes: &[u8], ip: u64) -> (s: String)
    ensures
        s@ == line_prefix(sp, bytes@, ip),
{
    let mut s = sp.hex(ip).to_text();
    s.append(" \x1b[97m\u{2502}\x1b[0m  ");
    s.append(render_byte_column(bytes).as_str());
    s.append(" \x1b[97m\u{2502}\x1b[0m  ");
    assert(s@ =~= line_prefix(sp, bytes@, ip));
    s
}

/// How to disassemble.
#[derive(Clone, Copy, Debug)]
pub struct DisassOptions {
    pub syntax: Syntax,
    /// Lay the call-frame information over the disassembly.
    pub cfi: bool,
}

impl Default for DisassOptions {
    fn default() -> (opts: Self)
        ensures
            opts.syntax == Syntax::Att,
            !opts.cfi,
    {
        DisassOptions { syntax: Syntax::Att, cfi: false }
    }
}

/// One line of a disassembly, up to the instruction itself.
#[derive(Clone, Debug)]
pub struct DisasmLine {
    /// The annotations that stand before the line.
    pub cfi: String,
    /// Where the instruction lies.
    pub span: Span,
    /// The address and the bytes of the instruction.
    pub prefix: String,
}

/// A disassembly: its lines, and why there is no overlay where one was asked
/// for and could not be had.
#[derive(Clone, Debug)]
pub struct Disassembly {
    pub lines: Vec<DisasmLine>,
    pub unwind: Option<FrameError>,
}

/// The decoder's mode for a word size.
pub open spec fn bitness_of(size: Container) -> u32 {
    match size {
        Container::Big => 64,
        Container::Little => 32,
    }
}

/// Where the overlay of an FDE starts: a fresh rule at the FDE's first
/// address, nothing replayed.
pub open spec fn overlay_start(fde: Fde, sp: SizePrint) -> OverlayState {
    OverlayState {
        rule: start_state(fde.initial_address, fde.cie.data_align, sp),
        loc: fde.initial_address,
        index: 0,
    }
}

/// The annotations before each machine instruction: those of the overlay
/// of the FDE that covers `ip`, where an overlay is asked for and the FDE is
/// found; else none.
pub open spec fn annotations(
    entries: Seq<RawEntry>,
    sp: SizePrint,
    ip: u64,
    cfi: bool,
    spans: Seq<Span>,
) -> Seq<Seq<char>> {
    if cfi && fde_search(entries, ip) is Ok {
        let fde = fde_search(entries, ip)->Ok_0;
        notes_from(
            overlay_start(fde, sp),
            false,
            fde.cie.instructions@,
            fde.instructions@,
            spans,
        )
    } else {
        Seq::new(spans.len(), |i: int| Seq::<char>::empty())
    }
}

/// Why an overlay that was asked for cannot be had.
pub open spec fn unwind_failure(entries: Seq<RawEntry>, ip: u64, cfi: bool) -> Option<FrameError> {
    if cfi {
        match fde_search(entries, ip) {
            Err(e) => Some(e),
            Ok(_) => None,
        }
    } else {
        None
    }
}

/// `d` is the disassembly of the function whose bytes are `content` and
/// whose first address is `ip`: one line for each machine instruction, each
/// with its span, its address and bytes, and the annotations before it.
pub open spec fn disassembled(
    d: Disassembly,
    size: Container,
    entries: Seq<RawEntry>,
    ip: u64,
    content: Seq<u8>,
    cfi: bool,
) -> bool {
    let sp = SizePrint { size };
    let spans = spans_from(bitness_of(size), content, ip, 0);
    &&& d.lines.len() == spans.len()
    &&& d.unwind == unwind_failure(entries, ip, cfi)
    &&& forall|i: int|
        0 <= i < spans.len() ==> {
            let line = #[trigger] d.lines[i];
            &&& line.span == spans[i]
            &&& line.prefix@ == line_prefix(
                sp,
                content.subrange(spans[i].offset as int, spans[i].offset + spans[i].len),
                spans[i].ip,
            )
            &&& line.cfi@ == annotations(entries, sp, ip, cfi, spans)[i]
        }
}

/// As many empty annotations as there are machine instructions.
pub fn blank_notes(count: usize) -> (notes: Vec<String>)
    ensures
        notes.len() == count,
        forall|i: int| 0 <= i < count ==> (#[trigger] notes[i])@ == Seq::<char>::empty(),
{
    let mut notes: Vec<String> = Vec::new();
    let mut i: usize = 0;
    while i < count
        invariant
            i <= count,
            notes.len() == i,
            forall|j: int| 0 <= j < i ==> (#[trigger] notes[j])@ == Seq::<char>::empty(),
        decreases count - i,
    {
        notes.push(String::new());
        i += 1;
    }
    notes
}

/// Disassembles a function: decodes its machine instructions one after the
/// other and, where `opts` asks for it, lays the call-frame information of
/// `entries` over them. Where no overlay can be had, the disassembly goes
/// on without one and says why.
pub fn disassemble(
    elf: &Elf,
    entries: &Vec<RawEntry>,
    ip: u64,
    content: &[u8],
    opts: DisassOptions,
) -> (d: Disassembly)
    ensures
        disassembled(d, elf.header.shown_container(), entries@, ip, content@, opts.cfi),
{
    let size = elf.header.display_container();
    let sp = SizePrint::new(size);
    let bitness: u32 = match size {
        Container::Big => 64,
        Container::Little => 32,
    };
    let spans = instruction_spans(bitness, content, ip);
    let total = content.len();
    proof {
        lemma_spans_lie_within(bitness, content@, ip, 0);
    }
    let mut unwind: Option<FrameError> = None;
    let notes: Vec<String> = if opts.cfi {
        match EhFnCtx::new(entries, sp, ip) {
            Ok(ctx) => {
                let mut ctx = ctx;
                ctx.annotate(&spans)
            },
            Err(e) => {
                unwind = Some(e);
                blank_notes(spans.len())
            },
        }
    } else {
        blank_notes(spans.len())
    };
    let ghost wanted = annotations(entries@, sp, ip, opts.cfi, spans@);
    proof {
        if opts.cfi && fde_search(entries@, ip) is Ok {
            let fde = fde_search(entries@, ip)->Ok_0;
            lemma_one_note_each(
                overlay_start(fde, sp),
                false,
                fde.cie.instructions@,
                fde.instructions@,
                spans@,
            );
        }
        assert(wanted.len() == spans.len());
    }
    assert(forall|i: int| 0 <= i < spans.len() ==> (#[trigger] notes[i])@ == wanted[i]);
    let mut lines: Vec<DisasmLine> = Vec::new();
    let mut i: usize = 0;
    while i < spans.len()
        invariant
            i <= spans.len(),
            lines.len() == i,
            notes.len() == spans.len(),
            wanted.len() == spans.len(),
            total == content@.len(),
            spans@ == spans_from(bitness, content@, ip, 0),
            forall|j: int|
                0 <= j < spans.len() ==> {
                    let span = #[trigger] spans@[j];
                    span.len > 0 && span.offset + span.len <= content@.len()
                },
            forall|j: int| 0 <= j < spans.len() ==> (#[trigger] notes[j])@ == wanted[j],
            forall|j: int|
                0 <= j < i ==> {
                    let line = #[trigger] lines[j];
                    &&& line.span == spans@[j]
                    &&& line.prefix@ == line_prefix(
                        sp,
                        content@.subrange(spans@[j].offset as int, spans@[j].offset + spans@[j].len),
                        spans@[j].ip,
                    )
                    &&& line.cfi@ == wanted[j]
                },
        decreases spans.len() - i,
    {
        let span = spans[i];
        let prefix = render_line_prefix(
            sp,
            &content[span.offset..span.offset + span.len],
            span.ip,
        );
        lines.push(DisasmLine { cfi: notes[i].clone(), span, prefix });
        i += 1;
    }
    Disassembly { lines, unwind }
}

/// Why a function cannot be shown.
#[derive(Clone, Copy, Debug, PartialEq, Eq, Structural)]
pub enum FnError {
    /// The name was to be an address and is no hexadecimal number.
    BadAddress,
    /// No symbol goes by the name or covers the address.
    SymbolNotFound,
    /// The symbol that covers the address has no name.
    UnnamedSymbol,
    /// No segment of the file holds the symbol's address.
    NoFileOffset,
}

/// The view of one function.
#[derive(Clone, Debug)]
pub struct FnView {
    /// Warnings about the symbol, one per line.
    pub warnings: String,
    /// The line that names the function.
    pub title: String,
    /// Where the function's bytes begin in the file.
    pub start: usize,
    /// How many of the function's bytes the file holds.
    pub len: usize,
    pub disassembly: Disassembly,
}

/// The symbol that `args` ask for: the one that covers the address, where
/// the name is to be an address; else the one that goes by the name.
pub open spec fn fn_symbol(elf: &Elf, args: &FnArgs) -> Result<Sym, FnError> {
    if args.address {
        match hex_number(args.name@) {
            None => Err(FnError::BadAddress),
            Some(addr) => match symbol_covering(elf.syms@, addr) {
                None => Err(FnError::SymbolNotFound),
                Some(sym) => Ok(sym),
            },
        }
    } else {
        match symbol_in_image(elf, args.name@) {
            None => Err(FnError::SymbolNotFound),
            Some(sym) => Ok(sym),
        }
    }
}

/// The symbol that `args` ask for and the offset in the file of the symbol
/// that goes by its name.
pub open spec fn fn_target(elf: &Elf, args: &FnArgs) -> Result<(Sym, u64), FnError> {
    match fn_symbol(elf, args) {
        Err(e) => Err(e),
        Ok(sym) => match sym.name {
            None => Err(FnError::UnnamedSymbol),
            Some(name) => match file_offset_of(elf, name@) {
                None => Err(FnError::NoFileOffset),
                Some(off) => Ok((sym, off)),
            },
        },
    }
}

/// Where the bytes to show begin in a file of `available` bytes.
pub open spec fn shown_start(file_off: u64, available: nat) -> nat {
    if file_off <= available {
        file_off as nat
    } else {
        available
    }
}

/// How many bytes to show: the symbol's size, or what the file holds of it.
pub open spec fn shown_len(file_off: u64, size: u64, available: nat) -> nat {
    let room = (available - shown_start(file_off, available)) as nat;
    if size <= room {
        size as nat
    } else {
        room
    }
}

/// What begins each warning.
pub open spec fn warning_mark() -> Seq<char> {
    "\x1b[93mwarning\x1b[0m: Symbol "@
}

/// The warnings about a symbol: that it is no function; that it has no
/// size, or that the file does not hold all of it.
pub open spec fn fn_warnings(sym: Sym, name: Seq<char>, file_off: u64, available: nat) -> Seq<char> {
    (if sym.kind() != STT_FUNC {
        warning_mark() + quoted(name) + " has type "@ + sym_type_text(sym.kind() as u8) + "\n"@
    } else {
        Seq::<char>::empty()
    }) + (if sym.st_size == 0 {
        warning_mark() + quoted(name) + " has no size\n"@
    } else if file_off + sym.st_size > available {
        warning_mark() + quoted(name) + " reaches past the end of the file\n"@
    } else {
        Seq::<char>::empty()
    })
}

/// The line that names a function.
pub open spec fn fn_title(name: Seq<char>) -> Seq<char> {
    "\x1b[97m"@ + name + ":\x1b[0m\n"@
}

/// Finds the symbol that `args` ask for.
pub fn select_symbol<'a>(elf: &'a Elf, args: &FnArgs) -> (res: Result<&'a Sym, FnError>)
    ensures
        match res {
            Ok(sym) => fn_symbol(elf, args) == Ok::<Sym, FnError>(*sym),
            Err(e) => fn_symbol(elf, args) == Err::<Sym, FnError>(e),
        },
{
    if args.address {
        match parse_hex(args.name.as_str()) {
            None => Err(FnError::BadAddress),
            Some(addr) => match find_symbol_by_addr(&elf.syms, addr) {
                None => Err(FnError::SymbolNotFound),
                Some(sym) => Ok(sym),
            },
        }
    } else {
        match find_any_symbol(elf, args.name.as_str()) {
            None => Err(FnError::SymbolNotFound),
            Some(sym) => Ok(sym),
        }
    }
}

/// Renders the warnings about a symbol.
pub fn render_warnings(sym: &Sym, name: &str, file_off: u64, available: usize) -> (s: String)
    ensures
        s@ == fn_warnings(*sym, name@, file_off, available as nat),
{
    let mut first = String::new();
    if sym.st_type() != STT_FUNC {
        first.append("\x1b[93mwarning\x1b[0m: Symbol ");
        first.append(debug_quoted(name).as_str());
        first.append(" has type ");
        first.append(sym_type(sym.st_type()));
        first.append("\n");
    }
    let mut second = String::new();
    if sym.st_size == 0 {
        second.append("\x1b[93mwarning\x1b[0m: Symbol ");
        second.append(debug_quoted(name).as_str());
        second.append(" has no size\n");
    } else if file_off > available as u64 || sym.st_size > available as u64 - file_off {
        second.append("\x1b[93mwarning\x1b[0m: Symbol ");
        second.append(debug_quoted(name).as_str());
        second.append(" reaches past the end of the file\n");
    }
    assert(first@ =~= (if sym.kind() != STT_FUNC {
        warning_mark() + quoted(name@) + " has type "@ + sym_type_text(sym.kind() as u8) + "\n"@
    } else {
        Seq::<char>::empty()
    }));
    assert(second@ =~= (if sym.st_size == 0 {
        warning_mark() + quoted(name@) + " has no size\n"@
    } else if file_off + sym.st_size > available {
        warning_mark() + quoted(name@) + " reaches past the end of the file\n"@
    } else {
        Seq::<char>::empty()
    }));
    first.append(second.as_str());
    first
}

/// Shows one function: finds the symbol that `args` ask for and its bytes
/// in the file, and disassembles them. A symbol that is no function, has no
/// size or reaches past the end of the file gives a warning, and what the
/// file holds of it is shown.
pub fn do_fn(elf: &Elf, bytes: &[u8], entries: &Vec<RawEntry>, args: &FnArgs) -> (res: Result<
    FnView,
    FnError,
>)
    ensures
        match res {
            Err(e) => fn_target(elf, args) == Err::<(Sym, u64), FnError>(e),
            Ok(view) => fn_target(elf, args) matches Ok(target) && target.0.name matches Some(name)
                && {
                &&& view.start == shown_start(target.1, bytes@.len())
                &&& view.len == shown_len(target.1, target.0.st_size, bytes@.len())
                &&& view.warnings@ == fn_warnings(target.0, name@, target.1, bytes@.len())
                &&& view.title@ == fn_title(name@)
                &&& disassembled(
                    view.disassembly,
                    elf.header.shown_container(),
                    entries@,
                    target.0.st_value,
                    bytes@.subrange(view.start as int, view.start + view.len),
                    args.cfi,
                )
            },
        },
{
    let sym = match select_symbol(elf, args) {
        Ok(sym) => sym,
        Err(e) => {
            return Err(e);
        },
    };
    let name = match &sym.name {
        Some(name) => name.as_str(),
        None => {
            return Err(FnError::UnnamedSymbol);
        },
    };
    let file_off = match symbol_file_offset(elf, name) {
        Some(off) => off,
        None => {
            return Err(FnError::NoFileOffset);
        },
    };
    let available = bytes.len();
    let start: usize = if file_off <= available as u64 {
        file_off as usize
    } else {
        available
    };
    let len: usize = if sym.st_size <= (available - start) as u64 {
        sym.st_size as usize
    } else {
        available - start
    };
    let warnings = render_warnings(sym, name, file_off, available);
    let mut title = String::new();
    title.append("\x1b[97m");
    title.append(name);
    title.append(":\x1b[0m\n");
    assert(title@ =~= fn_title(name@));
    let opts = DisassOptions { cfi: args.cfi, syntax: args.syntax };
    let disassembly = disassemble(elf, entries, sym.st_value, &bytes[start..start + len], opts);
    Ok(FnView { warnings, title, start, len, disassembly })
}

impl FnError {
    /// What went wrong with what `args` asked for, in words.
    pub open spec fn text(self, args: &FnArgs) -> Seq<char> {
        match self {
            FnError::BadAddress => "couldn't parse memory address '"@ + args.name@ + "'"@,
            FnError::SymbolNotFound => "couldn't find any symbol matching "@ + quoted(args.name@),
            FnError::UnnamedSymbol => "the symbol that covers the address has no name"@,
            FnError::NoFileOffset => "couldn't find the file offset"@,
        }
    }

    /// Says in words what went wrong with what `args` asked for.
    pub fn message(&self, args: &FnArgs) -> (s: String)
        ensures
            s@ == self.text(args),
    {
        let mut s = String::new();
        match self {
            FnError::BadAddress => {
                s.append("couldn't parse memory address '");
                s.append(args.name.as_str());
                s.append("'");
            },
            FnError::SymbolNotFound => {
                s.append("couldn't find any symbol matching ");
                s.append(debug_quoted(args.name.as_str()).as_str());
            },
            FnError::UnnamedSymbol => {
                s.append("the symbol that covers the address has no name");
            },
            FnError::NoFileOffset => {
                s.append("couldn't find the file offset");
            },
        }
        assert(s@ =~= self.text(args));
        s
    }
}

/// The warning that a disassembly has no overlay.
pub open spec fn overlay_warning(reason: FrameError) -> Seq<char> {
    "\x1b[93mwarning\x1b[0m: no call-frame information is shown: "@ + reason.text() + "\n"@
}

/// Renders the warning that a disassembly has no overlay.
pub fn render_overlay_warning(reason: FrameError) -> (s: String)
    ensures
        s@ == overlay_warning(reason),
{
    let mut s = String::new();
    s.append("\x1b[93mwarning\x1b[0m: no call-frame information is shown: ");
    s.append(reason.message().as_str());
    s.append("\n");
    assert(s@ =~= overlay_warning(reason));
    s
}

} // verus!
