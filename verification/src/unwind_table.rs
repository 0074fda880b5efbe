//! The quick-lookup table of unwind information: a header of one version
//! byte and three descriptor bytes, a pointer to the frame section, a count,
//! and that many pairs of a function's start and its FDE's address.

use crate::codec::{
    base_of, decoded, encoding, encoding_text, resolved, value, value_abs, DecodeError, Value,
    NO_VALUE,
};
use crate::elf::Elf;
use crate::print::{field_text, PairTable, SizePrint};
use crate::text::{
    decimal, hex, pad_left, push_hex, push_decimal, push_decimal_padded, push_signed_decimal,
    push_signed_decimal_padded, signed_decimal,
};
use vstd::prelude::*;
use vstd::string::*;

verus! {

/// A decoded value together with the absolute address that it resolves to.
#[derive(Clone, Copy, Debug, PartialEq, Eq, Structural)]
pub struct Field {
    pub value: Value,
    pub address: u64,
}

/// One pair of the table: where a function starts, and where its FDE is.
#[derive(Clone, Copy, Debug, PartialEq, Eq, Structural)]
pub struct TableEntry {
    pub start: Field,
    pub fde: Field,
}

/// The decoded table.
#[derive(Clone, Debug)]
pub struct UnwindTable {
    pub version: u8,
    /// The descriptor of the pointer to the frame section.
    pub ptr_enc: u8,
    /// The descriptor of the count.
    pub count_enc: u8,
    /// The descriptor of the values in the table.
    pub table_enc: u8,
    /// The pointer to the frame section, unless its descriptor says that
    /// there is none.
    pub eh_frame_ptr: Option<Field>,
    /// The declared number of pairs, unless its descriptor says that there
    /// is none.
    pub count: Option<Value>,
    /// The pairs, in the order of the file.
    pub entries: Vec<TableEntry>,
}

/// A failure to decode, with the offset in the section of the value that
/// failed.
#[derive(Clone, Copy, Debug, PartialEq, Eq, Structural)]
pub struct TableError {
    pub kind: DecodeError,
    pub offset: usize,
}

/// The value at offset `off` of the section and its absolute address, and
/// the offset behind it. The program counter of the value is its own
/// address, `pc + off`; the start of the table is `pc`.
pub open spec fn field_at(enc: u8, content: Seq<u8>, pc: u64, off: int) -> Result<
    (Field, int),
    (DecodeError, int),
> {
    match decoded(enc, content.subrange(off, content.len() as int)) {
        Err(kind) => Err((kind, off)),
        Ok((n, v)) => {
            let at = pc + off;
            if base_of(enc) == 1 && at > u64::MAX {
                Err((DecodeError::Overflow, off))
            } else {
                match resolved(
                    enc,
                    v,
                    if at <= u64::MAX {
                        at as u64
                    } else {
                        0
                    },
                    pc,
                ) {
                    Err(kind) => Err((kind, off)),
                    Ok(address) => Ok((Field { value: v, address }, off + n)),
                }
            }
        },
    }
}

/// The number of pairs that a count stands for: a signed count is read as
/// the unsigned number with the same 64 bits.
pub open spec fn pairs_declared(count: Value) -> nat {
    match count {
        Value::Unsigned(n) => n as nat,
        Value::Signed(n) => if n >= 0 {
            n as nat
        } else {
            (n + 0x1_0000_0000_0000_0000) as nat
        },
    }
}

/// `n` pairs from offset `off` on.
pub open spec fn pairs_at(enc: u8, content: Seq<u8>, pc: u64, off: int, n: nat) -> Result<
    Seq<TableEntry>,
    (DecodeError, int),
>
    decreases n,
{
    if n == 0 {
        Ok(Seq::<TableEntry>::empty())
    } else {
        match field_at(enc, content, pc, off) {
            Err(e) => Err(e),
            Ok((start, mid)) => match field_at(enc, content, pc, mid) {
                Err(e) => Err(e),
                Ok((fde, next)) => match pairs_at(enc, content, pc, next, (n - 1) as nat) {
                    Err(e) => Err(e),
                    Ok(rest) => Ok(seq![TableEntry { start, fde }] + rest),
                },
            },
        }
    }
}

/// A table that decodes holds as many pairs as were asked for.
pub proof fn lemma_as_many_pairs_as_declared(
    enc: u8,
    content: Seq<u8>,
    pc: u64,
    off: int,
    n: nat,
)
    ensures
        pairs_at(enc, content, pc, off, n) matches Ok(pairs) ==> pairs.len() == n,
    decreases n,
{
    if n > 0 {
        match field_at(enc, content, pc, off) {
            Ok((_, mid)) => match field_at(enc, content, pc, mid) {
                Ok((_, next)) => {
                    lemma_as_many_pairs_as_declared(enc, content, pc, next, (n - 1) as nat);
                },
                Err(_) => {},
            },
            Err(_) => {},
        }
    }
}

/// The parts of a decoded table, as plain values.
pub struct TableModel {
    pub version: u8,
    pub ptr_enc: u8,
    pub count_enc: u8,
    pub table_enc: u8,
    pub eh_frame_ptr: Option<Field>,
    pub count: Option<Value>,
    pub entries: Seq<TableEntry>,
}

impl View for UnwindTable {
    type V = TableModel;

    open spec fn view(&self) -> TableModel {
        TableModel {
            version: self.version,
            ptr_enc: self.ptr_enc,
            count_enc: self.count_enc,
            table_enc: self.table_enc,
            eh_frame_ptr: self.eh_frame_ptr,
            count: self.count,
            entries: self.entries@,
        }
    }
}

/// The pointer to the frame section and the offset behind it: nothing is
/// read where the descriptor says that there is no value.
pub open spec fn pointer_part(content: Seq<u8>, pc: u64) -> Result<
    (Option<Field>, int),
    (DecodeError, int),
> {
    if content[1] == NO_VALUE {
        Ok((None, 4))
    } else {
        match field_at(content[1], content, pc, 4) {
            Err(e) => Err(e),
            Ok((f, next)) => Ok((Some(f), next)),
        }
    }
}

/// The count and the offset behind it: nothing is read where the descriptor
/// says that there is no value.
pub open spec fn count_part(content: Seq<u8>, off: int) -> Result<
    (Option<Value>, int),
    (DecodeError, int),
> {
    if content[2] == NO_VALUE {
        Ok((None, off))
    } else {
        match decoded(content[2], content.subrange(off, content.len() as int)) {
            Err(kind) => Err((kind, off)),
            Ok((n, v)) => Ok((Some(v), off + n)),
        }
    }
}

/// The pairs: none where there is no count or where the table's descriptor
/// says that there is no value, else as many as the count declares.
pub open spec fn pairs_part(content: Seq<u8>, pc: u64, off: int, count: Option<Value>) -> Result<
    Seq<TableEntry>,
    (DecodeError, int),
> {
    if content[3] == NO_VALUE || count is None {
        Ok(Seq::<TableEntry>::empty())
    } else {
        pairs_at(content[3], content, pc, off, pairs_declared(count->0))
    }
}

/// The table that a section's content holds, `pc` being the address of the
/// section; or the first failure, with the offset of the value that failed.
/// A section too short for its header fails at offset 0 as truncated.
pub open spec fn table_of(content: Seq<u8>, pc: u64) -> Result<TableModel, (DecodeError, int)> {
    if content.len() < 4 {
        Err((DecodeError::Truncated, 0))
    } else {
        match pointer_part(content, pc) {
            Err(e) => Err(e),
            Ok((eh_frame_ptr, after_ptr)) => match count_part(content, after_ptr) {
                Err(e) => Err(e),
                Ok((count, after_count)) => match pairs_part(content, pc, after_count, count) {
                    Err(e) => Err(e),
                    Ok(entries) => Ok(
                        TableModel {
                            version: content[0],
                            ptr_enc: content[1],
                            count_enc: content[2],
                            table_enc: content[3],
                            eh_frame_ptr,
                            count,
                            entries,
                        },
                    ),
                },
            },
        }
    }
}

/// Decodes the value at offset `off` and resolves it, with its own address
/// as program counter and `pc` as the start of the table.
pub fn read_field(enc: u8, content: &[u8], pc: u64, off: usize) -> (res: Result<
    (Field, usize),
    TableError,
>)
    requires
        off <= content@.len(),
    ensures
        match res {
            Ok((f, next)) => field_at(enc, content@, pc, off as int) == Ok::<
                (Field, int),
                (DecodeError, int),
            >((f, next as int)) && off < next <= content@.len(),
            Err(e) => field_at(enc, content@, pc, off as int) == Err::<
                (Field, int),
                (DecodeError, int),
            >((e.kind, e.offset as int)),
        },
{
    match value(enc, &content[off..content.len()]) {
        Err(kind) => Err(TableError { kind, offset: off }),
        Ok((n, v)) => {
            proof {
                crate::codec::lemma_nibbles(enc);
            }
            let relative = (enc & 0xf0) == 0x10;
            let at: u64 = if off as u64 <= u64::MAX - pc {
                pc + off as u64
            } else {
                0
            };
            if relative && off as u64 > u64::MAX - pc {
                Err(TableError { kind: DecodeError::Overflow, offset: off })
            } else {
                match value_abs(enc, v, at, pc) {
                    Err(kind) => Err(TableError { kind, offset: off }),
                    Ok(address) => Ok((Field { value: v, address }, off + n)),
                }
            }
        },
    }
}

/// The number of pairs that a count declares.
pub fn declared_pairs(count: Value) -> (n: u64)
    ensures
        n == pairs_declared(count),
{
    match count {
        Value::Unsigned(n) => n,
        Value::Signed(n) => if n >= 0 {
            n as u64
        } else {
            ((n + i64::MAX) + 1) as u64 + 0x8000_0000_0000_0000u64
        },
    }
}

/// Decodes `count` pairs from offset `off` on.
pub fn read_pairs(enc: u8, content: &[u8], pc: u64, off: usize, count: u64) -> (res: Result<
    Vec<TableEntry>,
    TableError,
>)
    requires
        off <= content@.len(),
    ensures
        match res {
            Ok(entries) => pairs_at(enc, content@, pc, off as int, count as nat) == Ok::<
                Seq<TableEntry>,
                (DecodeError, int),
            >(entries@),
            Err(e) => pairs_at(enc, content@, pc, off as int, count as nat) == Err::<
                Seq<TableEntry>,
                (DecodeError, int),
            >((e.kind, e.offset as int)),
        },
{
    let mut entries: Vec<TableEntry> = Vec::new();
    let mut at: usize = off;
    let mut left: u64 = count;
    while left > 0
        invariant
            at <= content@.len(),
            pairs_at(enc, content@, pc, off as int, count as nat) == (match pairs_at(
                enc,
                content@,
                pc,
                at as int,
                left as nat,
            ) {
                Ok(rest) => Ok::<Seq<TableEntry>, (DecodeError, int)>(entries@ + rest),
                Err(e) => Err::<Seq<TableEntry>, (DecodeError, int)>(e),
            }),
        decreases left,
    {
        let (start, mid) = match read_field(enc, content, pc, at) {
            Ok(r) => r,
            Err(e) => {
                return Err(e);
            },
        };
        let (fde, next) = match read_field(enc, content, pc, mid) {
            Ok(r) => r,
            Err(e) => {
                return Err(e);
            },
        };
        proof {
            let rest = pairs_at(enc, content@, pc, next as int, (left - 1) as nat);
            if rest is Ok {
                assert(entries@.push(TableEntry { start, fde }) + rest->Ok_0 =~= entries@ + (
                seq![TableEntry { start, fde }] + rest->Ok_0));
            }
        }
        entries.push(TableEntry { start, fde });
        at = next;
        left -= 1;
    }
    assert(entries@ + Seq::<TableEntry>::empty() =~= entries@);
    Ok(entries)
}

/// Decodes the table of a section's content, `pc` being the address of the
/// section. A descriptor that says "no value" suppresses what it describes.
pub fn decode_unwind_table(pc: u64, content: &[u8]) -> (res: Result<UnwindTable, TableError>)
    ensures
        match res {
            Ok(table) => table_of(content@, pc) == Ok::<TableModel, (DecodeError, int)>(table@),
            Err(e) => table_of(content@, pc) == Err::<TableModel, (DecodeError, int)>(
                (e.kind, e.offset as int),
            ),
        },
{
    if content.len() < 4 {
        return Err(TableError { kind: DecodeError::Truncated, offset: 0 });
    }
    let mut off: usize = 4;
    let mut eh_frame_ptr: Option<Field> = None;
    if content[1] != NO_VALUE {
        match read_field(content[1], content, pc, off) {
            Err(e) => {
                return Err(e);
            },
            Ok((f, next)) => {
                eh_frame_ptr = Some(f);
                off = next;
            },
        }
    }
    let mut count: Option<Value> = None;
    if content[2] != NO_VALUE {
        match value(content[2], &content[off..content.len()]) {
            Err(kind) => {
                return Err(TableError { kind, offset: off });
            },
            Ok((n, v)) => {
                count = Some(v);
                off = off + n;
            },
        }
    }
    let entries = if content[3] == NO_VALUE {
        Vec::new()
    } else {
        match count {
            None => Vec::new(),
            Some(c) => match read_pairs(content[3], content, pc, off, declared_pairs(c)) {
                Err(e) => {
                    return Err(e);
                },
                Ok(entries) => entries,
            },
        }
    };
    Ok(
        UnwindTable {
            version: content[0],
            ptr_enc: content[1],
            count_enc: content[2],
            table_enc: content[3],
            eh_frame_ptr,
            count,
            entries,
        },
    )
}

/// A value in decimal, with its sign where it is signed and negative.
pub open spec fn value_text(v: Value) -> Seq<char> {
    match v {
        Value::Signed(n) => signed_decimal(n as int),
        Value::Unsigned(n) => decimal(n as nat),
    }
}

/// The line of one pair: each value as stored, in a column of ten, beside
/// the address that it resolves to.
pub open spec fn entry_line(e: TableEntry, sp: SizePrint) -> Seq<char> {
    "\t\x1b[90m("@ + pad_left(value_text(e.start.value), 10, ' ') + ")\x1b[0m  "@ + sp.hex_text(
        e.start.address,
    ) + "  ->  "@ + sp.hex_text(e.fde.address) + "  \x1b[90m("@ + pad_left(
        value_text(e.fde.value),
        10,
        ' ',
    ) + ")\x1b[0m\n"@
}

/// The lines of the pairs, in their order.
pub open spec fn entry_lines(entries: Seq<TableEntry>, sp: SizePrint) -> Seq<char>
    decreases entries.len(),
{
    if entries.len() == 0 {
        Seq::<char>::empty()
    } else {
        entry_lines(entries.drop_last(), sp) + entry_line(entries.last(), sp)
    }
}

/// The rendered header: the version, the three descriptors, and the pointer
/// and the count. A pointer or a count that the header suppresses has no
/// line.
pub open spec fn head_text(t: TableModel, sp: SizePrint) -> Seq<char> {
    "\x1b[1;96m\u{2500}\u{2500}\u{2500} Header \u{2500}\u{2500}\u{2500}\x1b[0m\n"@ + field_text(
        22,
        "Version"@,
    ) + decimal(t.version as nat) + "\n"@ + field_text(22, "eh_frame_ptr encoding"@)
        + encoding_text(t.ptr_enc) + field_text(22, "fde_count encoding"@) + encoding_text(
        t.count_enc,
    ) + field_text(22, "Table encoding"@) + encoding_text(t.table_enc) + (match t.eh_frame_ptr {
        Some(f) => field_text(22, ".eh_frame pointer"@) + value_text(f.value) + "  (-> "@
            + sp.hex_text(f.address) + ")\n"@,
        None => Seq::<char>::empty(),
    }) + (match t.count {
        Some(c) => field_text(22, "Nr entries"@) + value_text(c) + "\n"@,
        None => Seq::<char>::empty(),
    })
}

/// The rendered table: the header, a heading, and the pairs.
pub open spec fn table_text(t: TableModel, sp: SizePrint) -> Seq<char> {
    head_text(t, sp)
        + "\n\x1b[1;96m\u{2500}\u{2500}\u{2500} Table content \u{2500}\u{2500}\u{2500}\x1b[0m\n"@
        + entry_lines(t.entries, sp)
}

/// Appends a value in decimal.
pub fn push_value(s: &mut String, v: Value)
    ensures
        final(s)@ == old(s)@ + value_text(v),
{
    match v {
        Value::Signed(n) => push_signed_decimal(s, n),
        Value::Unsigned(n) => push_decimal(s, n),
    }
}

/// Appends a value in decimal, in a column of ten.
pub fn push_value_column(s: &mut String, v: Value)
    ensures
        final(s)@ == old(s)@ + pad_left(value_text(v), 10, ' '),
{
    match v {
        Value::Signed(n) => push_signed_decimal_padded(s, n, 10),
        Value::Unsigned(n) => push_decimal_padded(s, n, 10),
    }
}

/// Renders the line of one pair.
pub fn render_entry(e: TableEntry, sp: SizePrint) -> (line: String)
    ensures
        line@ == entry_line(e, sp),
{
    let mut line = String::new();
    line.append("\t\x1b[90m(");
    push_value_column(&mut line, e.start.value);
    line.append(")\x1b[0m  ");
    line.append(sp.hex(e.start.address).to_text().as_str());
    line.append("  ->  ");
    line.append(sp.hex(e.fde.address).to_text().as_str());
    line.append("  \x1b[90m(");
    push_value_column(&mut line, e.fde.value);
    line.append(")\x1b[0m\n");
    assert(line@ =~= entry_line(e, sp));
    line
}

/// Renders the header of a decoded table.
pub fn render_head(table: &UnwindTable, sp: SizePrint) -> (s: String)
    ensures
        s@ == head_text(table@, sp),
{
    let fields = PairTable(22);
    let mut s = String::new();
    s.append("\x1b[1;96m\u{2500}\u{2500}\u{2500} Header \u{2500}\u{2500}\u{2500}\x1b[0m\n");
    s.append(fields.field("Version").as_str());
    push_decimal(&mut s, table.version as u64);
    s.append("\n");
    s.append(fields.field("eh_frame_ptr encoding").as_str());
    s.append(encoding(table.ptr_enc).as_str());
    s.append(fields.field("fde_count encoding").as_str());
    s.append(encoding(table.count_enc).as_str());
    s.append(fields.field("Table encoding").as_str());
    s.append(encoding(table.table_enc).as_str());
    let mut rest = String::new();
    match table.eh_frame_ptr {
        Some(f) => {
            rest.append(fields.field(".eh_frame pointer").as_str());
            push_value(&mut rest, f.value);
            rest.append("  (-> ");
            rest.append(sp.hex(f.address).to_text().as_str());
            rest.append(")\n");
        },
        None => {},
    }
    let ghost pointer_line = rest@;
    let mut last = String::new();
    match table.count {
        Some(c) => {
            last.append(fields.field("Nr entries").as_str());
            push_value(&mut last, c);
            last.append("\n");
        },
        None => {},
    }
    assert(rest@ =~= (match table.eh_frame_ptr {
        Some(f) => field_text(22, ".eh_frame pointer"@) + value_text(f.value) + "  (-> "@
            + sp.hex_text(f.address) + ")\n"@,
        None => Seq::<char>::empty(),
    }));
    assert(last@ =~= (match table.count {
        Some(c) => field_text(22, "Nr entries"@) + value_text(c) + "\n"@,
        None => Seq::<char>::empty(),
    }));
    s.append(rest.as_str());
    s.append(last.as_str());
    assert(s@ =~= head_text(table@, sp));
    s
}

/// Renders a decoded table.
pub fn render_unwind_table(table: &UnwindTable, sp: SizePrint) -> (s: String)
    ensures
        s@ == table_text(table@, sp),
{
    let mut s = render_head(table, sp);
    s.append(
        "\n\x1b[1;96m\u{2500}\u{2500}\u{2500} Table content \u{2500}\u{2500}\u{2500}\x1b[0m\n",
    );
    let ghost top = s@;
    let mut i: usize = 0;
    assert(table.entries@.take(0) =~= Seq::<TableEntry>::empty());
    assert(s@ =~= top + entry_lines(table.entries@.take(0), sp));
    while i < table.entries.len()
        invariant
            i <= table.entries.len(),
            s@ == top + entry_lines(table.entries@.take(i as int), sp),
        decreases table.entries.len() - i,
    {
        let e = table.entries[i];
        s.append(render_entry(e, sp).as_str());
        i += 1;
        proof {
            let now = table.entries@.take(i as int);
            assert(now.drop_last() =~= table.entries@.take(i - 1));
            assert(now.last() == e);
            assert(s@ =~= top + entry_lines(now, sp));
        }
    }
    assert(table.entries@.take(i as int) =~= table.entries@);
    s
}

/// Decodes and renders the table of a section's content, `pc` being the
/// address of the section.
pub fn eh_frame_hdr(elf: &Elf, pc: u64, content: &[u8]) -> (res: Result<String, TableError>)
    ensures
        match res {
            Ok(text) => table_of(content@, pc) matches Ok(table) && text@ == table_text(
                table,
                elf.size_print(),
            ),
            Err(e) => table_of(content@, pc) == Err::<TableModel, (DecodeError, int)>(
                (e.kind, e.offset as int),
            ),
        },
{
    match decode_unwind_table(pc, content) {
        Err(e) => Err(e),
        Ok(table) => Ok(render_unwind_table(&table, elf.sp())),
    }
}

impl TableError {
    /// What went wrong and where, in words.
    pub open spec fn text(self) -> Seq<char> {
        self.kind.text() + " at offset 0x"@ + hex(self.offset as nat)
    }

    /// Says in words what went wrong and where.
    pub fn message(&self) -> (s: String)
        ensures
            s@ == self.text(),
    {
        let mut s = String::new();
        s.append(self.kind.message());
        s.append(" at offset 0x");
        push_hex(&mut s, self.offset as u64);
        assert(s@ =~= self.text());
        s
    }
}

} // verus!
