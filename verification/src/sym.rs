//! Symbols: the lookup of the symbol nearest below an address, the names of
//! symbol types, and the listing of a symbol table.

use crate::args::SymbolsArgs;
use crate::elf::{
    demangle, demangled, Elf, Sym, STB_GLOBAL, STB_GNU_UNIQUE, STB_LOCAL, STB_NUM, STB_WEAK,
    STT_COMMON, STT_FILE, STT_FUNC, STT_NOTYPE, STT_NUM, STT_OBJECT, STT_SECTION, STT_TLS,
    STV_DEFAULT, STV_ELIMINATE, STV_EXPORTED, STV_HIDDEN, STV_INTERNAL, STV_PROTECTED,
    STV_SINGLETON,
};
use crate::print::{header_text, print_header, Container, SizePrint};
use crate::sections::{address_column, column_width};
use crate::text::{
    decimal, hex, pad_left, pad_right, push_decimal, push_hex_padded, push_pad_left,
    push_pad_right, push_repeat, repeat, starts_with,
};
use vstd::prelude::*;
use vstd::string::*;

verus! {

/// Symbol `i` is the nearest at or below `addr`: its address is the greatest
/// that does not exceed `addr`, and it is the first symbol at that address.
pub open spec fn nearest_below(tab: Seq<Sym>, i: int, addr: u64) -> bool {
    &&& 0 <= i < tab.len()
    &&& tab[i].st_value <= addr
    &&& forall|j: int|
        0 <= j < tab.len() && (#[trigger] tab[j]).st_value <= addr ==> tab[j].st_value
            <= tab[i].st_value
    &&& forall|j: int| 0 <= j < i ==> (#[trigger] tab[j]).st_value != tab[i].st_value
}

/// Every symbol lies above `addr`.
pub open spec fn all_above(tab: Seq<Sym>, addr: u64) -> bool {
    forall|j: int| 0 <= j < tab.len() ==> (#[trigger] tab[j]).st_value > addr
}

/// The index of the symbol nearest at or below `addr`, if there is one.
pub open spec fn nearest_index(tab: Seq<Sym>, addr: u64) -> Option<int> {
    if exists|i: int| nearest_below(tab, i, addr) {
        Some(choose|i: int| nearest_below(tab, i, addr))
    } else {
        None
    }
}

/// The symbol nearest at or below an address, if there is one.
pub open spec fn symbol_below(tab: Seq<Sym>, addr: u64) -> Option<Sym> {
    match nearest_index(tab, addr) {
        Some(i) => Some(tab[i]),
        None => None,
    }
}

/// At most one symbol is the nearest at or below an address.
pub proof fn lemma_nearest_is_unique(tab: Seq<Sym>, i: int, j: int, addr: u64)
    requires
        nearest_below(tab, i, addr),
        nearest_below(tab, j, addr),
    ensures
        i == j,
{
    assert(tab[i].st_value <= tab[j].st_value);
    assert(tab[j].st_value <= tab[i].st_value);
}

/// Unless every symbol lies above an address, one of them is the nearest at
/// or below it.
pub proof fn lemma_nearest_exists(tab: Seq<Sym>, addr: u64)
    requires
        !all_above(tab, addr),
    ensures
        exists|i: int| nearest_below(tab, i, addr),
    decreases tab.len(),
{
    let front = tab.drop_last();
    let last = tab.len() - 1;
    assert(forall|j: int| 0 <= j < front.len() ==> front[j] == tab[j]);
    if all_above(front, addr) {
        assert(nearest_below(tab, last, addr));
    } else {
        lemma_nearest_exists(front, addr);
        let i = choose|i: int| nearest_below(front, i, addr);
        if tab[last].st_value <= addr && tab[last].st_value > front[i].st_value {
            assert(nearest_below(tab, last, addr));
        } else {
            assert(nearest_below(tab, i, addr));
        }
    }
}

/// There is a symbol nearest at or below an address unless every symbol lies
/// above it, and then only.
pub proof fn lemma_nearest_or_all_above(tab: Seq<Sym>, addr: u64)
    ensures
        symbol_below(tab, addr) is None <==> all_above(tab, addr),
        symbol_below(tab, addr) matches Some(sym) ==> sym.st_value <= addr && forall|j: int|
            0 <= j < tab.len() && (#[trigger] tab[j]).st_value <= addr ==> tab[j].st_value
                <= sym.st_value,
{
    if !all_above(tab, addr) {
        lemma_nearest_exists(tab, addr);
    }
}

/// Finds the symbol with the greatest address that does not exceed `addr`;
/// among several at that address, the first. There is none only where every
/// symbol lies above `addr`.
pub fn addr_to_sym<'a>(symtab: &'a Vec<Sym>, addr: u64) -> (res: Option<&'a Sym>)
    ensures
        match res {
            Some(sym) => symbol_below(symtab@, addr) == Some(*sym) && (nearest_index(
                symtab@,
                addr,
            ) matches Some(i) && nearest_below(symtab@, i, addr)),
            None => symbol_below(symtab@, addr) is None && all_above(symtab@, addr),
        },
{
    let mut best: Option<usize> = None;
    let mut i: usize = 0;
    while i < symtab.len()
        invariant
            i <= symtab.len(),
            match best {
                Some(b) => nearest_below(symtab@.take(i as int), b as int, addr),
                None => all_above(symtab@.take(i as int), addr),
            },
        decreases symtab.len() - i,
    {
        let value = symtab[i].st_value;
        let ghost before = symtab@.take(i as int);
        let ghost now = symtab@.take(i + 1);
        assert(forall|j: int| 0 <= j < i ==> now[j] == before[j]);
        assert(now[i as int] == symtab@[i as int]);
        if value <= addr {
            match best {
                Some(b) => {
                    if value > symtab[b].st_value {
                        best = Some(i);
                    }
                },
                None => {
                    best = Some(i);
                },
            }
        }
        i += 1;
    }
    assert(symtab@.take(i as int) =~= symtab@);
    match best {
        Some(b) => {
            proof {
                let c = choose|i: int| nearest_below(symtab@, i, addr);
                lemma_nearest_is_unique(symtab@, b as int, c, addr);
            }
            Some(&symtab[b])
        },
        None => None,
    }
}

/// The coloured name of a symbol type.
pub open spec fn sym_type_text(typ: u8) -> Seq<char> {
    if typ == STT_NOTYPE {
        "\x1b[90mNONE\x1b[0m"@
    } else if typ == STT_OBJECT {
        "\x1b[34mOBJECT\x1b[0m"@
    } else if typ == STT_FUNC {
        "\x1b[32mFUNCTION\x1b[0m"@
    } else if typ == STT_SECTION {
        "\x1b[31mSECTION\x1b[0m"@
    } else if typ == STT_FILE {
        "\x1b[36mFILE\x1b[0m"@
    } else if typ == STT_COMMON {
        "COMMON"@
    } else if typ == STT_TLS {
        "\x1b[35mTLS\x1b[0m"@
    } else if typ == STT_NUM {
        "NUM"@
    } else {
        "???"@
    }
}

/// The coloured name of a symbol type.
pub fn sym_type(typ: u8) -> (name: &'static str)
    ensures
        name@ == sym_type_text(typ),
{
    if typ == STT_NOTYPE {
        "\x1b[90mNONE\x1b[0m"
    } else if typ == STT_OBJECT {
        "\x1b[34mOBJECT\x1b[0m"
    } else if typ == STT_FUNC {
        "\x1b[32mFUNCTION\x1b[0m"
    } else if typ == STT_SECTION {
        "\x1b[31mSECTION\x1b[0m"
    } else if typ == STT_FILE {
        "\x1b[36mFILE\x1b[0m"
    } else if typ == STT_COMMON {
        "COMMON"
    } else if typ == STT_TLS {
        "\x1b[35mTLS\x1b[0m"
    } else if typ == STT_NUM {
        "NUM"
    } else {
        "???"
    }
}

/// Whether `pattern` is a regular expression that `regex::Regex::new`
/// accepts.
pub uninterp spec fn regex_accepts(pattern: Seq<char>) -> bool;

/// Whether the regular expression `pattern` matches somewhere in `text`, as
/// `regex::Regex::is_match` tells.
pub uninterp spec fn regex_matches(pattern: Seq<char>, text: Seq<char>) -> bool;

/// `regex::Regex::new` and `regex::Regex::is_match`: whether `pattern`
/// matches somewhere in `text`, or nothing where `pattern` is refused.
#[verifier::external_body]
pub(crate) fn regex_is_match(pattern: &str, text: &str) -> (res: Option<bool>)
    ensures
        match res {
            Some(b) => regex_accepts(pattern@) && b == regex_matches(pattern@, text@),
            None => !regex_accepts(pattern@),
        },
{
    match regex::Regex::new(pattern) {
        Ok(re) => Some(re.is_match(text)),
        Err(_) => None,
    }
}

/// Whether `pattern` is accepted and matches somewhere in `text`.
pub open spec fn matches_pattern(pattern: Seq<char>, text: Seq<char>) -> bool {
    regex_accepts(pattern) && regex_matches(pattern, text)
}

/// Whether a demangled name belongs to Rust's standard, core or alloc
/// library: it begins with the library's path, or is an impl by or for one
/// of its items.
pub open spec fn std_sym(sym: Seq<char>) -> bool {
    ||| "core::"@.is_prefix_of(sym)
    ||| "std::"@.is_prefix_of(sym)
    ||| "alloc::"@.is_prefix_of(sym)
    ||| matches_pattern("^<(std|core|alloc)::.+ as .+>"@, sym)
    ||| matches_pattern("^<.+ as (std|core|alloc)::.+>"@, sym)
}

/// Whether a match was made and found the pattern.
pub fn matched(outcome: Option<bool>) -> (b: bool)
    ensures
        b == (outcome == Some(true)),
{
    match outcome {
        Some(b) => b,
        None => false,
    }
}

/// Whether a demangled name belongs to Rust's standard, core or alloc
/// library.
pub fn is_std_sym(sym: &str) -> (b: bool)
    ensures
        b == std_sym(sym@),
{
    starts_with(sym, "core::") || starts_with(sym, "std::") || starts_with(sym, "alloc::")
        || matched(regex_is_match("^<(std|core|alloc)::.+ as .+>", sym)) || matched(
        regex_is_match("^<.+ as (std|core|alloc)::.+>", sym),
    )
}

/// Why the symbols cannot be listed.
#[derive(Clone, Copy, Debug, PartialEq, Eq, Structural)]
pub enum SymbolsError {
    /// The filter is no regular expression.
    BadFilter,
}

/// The name of a symbol as it stands in its table, or a placeholder where
/// it has none.
pub open spec fn raw_name(sym: Sym) -> Seq<char> {
    match sym.name {
        Some(n) => n@,
        None => "???"@,
    }
}

/// The name of a symbol as it is listed: demangled unless that is switched
/// off.
pub open spec fn listed_name(sym: Sym, opts: &SymbolsArgs) -> Seq<char> {
    if opts.no_demangle {
        raw_name(sym)
    } else {
        demangled(raw_name(sym))
    }
}

/// Whether a symbol passes the filters on binding, visibility and type.
pub open spec fn passes_flags(sym: Sym, opts: &SymbolsArgs) -> bool {
    &&& !(opts.global && sym.bind() != STB_GLOBAL)
    &&& !(opts.local && sym.bind() != STB_LOCAL)
    &&& !(opts.weak && sym.bind() != STB_WEAK)
    &&& !(opts.visible && sym.visibility() != STV_DEFAULT)
    &&& (opts.kind matches Some(kind) ==> kind.st_type() == sym.kind())
}

/// Whether a symbol is listed: it passes the filters on binding, visibility
/// and type; it is not left out as a symbol of Rust's libraries; and the
/// filter on names, where there is one, matches its listed name.
pub open spec fn listed(sym: Sym, opts: &SymbolsArgs) -> bool {
    &&& passes_flags(sym, opts)
    &&& !(!opts.no_demangle && opts.no_rust_std && std_sym(demangled(raw_name(sym))))
    &&& (opts.filter matches Some(pattern) ==> regex_matches(pattern@, listed_name(sym, opts)))
}

/// The mark of a symbol's type, four columns wide.
pub open spec fn type_mark(typ: int) -> Seq<char> {
    if typ == STT_NOTYPE {
        "\x1b[90mNONE\x1b[0m"@
    } else if typ == STT_OBJECT {
        " \x1b[34mOBJ\x1b[0m"@
    } else if typ == STT_FUNC {
        "\x1b[32mFUNC\x1b[0m"@
    } else if typ == STT_SECTION {
        "\x1b[31mSECT\x1b[0m"@
    } else if typ == STT_FILE {
        "\x1b[36mFILE\x1b[0m"@
    } else if typ == STT_COMMON {
        "COMM"@
    } else if typ == STT_TLS {
        " \x1b[35mTLS\x1b[0m"@
    } else if typ == STT_NUM {
        " NUM"@
    } else {
        "    "@
    }
}

/// The mark of a symbol's visibility.
pub open spec fn visibility_mark(vis: int) -> Seq<char> {
    if vis == STV_DEFAULT {
        "+"@
    } else if vis == STV_INTERNAL {
        "i"@
    } else if vis == STV_HIDDEN {
        "\x1b[31m\u{2212}\x1b[0m"@
    } else if vis == STV_PROTECTED {
        "\x1b[33m#\x1b[0m"@
    } else if vis == STV_EXPORTED {
        "x"@
    } else if vis == STV_SINGLETON {
        "s"@
    } else if vis == STV_ELIMINATE {
        "e"@
    } else {
        "?"@
    }
}

/// The mark of a symbol's binding; a global symbol that is not defined is
/// marked as undefined.
pub open spec fn bind_mark(bind: int, defined: bool) -> Seq<char> {
    if bind == STB_LOCAL {
        "\x1b[90ml\x1b[0m"@
    } else if bind == STB_GLOBAL {
        if defined {
            "\x1b[97mG\x1b[0m"@
        } else {
            "\x1b[91mU\x1b[0m"@
        }
    } else if bind == STB_WEAK {
        "\x1b[36mW\x1b[0m"@
    } else if bind == STB_NUM {
        "\x1b[35mN\x1b[0m"@
    } else if bind == STB_GNU_UNIQUE {
        "\x1b[31mu\x1b[0m"@
    } else {
        "\x1b[93m?\x1b[0m"@
    }
}

/// The size of a symbol in hexadecimal; blanks where it is zero.
pub open spec fn size_mark(size: u64) -> Seq<char> {
    if size == 0 {
        "          "@
    } else {
        "0x"@ + pad_left(hex(size as nat), 8, '0')
    }
}

/// The row of a symbol: its address, its marks, its size and its name; an
/// undefined symbol is greyed.
pub open spec fn symbol_row(sym: Sym, name: Seq<char>, sp: SizePrint) -> Seq<char> {
    (if sym.defined() {
        Seq::<char>::empty()
    } else {
        "\x1b[30m"@
    }) + sp.hex_text(sym.st_value) + " \x1b[97m\u{2502}\x1b[0m "@ + type_mark(sym.kind()) + " "@
        + visibility_mark(sym.visibility()) + bind_mark(sym.bind(), sym.defined())
        + " \x1b[97m\u{2502}\x1b[0m "@ + size_mark(sym.st_size) + " \x1b[97m\u{2502}\x1b[0m "@
        + name + "\n"@
}

/// The rows of those of the first `n` symbols that are listed.
pub open spec fn symbol_rows(tab: Seq<Sym>, n: int, opts: &SymbolsArgs, sp: SizePrint) -> Seq<char>
    decreases n,
{
    if n <= 0 {
        Seq::<char>::empty()
    } else {
        symbol_rows(tab, n - 1, opts, sp) + (if listed(tab[n - 1], opts) {
            symbol_row(tab[n - 1], listed_name(tab[n - 1], opts), sp)
        } else {
            Seq::<char>::empty()
        })
    }
}

/// The head of the listing of symbols: the heading, the names of the
/// columns, and a rule.
pub open spec fn symbols_head(dynamic: bool, size: Container, count: nat) -> Seq<char> {
    header_text(
        (if dynamic {
            "DYNAMIC SYMBOLS"@
        } else {
            "SYMBOLS"@
        }) + " ("@ + decimal(count) + ")"@,
    ) + "\x1b[97m"@ + pad_left("Value"@, column_width(size), ' ') + " \u{2502} "@ + pad_right(
        "Type VB"@,
        7,
        ' ',
    ) + " \u{2502} "@ + pad_right("Size"@, 10, ' ') + " \u{2502} Name\x1b[0m\n"@ + "\x1b[97m"@
        + repeat('\u{2500}', column_width(size) + 1) + "\u{253c}"@ + repeat('\u{2500}', 9)
        + "\u{253c}"@ + repeat('\u{2500}', 12) + "\u{253c}"@ + repeat('\u{2500}', 60)
        + "\x1b[0m\n"@
}

/// The key to the marks of visibility and binding.
pub open spec fn legend() -> Seq<char> {
    "\n\x1b[97mVisibility [V]:        Binding [B]:\x1b[0m\n"@
        + "  +  Default             \x1b[90ml\x1b[0m  Local\n"@
        + "  \x1b[33m#\x1b[0m  Protected           \x1b[97mG\x1b[0m  Global\n"@
        + "  \x1b[31m\u{2212}\x1b[0m  Hidden              \x1b[91mU\x1b[0m  Global (undefined)\n"@
        + "  i  Internal            \x1b[36mW\x1b[0m  Weak\n"@
        + "  x  Exported            \x1b[35mN\x1b[0m  Number of defined types\n"@
        + "  s  Singleton           \x1b[31mu\x1b[0m  GNU unique\n"@ + "  e  Eliminate\n"@
}

/// The table that `opts` ask for: the dynamic symbols or the others.
pub open spec fn chosen_table(elf: &Elf, opts: &SymbolsArgs) -> Seq<Sym> {
    if opts.dynamic {
        elf.dynsyms@
    } else {
        elf.syms@
    }
}

/// The listing of symbols.
pub open spec fn symbols_text(elf: &Elf, opts: &SymbolsArgs) -> Seq<char> {
    symbols_head(opts.dynamic, elf.header.shown_container(), chosen_table(elf, opts).len())
        + symbol_rows(
        chosen_table(elf, opts),
        chosen_table(elf, opts).len() as int,
        opts,
        elf.size_print(),
    ) + legend()
}

/// Renders the head of the listing of symbols.
pub fn render_symbols_head(dynamic: bool, size: Container, count: usize) -> (s: String)
    ensures
        s@ == symbols_head(dynamic, size, count as nat),
{
    let w = address_column(size);
    let mut title = String::new();
    if dynamic {
        title.append("DYNAMIC SYMBOLS");
    } else {
        title.append("SYMBOLS");
    }
    title.append(" (");
    push_decimal(&mut title, count as u64);
    title.append(")");
    assert(title@ =~= (if dynamic {
        "DYNAMIC SYMBOLS"@
    } else {
        "SYMBOLS"@
    }) + " ("@ + decimal(count as nat) + ")"@);
    let mut s = print_header(title.as_str());
    s.append("\x1b[97m");
    push_pad_left(&mut s, "Value", w, ' ');
    s.append(" \u{2502} ");
    push_pad_right(&mut s, "Type VB", 7, ' ');
    s.append(" \u{2502} ");
    push_pad_right(&mut s, "Size", 10, ' ');
    s.append(" \u{2502} Name\x1b[0m\n");
    s.append("\x1b[97m");
    push_repeat(&mut s, '\u{2500}', w + 1);
    s.append("\u{253c}");
    push_repeat(&mut s, '\u{2500}', 9);
    s.append("\u{253c}");
    push_repeat(&mut s, '\u{2500}', 12);
    s.append("\u{253c}");
    push_repeat(&mut s, '\u{2500}', 60);
    s.append("\x1b[0m\n");
    assert(s@ =~= symbols_head(dynamic, size, count as nat));
    s
}

/// The mark of a symbol's type.
pub fn mark_type(typ: u8) -> (mark: &'static str)
    ensures
        mark@ == type_mark(typ as int),
{
    if typ == STT_NOTYPE {
        "\x1b[90mNONE\x1b[0m"
    } else if typ == STT_OBJECT {
        " \x1b[34mOBJ\x1b[0m"
    } else if typ == STT_FUNC {
        "\x1b[32mFUNC\x1b[0m"
    } else if typ == STT_SECTION {
        "\x1b[31mSECT\x1b[0m"
    } else if typ == STT_FILE {
        "\x1b[36mFILE\x1b[0m"
    } else if typ == STT_COMMON {
        "COMM"
    } else if typ == STT_TLS {
        " \x1b[35mTLS\x1b[0m"
    } else if typ == STT_NUM {
        " NUM"
    } else {
        "    "
    }
}

/// The mark of a symbol's visibility.
pub fn mark_visibility(vis: u8) -> (mark: &'static str)
    ensures
        mark@ == visibility_mark(vis as int),
{
    if vis == STV_DEFAULT {
        "+"
    } else if vis == STV_INTERNAL {
        "i"
    } else if vis == STV_HIDDEN {
        "\x1b[31m\u{2212}\x1b[0m"
    } else if vis == STV_PROTECTED {
        "\x1b[33m#\x1b[0m"
    } else if vis == STV_EXPORTED {
        "x"
    } else if vis == STV_SINGLETON {
        "s"
    } else if vis == STV_ELIMINATE {
        "e"
    } else {
        "?"
    }
}

/// The mark of a symbol's binding.
pub fn mark_bind(bind: u8, defined: bool) -> (mark: &'static str)
    ensures
        mark@ == bind_mark(bind as int, defined),
{
    if bind == STB_LOCAL {
        "\x1b[90ml\x1b[0m"
    } else if bind == STB_GLOBAL {
        if defined {
            "\x1b[97mG\x1b[0m"
        } else {
            "\x1b[91mU\x1b[0m"
        }
    } else if bind == STB_WEAK {
        "\x1b[36mW\x1b[0m"
    } else if bind == STB_NUM {
        "\x1b[35mN\x1b[0m"
    } else if bind == STB_GNU_UNIQUE {
        "\x1b[31mu\x1b[0m"
    } else {
        "\x1b[93m?\x1b[0m"
    }
}

/// Renders the size of a symbol.
pub fn mark_size(size: u64) -> (s: String)
    ensures
        s@ == size_mark(size),
{
    let mut s = String::new();
    if size == 0 {
        s.append("          ");
    } else {
        s.append("0x");
        push_hex_padded(&mut s, size, 8);
    }
    assert(s@ =~= size_mark(size));
    s
}

/// Renders the row of a symbol under the given name.
pub fn render_symbol_row(sym: &Sym, name: &str, sp: SizePrint) -> (s: String)
    ensures
        s@ == symbol_row(*sym, name@, sp),
{
    let defined = sym.st_value > 0;
    let mut s = String::new();
    if !defined {
        s.append("\x1b[30m");
    }
    assert(s@ =~= (if sym.defined() {
        Seq::<char>::empty()
    } else {
        "\x1b[30m"@
    }));
    s.append(sp.hex(sym.st_value).to_text().as_str());
    s.append(" \x1b[97m\u{2502}\x1b[0m ");
    s.append(mark_type(sym.st_type()));
    s.append(" ");
    s.append(mark_visibility(sym.st_visibility()));
    s.append(mark_bind(sym.st_bind(), defined));
    s.append(" \x1b[97m\u{2502}\x1b[0m ");
    s.append(mark_size(sym.st_size).as_str());
    s.append(" \x1b[97m\u{2502}\x1b[0m ");
    s.append(name);
    s.append("\n");
    assert(s@ =~= symbol_row(*sym, name@, sp));
    s
}

/// Tells whether a symbol passes the filters on binding, visibility and
/// type.
pub fn check_flags(sym: &Sym, opts: &SymbolsArgs) -> (b: bool)
    ensures
        b == passes_flags(*sym, opts),
{
    if (opts.global && sym.st_bind() != STB_GLOBAL) || (opts.local && sym.st_bind() != STB_LOCAL)
        || (opts.weak && sym.st_bind() != STB_WEAK) || (opts.visible && sym.st_visibility()
        != STV_DEFAULT) {
        false
    } else {
        match &opts.kind {
            Some(kind) => kind.to_st_type() == sym.st_type(),
            None => true,
        }
    }
}

/// The row of a symbol where it is listed, else nothing.
pub fn list_symbol(sym: &Sym, opts: &SymbolsArgs, sp: SizePrint) -> (s: String)
    requires
        opts.filter matches Some(pattern) ==> regex_accepts(pattern@),
    ensures
        s@ == (if listed(*sym, opts) {
            symbol_row(*sym, listed_name(*sym, opts), sp)
        } else {
            Seq::<char>::empty()
        }),
{
    if !check_flags(sym, opts) {
        return String::new();
    }
    let raw: &str = match &sym.name {
        Some(n) => n.as_str(),
        None => "???",
    };
    let name: String = if !opts.no_demangle {
        let readable = demangle(raw);
        if opts.no_rust_std && is_std_sym(readable.as_str()) {
            return String::new();
        }
        readable
    } else {
        raw.to_owned()
    };
    match &opts.filter {
        Some(pattern) => {
            if !matched(regex_is_match(pattern.as_str(), name.as_str())) {
                return String::new();
            }
        },
        None => {},
    }
    render_symbol_row(sym, name.as_str(), sp)
}

/// Renders the key to the marks.
pub fn render_legend() -> (s: String)
    ensures
        s@ == legend(),
{
    let mut s = String::new();
    s.append("\n\x1b[97mVisibility [V]:        Binding [B]:\x1b[0m\n");
    s.append("  +  Default             \x1b[90ml\x1b[0m  Local\n");
    s.append("  \x1b[33m#\x1b[0m  Protected           \x1b[97mG\x1b[0m  Global\n");
    s.append("  \x1b[31m\u{2212}\x1b[0m  Hidden              \x1b[91mU\x1b[0m  Global (undefined)\n");
    s.append("  i  Internal            \x1b[36mW\x1b[0m  Weak\n");
    s.append("  x  Exported            \x1b[35mN\x1b[0m  Number of defined types\n");
    s.append("  s  Singleton           \x1b[31mu\x1b[0m  GNU unique\n");
    s.append("  e  Eliminate\n");
    assert(s@ =~= legend());
    s
}

/// Whether the filter on names, where there is one, is a regular
/// expression.
pub open spec fn filter_accepted(opts: &SymbolsArgs) -> bool {
    opts.filter matches Some(pattern) ==> regex_accepts(pattern@)
}

/// Lists the symbols of the table that `opts` ask for, those that pass the
/// filters, one row each, with a key to the marks. A filter on names that
/// is no regular expression is an error.
pub fn all_symbols(elf: &Elf, opts: &SymbolsArgs) -> (res: Result<String, SymbolsError>)
    ensures
        match res {
            Ok(text) => filter_accepted(opts) && text@ == symbols_text(elf, opts),
            Err(e) => e == SymbolsError::BadFilter && !filter_accepted(opts),
        },
{
    match &opts.filter {
        Some(pattern) => {
            if regex_is_match(pattern.as_str(), "").is_none() {
                return Err(SymbolsError::BadFilter);
            }
        },
        None => {},
    }
    let tab: &Vec<Sym> = if opts.dynamic {
        &elf.dynsyms
    } else {
        &elf.syms
    };
    let sp = elf.sp();
    let mut s = render_symbols_head(opts.dynamic, elf.header.display_container(), tab.len());
    let ghost head = s@;
    let mut i: usize = 0;
    assert(s@ =~= head + symbol_rows(tab@, 0, opts, sp));
    while i < tab.len()
        invariant
            i <= tab.len(),
            filter_accepted(opts),
            s@ == head + symbol_rows(tab@, i as int, opts, sp),
        decreases tab.len() - i,
    {
        let row = list_symbol(&tab[i], opts, sp);
        s.append(row.as_str());
        i += 1;
        assert(symbol_rows(tab@, i as int, opts, sp) == symbol_rows(tab@, i - 1, opts, sp) + row@);
        assert(s@ =~= head + symbol_rows(tab@, i as int, opts, sp));
    }
    s.append(render_legend().as_str());
    assert(s@ =~= symbols_text(elf, opts));
    Ok(s)
}

impl SymbolsError {
    /// What went wrong, in words.
    pub open spec fn text(self) -> Seq<char> {
        "the filter is no regular expression"@
    }

    /// Says in words what went wrong.
    pub fn message(&self) -> (s: &'static str)
        ensures
            s@ == self.text(),
    {
        "the filter is no regular expression"
    }
}

} // verus!
