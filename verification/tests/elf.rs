use elf_info::elf::{
    find_any_symbol, find_symbol, find_symbol_by_addr, ph_by_vaddr, symbol_file_offset,
    symbol_position, Elf, Header, ProgramHeader, Sym,
};
use elf_info::print::Container;
use elf_info::sym::{addr_to_sym, is_std_sym, sym_type};

fn header(class: u8) -> Header {
    Header {
        ident_class: class,
        ident_data: 1,
        e_type: 3,
        e_machine: 62,
        e_version: 1,
        e_entry: 0x1000,
        e_phoff: 64,
        e_shoff: 0,
        e_flags: 0,
        e_phentsize: 56,
        e_phnum: 0,
        e_shentsize: 64,
        e_shnum: 0,
    }
}

fn image(syms: Vec<Sym>, dynsyms: Vec<Sym>, program_headers: Vec<ProgramHeader>) -> Elf {
    Elf {
        header: header(2),
        program_headers,
        section_headers: vec![],
        syms,
        dynsyms,
        interpreter: None,
        soname: None,
    }
}

fn sym(name: &str, value: u64, size: u64) -> Sym {
    Sym { name: Some(name.to_string()), st_value: value, st_size: size, st_info: 0x12, st_other: 0 }
}

fn load(vaddr: u64, offset: u64, size: u64) -> ProgramHeader {
    ProgramHeader {
        p_type: 1,
        p_flags: 5,
        p_offset: offset,
        p_vaddr: vaddr,
        p_paddr: vaddr,
        p_filesz: size,
        p_memsz: size,
        p_align: 0x1000,
    }
}

#[test]
fn the_class_byte_gives_the_word_size() {
    assert_eq!(header(1).container(), Some(Container::Little));
    assert_eq!(header(2).container(), Some(Container::Big));
    assert_eq!(header(0).container(), None);
    assert_eq!(header(7).container(), None);
    assert_eq!(header(1).display_container(), Container::Little);
    assert_eq!(header(0).display_container(), Container::Big);
}

#[test]
fn a_symbol_s_bytes_hold_binding_type_and_visibility() {
    let s = Sym { name: None, st_value: 0, st_size: 0, st_info: 0xa6, st_other: 0xfb };
    assert_eq!(s.st_bind(), 10);
    assert_eq!(s.st_type(), 6);
    assert_eq!(s.st_visibility(), 3);
}

#[test]
fn the_very_name_is_preferred_to_the_demangled_one() {
    let tab = vec![
        sym("_ZN3foo3barE", 0x10, 1),
        sym("plain", 0x20, 1),
        sym("foo::bar", 0x30, 1),
        sym("plain", 0x40, 1),
    ];
    assert_eq!(find_symbol(&tab, "foo::bar").unwrap().st_value, 0x30);
    assert_eq!(find_symbol(&tab, "plain").unwrap().st_value, 0x20);
    assert_eq!(find_symbol(&tab, "_ZN3foo3barE").unwrap().st_value, 0x10);
    assert!(find_symbol(&tab, "foo").is_none());
    assert_eq!(symbol_position(&tab, "foo::bar", true), Some(0));
    assert_eq!(symbol_position(&tab, "foo::bar", false), Some(2));
}

#[test]
fn a_demangled_name_finds_a_mangled_symbol() {
    let tab = vec![
        Sym { name: None, st_value: 1, st_size: 1, st_info: 0, st_other: 0 },
        sym("_ZN3foo3barE", 0x10, 1),
        sym("_ZN3foo3barE", 0x20, 1),
    ];
    assert_eq!(find_symbol(&tab, "foo::bar").unwrap().st_value, 0x10);
    assert!(find_symbol(&vec![], "foo::bar").is_none());
}

#[test]
fn the_dynamic_table_is_searched_second() {
    let elf = image(vec![sym("a", 1, 1)], vec![sym("a", 2, 1), sym("b", 3, 1)], vec![]);
    assert_eq!(find_any_symbol(&elf, "a").unwrap().st_value, 1);
    assert_eq!(find_any_symbol(&elf, "b").unwrap().st_value, 3);
    assert!(find_any_symbol(&elf, "c").is_none());
}

#[test]
fn a_symbol_covers_its_size() {
    let tab = vec![sym("empty", 0x100, 0), sym("a", 0x100, 0x10), sym("b", 0x108, 0x10)];
    assert_eq!(find_symbol_by_addr(&tab, 0x100).unwrap().name.as_deref(), Some("a"));
    assert_eq!(find_symbol_by_addr(&tab, 0x10f).unwrap().name.as_deref(), Some("a"));
    assert_eq!(find_symbol_by_addr(&tab, 0x110).unwrap().name.as_deref(), Some("b"));
    assert!(find_symbol_by_addr(&tab, 0x118).is_none());
    assert!(find_symbol_by_addr(&tab, 0xff).is_none());
    let top = vec![sym("top", u64::MAX - 1, 8)];
    assert!(find_symbol_by_addr(&top, u64::MAX).is_some());
    assert!(find_symbol_by_addr(&top, 2).is_none());
}

#[test]
fn a_segment_covers_its_size_in_memory() {
    let elf = image(vec![], vec![], vec![load(0x1000, 0, 0x100), load(0x2000, 0x400, 0x100)]);
    assert_eq!(ph_by_vaddr(&elf, 0x1000).unwrap().p_offset, 0);
    assert_eq!(ph_by_vaddr(&elf, 0x20ff).unwrap().p_offset, 0x400);
    assert!(ph_by_vaddr(&elf, 0x2100).is_none());
    assert!(ph_by_vaddr(&elf, 0xfff).is_none());
}

#[test]
fn the_file_offset_is_the_segment_s_offset_plus_the_distance() {
    let elf = image(
        vec![sym("main", 0x2010, 4), sym("lost", 0x9000, 4)],
        vec![sym("dyn", 0x1008, 4)],
        vec![load(0x1000, 0, 0x100), load(0x2000, 0x400, 0x100)],
    );
    assert_eq!(symbol_file_offset(&elf, "main"), Some(0x410));
    assert_eq!(symbol_file_offset(&elf, "dyn"), Some(8));
    assert_eq!(symbol_file_offset(&elf, "lost"), None);
    assert_eq!(symbol_file_offset(&elf, "nothing"), None);
    let far = image(vec![sym("far", 0x2010, 4)], vec![], vec![load(0x2000, u64::MAX - 8, 0x100)]);
    assert_eq!(symbol_file_offset(&far, "far"), None);
}

#[test]
fn the_nearest_symbol_at_or_below_an_address_is_found() {
    let tab = vec![sym("c", 0x300, 0), sym("a", 0x100, 0), sym("b", 0x200, 0), sym("b2", 0x200, 0)];
    assert_eq!(addr_to_sym(&tab, 0x250).unwrap().name.as_deref(), Some("b"));
    assert_eq!(addr_to_sym(&tab, 0x200).unwrap().name.as_deref(), Some("b"));
    assert_eq!(addr_to_sym(&tab, 0x1ff).unwrap().name.as_deref(), Some("a"));
    assert_eq!(addr_to_sym(&tab, 0x100).unwrap().name.as_deref(), Some("a"));
    assert_eq!(addr_to_sym(&tab, u64::MAX).unwrap().name.as_deref(), Some("c"));
    assert!(addr_to_sym(&tab, 0xff).is_none());
    assert!(addr_to_sym(&tab, 0).is_none());
    assert!(addr_to_sym(&vec![], 0x100).is_none());
}

#[test]
fn a_first_symbol_above_the_address_hides_no_other() {
    let tab = vec![sym("high", 0x900, 0), sym("low", 0x100, 0)];
    assert_eq!(addr_to_sym(&tab, 0x500).unwrap().name.as_deref(), Some("low"));
}

#[test]
fn symbol_types_have_names() {
    assert_eq!(sym_type(0), "\x1b[90mNONE\x1b[0m");
    assert_eq!(sym_type(1), "\x1b[34mOBJECT\x1b[0m");
    assert_eq!(sym_type(2), "\x1b[32mFUNCTION\x1b[0m");
    assert_eq!(sym_type(3), "\x1b[31mSECTION\x1b[0m");
    assert_eq!(sym_type(4), "\x1b[36mFILE\x1b[0m");
    assert_eq!(sym_type(5), "COMMON");
    assert_eq!(sym_type(6), "\x1b[35mTLS\x1b[0m");
    assert_eq!(sym_type(7), "NUM");
    assert_eq!(sym_type(10), "???");
}

#[test]
fn names_of_rust_s_libraries_are_recognised() {
    assert!(is_std_sym("core::fmt::write"));
    assert!(is_std_sym("std::io::stdio::_print"));
    assert!(is_std_sym("alloc::vec::Vec<T>::push"));
    assert!(is_std_sym("<std::io::Error as core::fmt::Debug>::fmt"));
    assert!(is_std_sym("<mine::Thing as core::fmt::Debug>::fmt"));
    assert!(is_std_sym("<alloc::string::String as mine::Show>::show"));
    assert!(!is_std_sym("<mine::Thing as mine::Show>::show"));
    assert!(!is_std_sym("mine::core::thing"));
    assert!(!is_std_sym("main"));
    assert!(!is_std_sym("cor"));
    assert!(!is_std_sym(""));
}
