use elf_info::elf::{Elf, Header, ProgramHeader, SectionHeader};
use elf_info::header::{file_type, header, program_headers, short_segment_type, summary};
use elf_info::sections::all_sections;

fn image(class: u8) -> Elf {
    Elf {
        header: Header {
            ident_class: class,
            ident_data: 1,
            e_type: 3,
            e_machine: 62,
            e_version: 1,
            e_entry: 0x1040,
            e_phoff: 64,
            e_shoff: 0x3a10,
            e_flags: 0x12,
            e_phentsize: 56,
            e_phnum: 2,
            e_shentsize: 64,
            e_shnum: 1,
        },
        program_headers: vec![
            ProgramHeader {
                p_type: 1,
                p_flags: 5,
                p_offset: 0,
                p_vaddr: 0x1000,
                p_paddr: 0x1000,
                p_filesz: 0x200,
                p_memsz: 0x300,
                p_align: 0x1000,
            },
            ProgramHeader {
                p_type: 0x1234_5678,
                p_flags: 0,
                p_offset: 0,
                p_vaddr: 0,
                p_paddr: 0,
                p_filesz: 0,
                p_memsz: 0,
                p_align: 0,
            },
        ],
        section_headers: vec![SectionHeader {
            name: Some(".text".to_string()),
            sh_type: 1,
            sh_flags: 0,
            sh_addr: 0x1000,
            sh_offset: 0x40,
            sh_size: 0x20,
            sh_addralign: 8,
            sh_entsize: 0,
        }],
        syms: vec![],
        dynsyms: vec![],
        interpreter: Some("/lib64/ld-linux-x86-64.so.2".to_string()),
        soname: None,
    }
}

const LINE: &str = "\u{2500}";

#[test]
fn renders_the_file_header() {
    let expected = format!(
        "\x1b[1;96m{}\u{2524} ELF HEADER \u{251c}{}\x1b[0m\n\
         \x1b[37m               Version\x1b[0m \u{2502} 1\n\
         \x1b[37m                  Type\x1b[0m \u{2502} Shared object\n\
         \x1b[37m         Ident's class\x1b[0m \u{2502} ELF64\n\
         \x1b[37m          Ident's data\x1b[0m \u{2502} Little-endian\n\
         \x1b[37m               Machine\x1b[0m \u{2502} X86_64\n\
         \x1b[37m   Entry point address\x1b[0m \u{2502} 0x00000000'00001040\n\
         \x1b[37m                 Flags\x1b[0m \u{2502} 0x00000012\n\
         \x1b[37m           Interpreter\x1b[0m \u{2502} /lib64/ld-linux-x86-64.so.2\n\
         \x1b[37m                      \x1b[0m \u{2502} \n\
         \x1b[37m     Nr. prog. headers\x1b[0m \u{2502}                2\n\
         \x1b[37m  Prog. headers offset\x1b[0m \u{2502}               64 B\n\
         \x1b[37m     Prog. header size\x1b[0m \u{2502}               56 B\n\
         \x1b[37m   Nr. section headers\x1b[0m \u{2502}                1\n\
         \x1b[37mSection headers offset\x1b[0m \u{2502}            14864 B\n\
         \x1b[37m   Section header size\x1b[0m \u{2502}               64 B\n",
        LINE.repeat(3),
        LINE.repeat(60),
    );
    assert_eq!(header(&image(2)), expected);
}

#[test]
fn odd_values_of_the_file_header_are_marked() {
    let mut elf = image(7);
    elf.header.ident_data = 9;
    elf.header.e_entry = 0;
    elf.interpreter = None;
    elf.soname = Some("libthing.so.1".to_string());
    let text = header(&elf);
    assert!(text.contains("\u{2502} \x1b[93m[warning: invalid ident class]\x1b[0m\n"));
    assert!(text.contains("\u{2502} \x1b[93m[warning: invalid ident data]\x1b[0m\n"));
    assert!(text.contains("\u{2502} \x1b[90m0x00000000'00000000\n"));
    assert!(text.contains("SO name\x1b[0m \u{2502} libthing.so.1\n"));
    assert!(!text.contains("Interpreter"));
    let mut elf = image(1);
    elf.header.ident_data = 2;
    let text = header(&elf);
    assert!(text.contains("\u{2502} ELF32\n"));
    assert!(text.contains("\u{2502} Big-endian\n"));
    assert!(text.contains("\u{2502} 0x0000'1040\n"));
}

#[test]
fn file_types_are_described() {
    assert_eq!(file_type(0), "None");
    assert_eq!(file_type(1), "Relocatable");
    assert_eq!(file_type(2), "Executable");
    assert_eq!(file_type(3), "Shared object");
    assert_eq!(file_type(4), "Core file");
    assert_eq!(file_type(5), "Unknown (0x0005)");
    assert_eq!(file_type(0xfe00), "OS-specific (0xfe00)");
    assert_eq!(file_type(0xfefe), "OS-specific (0xfefe)");
    assert_eq!(file_type(0xfeff), "Unknown (0xfeff)");
    assert_eq!(file_type(0xff00), "Processor-specific (0xff00)");
    assert_eq!(file_type(0xfffe), "Processor-specific (0xfffe)");
    assert_eq!(file_type(0xffff), "Unknown (0xffff)");
}

#[test]
fn segment_types_have_short_names() {
    assert_eq!(short_segment_type("PT_LOAD"), "LOAD");
    assert_eq!(short_segment_type("PT_GNU_EH_FRAME"), "GNU_EH_FRAME");
    assert_eq!(short_segment_type("UNKNOWN_PT"), "\x1b[93m[unknown]\x1b[0m");
    assert_eq!(short_segment_type("OTHER"), "OTHER");
}

#[test]
fn lists_the_program_headers() {
    let expected = format!(
        "\x1b[1;96m{}\u{2524} PROGRAM HEADERS (2) \u{251c}{}\x1b[0m\n\
         \x1b[37m        Type \x1b[97m\u{2502} \x1b[37mVirt. addr.          \x1b[97m\u{2502} \x1b[37mPhys. addr.          \x1b[97m\u{2502} \x1b[37mFlags   \x1b[0m\n\
         \x1b[37m             \x1b[97m\u{2502} \x1b[37mMemory size          \x1b[97m\u{2502} \x1b[37mIn-ELF size         \x1b[0m \x1b[97m\u{2502} \x1b[37mIn-ELF off.         \n\
         \x1b[97m{}\u{253c}{}\u{253c}{}\u{253c}\x1b[0m\n\
         \x20       LOAD \x1b[97m\u{2502}\x1b[0m 0x00000000'00001000 \x1b[97m\u{2576}\u{253c}>\x1b[0m 0x00000000'00001000\n\
         \x1b[4m             \x1b[97m\u{2502}\x1b[0;4m 0x00000000'00000300  \x1b[97m\u{2502}\x1b[0;4m  0x00000000'00000200\x1b[0m\n\
         \x1b[93m[unknown]\x1b[0m \x1b[97m\u{2502}\x1b[0m 0x00000000'00000000 \x1b[97m\u{2576}\u{253c}>\x1b[0m 0x00000000'00000000\n\
         \x1b[4m             \x1b[97m\u{2502}\x1b[0;4m 0x00000000'00000000  \x1b[97m\u{2502}\x1b[0;4m  0x00000000'00000000\x1b[0m\n",
        LINE.repeat(3),
        LINE.repeat(51),
        LINE.repeat(13),
        LINE.repeat(22),
        LINE.repeat(22),
    );
    assert_eq!(program_headers(&image(2)), expected);
}

#[test]
fn a_32_bit_image_has_narrow_columns() {
    let text = program_headers(&image(1));
    assert!(text.contains("\x1b[37mVirt. addr.  \x1b[97m"));
    assert!(text.contains(&format!("\u{253c}{}\u{253c}", LINE.repeat(14))));
    assert!(text.contains(" 0x0000'1000 "));
}

#[test]
fn the_summary_holds_the_three_views() {
    let elf = image(2);
    let sizes =
        vec![elf_info::print::SizeText { plain: "32 B".to_string(), column: "    32 B  ".to_string() }];
    assert_eq!(
        summary(&elf, &sizes),
        format!("{}\n{}\n{}", header(&elf), program_headers(&elf), all_sections(&elf, &sizes))
    );
}
