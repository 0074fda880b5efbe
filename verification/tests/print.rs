use elf_info::print::{hexdump, hexdump_off, print_header, Container, PairTable, SizePrint};
use elf_info::text::{parse_hex, same_text, starts_with, strip_prefix};

#[test]
fn an_address_is_split_in_two_halves() {
    let wide = SizePrint::new(Container::Big);
    assert_eq!(wide.hex(0).to_text(), "0x00000000'00000000");
    assert_eq!(wide.hex(0x1234_5678_9abc_def0).to_text(), "0x12345678'9abcdef0");
    assert_eq!(wide.hex(u64::MAX).to_text(), "0xffffffff'ffffffff");
    let narrow = SizePrint::new(Container::Little);
    assert_eq!(narrow.hex(0).to_text(), "0x0000'0000");
    assert_eq!(narrow.hex(0x0804_8000).to_text(), "0x0804'8000");
    assert_eq!(narrow.hex(0x1_0000_0000).to_text(), "0x10000'0000");
}

#[test]
fn a_field_s_name_is_aligned_to_the_right() {
    assert_eq!(PairTable(10).field("Symbol"), "\x1b[37m    Symbol\x1b[0m \u{2502} ");
    assert_eq!(PairTable(3).field("Version"), "\x1b[37mVersion\x1b[0m \u{2502} ");
    assert_eq!(PairTable(0).field(""), "\x1b[37m\x1b[0m \u{2502} ");
}

#[test]
fn a_heading_is_filled_up_with_a_rule() {
    let line = "\u{2500}";
    assert_eq!(
        print_header("ELF HEADER"),
        format!("\x1b[1;96m{}\u{2524} ELF HEADER \u{251c}{}\x1b[0m\n", line.repeat(3), line.repeat(60))
    );
    let long = "x".repeat(70);
    assert_eq!(
        print_header(&long),
        format!("\x1b[1;96m{}\u{2524} {long} \u{251c}\x1b[0m\n", line.repeat(3))
    );
    let longer = "x".repeat(90);
    assert_eq!(
        print_header(&longer),
        format!("\x1b[1;96m{}\u{2524} {longer} \u{251c}\x1b[0m\n", line.repeat(3))
    );
    // The rule is shortened by the bytes of the name, not by its characters.
    assert_eq!(
        print_header("\u{e9}"),
        format!("\x1b[1;96m{}\u{2524} \u{e9} \u{251c}{}\x1b[0m\n", line.repeat(3), line.repeat(68))
    );
}

const BAR: &str = "\x1b[97m\u{2502}\x1b[0m";
const CROSS: &str = "\x1b[90m\u{2573}\x1b[0m";
const DASH: &str = "\x1b[90m\u{2500}\x1b[0m";

#[test]
fn dumps_a_short_row() {
    let text = hexdump(b"AB\x00~\x7f ");
    let expected = format!(
        "\x1b[97m       0 \u{2502}\x1b[0m  41 42 00 7e 7f 20       {BAR}                          {BAR}AB{CROSS}~{CROSS} {DASH}{DASH}{BAR}{}{BAR}\n",
        DASH.repeat(8)
    );
    assert_eq!(text, expected);
}

#[test]
fn dumps_rows_of_sixteen() {
    let data: Vec<u8> = (0x30u8..0x30 + 20).collect();
    let text = hexdump(&data);
    let first = format!(
        "\x1b[97m       0 \u{2502}\x1b[0m  30 31 32 33 34 35 36 37 {BAR} 38 39 3a 3b 3c 3d 3e 3f  {BAR}01234567{BAR}89:;<=>?{BAR}\n"
    );
    let second = format!(
        "\x1b[97m      10 \u{2502}\x1b[0m  40 41 42 43             {BAR}                          {BAR}@ABC{}{BAR}{}{BAR}\n",
        DASH.repeat(4),
        DASH.repeat(8)
    );
    assert_eq!(text, format!("{first}{second}"));
    assert_eq!(hexdump(&data[..16]), first);
    assert_eq!(hexdump(&[]), "");
}

#[test]
fn a_dump_from_an_offset_keeps_the_halves_where_they_are() {
    let data: Vec<u8> = (0x30u8..0x30 + 20).collect();
    let text = hexdump_off(&data, 4);
    let expected = format!(
        "\x1b[97m       4 \u{2502}\x1b[0m  34 35 36 37 {BAR} 38 39 3a 3b 3c 3d 3e 3f 40 41 42 43  {BAR}4567{BAR}89:;<=>?@ABC{BAR}\n"
    );
    assert_eq!(text, expected);
    assert_eq!(hexdump_off(&data, 20), "");
    assert_eq!(hexdump_off(&data, 99), "");
    assert!(hexdump_off(&data, 19).starts_with("\x1b[97m      13 \u{2502}\x1b[0m  43   "));
}

#[test]
fn reads_hexadecimal_numbers() {
    assert_eq!(parse_hex("0"), Some(0));
    assert_eq!(parse_hex("ff"), Some(255));
    assert_eq!(parse_hex("0xFF"), Some(255));
    assert_eq!(parse_hex("0x0xAbCd"), Some(0xabcd));
    assert_eq!(parse_hex("+10"), Some(16));
    assert_eq!(parse_hex("0x+10"), Some(16));
    assert_eq!(parse_hex("ffffffffffffffff"), Some(u64::MAX));
    assert_eq!(parse_hex("00000000000000000000ff"), Some(255));
    assert_eq!(parse_hex("10000000000000000"), None);
    assert_eq!(parse_hex("fffffffffffffffff"), None);
    assert_eq!(parse_hex(""), None);
    assert_eq!(parse_hex("0x"), None);
    assert_eq!(parse_hex("+"), None);
    assert_eq!(parse_hex("-1"), None);
    assert_eq!(parse_hex("12g"), None);
    assert_eq!(parse_hex("+0x10"), None);
    assert_eq!(parse_hex("0X10"), None);
    assert_eq!(parse_hex(" 10"), None);
    assert_eq!(parse_hex("fffffffffffffffffffffg"), None);
}

#[test]
fn compares_texts() {
    assert!(same_text("", ""));
    assert!(same_text("abc", "abc"));
    assert!(!same_text("abc", "abd"));
    assert!(!same_text("abc", "ab"));
    assert!(starts_with("core::fmt", "core::"));
    assert!(starts_with("abc", ""));
    assert!(starts_with("abc", "abc"));
    assert!(!starts_with("ab", "abc"));
    assert!(!starts_with("xcore::", "core::"));
    assert!(starts_with("\u{e9}t\u{e9}", "\u{e9}t"));
    assert_eq!(strip_prefix("SHT_NOTE", "SHT_"), "NOTE");
    assert_eq!(strip_prefix("NOTE", "SHT_"), "NOTE");
    assert_eq!(strip_prefix("SHT_", "SHT_"), "");
    assert_eq!(strip_prefix("\u{e9}\u{e8}x", "\u{e9}"), "\u{e8}x");
}
