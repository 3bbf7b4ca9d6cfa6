use disk_inventory::text::{
    chars_of, contains, is_whitespace, push_decimal, same_text, strip_path, trim,
};

#[test]
fn chars_of_a_text() {
    assert_eq!(chars_of(""), Vec::<char>::new());
    assert_eq!(chars_of("sda"), vec!['s', 'd', 'a']);
    assert_eq!(chars_of("é/ü"), vec!['é', '/', 'ü']);
}

#[test]
fn is_whitespace_agrees_with_unicode() {
    for code in 0u32..0x11_0000 {
        if let Some(c) = char::from_u32(code) {
            assert_eq!(is_whitespace(c), c.is_whitespace(), "U+{:04X}", code);
        }
    }
}

#[test]
fn trim_removes_surrounding_whitespace() {
    assert_eq!(trim("  WDC Red \t\n"), "WDC Red");
    assert_eq!(trim("WDC"), "WDC");
    assert_eq!(trim(""), "");
    assert_eq!(trim("   "), "");
    assert_eq!(trim(" a  b "), "a  b");
    assert_eq!(trim("\u{a0}\u{2003}Crucial MX500\u{3000}\u{85}"), "Crucial MX500");
    assert_eq!(trim("\u{200b}x\u{200b}"), "\u{200b}x\u{200b}");
}

#[test]
fn trim_agrees_with_the_standard_library() {
    let samples = [
        "",
        " ",
        "x",
        " x",
        "x ",
        "\t\r\n x y \u{b}\u{c}",
        "\u{1680}a\u{2028}\u{2029}",
        "\u{202f}\u{205f}ä ö\u{2000}\u{200a}",
        "Samsung based SSDs ",
        "  \u{feff}  ",
    ];
    for sample in samples {
        assert_eq!(trim(sample), sample.trim(), "{:?}", sample);
    }
}

#[test]
fn contains_finds_a_run_of_characters() {
    assert!(contains("Samsung based SSDs", "Samsung based"));
    assert!(contains("older Samsung based", "Samsung based"));
    assert!(contains("xSamsung basedx", "Samsung based"));
    assert!(!contains("Samsung  based", "Samsung based"));
    assert!(!contains("samsung based", "Samsung based"));
    assert!(!contains("Samsung base", "Samsung based"));
    assert!(!contains("", "Samsung based"));
    assert!(contains("", ""));
    assert!(contains("abc", ""));
    assert!(contains("abc", "abc"));
    assert!(!contains("abc", "abcd"));
    assert!(contains("aab", "ab"));
    assert!(contains("日本語", "本"));
}

#[test]
fn contains_agrees_with_the_standard_library() {
    let texts = ["", "a", "ab", "aab", "abab", "ba", "bbb", "Samsung based SSDs", "é/ü"];
    for hay in texts {
        for needle in texts {
            assert_eq!(contains(hay, needle), hay.contains(needle), "{:?} {:?}", hay, needle);
        }
    }
}

#[test]
fn same_text_compares_letter_for_letter() {
    assert!(same_text("", ""));
    assert!(same_text("ATA", "ATA"));
    assert!(!same_text("ATA", "ata"));
    assert!(!same_text("ATA", "ATA "));
    assert!(!same_text("ATA", "AT"));
    assert!(!same_text("SCSI", "SCSX"));
}

#[test]
fn strip_path_of_a_bare_name() {
    assert_eq!(strip_path("sda"), "sda");
    assert_eq!(strip_path("nvme0n1"), "nvme0n1");
    assert_eq!(strip_path(""), "");
}

#[test]
fn strip_path_of_a_path() {
    assert_eq!(strip_path("/dev/sda"), "sda");
    assert_eq!(strip_path("/dev/disk/by-id/ata-WDC"), "ata-WDC");
    assert_eq!(strip_path("dev/sdb"), "sdb");
    assert_eq!(strip_path("/sdc"), "sdc");
    assert_eq!(strip_path("/dev/"), "");
    assert_eq!(strip_path("/"), "");
    assert_eq!(strip_path("//x"), "x");
}

#[test]
fn strip_path_twice_is_once() {
    for name in ["sda", "/dev/sda", "/dev/", "a/b/c", ""] {
        let once = strip_path(name);
        assert_eq!(strip_path(&once), once);
        assert!(!once.contains('/'));
    }
}

#[test]
fn push_decimal_of_each_digit() {
    for d in 0u128..10 {
        let mut out = String::new();
        push_decimal(&mut out, d);
        assert_eq!(out, d.to_string());
    }
}

#[test]
fn push_decimal_appends_the_number() {
    let mut out = String::from("n=");
    push_decimal(&mut out, 0);
    assert_eq!(out, "n=0");
    push_decimal(&mut out, 10);
    assert_eq!(out, "n=010");
    push_decimal(&mut out, 907);
    assert_eq!(out, "n=010907");
}

#[test]
fn push_decimal_agrees_with_the_standard_library() {
    let numbers: [u128; 9] =
        [0, 9, 10, 99, 100, 1_000_204_886_016, u64::MAX as u128, 1 << 100, u128::MAX];
    for n in numbers {
        let mut out = String::new();
        push_decimal(&mut out, n);
        assert_eq!(out, n.to_string());
    }
}
