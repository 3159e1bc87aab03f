use piscem::text::{contains_nul, join, parse_usize, to_decimal};

fn strings(items: &[&str]) -> Vec<String> {
    items.iter().map(|s| s.to_string()).collect()
}

#[test]
fn join_of_nothing_is_empty() {
    assert_eq!(join(&strings(&[]), ","), "");
}

#[test]
fn join_of_one_item_has_no_separator() {
    assert_eq!(join(&strings(&["a.fa"]), ","), "a.fa");
}

#[test]
fn join_puts_separator_between_neighbours() {
    assert_eq!(join(&strings(&["a.fa", "b.fa", "c.fa"]), ","), "a.fa,b.fa,c.fa");
    assert_eq!(join(&strings(&["x", "", "y"]), "::"), "x::::y");
}

#[test]
fn join_agrees_with_std() {
    let lists: Vec<Vec<String>> = vec![
        strings(&[]),
        strings(&[""]),
        strings(&["", ""]),
        strings(&["one"]),
        strings(&["one", "two"]),
        strings(&["ä", "ö", "ü", "ß"]),
    ];
    for list in &lists {
        assert_eq!(join(list, ","), list.join(","));
    }
}

#[test]
fn decimal_of_small_numbers() {
    assert_eq!(to_decimal(0), "0");
    assert_eq!(to_decimal(7), "7");
    assert_eq!(to_decimal(10), "10");
    assert_eq!(to_decimal(31), "31");
    assert_eq!(to_decimal(4096), "4096");
}

#[test]
fn decimal_agrees_with_std() {
    let samples: Vec<u64> = vec![0, 1, 9, 10, 11, 99, 100, 101, 2500, 5_000_000, u64::MAX - 1, u64::MAX];
    for n in samples {
        assert_eq!(to_decimal(n), n.to_string());
    }
}

#[test]
fn parse_reads_plain_numbers() {
    assert_eq!(parse_usize("0"), Some(0));
    assert_eq!(parse_usize("31"), Some(31));
    assert_eq!(parse_usize("007"), Some(7));
    assert_eq!(parse_usize("+19"), Some(19));
}

#[test]
fn parse_refuses_other_text() {
    assert_eq!(parse_usize(""), None);
    assert_eq!(parse_usize("+"), None);
    assert_eq!(parse_usize("-1"), None);
    assert_eq!(parse_usize(" 3"), None);
    assert_eq!(parse_usize("3 "), None);
    assert_eq!(parse_usize("3+"), None);
    assert_eq!(parse_usize("++3"), None);
    assert_eq!(parse_usize("1_000"), None);
    assert_eq!(parse_usize("0x1f"), None);
    assert_eq!(parse_usize("٣"), None);
}

#[test]
fn parse_refuses_what_does_not_fit() {
    let max = usize::MAX.to_string();
    assert_eq!(parse_usize(&max), Some(usize::MAX));
    let mut above = max.clone();
    above.push('0');
    assert_eq!(parse_usize(&above), None);
    assert_eq!(parse_usize("99999999999999999999999999999999"), None);
}

#[test]
fn parse_agrees_with_std() {
    let samples = [
        "", "+", "-", "0", "+0", "-0", "1", "12", "+12", "12a", "a12", " 12", "12 ", "0012",
        "18446744073709551615", "18446744073709551616", "+18446744073709551615", "1e3", "١٢",
    ];
    for s in samples {
        assert_eq!(parse_usize(s), s.parse::<usize>().ok(), "for {:?}", s);
    }
}

#[test]
fn parse_reads_back_what_decimal_writes() {
    let samples: Vec<u64> = vec![0, 5, 31, 1000, 123456789];
    for n in samples {
        assert_eq!(parse_usize(&to_decimal(n)), Some(n as usize));
    }
}

#[test]
fn nul_is_found_wherever_it_stands() {
    assert!(!contains_nul(""));
    assert!(!contains_nul("idx/out"));
    assert!(contains_nul("\0"));
    assert!(contains_nul("\0idx"));
    assert!(contains_nul("idx\0out"));
    assert!(contains_nul("idx\0"));
    assert!(!contains_nul("zero 0 is not NUL"));
}
