use ris_engine::bytes_report::bytes_eq_report;

fn expected_report(left: &[u8], right: &[u8], message: &str) -> Option<String> {
    if left.len() != right.len() {
        return Some(format!(
            "left and right have different lengths: {} != {} {}",
            left.len(),
            right.len(),
            message
        ));
    }
    let i = match (0..left.len()).find(|&j| left[j] != right[j]) {
        Some(i) => i,
        None => return None,
    };
    let min = i.saturating_sub(5);
    let max = usize::min(i + 6, left.len());

    let mut left_string = String::from("[");
    let mut diff_string = String::from(" ");
    let mut right_string = String::from("[");
    if min != 0 {
        left_string.push_str("...");
        diff_string.push_str("   ");
        right_string.push_str("...");
    }
    for j in min..max {
        left_string.push_str(&format!(", 0x{:02X}", left[j]));
        diff_string.push_str(if i == j { "  xxxx" } else { "      " });
        right_string.push_str(&format!(", 0x{:02X}", right[j]));
    }
    if max != left.len() {
        left_string.push_str(", ...");
        diff_string.push_str("     ");
        right_string.push_str(", ...");
    }
    left_string.push_str("]");
    diff_string.push_str(" ");
    right_string.push_str("]");

    Some(format!(
        "left and right differed at {}:\n{}\n{}\n{}\n{}",
        i, left_string, diff_string, right_string, message
    ))
}

#[test]
fn equal_bytes_report_nothing() {
    assert_eq!(bytes_eq_report(&[1, 2, 3], &[1, 2, 3], "m"), None);
    assert_eq!(bytes_eq_report(&[], &[], ""), None);
}

#[test]
fn different_lengths_are_reported() {
    assert_eq!(
        bytes_eq_report(&[1, 2], &[1, 2, 3], "when reading"),
        Some(String::from("left and right have different lengths: 2 != 3 when reading"))
    );
}

#[test]
fn difference_in_the_middle_is_marked() {
    let left: Vec<u8> = (0..20).collect();
    let mut right = left.clone();
    right[10] = 0xFF;
    let report = bytes_eq_report(&left, &right, "ctx").unwrap();
    let marker = format!("{}xxxx{}", " ".repeat(36), " ".repeat(36));
    let expected = format!(
        "left and right differed at 10:\n{}\n{}\n{}\nctx",
        "[..., 0x05, 0x06, 0x07, 0x08, 0x09, 0x0A, 0x0B, 0x0C, 0x0D, 0x0E, 0x0F, ...]",
        marker,
        "[..., 0x05, 0x06, 0x07, 0x08, 0x09, 0xFF, 0x0B, 0x0C, 0x0D, 0x0E, 0x0F, ...]",
    );
    assert_eq!(report, expected);
    assert_eq!(Some(report), expected_report(&left, &right, "ctx"));
}

#[test]
fn report_matches_the_window_rules() {
    let cases: Vec<(Vec<u8>, Vec<u8>)> = vec![
        (vec![0xAB], vec![0xCD]),
        (vec![1, 2, 3, 4], vec![1, 2, 3, 5]),
        (vec![9; 12], {
            let mut v = vec![9; 12];
            v[0] = 0;
            v
        }),
        ((0..30).collect(), {
            let mut v: Vec<u8> = (0..30).collect();
            v[29] = 0x7F;
            v
        }),
        ((0..30).collect(), {
            let mut v: Vec<u8> = (0..30).collect();
            v[5] = 0xEE;
            v[20] = 0xEE;
            v
        }),
    ];
    for (left, right) in cases {
        assert_eq!(bytes_eq_report(&left, &right, "note"), expected_report(&left, &right, "note"));
    }
}
