use std::cell::Cell;

use ris_engine::decimal::decimal_string;
use ris_engine::decimal::push_decimal;
use ris_engine::io;
use ris_engine::reflection::trim_type_name;
use ris_engine::repeat::repeat;
use ris_engine::ris_error::new_err;
use ris_engine::ris_error::result_err;
use ris_engine::ris_error::unroll;
use ris_engine::ris_error::unroll_option;
use ris_engine::ris_error::OptionError;
use ris_engine::ris_error::RisError;
use ris_engine::ris_error::SourceError;
use ris_engine::testing;
use ris_engine::testing::bytes_eq;
use ris_engine::testing::bytes_eq_detailed;
use ris_engine::testing::duplicate;
use ris_engine::testing::miri_choose;
use ris_engine::testing::BytesEqualResult;
use ris_engine::vec::fast_copy;

fn source(display: &str, debug: &str) -> SourceError {
    SourceError {
        display: String::from(display),
        debug: String::from(debug),
    }
}

#[test]
fn decimal_renders_like_format() {
    for n in [0u64, 7, 9, 10, 42, 100, 1234567890, u64::MAX] {
        assert_eq!(decimal_string(n), format!("{}", n));
    }
    let mut s = String::from("x=");
    push_decimal(&mut s, 305);
    assert_eq!(s, "x=305");
}

#[test]
fn ris_error_accessors() {
    let e = RisError::new(None, String::from("boom"), String::from("a.rs"), 12);
    assert_eq!(e.message(), "boom");
    assert_eq!(e.file(), "a.rs");
    assert_eq!(*e.line(), 12);
    assert!(e.source().is_none());
    let s = RisError::new(Some(source("inner", "Inner")), String::from("m"), String::from("f"), 1);
    assert_eq!(s.source().map(|x| x.display.clone()), Some(String::from("inner")));
}

#[test]
fn ris_error_display_without_source() {
    let e = RisError::new(None, String::from("boom"), String::from("src/a.rs"), 42);
    assert_eq!(e.to_display_string(), "\"boom\", src/a.rs:42");
}

#[test]
fn ris_error_display_with_source() {
    let e = RisError::new(
        Some(source("disk full", "Os { code: 28 }")),
        String::from("failed to write"),
        String::from("src/b.rs"),
        7,
    );
    assert_eq!(e.to_display_string(), "disk full\n    \"failed to write\", src/b.rs:7");
}

#[test]
fn ris_error_debug() {
    let e = RisError::new(None, String::from("boom"), String::from("f.rs"), 3);
    assert_eq!(
        e.to_debug_string(),
        "RisError {inner: None, message: boom, file: f.rs, line: 3}"
    );
    let s = RisError::new(Some(source("d", "Dbg")), String::from("m"), String::from("g.rs"), 10);
    assert_eq!(
        s.to_debug_string(),
        "RisError {inner: Some (Dbg), message: m, file: g.rs, line: 10}"
    );
}

#[test]
fn option_error_texts() {
    assert_eq!(OptionError.to_display_string(), "Option was None");
    let s = OptionError.to_source();
    assert_eq!(s.display, "Option was None");
    assert_eq!(s.debug, "OptionError");
}

#[test]
fn unroll_keeps_value_or_wraps_error() {
    let ok: Result<u8, SourceError> = Ok(5);
    assert_eq!(unroll(ok, String::from("m"), String::from("f"), 1).ok(), Some(5));
    let err: Result<u8, SourceError> = Err(source("cause", "Cause"));
    let e = unroll(err, String::from("failed to open"), String::from("x.rs"), 9).err().unwrap();
    assert_eq!(e.to_display_string(), "cause\n    \"failed to open\", x.rs:9");
}

#[test]
fn unroll_option_wraps_none() {
    assert_eq!(unroll_option(Some(3), String::from("m"), String::from("f"), 1).ok(), Some(3));
    let e = unroll_option::<u8>(None, String::from("no value"), String::from("y.rs"), 2)
        .err()
        .unwrap();
    assert_eq!(e.to_display_string(), "Option was None\n    \"no value\", y.rs:2");
}

#[test]
fn new_err_and_result_err() {
    let e = new_err(String::from("plain"), String::from("z.rs"), 4);
    assert!(e.source().is_none());
    assert_eq!(e.to_display_string(), "\"plain\", z.rs:4");
    let r: Result<(), RisError> = result_err(String::from("bad"), String::from("z.rs"), 5);
    assert_eq!(r.err().unwrap().to_display_string(), "\"bad\", z.rs:5");
}

#[test]
fn seek_passes_position_through() {
    assert_eq!(ris_engine::file::seek(Ok(17), String::from("f"), 1).ok(), Some(17));
    let e = ris_engine::file::seek(Err(source("bad seek", "B")), String::from("f.rs"), 2).err().unwrap();
    assert_eq!(e.message(), "failed to seek");
}

#[test]
fn read_checks_length() {
    assert_eq!(ris_engine::file::read(Ok(4), 4, String::from("f"), 1).ok(), Some(4));
    let e = ris_engine::file::read(Ok(2), 4, String::from("r.rs"), 8).err().unwrap();
    assert_eq!(e.message(), "expected to read 4 bytes but actually read 2");
    assert!(e.source().is_none());
    let e = ris_engine::file::read(Err(source("eof", "Eof")), 4, String::from("r.rs"), 9).err().unwrap();
    assert_eq!(e.message(), "failed to read");
    assert!(e.source().is_some());
}

#[test]
fn write_checks_length() {
    assert_eq!(ris_engine::file::write(Ok(10), 10, String::from("f"), 1).ok(), Some(10));
    let e = ris_engine::file::write(Ok(3), 10, String::from("w.rs"), 8).err().unwrap();
    assert_eq!(e.message(), "expected to write 10 bytes but actually wrote 3");
    let e = ris_engine::file::write(Err(source("full", "Full")), 10, String::from("w.rs"), 9).err().unwrap();
    assert_eq!(e.message(), "failed to write");
    assert_eq!(*e.line(), 9);
}

#[test]
fn bytes_equal_compares_contents() {
    assert!(ris_engine::file::bytes_equal(&[1, 2, 3], &[1, 2, 3]));
    assert!(!ris_engine::file::bytes_equal(&[1, 2, 3], &[1, 2, 4]));
    assert!(!ris_engine::file::bytes_equal(&[1, 2], &[1, 2, 3]));
    assert!(ris_engine::file::bytes_equal(&[], &[]));
    assert!(io::bytes_equal(&[9, 8], &[9, 8]));
    assert!(!io::bytes_equal(&[9, 8], &[8, 9]));
    assert!(!io::bytes_equal(&[9], &[]));
}

#[test]
fn bytes_eq_detailed_outcomes() {
    assert!(bytes_eq_detailed(&[1, 2, 3], &[1, 2, 3]) == BytesEqualResult::Equal);
    assert!(bytes_eq_detailed(&[1, 2], &[1, 2, 3]) == BytesEqualResult::DifferentLengths);
    assert!(bytes_eq_detailed(&[1, 5, 3, 7], &[1, 2, 3, 4]) == BytesEqualResult::DifferendAt(1));
    assert!(bytes_eq_detailed(&[1, 2, 3, 4], &[1, 5, 3, 7]) == BytesEqualResult::DifferendAt(1));
    assert!(bytes_eq(&[4, 4], &[4, 4]));
    assert!(!bytes_eq(&[4, 4], &[4, 5]));
}

#[test]
fn duplicate_and_miri_choose() {
    let v = vec![1, 2, 3];
    assert_eq!(duplicate(&v), v);
    assert_eq!(miri_choose(1000, 10), 1000);
}

#[test]
fn repeat_runs_each_iteration_in_order() {
    let seen = Cell::new(0usize);
    let sum = Cell::new(0usize);
    testing::repeat(5, |i| {
        assert_eq!(i, seen.get());
        seen.set(seen.get() + 1);
        sum.set(sum.get() + i);
    });
    assert_eq!(seen.get(), 5);
    assert_eq!(sum.get(), 10);
}

#[test]
fn repeat_runs_given_number_of_times() {
    let count = Cell::new(0u32);
    repeat(7, || count.set(count.get() + 1));
    assert_eq!(count.get(), 7);
    repeat(0, || count.set(count.get() + 1));
    assert_eq!(count.get(), 7);
}

#[test]
fn trim_type_name_takes_last_piece() {
    assert_eq!(trim_type_name("alloc::vec::Vec<u8>"), "Vec<u8>");
    assert_eq!(trim_type_name("ris_util::error::RisError"), "RisError");
    assert_eq!(trim_type_name("u32"), "u32");
    assert_eq!(trim_type_name(""), "");
    assert_eq!(trim_type_name("a::"), "");
    assert_eq!(trim_type_name("a:::b"), ":b");
    assert_eq!(trim_type_name("alloc::string::String"), "String");
}

#[test]
fn trim_type_name_twice_is_once() {
    for name in ["core::option::Option<i32>", "x::y", "plain", "::"] {
        let once = trim_type_name(name);
        assert_eq!(trim_type_name(once), once);
        assert_eq!(name.split("::").last().unwrap(), once);
    }
}

#[test]
fn fast_copy_replaces_contents() {
    let mut v = vec![9, 9, 9, 9, 9];
    fast_copy(&mut v, &[1, 2, 3]);
    assert_eq!(v, vec![1, 2, 3]);
    let mut w: Vec<u8> = Vec::new();
    fast_copy(&mut w, &[7, 8]);
    assert_eq!(w, vec![7, 8]);
}

#[test]
fn repeat_runs_a_fresh_clone_each_time() {
    let runs = Cell::new(0u32);
    let mut local = 0u32;
    let counter = &runs;
    repeat(3, move || {
        local += 1;
        assert_eq!(local, 1);
        counter.set(counter.get() + 1);
    });
    assert_eq!(runs.get(), 3);

    let seen = std::cell::RefCell::new(Vec::new());
    let log = &seen;
    let mut calls = 0usize;
    testing::repeat(4, move |i| {
        calls += 1;
        log.borrow_mut().push((i, calls));
    });
    assert_eq!(*seen.borrow(), vec![(0, 1), (1, 1), (2, 1), (3, 1)]);
}
