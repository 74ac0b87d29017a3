use unified_trading::large_pages::{enable_large_pages, log_large_page_result};
use unified_trading::quantity::{Real, Real32};
use unified_trading::sorting::{comes_first, sort_by_time, sort_names, DatedFile};
use unified_trading::str_map::StrMap;
use unified_trading::text::{
    char_is_white_space, ends_with, lines, parse_u64, split, splitn, starts_with, str_byte_len,
    str_eq, strip_prefix, trim, u64_to_string,
};
use unified_trading::threading::{pin_result, PinError, ThreadPriority};

#[test]
fn numbers_are_read_as_the_standard_library_reads_them() {
    for s in [
        "", "0", "00", "7", "+7", "-7", "+", "-", "18446744073709551615",
        "18446744073709551616", "99999999999999999999999", "1x", "x", " 1", "1 ", "+-1", "١",
    ] {
        match (parse_u64(s), s.parse::<u64>()) {
            (Ok(a), Ok(b)) => assert_eq!(a, b, "{:?}", s),
            (Err(e), Err(f)) => assert_eq!(e.message(), f.to_string(), "{:?}", s),
            (a, b) => panic!("{:?}: {:?} against {:?}", s, a, b),
        }
    }
    assert_eq!(u64_to_string(u64::MAX), u64::MAX.to_string());
    assert_eq!(u64_to_string(0), "0");
}

#[test]
fn white_space_is_that_of_the_standard_library() {
    for n in 0..0x11_0000u32 {
        if let Some(c) = char::from_u32(n) {
            assert_eq!(char_is_white_space(c), c.is_whitespace(), "{:x}", n);
        }
    }
}

#[test]
fn texts_are_cut_as_the_standard_library_cuts_them() {
    for s in ["", "a", "a,b,,c", ",", "ä,漢", "a\nb\r\nc\r", "\n", "\r\n", "a\n\nb", " \u{3000}x\t"] {
        assert_eq!(split(s, ','), s.split(',').collect::<Vec<_>>(), "{:?}", s);
        assert_eq!(splitn(s, 2, ','), s.splitn(2, ',').collect::<Vec<_>>(), "{:?}", s);
        assert_eq!(lines(s), s.lines().collect::<Vec<_>>(), "{:?}", s);
        assert_eq!(trim(s), s.trim(), "{:?}", s);
        assert_eq!(str_byte_len(s), s.len());
    }
    assert_eq!(strip_prefix("abc", "ab"), Some("c".to_string()));
    assert_eq!(strip_prefix("abc", "b"), None);
    assert!(starts_with("abc", "") && starts_with("abc", "abc") && !starts_with("ab", "abc"));
    assert!(ends_with("abc", "bc") && !ends_with("bc", "abc"));
    assert!(str_eq("ä", "ä") && !str_eq("a", "b") && !str_eq("a", "aa"));
}

#[test]
fn names_are_sorted_as_the_standard_library_sorts_them() {
    let v: Vec<String> =
        ["b", "a", "ab", "", "Z", "é", "z", "漢", "a"].iter().map(|s| s.to_string()).collect();
    let mut w = v.clone();
    w.sort();
    assert_eq!(sort_names(v), w);
    assert!(comes_first("a", "a") && comes_first("a", "b") && !comes_first("b", "a"));
}

#[test]
fn files_are_sorted_by_time_and_otherwise_stay() {
    let f = |m: u64, p: &str| DatedFile { modified: m, path: p.to_string(), size: 1 };
    let v = vec![f(3, "a"), f(1, "b"), f(3, "c"), f(2, "d")];
    let v = sort_by_time(v);
    let paths: Vec<&str> = v.iter().map(|x| x.path.as_str()).collect();
    assert_eq!(paths, vec!["b", "d", "a", "c"]);
}

#[test]
fn patterns_are_compared_as_numbers() {
    let xs = [
        0.0, -0.0, 1.0, -1.0, 1.5, f64::MIN_POSITIVE, f64::MAX, f64::MIN, f64::INFINITY,
        f64::NEG_INFINITY, f64::NAN, 5e-324, -5e-324, 1e300,
    ];
    for a in xs {
        for b in xs {
            let (p, q) = (Real::from_bits(a.to_bits()), Real::from_bits(b.to_bits()));
            assert_eq!(p.lt(&q), a < b, "{} < {}", a, b);
            assert_eq!(p.le(&q), a <= b, "{} <= {}", a, b);
            let m = f64::from_bits(p.min(&q).bits);
            assert!(m == a.min(b) || m.is_nan() && a.min(b).is_nan());
            let (r, s) = (Real32 { bits: (a as f32).to_bits() }, Real32 { bits: (b as f32).to_bits() });
            assert_eq!(r.lt(&s), (a as f32) < (b as f32));
            let m = f32::from_bits(r.max(&s).bits);
            let n = (a as f32).max(b as f32);
            assert!(m == n || m.is_nan() && n.is_nan());
        }
        let p = Real::from_bits(a.to_bits());
        assert_eq!(p.nan(), a.is_nan());
        assert_eq!(p.finite(), a.is_finite());
        assert_eq!(p.is_positive(), a > 0.0);
        assert_eq!(p.abs().bits, a.abs().to_bits());
        assert_eq!(p.neg().bits, (-a).to_bits());
        assert_eq!(p.to_usize(), a as usize);
    }
}

#[test]
fn a_map_keeps_its_order() {
    let mut m: StrMap<u32> = StrMap::new();
    m.insert("b".to_string(), 1);
    m.insert("a".to_string(), 2);
    m.insert("b".to_string(), 3);
    assert_eq!(m.len(), 2);
    assert_eq!(m.key_at(0), "b");
    assert_eq!(*m.val_at(0), 3);
    assert_eq!(m.get("a"), Some(&2));
    assert!(!m.contains_key("c"));
}

#[test]
fn test_enable_large_pages_returns_result() {
    let result = enable_large_pages();
    let (_level, text) = log_large_page_result(&result);
    assert!(!text.is_empty());
}

#[test]
fn priorities_have_nice_values() {
    assert_eq!(ThreadPriority::BelowNormal.nice_value(), 2);
    assert_eq!(ThreadPriority::Normal.nice_value(), 0);
    assert!(ThreadPriority::High.nice_value() < 0);
    assert!(pin_result(3, 0).is_ok());
    let text = "Failed to pin thread to core 3 (errno: -1)";
    assert_eq!(pin_result(3, -1).unwrap_err().to_text(), text);
    assert_eq!(PinError::for_core(3, -1).to_text(), text);
}
