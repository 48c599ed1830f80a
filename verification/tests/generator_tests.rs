use genact::generators::{choose_without_replacement, gen_hex_string, random_delay, random_index};

#[test]
fn test_choose_count_distinct_and_membership() {
    let cands = vec![
        "alpha".to_string(),
        "beta".to_string(),
        "gamma".to_string(),
        "delta".to_string(),
        "epsilon".to_string(),
    ];
    let picked = choose_without_replacement(&cands, 3);
    assert_eq!(picked.len(), 3);
    for p in &picked {
        assert!(cands.contains(p));
    }
    for i in 0..picked.len() {
        for j in i + 1..picked.len() {
            assert_ne!(picked[i], picked[j]);
        }
    }
}

#[test]
fn test_choose_whole_pool() {
    let cands = vec!["a".to_string(), "b".to_string(), "c".to_string()];
    let mut picked = choose_without_replacement(&cands, 3);
    picked.sort();
    assert_eq!(picked, cands);
}

#[test]
fn test_choose_clamps_oversized_request() {
    let cands = vec!["a".to_string(), "b".to_string(), "c".to_string()];
    let picked = choose_without_replacement(&cands, 10);
    assert_eq!(picked.len(), 3);
    for i in 0..picked.len() {
        for j in i + 1..picked.len() {
            assert_ne!(picked[i], picked[j]);
        }
    }
}

#[test]
fn test_choose_zero() {
    let cands = vec!["a".to_string()];
    let picked = choose_without_replacement(&cands, 0);
    assert!(picked.is_empty());
}

#[test]
fn test_hex_string_length_and_charset() {
    for len in [0usize, 1, 5, 64] {
        let s = gen_hex_string(len);
        assert_eq!(s.chars().count(), len);
        for c in s.chars() {
            assert!(c.is_ascii_hexdigit() && !c.is_ascii_uppercase());
        }
    }
}

#[test]
fn test_hex_strings_vary() {
    // 16^32 equal pairs by accident are not a realistic failure mode.
    let a = gen_hex_string(32);
    let b = gen_hex_string(32);
    let c = gen_hex_string(32);
    assert!(a != b || b != c);
}

#[test]
fn test_random_delay_range() {
    for _ in 0..1000 {
        let d = random_delay(100, 2000);
        assert!((100..2000).contains(&d));
    }
}

#[test]
fn test_random_delay_single_value_range() {
    // A one-value range leaves the draw no freedom.
    assert_eq!(random_delay(5, 6), 5);
}

#[test]
fn test_random_delay_roughly_uniform() {
    let mut buckets = [0u32; 8];
    let samples = 8000;
    for _ in 0..samples {
        let d = random_delay(0, 8);
        buckets[d as usize] += 1;
    }
    // Expected 1000 per bucket; allow a generous band around it.
    for count in buckets {
        assert!(count > 250, "bucket far below a uniform share: {count}");
        assert!(count < 4000, "bucket far above a uniform share: {count}");
    }
}

#[test]
fn test_random_index_bounds() {
    for _ in 0..200 {
        assert!(random_index(3) < 3);
    }
    assert_eq!(random_index(1), 0);
}
