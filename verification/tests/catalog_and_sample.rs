use preview_engine::catalog::{holds_text, Catalog};
use preview_engine::sample::{select_sample, SAMPLE_LIMIT};

fn catalog_of(ids: &[&str]) -> Catalog<u32> {
    let mut catalog = Catalog::new();
    let mut n = 0u32;
    for id in ids {
        catalog.insert(id.to_string(), n);
        n += 1;
    }
    catalog
}

#[test]
fn new_catalog_is_empty() {
    let catalog: Catalog<u32> = Catalog::new();
    assert_eq!(catalog.len(), 0);
    assert!(catalog.is_empty());
    assert!(!catalog.contains("a"));
    assert_eq!(catalog.get("a"), None);
    assert_eq!(catalog.position("a"), None);
    assert!(catalog.entry_at(0).is_none());
}

#[test]
fn insert_appends_new_identifiers_in_order() {
    let catalog = catalog_of(&["b", "a", "c"]);
    assert_eq!(catalog.len(), 3);
    assert!(!catalog.is_empty());
    assert_eq!(catalog.position("b"), Some(0));
    assert_eq!(catalog.position("a"), Some(1));
    assert_eq!(catalog.position("c"), Some(2));
    assert_eq!(catalog.get("a"), Some(&1));
    assert_eq!(catalog.entry_at(2).map(|e| e.id.as_str()), Some("c"));
    assert_eq!(catalog.entry_at(2).map(|e| e.record), Some(2));
    assert!(catalog.entry_at(3).is_none());
}

#[test]
fn insert_under_a_known_identifier_replaces_the_record() {
    let mut catalog = catalog_of(&["x", "y"]);
    assert_eq!(catalog.insert("z".to_string(), 7), None);
    assert_eq!(catalog.insert("x".to_string(), 9), Some(0));
    assert_eq!(catalog.len(), 3);
    assert_eq!(catalog.position("x"), Some(0));
    assert_eq!(catalog.get("x"), Some(&9));
    assert_eq!(catalog.get("y"), Some(&1));
    assert_eq!(catalog.get("z"), Some(&7));
    assert_eq!(catalog.insert("z".to_string(), 8), Some(7));
    assert_eq!(catalog.position("z"), Some(2));
    assert_eq!(catalog.len(), 3);
}

#[test]
fn contains_tells_identifiers_apart() {
    let catalog = catalog_of(&["smith2020", "smith2021"]);
    assert!(catalog.contains("smith2020"));
    assert!(catalog.contains("smith2021"));
    assert!(!catalog.contains("smith202"));
    assert!(!catalog.contains(""));
}

#[test]
fn select_lists_wanted_positions_in_catalog_order() {
    let catalog = catalog_of(&["a", "b", "c", "d"]);
    let wanted = vec!["d".to_string(), "b".to_string(), "missing".to_string()];
    assert_eq!(catalog.select(&wanted), vec![1, 3]);
    assert_eq!(catalog.select(&Vec::new()), Vec::<usize>::new());
    let all = vec!["a".to_string(), "b".to_string(), "c".to_string(), "d".to_string()];
    assert_eq!(catalog.select(&all), vec![0, 1, 2, 3]);
}

#[test]
fn holds_text_finds_exact_texts_only() {
    let texts = vec!["one".to_string(), "two".to_string()];
    assert!(holds_text(&texts, &"two".to_string()));
    assert!(!holds_text(&texts, &"tw".to_string()));
    assert!(!holds_text(&Vec::new(), &"one".to_string()));
}

#[test]
fn sample_of_an_empty_catalog_is_empty() {
    let catalog: Catalog<u32> = Catalog::new();
    assert_eq!(select_sample(&catalog), Vec::<String>::new());
}

#[test]
fn sample_limit_is_three() {
    assert_eq!(SAMPLE_LIMIT, 3);
}

#[test]
fn sample_prefers_the_priority_identifiers_in_priority_order() {
    let catalog = catalog_of(&[
        "zeta",
        "brown_v_board",
        "alpha",
        "vaswani_attention",
        "foucault_discipline",
        "omega",
    ]);
    assert_eq!(
        select_sample(&catalog),
        vec![
            "vaswani_attention".to_string(),
            "foucault_discipline".to_string(),
            "brown_v_board".to_string()
        ]
    );
}

#[test]
fn sample_is_the_same_for_any_catalog_order() {
    let first = catalog_of(&["vaswani_attention", "foucault_discipline", "brown_v_board", "x"]);
    let second = catalog_of(&["x", "brown_v_board", "foucault_discipline", "vaswani_attention"]);
    assert_eq!(select_sample(&first), select_sample(&second));
}

#[test]
fn sample_keeps_only_the_priority_identifiers_that_are_present() {
    let catalog = catalog_of(&["a", "brown_v_board", "b", "c", "d"]);
    assert_eq!(select_sample(&catalog), vec!["brown_v_board".to_string()]);
    let catalog = catalog_of(&["brown_v_board", "a", "vaswani_attention"]);
    assert_eq!(
        select_sample(&catalog),
        vec!["vaswani_attention".to_string(), "brown_v_board".to_string()]
    );
}

#[test]
fn sample_falls_back_to_the_first_entries() {
    let catalog = catalog_of(&["A", "B"]);
    assert_eq!(select_sample(&catalog), vec!["A".to_string(), "B".to_string()]);
    let catalog = catalog_of(&["e", "d", "c", "b", "a"]);
    assert_eq!(
        select_sample(&catalog),
        vec!["e".to_string(), "d".to_string(), "c".to_string()]
    );
    let catalog = catalog_of(&["only"]);
    assert_eq!(select_sample(&catalog), vec!["only".to_string()]);
    let catalog = catalog_of(&["one", "two", "three"]);
    assert_eq!(select_sample(&catalog).len(), 3);
}

#[test]
fn sample_is_bounded_and_within_the_catalog() {
    let names = ["k0", "k1", "k2", "k3", "k4", "k5", "k6", "vaswani_attention"];
    for size in 0..=names.len() {
        let catalog = catalog_of(&names[..size]);
        let sample = select_sample(&catalog);
        assert!(sample.len() <= SAMPLE_LIMIT);
        assert!(sample.len() <= size);
        for id in &sample {
            assert!(catalog.contains(id));
        }
        if size > 0 {
            assert!(!sample.is_empty());
        }
    }
}
