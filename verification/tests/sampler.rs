use issue_load::error::Error;
use issue_load::sampler::{chance_admits, get_item_chance, get_random_item, item_at};

#[test]
fn sample_of_an_empty_collection_is_absent() {
    let empty: Vec<u32> = Vec::new();
    for chance in 0..=100 {
        for _ in 0..20 {
            assert_eq!(get_random_item(&empty, chance), Ok(None));
        }
    }
}

#[test]
fn sample_refuses_a_chance_above_one_hundred() {
    let items = vec![1, 2, 3];
    assert_eq!(get_random_item(&items, 101), Err(Error::InvalidParameter));
    assert_eq!(get_random_item(&items, u32::MAX), Err(Error::InvalidParameter));
    let empty: Vec<u32> = Vec::new();
    assert_eq!(get_random_item(&empty, 101), Err(Error::InvalidParameter));
    assert_eq!(get_item_chance(101), Err(Error::InvalidParameter));
}

#[test]
fn sample_at_full_chance_always_gives_an_item() {
    let items = vec![10, 20, 30];
    for _ in 0..500 {
        let picked = get_random_item(&items, 100).unwrap();
        assert!(matches!(picked, Some(item) if items.contains(item)));
    }
    for _ in 0..500 {
        assert_eq!(get_item_chance(100), Ok(true));
    }
}

#[test]
fn sample_gives_only_items_of_the_collection() {
    let items = vec![4, 8, 15, 16, 23, 42];
    for _ in 0..1000 {
        if let Some(item) = get_random_item(&items, 60).unwrap() {
            assert!(items.contains(item));
        }
    }
}

#[test]
fn sample_reaches_every_item() {
    let items = vec![0usize, 1, 2, 3];
    let mut seen = [false; 4];
    for _ in 0..2000 {
        if let Some(item) = get_random_item(&items, 100).unwrap() {
            seen[*item] = true;
        }
    }
    assert_eq!(seen, [true; 4]);
}

#[test]
fn sample_is_absent_about_as_often_as_the_chance_says() {
    let items = vec![1, 2, 3];
    let trials = 20000;
    for chance in [0u32, 25, 50, 75, 100] {
        let mut absent = 0;
        for _ in 0..trials {
            if get_random_item(&items, chance).unwrap().is_none() {
                absent += 1;
            }
        }
        let observed = f64::from(absent) / f64::from(trials);
        let expected = f64::from(100 - chance) / 100.0;
        assert!((observed - expected).abs() < 0.03);
    }
}

#[test]
fn chance_admits_a_draw_up_to_the_chance() {
    assert!(chance_admits(30, 0));
    assert!(chance_admits(30, 30));
    assert!(!chance_admits(30, 31));
    assert!(!chance_admits(30, 100));
    assert!(chance_admits(0, 0));
    assert!(!chance_admits(0, 1));
    assert!(chance_admits(100, 100));
}

#[test]
fn item_at_gives_the_item_or_nothing() {
    let items = vec!['a', 'b', 'c'];
    assert_eq!(item_at(&items, 0), Some(&'a'));
    assert_eq!(item_at(&items, 2), Some(&'c'));
    assert_eq!(item_at(&items, 3), None);
    let empty: Vec<char> = Vec::new();
    assert_eq!(item_at(&empty, 0), None);
}
