use wowint::random::{
    get_random_integer, get_random_integer_between, get_random_integer_from_list,
};

#[test]
fn empty_candidate_list_returns_fallback_zero() {
    let empty: Vec<i32> = vec![];
    assert_eq!(get_random_integer_from_list(&empty), 0);
}

#[test]
fn singleton_list_returns_its_element() {
    let list = vec![7073];
    assert_eq!(get_random_integer_from_list(&list), 7073);
}

#[test]
fn drawn_element_comes_from_the_list() {
    let list = vec![1100, 1102, 1104, 1098, 1013];
    for _ in 0..50 {
        let drawn = get_random_integer_from_list(&list);
        assert!(list.contains(&drawn));
    }
}

#[test]
fn unit_range_pins_the_draw() {
    assert_eq!(get_random_integer_between(5, 6), 5);
    assert_eq!(get_random_integer_between(-3, -2), -3);
}

#[test]
fn bounded_draw_stays_in_range() {
    for _ in 0..50 {
        let drawn = get_random_integer_between(1048, 1090);
        assert!((1048..1090).contains(&drawn));
    }
}

#[test]
fn raw_draw_returns() {
    let _ = get_random_integer();
}
