use elm_torture::search::iterate_till_some;

#[test]
fn first_hit_is_returned() {
    let items = vec![1, 2, 3, 4];
    let found = iterate_till_some(items.iter(), |n| if *n % 2 == 0 { Some(*n * 10) } else { None });
    assert_eq!(found, Some(20));
}

#[test]
fn no_hit_gives_none() {
    let items = vec![1, 3, 5];
    let found: Option<i32> = iterate_till_some(items.iter(), |n| if *n % 2 == 0 { Some(*n) } else { None });
    assert_eq!(found, None);
}

#[test]
fn empty_input_gives_none() {
    let items: Vec<i32> = Vec::new();
    let found: Option<i32> = iterate_till_some(items.into_iter(), Some);
    assert_eq!(found, None);
}

#[test]
fn items_after_the_hit_are_not_visited() {
    let visited = std::cell::Cell::new(0);
    let found = iterate_till_some(1..100, |n| {
        visited.set(visited.get() + 1);
        if n == 3 { Some("three") } else { None }
    });
    assert_eq!(found, Some("three"));
    assert_eq!(visited.get(), 3);
}
