use fast_parser::ordering::order_by_index;

#[test]
fn results_in_row_order_stay_where_they_are() {
    assert_eq!(order_by_index(&vec![0, 1, 2, 3]), Some(vec![0, 1, 2, 3]));
    assert_eq!(order_by_index(&vec![0]), Some(vec![0]));
    assert_eq!(order_by_index(&vec![]), Some(vec![]));
}

#[test]
fn results_out_of_order_are_found_again() {
    let tags = vec![2, 0, 3, 1];
    let positions = order_by_index(&tags).unwrap();
    assert_eq!(positions, vec![1, 3, 0, 2]);
    let results = ["c", "a", "d", "b"];
    let restored: Vec<&str> = positions.iter().map(|&at| results[at]).collect();
    assert_eq!(restored, vec!["a", "b", "c", "d"]);
}

#[test]
fn every_arrival_order_gives_the_row_order() {
    let mut tags = vec![0usize, 1, 2, 3, 4];
    for round in 0..120 {
        tags.swap(round % 5, (round * 7 + 3) % 5);
        let positions = order_by_index(&tags).unwrap();
        for (row, at) in positions.iter().enumerate() {
            assert_eq!(tags[*at], row);
        }
    }
}

#[test]
fn an_index_beyond_the_results_is_refused() {
    assert_eq!(order_by_index(&vec![0, 1, 4]), None);
    assert_eq!(order_by_index(&vec![1]), None);
    assert_eq!(order_by_index(&vec![usize::MAX, 0]), None);
}

#[test]
fn an_index_that_occurs_twice_is_refused() {
    assert_eq!(order_by_index(&vec![0, 0]), None);
    assert_eq!(order_by_index(&vec![2, 1, 2]), None);
}
