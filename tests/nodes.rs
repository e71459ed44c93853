use oldies::{all_to_all_pairs, one_to_one_pairs, NestError, NodeCollection};

#[test]
fn test_node_collection() {
    let nodes = NodeCollection::new(vec![1, 2, 3, 4, 5]);
    assert_eq!(nodes.len(), 5);
    assert_eq!(nodes.first(), Some(1));
    assert_eq!(nodes.last(), Some(5));

    let slice = nodes.slice(1, 3);
    assert_eq!(slice.ids, vec![2, 3]);
}

#[test]
fn empty_collection_has_no_ends() {
    let nodes = NodeCollection::new(vec![]);
    assert!(nodes.is_empty());
    assert_eq!(nodes.len(), 0);
    assert_eq!(nodes.first(), None);
    assert_eq!(nodes.last(), None);
}

#[test]
fn slice_bounds_are_half_open() {
    let nodes = NodeCollection::new(vec![7, 8, 9]);
    assert_eq!(nodes.slice(0, 3).ids, vec![7, 8, 9]);
    assert!(nodes.slice(2, 2).is_empty());
    assert_eq!(nodes.slice(2, 3).into_ids(), vec![9]);
}

#[test]
fn all_to_all_is_source_major_and_skips_autapses() {
    let a = NodeCollection::new(vec![1, 2]);
    let b = NodeCollection::new(vec![2, 3]);
    assert_eq!(all_to_all_pairs(&a, &b, false), vec![(1, 2), (1, 3), (2, 3)]);
    assert_eq!(all_to_all_pairs(&a, &b, true), vec![(1, 2), (1, 3), (2, 2), (2, 3)]);
    assert_eq!(all_to_all_pairs(&a, &NodeCollection::new(vec![]), true), vec![]);
}

#[test]
fn one_to_one_pairs_by_position() {
    let a = NodeCollection::new(vec![1, 2, 3]);
    let b = NodeCollection::new(vec![4, 5, 6]);
    assert_eq!(one_to_one_pairs(&a, &b).unwrap(), vec![(1, 4), (2, 5), (3, 6)]);
}

#[test]
fn one_to_one_refuses_unequal_populations() {
    let a = NodeCollection::new(vec![1, 2, 3]);
    let b = NodeCollection::new(vec![4, 5]);
    assert!(matches!(one_to_one_pairs(&a, &b), Err(NestError::ConnectionError(_))));
}
