use octizys::generic_tree::{leaf, node, tree_difference_message, Tree, TreeCompareError};

fn text_tree(t: &Tree<&str>) -> Tree<String> {
    node(
        t.value().to_string(),
        t.children().iter().map(text_tree).collect(),
    )
}

#[test]
fn three_elements() {
    let tree = node("1", vec![leaf("2"), leaf("3")]);
    let result = text_tree(&tree).to_string_with();
    let expected = "(1\n  (2)\n  (3)\n)";
    assert_eq!(result, expected);
}

#[test]
fn seven_elements() {
    let tree = node(
        "1",
        vec![
            node("2", vec![leaf("3"), leaf("4")]),
            node("5", vec![leaf("6"), leaf("7")]),
        ],
    );
    let result = text_tree(&tree).to_string_with();
    let expected = "(1\n  (2\n    (3)\n    (4)\n  )\n  (5\n    (6)\n    (7)\n  )\n)";
    assert_eq!(result, expected);
}

#[test]
fn find_failure() {
    let tree1 = node(
        "1",
        vec![
            node("2", vec![leaf("3"), leaf("4")]),
            node("5", vec![leaf("6"), leaf("7")]),
        ],
    );
    let tree2 = node(
        "1",
        vec![
            node("2", vec![leaf("3"), leaf("4")]),
            node("3", vec![leaf("6"), leaf("7")]),
        ],
    );
    let left = text_tree(&tree1);
    let right = text_tree(&tree2);
    let message = tree_difference_message(&left, &right).expect("the trees differ");
    assert_eq!(
        message,
        "The three are different!:\n left:\n(5\n  (6)\n  (7)\n)\nright:\n(3\n  (6)\n  (7)\n)"
    );
}

#[test]
fn equal_trees_compare_ok() {
    let a = node(1u64, vec![leaf(2u64), node(3u64, vec![leaf(4u64)])]);
    let b = node(1u64, vec![leaf(2u64), node(3u64, vec![leaf(4u64)])]);
    assert!(a.compare(&b).is_ok());
}

#[test]
fn missing_branches_are_reported() {
    let a = node(1u64, vec![leaf(2u64)]);
    let b = node(1u64, vec![leaf(2u64), leaf(9u64)]);
    match a.compare(&b) {
        Err(TreeCompareError::MissingLeftBranch(t)) => {
            assert_eq!(*t.value(), 9u64)
        }
        _ => panic!("expected a missing left branch"),
    }
    match b.compare(&a) {
        Err(TreeCompareError::MissingRightBranch(t)) => {
            assert_eq!(*t.value(), 9u64)
        }
        _ => panic!("expected a missing right branch"),
    }
}

#[test]
fn comparison_is_symmetric() {
    let a = node(1u64, vec![node(2u64, vec![leaf(3u64)]), leaf(4u64)]);
    let b = node(1u64, vec![node(2u64, vec![leaf(5u64)]), leaf(4u64)]);
    let c = node(1u64, vec![node(2u64, vec![leaf(3u64)]), leaf(4u64)]);
    assert!(a.compare(&b).is_err());
    assert!(b.compare(&a).is_err());
    assert!(a.compare(&c).is_ok());
    assert!(c.compare(&a).is_ok());
}

#[test]
fn trees_of_texts_compare_by_their_chars() {
    let a = text_tree(&node("1", vec![leaf("2"), leaf("3")]));
    let b = text_tree(&node("1", vec![leaf("2"), leaf("3")]));
    let c = text_tree(&node("1", vec![leaf("2")]));
    assert!(a.compare_texts(&b).is_ok());
    assert_eq!(tree_difference_message(&a, &b), None);
    match a.compare_texts(&c) {
        Err(TreeCompareError::MissingRightBranch(t)) => assert_eq!(t.value(), "3"),
        _ => panic!("a missing right branch is expected"),
    }
    assert_eq!(
        tree_difference_message(&c, &a),
        Some(String::from("The three are different!:\n left:empty_tree \nright:(3)"))
    );
}
