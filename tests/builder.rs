use ptree::TreeBuilder;

#[test]
fn empty() {
    let tree = TreeBuilder::new("test".to_string()).build();
    assert_eq!(&tree.text, "test");
    assert_eq!(tree.children.len(), 0);
}

#[test]
fn single_child() {
    let tree = TreeBuilder::new("test".to_string())
        .add_empty_child("test_two".to_string())
        .build();

    assert_eq!(&tree.text, "test");
    assert_eq!(tree.children.len(), 1);
    assert_eq!(&tree.children[0].text, "test_two");
}

#[test]
fn many_children_flat() {
    let mut builder = TreeBuilder::new("test".to_string());
    let n = 10;
    for i in 0..n {
        builder.add_empty_child(format!("test {}", i));
    }
    let tree = builder.build();

    assert_eq!(&tree.text, "test");
    assert_eq!(tree.children.len(), n);
    for i in 0..n {
        assert_eq!(tree.children[i].text, format!("test {}", i));
    }
}

#[test]
fn many_children_nested() {
    let mut builder = TreeBuilder::new("test".to_string());
    let n = 10;
    for i in 0..n {
        builder.begin_child(format!("test {}", i));
    }
    for _ in 0..n {
        builder.end_child();
    }
    let tree = builder.build();

    assert_eq!(&tree.text, "test");

    let mut item = tree;
    for _ in 0..n {
        assert_eq!(item.children.len(), 1);
        item = item.children[0].clone();
    }

    assert_eq!(item.children.len(), 0);
}

#[test]
fn builder_nested_and_flat_children() {
    let tree = TreeBuilder::new("tree".to_string())
        .begin_child("branch".to_string())
        .add_empty_child("leaf".to_string())
        .end_child()
        .add_empty_child("empty branch".to_string())
        .build();

    assert_eq!(tree.text, "tree");
    assert_eq!(tree.children.len(), 2);
    assert_eq!(tree.children[0].text, "branch");
    assert_eq!(tree.children[0].children.len(), 1);
    assert_eq!(tree.children[0].children[0].text, "leaf");
    assert_eq!(tree.children[1].text, "empty branch");
    assert_eq!(tree.children[1].children.len(), 0);
}

#[test]
fn builder_build_twice_and_continue() {
    let mut builder = TreeBuilder::new("root".to_string());
    builder.add_empty_child("a".to_string());
    let first = builder.build();
    builder.add_empty_child("b".to_string());
    let second = builder.build();

    assert_eq!(first.children.len(), 1);
    assert_eq!(second.children.len(), 2);
    assert_eq!(second.children[1].text, "b");
}

#[test]
fn clone_copies_whole_tree() {
    let tree = TreeBuilder::new("a".to_string())
        .begin_child("b".to_string())
        .add_empty_child("c".to_string())
        .end_child()
        .build();
    let copy = tree.clone();
    assert_eq!(copy.text, "a");
    assert_eq!(copy.children[0].text, "b");
    assert_eq!(copy.children[0].children[0].text, "c");
}
