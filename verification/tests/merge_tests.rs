use markdown_site::data::{merge_trees, DataTree};

fn obj(entries: Vec<(&str, DataTree)>) -> DataTree {
    DataTree::Object(entries.into_iter().map(|(k, v)| (k.to_string(), v)).collect())
}

fn get<'a>(v: &'a DataTree, key: &str) -> Option<&'a DataTree> {
    match v {
        DataTree::Object(es) => es.iter().find(|(k, _)| k == key).map(|(_, w)| w),
        _ => None,
    }
}

fn keys(v: &DataTree) -> Vec<String> {
    match v {
        DataTree::Object(es) => es.iter().map(|(k, _)| k.clone()).collect(),
        _ => Vec::new(),
    }
}

#[test]
fn merge_overwrite_scalar() {
    let a = obj(vec![("a", DataTree::Int(1))]);
    let b = obj(vec![("a", DataTree::Int(2))]);
    let m = merge_trees(&a, &b);
    assert_eq!(keys(&m), vec!["a".to_string()]);
    assert!(matches!(get(&m, "a"), Some(DataTree::Int(2))));
}

#[test]
fn merge_overwrite_nested() {
    let a = obj(vec![("a", obj(vec![("x", DataTree::Int(1))]))]);
    let b = obj(vec![("a", obj(vec![("y", DataTree::Int(2))]))]);
    let m = merge_trees(&a, &b);
    assert_eq!(keys(&m), vec!["a".to_string()]);
    let inner = get(&m, "a").unwrap();
    assert_eq!(keys(inner), vec!["x".to_string(), "y".to_string()]);
    assert!(matches!(get(inner, "x"), Some(DataTree::Int(1))));
    assert!(matches!(get(inner, "y"), Some(DataTree::Int(2))));
}

#[test]
fn merge_disjoint_keys_union_both_orders() {
    let a = obj(vec![("a", DataTree::Int(1))]);
    let b = obj(vec![("b", DataTree::Int(2))]);
    for m in [merge_trees(&a, &b), merge_trees(&b, &a)] {
        let mut ks = keys(&m);
        ks.sort();
        assert_eq!(ks, vec!["a".to_string(), "b".to_string()]);
        assert!(matches!(get(&m, "a"), Some(DataTree::Int(1))));
        assert!(matches!(get(&m, "b"), Some(DataTree::Int(2))));
    }
}

#[test]
fn merge_non_mapping_right_wins() {
    let a = obj(vec![("a", DataTree::Int(1))]);
    let b = DataTree::Text("x".to_string());
    let m = merge_trees(&a, &b);
    assert!(matches!(m, DataTree::Text(ref s) if s == "x"));
    let m2 = merge_trees(&b, &a);
    assert!(matches!(get(&m2, "a"), Some(DataTree::Int(1))));
}

#[test]
fn merge_scalar_into_mapping_key() {
    let a = obj(vec![("a", obj(vec![("x", DataTree::Int(1))]))]);
    let b = obj(vec![("a", DataTree::Int(7))]);
    let m = merge_trees(&a, &b);
    assert!(matches!(get(&m, "a"), Some(DataTree::Int(7))));
}
