use iflist::addr::SockaddrData;
use iflist::list::IfAddrs;
use iflist::list::IfNode;
use iflist::record::IfRecord;

fn named(name: &str) -> IfRecord {
    IfRecord { name: name.to_string(), addr: None, alt_addr: None }
}

fn node(name: &str, next: Option<usize>) -> IfNode {
    IfNode { rec: named(name), next }
}

fn names_of(handle: &IfAddrs) -> Vec<String> {
    let mut out = Vec::new();
    let mut it = handle.iter();
    while let Some(rec) = it.next() {
        out.push(rec.name.clone());
    }
    out
}

#[test]
fn empty_list_yields_zero() {
    let handle = IfAddrs::new(Vec::new(), None).unwrap();
    assert_eq!(handle.count_records(), 0);
    assert!(handle.collect_records().is_empty());
    let mut it = handle.iter();
    assert!(it.next().is_none());
}

#[test]
fn three_records_in_order() {
    let nodes = vec![node("a", Some(1)), node("b", Some(2)), node("c", None)];
    let handle = IfAddrs::new(nodes, Some(0)).unwrap();
    assert_eq!(names_of(&handle), vec!["a", "b", "c"]);
    assert_eq!(handle.count_records(), 3);
    assert_eq!(handle.collect_records(), vec![named("a"), named("b"), named("c")]);
    assert_eq!(handle.collect_records(), handle.collect_records());
}

#[test]
fn repeated_iteration_yields_same_sequence() {
    let nodes = vec![node("a", Some(1)), node("b", Some(2)), node("c", None)];
    let handle = IfAddrs::new(nodes, Some(0)).unwrap();
    let first = names_of(&handle);
    let second = names_of(&handle);
    assert_eq!(first, second);
    assert_eq!(first, vec!["a", "b", "c"]);
}

#[test]
fn count_follows_reachability_from_head() {
    let nodes = vec![node("a", Some(1)), node("b", Some(2)), node("c", None)];
    let handle = IfAddrs::new(nodes, Some(1)).unwrap();
    assert_eq!(handle.count_records(), 2);
    assert_eq!(names_of(&handle), vec!["b", "c"]);
}

#[test]
fn no_head_means_no_records_even_with_nodes() {
    let nodes = vec![node("a", None)];
    let handle = IfAddrs::new(nodes, None).unwrap();
    assert_eq!(handle.count_records(), 0);
}

#[test]
fn new_rejects_self_link() {
    let nodes = vec![node("a", Some(0))];
    assert!(IfAddrs::new(nodes, Some(0)).is_none());
}

#[test]
fn new_rejects_backward_link() {
    let nodes = vec![node("a", Some(1)), node("b", Some(0))];
    assert!(IfAddrs::new(nodes, Some(0)).is_none());
}

#[test]
fn new_rejects_link_out_of_bounds() {
    let nodes = vec![node("a", Some(5))];
    assert!(IfAddrs::new(nodes, Some(0)).is_none());
}

#[test]
fn new_rejects_head_out_of_bounds() {
    let nodes = vec![node("a", None)];
    assert!(IfAddrs::new(nodes, Some(1)).is_none());
}

#[test]
fn exhausted_iterator_stays_exhausted() {
    let nodes = vec![node("a", None)];
    let handle = IfAddrs::new(nodes, Some(0)).unwrap();
    let mut it = handle.iter();
    assert!(it.next().is_some());
    assert!(it.next().is_none());
    assert!(it.next().is_none());
}

#[test]
fn records_carry_their_fields_through_iteration() {
    let rec = IfRecord {
        name: "eth0".to_string(),
        addr: Some(SockaddrData { family: 2, data: vec![0, 80, 10, 0, 0, 1] }),
        alt_addr: None,
    };
    let handle = IfAddrs::new(vec![IfNode { rec, next: None }], Some(0)).unwrap();
    let out = handle.collect_records();
    assert_eq!(out.len(), 1);
    assert_eq!(out[0].name, "eth0");
    let addr = out[0].addr.as_ref().unwrap();
    assert_eq!(addr.family, 2);
    assert_eq!(addr.data, vec![0, 80, 10, 0, 0, 1]);
    assert!(out[0].alt_addr.is_none());
}
