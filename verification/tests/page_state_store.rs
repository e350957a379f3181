use perseus::state::page_state_store::{PageStateStore, PssContains};
use perseus::state::rx_state::Freeze;

#[derive(Clone, Debug, PartialEq)]
struct Name(String);

impl Freeze for Name {
    fn freeze(&self) -> String {
        format!("\"{}\"", self.0)
    }
}

#[test]
fn simple_store_read_after_write() {
    let mut pss = PageStateStore::new(2);
    assert!(pss.add_state("index", Name("x".to_string())));
    assert_eq!(pss.get_state("index"), Some(&Name("x".to_string())));
    assert_eq!(pss.contains("index"), PssContains::State);
    pss.add_head("index", "<title>i</title>".to_string());
    assert_eq!(pss.contains("index"), PssContains::All);
    assert_eq!(pss.get_head("index"), Some("<title>i</title>".to_string()));
}

#[test]
fn simple_store_evicts_and_keeps() {
    let mut pss = PageStateStore::new(1);
    assert!(pss.add_state("a", Name("a".to_string())));
    pss.force_keep("a");
    assert!(pss.add_state("b", Name("b".to_string())));
    assert!(pss.add_state("c", Name("c".to_string())));
    assert_eq!(pss.get_state("a"), Some(&Name("a".to_string())));
    assert_eq!(pss.get_state("b"), None);
    assert_eq!(pss.get_state("c"), Some(&Name("c".to_string())));
}

#[test]
fn simple_store_never_refuses_state() {
    let mut pss: PageStateStore<Name> = PageStateStore::new(3);
    pss.set_state_never("s");
    assert!(!pss.add_state("s", Name("n".to_string())));
    assert_eq!(pss.contains("s"), PssContains::Nothing);
    pss.add_head("s", "h".to_string());
    assert_eq!(pss.contains("s"), PssContains::HeadNoState);
}

#[test]
fn simple_store_force_remove_and_freeze() {
    let mut pss = PageStateStore::new(3);
    assert!(pss.add_state("a", Name("1".to_string())));
    assert!(pss.add_state("b", Name("2".to_string())));
    assert!(pss.force_remove("a").is_some());
    assert!(pss.force_remove("a").is_none());
    let frozen = pss.freeze_to_hash_map();
    assert_eq!(frozen, vec![("b".to_string(), "\"2\"".to_string())]);
}

#[test]
fn simple_store_head_survives_state_and_order_moves() {
    let mut pss = PageStateStore::new(2);
    pss.add_head("a", "<title>a</title>".to_string());
    assert!(pss.add_state("b", Name("b".to_string())));
    assert!(pss.add_state("a", Name("a".to_string())));
    assert_eq!(pss.get_head("a"), Some("<title>a</title>".to_string()));
    assert!(pss.add_state("c", Name("c".to_string())));
    assert_eq!(pss.get_state("b"), None);
    assert_eq!(pss.get_state("a"), Some(&Name("a".to_string())));
}

#[test]
fn simple_store_state_never_keeps_the_head() {
    let mut pss: PageStateStore<Name> = PageStateStore::new(3);
    pss.add_head("s", "h".to_string());
    pss.set_state_never("s");
    assert_eq!(pss.contains("s"), PssContains::HeadNoState);
    assert_eq!(pss.get_head("s"), Some("h".to_string()));
    assert!(!pss.add_state("s", Name("n".to_string())));
}
