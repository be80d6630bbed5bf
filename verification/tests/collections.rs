use pointlock::ir::vocab::{ErrorClass, ExecutionMode};
use pointlock::json::Json;
use pointlock::keyed::TextMap;
use pointlock::sets::{left_over, OrdinalSet, TextSet};
use pointlock::wire::Wire;

fn texts(items: &[&str]) -> Vec<String> {
    items.iter().map(|item| (*item).to_owned()).collect()
}

#[test]
fn ordinal_sets_keep_the_declared_order() {
    let set = OrdinalSet::new()
        .with(ErrorClass::TransportLost)
        .with(ErrorClass::ActionFailedRetryable)
        .with(ErrorClass::TransportLost);
    assert_eq!(
        set.members(),
        &vec![ErrorClass::ActionFailedRetryable, ErrorClass::TransportLost]
    );
    assert!(set.contains(ErrorClass::TransportLost));
    assert!(!set.contains(ErrorClass::CapabilityDrift));
    let other = OrdinalSet::new()
        .with(ErrorClass::ActionFailedRetryable)
        .with(ErrorClass::TransportLost);
    assert_eq!(set, other);
    assert_eq!(
        OrdinalSet::new()
            .with(ExecutionMode::WebSemantic)
            .with(ExecutionMode::NativeSemantic)
            .to_json(),
        Json::texts(&texts(&["nativeSemantic", "webSemantic"]))
    );
}

#[test]
fn text_sets_hold_each_text_once() {
    let mut set = TextSet::of(&texts(&["b", "a", "b"]));
    assert_eq!(set.to_list(), ["a", "b"]);
    set.insert("A");
    set.insert("a");
    assert_eq!(set.to_list(), ["A", "a", "b"]);
    assert_eq!((set.len(), set.at(2)), (3, "b"));
    assert!(set.contains("b") && !set.contains("B"));
    assert_eq!(set.clone().to_list(), ["A", "a", "b"]);
    assert_eq!(left_over(&texts(&["c", "b", "c"]), &set), ["c", "c"]);
}

#[test]
fn text_maps_give_back_what_was_set() {
    let map = TextMap::new().with("b", 1u64).with("a", 2).with("b", 3);
    assert_eq!(map.len(), 2);
    assert_eq!((map.key_at(0), map.value_at(0)), ("a", &2));
    assert_eq!(map.get("b"), Some(&3));
    assert_eq!(map.get("c"), None);
    let other = TextMap::new().with("a", 2u64).with("b", 3);
    assert_eq!(map, other);
}
