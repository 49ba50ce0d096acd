use move_fuzz::commands::OrchestrationError;
use move_fuzz::project::{exists_target, list_targets, locate};

#[test]
fn listing_is_sorted_and_distinct() {
    let names = vec![
        String::from("b"),
        String::from("a"),
        String::from("b"),
        String::from("fuzz_target_1"),
    ];
    let listed = list_targets(&names);
    assert_eq!(
        listed,
        vec![String::from("a"), String::from("b"), String::from("fuzz_target_1")]
    );
}

#[test]
fn listing_order_is_independent_of_enumeration_order() {
    let forward = vec![String::from("a"), String::from("b"), String::from("c")];
    let backward = vec![String::from("c"), String::from("b"), String::from("a")];
    assert_eq!(list_targets(&forward), list_targets(&backward));
}

#[test]
fn target_exists_only_after_registration() {
    let names: Vec<String> = vec![];
    assert!(!exists_target(&names, "fuzz_target_1"));
    let names = vec![String::from("fuzz_target_1")];
    assert!(exists_target(&names, "fuzz_target_1"));
    assert!(!exists_target(&names, "fuzz_target_2"));
}

#[test]
fn locate_prefers_override_then_convention() {
    assert_eq!(
        locate(Some(String::from("over")), Some(String::from("conv"))),
        Ok(String::from("over"))
    );
    assert_eq!(locate(None, Some(String::from("conv"))), Ok(String::from("conv")));
    assert_eq!(locate(None, None), Err(OrchestrationError::WorkspaceNotFound));
}
