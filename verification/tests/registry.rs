use pocketbase_sdk::registry::SubscriptionRegistry;

#[test]
fn put_then_snapshot_keeps_registration_order() {
    let mut reg: SubscriptionRegistry<u8> = SubscriptionRegistry::new();
    reg.put("users".to_string(), 1);
    reg.put("posts".to_string(), 2);
    assert_eq!(reg.snapshot_topics(), vec!["users".to_string(), "posts".to_string()]);
    assert_eq!(reg.len(), 2);
}

#[test]
fn put_replaces_the_existing_handler() {
    let mut reg: SubscriptionRegistry<u8> = SubscriptionRegistry::new();
    reg.put("users".to_string(), 1);
    reg.put("users".to_string(), 9);
    assert_eq!(reg.len(), 1);
    assert_eq!(*reg.handler_at(0), 9);
    assert_eq!(reg.topic_at(0), "users");
}

#[test]
fn remove_leaves_other_topics_intact() {
    let mut reg: SubscriptionRegistry<u8> = SubscriptionRegistry::new();
    reg.put("users".to_string(), 1);
    reg.put("posts".to_string(), 2);
    reg.remove(&"users".to_string());
    assert_eq!(reg.snapshot_topics(), vec!["posts".to_string()]);
    assert_eq!(*reg.handler_at(0), 2);
}

#[test]
fn remove_of_an_absent_topic_changes_nothing() {
    let mut reg: SubscriptionRegistry<u8> = SubscriptionRegistry::new();
    reg.put("users".to_string(), 1);
    reg.remove(&"missing".to_string());
    assert_eq!(reg.snapshot_topics(), vec!["users".to_string()]);
}

#[test]
fn clear_empties_the_registry() {
    let mut reg: SubscriptionRegistry<u8> = SubscriptionRegistry::new();
    reg.put("users".to_string(), 1);
    reg.put("posts".to_string(), 2);
    reg.clear();
    assert_eq!(reg.len(), 0);
    assert_eq!(reg.snapshot_topics(), Vec::<String>::new());
}
