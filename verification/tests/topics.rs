use pocketbase_sdk::client::PocketBase;

#[test]
fn empty_record_id_yields_the_collection() {
    assert_eq!(PocketBase::<u8>::resolve_subscribe_to("users", ""), "users");
}

#[test]
fn wildcard_record_id_yields_the_collection() {
    assert_eq!(PocketBase::<u8>::resolve_subscribe_to("users", "*"), "users");
}

#[test]
fn record_id_is_appended_after_a_slash() {
    assert_eq!(PocketBase::<u8>::resolve_subscribe_to("users", "abc"), "users/abc");
}

#[test]
fn empty_collection_and_record_id_yield_the_empty_topic() {
    assert_eq!(PocketBase::<u8>::resolve_subscribe_to("", ""), "");
}
