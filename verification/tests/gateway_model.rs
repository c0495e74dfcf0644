use ebina::gateway::GatewayModel;

#[test]
fn sending_stores_the_message() {
    let mut gateway = GatewayModel::new();
    let id = gateway.send_message(5, "hello".to_string()).unwrap();
    assert!(gateway.contains_message(id));
    assert_eq!(gateway.message_content(id), Some("hello".to_string()));
    assert_eq!(gateway.message_count(), 1);
}

#[test]
fn deleting_twice_is_deleting_once() {
    // Cleanup is idempotent: deleting an already-deleted message is not
    // an error and changes nothing.
    let mut gateway = GatewayModel::new();
    let id = gateway.send_message(5, "hello".to_string()).unwrap();
    let keep = gateway.send_message(5, "keep me".to_string()).unwrap();
    gateway.delete_message(id);
    assert!(!gateway.contains_message(id));
    assert_eq!(gateway.message_count(), 1);
    gateway.delete_message(id);
    assert!(!gateway.contains_message(id));
    assert_eq!(gateway.message_count(), 1);
    assert_eq!(gateway.message_content(keep), Some("keep me".to_string()));
}

#[test]
fn deleting_a_message_that_never_existed_is_harmless() {
    let mut gateway = GatewayModel::new();
    gateway.delete_message(999);
    assert_eq!(gateway.message_count(), 0);
}

#[test]
fn editing_replaces_content_in_place() {
    let mut gateway = GatewayModel::new();
    let id = gateway.send_message(5, "before".to_string()).unwrap();
    assert!(gateway.edit_message(id, "after".to_string()));
    assert_eq!(gateway.message_content(id), Some("after".to_string()));
    assert!(!gateway.edit_message(999, "nothing".to_string()));
}

#[test]
fn failing_gateway_refuses_sends() {
    let mut gateway = GatewayModel::new_failing();
    assert!(gateway.send_message(5, "hello".to_string()).is_err());
    assert_eq!(gateway.message_count(), 0);
}
