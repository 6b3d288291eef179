use babble::messages::MessageStorage;
use babble::processor::llm::{Message, MessageRole};

#[test]
fn storage_keeps_messages_in_order() {
    let mut store = MessageStorage::default();
    assert!(store.is_empty());
    store.add(Message::user("hello"));
    store.add(Message::assistant("hi"));
    assert_eq!(store.len(), 2);
    let all = store.get_all();
    assert_eq!(all[0].role, MessageRole::User);
    assert_eq!(all[0].content, "hello");
    assert_eq!(all[1].content, "hi");
    store.clear();
    assert!(store.is_empty());
    assert!(store.get_all().is_empty());
}
