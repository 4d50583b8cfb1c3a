use chat_ledger::Chat;

#[test]
fn fresh_ledger_is_empty() {
    let contract = Chat::default();
    assert_eq!(contract.get_total_messages(), 0);
    assert_eq!(contract.get_messages().len(), 0);
}

#[test]
fn one_append_stores_the_text() {
    let mut contract = Chat::default();
    contract.add_message("Hey Lightency peeps !".to_string());
    assert_eq!(contract.get_total_messages(), 1);
    let all = contract.get_messages();
    assert_eq!(all.len(), 1);
    assert_eq!(all[0].content(), "Hey Lightency peeps !");
}

#[test]
fn push_keeps_text_and_owner() {
    let mut contract = Chat::default();
    contract.push_message("hello".to_string(), "alice.near".to_string());
    let all = contract.get_messages();
    assert_eq!(all[0].content(), "hello");
    assert_eq!(all[0].owner_id(), "alice.near");
}

#[test]
fn sequential_appends_keep_insertion_order() {
    let mut contract = Chat::default();
    let texts = ["first", "second", "third", "fourth", "fifth"];
    for (i, text) in texts.iter().enumerate() {
        contract.add_message(text.to_string());
        assert_eq!(contract.get_total_messages(), i + 1);
    }
    let all = contract.get_messages();
    assert_eq!(all.len(), texts.len());
    for (i, text) in texts.iter().enumerate() {
        assert_eq!(all[i].content(), text);
    }
}

#[test]
fn append_leaves_prior_entries_unchanged() {
    let mut contract = Chat::default();
    contract.push_message("one".to_string(), "alice.near".to_string());
    contract.push_message("two".to_string(), "bob.near".to_string());
    contract.add_message("three".to_string());
    let all = contract.get_messages();
    assert_eq!(all.len(), 3);
    assert_eq!(all[0].content(), "one");
    assert_eq!(all[0].owner_id(), "alice.near");
    assert_eq!(all[1].content(), "two");
    assert_eq!(all[1].owner_id(), "bob.near");
    assert_eq!(all[2].content(), "three");
}

#[test]
fn two_messages_come_back_in_order() {
    let mut contract = Chat::default();
    contract.add_message("Hey Lightency peeps !".to_string());
    contract.add_message("How is it going folks ?".to_string());
    assert_eq!(contract.get_total_messages(), 2);
    let all = contract.get_messages();
    assert_eq!(all[0].content(), "Hey Lightency peeps !");
    assert_eq!(all[1].content(), "How is it going folks ?");
}

#[test]
fn appended_message_carries_the_signer() {
    let mut contract = Chat::default();
    contract.add_message("hi".to_string());
    let signer = near_sdk::env::signer_account_id().to_string();
    let all = contract.get_messages();
    assert_eq!(all[0].owner_id(), &signer);
}
