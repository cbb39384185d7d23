use rengine::types::{InputAction, KeyAction, List, Node};

#[test]
fn test_append_and_pop() {
    let mut list = List::new();

    // Initially empty
    assert!(list.is_empty());

    // Append values
    list.append(1);
    list.append(2);
    list.append(3);

    // List should not be empty
    assert!(!list.is_empty());

    // Length should be 3
    let length = list.length();
    assert_eq!(length, 3);

    // Values come off the head, so in the order they were appended
    assert_eq!(list.pop().unwrap(), 1);
    assert_eq!(list.pop().unwrap(), 2);
    assert_eq!(list.pop().unwrap(), 3);

    // Now list should be empty again
    assert!(list.is_empty());

    // Length should be 0
    let length = list.length();
    assert_eq!(length, 0);

    // Popping from empty list should error
    assert!(list.pop().is_err());
}

#[test]
fn test_iterator() {
    let mut list = List::new();

    assert!(list.is_empty());

    list.append(1);
    list.append(2);
    list.append(3);

    let length = list.length();
    assert!(length == 3);

    let mut counter = 0;

    let mut values = list.iter();
    while let Some(value) = values.next() {
        counter += 1;
        assert_eq!(*value, counter);
    }
    assert_eq!(counter, 3);

    let length2 = list.length();

    assert!(length2 == 3);
}

#[test]
fn pop_on_an_empty_list_says_failed() {
    let mut list: List<u8> = List::new();
    assert_eq!(list.pop(), Err(String::from("failed")));
    let mut other: List<u8> = List::default();
    assert!(other.is_empty());
    assert!(other.iter().next().is_none());
    assert!(other.jump().is_none());
}

#[test]
fn cursor_walks_the_list_and_starts_over() {
    let mut list = List::new();
    list.append(10);
    list.append(20);
    list.append(30);
    assert_eq!(list.jump().map(|n| n.value), Some(10));
    assert_eq!(list.jump().map(|n| n.value), Some(20));
    assert_eq!(list.jump().map(|n| n.value), Some(30));
    assert_eq!(list.jump().map(|n| n.value), None);
    assert_eq!(list.jump().map(|n| n.value), Some(10));
}

#[test]
fn cursor_follows_its_cell_when_the_head_leaves() {
    let mut list = List::new();
    list.append(10);
    list.append(20);
    list.append(30);
    list.jump();
    list.jump();
    // the cursor stands on 20
    assert_eq!(list.pop(), Ok(10));
    assert_eq!(list.jump().map(|n| n.value), Some(30));

    let mut list = List::new();
    list.append(1);
    list.append(2);
    list.jump();
    // the cursor stands on the head, which leaves: the next cell is the new head
    assert_eq!(list.pop(), Ok(1));
    assert_eq!(list.jump().map(|n| n.value), Some(2));
    list.append(3);
    assert_eq!(list.jump().map(|n| n.value), Some(3));
}

#[test]
fn node_holds_its_value() {
    let node = Node::new(7);
    assert_eq!(node.value, 7);
}

#[test]
fn mailbox_keeps_only_the_latest_key_press() {
    let mut input = InputAction::new();
    assert_eq!(input.pop(), None);
    let first = KeyAction::new(1, 97, 0, false, 100);
    let second = KeyAction::new(1, 98, 3, true, 200);
    input.push(first);
    input.push(second);
    assert_eq!(input.pop(), Some(second));
    assert_eq!(input.pop(), None);
    assert_eq!(second.keycode, 98);
    assert_eq!(second.window_id, 1);
    assert_eq!(second.key_mod, 3);
    assert!(second.repeat);
    assert_eq!(second.timestamp, 200);
    assert_eq!(InputAction::default().pop(), None);
}
