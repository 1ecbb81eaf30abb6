use linked_list::LinkedList;

#[test]
fn an_empty_list_is_empty() {
    let l = LinkedList::<i32>::new();
    assert_eq!(LinkedList::Empty, l);
}

#[test]
fn push_item_adds_item() {
    let l = LinkedList::<i32>::new().push(42);
    assert_eq!(LinkedList::Elem(42, Box::new(LinkedList::Empty)), l);
}

#[test]
fn push_two_items_adds_two_items_in_reverse_order() {
    let l = LinkedList::<i32>::new().push(42).push(13);
    assert_eq!(
        LinkedList::Elem(13, Box::new(LinkedList::Elem(42, Box::new(LinkedList::Empty)))),
        l
    );
}

#[test]
fn pop_item_from_empty_return_none() {
    let l = LinkedList::<i32>::new();
    let m = l.pop();
    assert_eq!(None, m);
}

#[test]
fn pop_item_removes_item() {
    let l = LinkedList::<i32>::new();
    let m = l.push(42);
    let n = m.pop();
    assert_eq!(Some((42, LinkedList::Empty)), n);
}

#[test]
fn pop_two_items_from_list() {
    let l = LinkedList::<i32>::new().push(42).push(13);

    let first = l.pop();
    assert_eq!(Some((13, LinkedList::Elem(42, Box::new(LinkedList::Empty)))), first);

    let second = first.unwrap().1.pop();
    assert_eq!(Some((42, LinkedList::Empty)), second);

    let third = second.unwrap().1.pop();
    assert_eq!(None, third);
}

#[test]
fn ten_million_items() {
    let mut l = LinkedList::<i32>::new();
    for i in 1..10_000_000 {
        l = l.push(i);
    }
    l.drop();
}
