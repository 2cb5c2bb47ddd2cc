use kata::DoublyLinkedList;
use kata::ListState;

#[test]
fn single_thread_operations() {
    let list = DoublyLinkedList::new();

    list.push_front(1);
    list.push_back(2);
    list.push_front(0);

    assert_eq!(list.len(), 3);
    assert_eq!(list.pop_front(), Some(0));
    assert_eq!(list.pop_back(), Some(2));
    assert_eq!(list.pop_front(), Some(1));
    assert!(list.is_empty());
}

#[test]
fn multi_thread_operations() {
    let runtime = tokio::runtime::Builder::new_multi_thread()
        .worker_threads(2)
        .build()
        .unwrap();

    let list = DoublyLinkedList::new();

    let list_clone1 = list.clone();
    let task1 = runtime.spawn(async move {
        list_clone1.push_front(1);
        list_clone1.push_front(2);
    });

    let list_clone2 = list.clone();
    let task2 = runtime.spawn(async move {
        list_clone2.push_back(3);
        list_clone2.push_back(4);
    });

    runtime.block_on(async {
        task1.await.unwrap();
        task2.await.unwrap();
    });

    assert_eq!(list.len(), 4);
}

#[test]
fn pop_from_empty_list_signals_and_keeps_length() {
    let list: DoublyLinkedList<i32> = DoublyLinkedList::new();
    assert_eq!(list.pop_front(), None);
    assert_eq!(list.pop_back(), None);
    assert_eq!(list.len(), 0);
    assert!(list.is_empty());
}

#[test]
fn drain_then_reuse_behaves_like_fresh() {
    let list = DoublyLinkedList::new();
    for k in 0..8 {
        list.push_back(k);
    }
    for k in 0..8 {
        assert_eq!(list.pop_front(), Some(k));
    }
    assert!(list.is_empty());

    // a subsequent push/pop cycle behaves as on a freshly constructed list
    list.push_front(10);
    list.push_back(20);
    assert_eq!(list.len(), 2);
    assert_eq!(list.pop_back(), Some(20));
    assert_eq!(list.pop_front(), Some(10));
    assert!(list.is_empty());
    assert_eq!(list.pop_front(), None);
}

#[test]
fn clone_shares_storage_both_ways() {
    let list = DoublyLinkedList::new();
    let other = list.clone();

    list.push_back(1);
    other.push_back(2);

    assert_eq!(other.len(), 2);
    assert_eq!(list.len(), 2);
    assert_eq!(other.pop_front(), Some(1));
    assert_eq!(list.pop_front(), Some(2));

    list.push_front(7);
    drop(list);
    assert_eq!(other.len(), 1);
    assert_eq!(other.pop_back(), Some(7));
}

#[test]
fn snapshot_walks_front_to_back() {
    let list = DoublyLinkedList::new();
    list.push_front(1);
    list.push_back(2);
    list.push_front(0);
    assert_eq!(list.snapshot(), vec![0, 1, 2]);
}

#[test]
fn list_state_orders_both_ends() {
    let mut state: ListState<i32> = ListState::new();
    assert!(state.is_empty());
    state.push_front(1);
    state.push_back(2);
    state.push_front(0);
    assert_eq!(state.len(), 3);
    assert_eq!(state.snapshot(), vec![0, 1, 2]);
    assert_eq!(state.pop_front(), Some(0));
    assert_eq!(state.pop_back(), Some(2));
    assert_eq!(state.pop_front(), Some(1));
    assert_eq!(state.pop_front(), None);
    assert!(state.is_empty());
}
