use borkcraft::thread_tools::{drain_available, Communicator, Downloader, SPromise, Uploader};

#[test]
fn settlement_is_observed_once_settled_and_never_changes() {
    let (mut cell, sender) = SPromise::make_promise(0u32);
    assert!(cell.poll().is_none());
    sender.send(41);
    assert_eq!(cell.poll(), Some(&41));
    // the first observed settlement is final, poll after poll
    assert_eq!(cell.poll(), Some(&41));
    assert_eq!(cell.poll(), Some(&41));
    assert_eq!(cell.ready_ref(), Some(&41));
}

#[test]
fn the_producer_leaves_the_cell_at_most_once() {
    let mut cell = SPromise::create_promise(String::from("cached"));
    let first = cell.take_sender();
    assert!(first.is_some());
    // a second take finds nothing: only one settlement can ever happen
    let second = cell.take_sender();
    assert!(second.is_none());
    let third = cell.take_sender();
    assert!(third.is_none());

    // the one producer settles the cell; the settled value then never moves
    first.unwrap().send(String::from("settled"));
    assert_eq!(cell.poll(), Some(&String::from("settled")));
    assert_eq!(cell.ref_value(), "cached");
}

#[test]
fn an_abandoned_producer_leaves_the_cell_pending_forever() {
    let mut cell = SPromise::create_promise(7u8);
    let producer = cell.take_sender().unwrap();
    // the task holding the producer goes away without settling
    drop(producer);
    // the cell stays pending: polling reports "not settled", and never panics
    assert!(cell.poll().is_none());
    assert!(cell.poll().is_none());
    assert!(cell.promised());
}

#[test]
fn a_cell_without_a_promise_never_settles() {
    let mut cell: SPromise<u8> = SPromise::make_no_promise(9);
    assert!(cell.poll().is_none());
    assert_eq!(cell.ref_value(), &9);
    assert!(cell.spromise_ref().is_none());
    assert!(!cell.promised());
    let t: SPromise<u8> = SPromise::test(5);
    assert!(t.quick_inner().is_none());
    assert_eq!(t.quick_value(), &5);
}

#[test]
fn a_fresh_cell_starts_from_the_empty_value() {
    let cell: SPromise<String> = SPromise::new();
    assert_eq!(cell.ref_value(), "");
    assert!(cell.promised());
    assert!(cell.sender_ref().is_some());
}

#[test]
fn cached_value_can_be_replaced_without_touching_the_promise() {
    let mut cell = SPromise::create_promise(1i32);
    cell.set_value(2);
    assert_eq!(cell.ref_value(), &2);
    cell.add_value(3);
    assert_eq!(cell.ref_value(), &3);
    *cell.mut_value() = 4;
    assert_eq!(cell.ref_value(), &4);
    assert!(cell.spromise_ref().is_some());
    assert!(cell.promised());
}

#[test]
fn stream_channel_delivers_in_send_order() {
    let comm: Communicator<i64> = Communicator::new();
    let sender = comm.downloader_sender_clone();
    sender.send(1).unwrap();
    sender.send(2).unwrap();
    sender.send(3).unwrap();
    let got = drain_available(comm.downloader_receiver(), 100);
    assert_eq!(got, vec![1, 2, 3]);
    // nothing left
    let empty = drain_available(comm.downloader_receiver(), 100);
    assert!(empty.is_empty());
}

#[test]
fn drain_respects_its_batch_bound() {
    let comm: Communicator<i64> = Communicator::new();
    let sender = comm.downloader_sender_clone();
    for i in 0..10 {
        sender.send(i).unwrap();
    }
    let first = drain_available(comm.downloader_receiver(), 4);
    assert_eq!(first, vec![0, 1, 2, 3]);
    let rest = drain_available(comm.downloader_receiver(), 100);
    assert_eq!(rest, vec![4, 5, 6, 7, 8, 9]);
}

#[test]
fn communicator_hands_out_working_senders() {
    let comm: Communicator<String> = Communicator::new();
    let s1 = comm.downloader_sender_clone();
    let s2 = comm.downloader_sender_clone();
    s1.send("from one".to_string()).unwrap();
    s2.send("from two".to_string()).unwrap();
    let got = drain_available(comm.downloader_receiver(), 10);
    assert_eq!(got.len(), 2);
}

#[test]
fn channel_halves_can_be_made_separately() {
    let (_downloader, sender) = Downloader::<u8>::new();
    // the sender half still accepts values even with the receiver unread
    sender.send(7).unwrap();
    let (_uploader, _receiver) = Uploader::<u8>::new();
}
