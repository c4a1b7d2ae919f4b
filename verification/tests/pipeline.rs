use galileo::catchup::{Catchup, CatchupCursor, Fetch, HistoryMessage};
use galileo::queue::{Pop, PushError, RequestQueue};
use galileo::request::{Origin, ReplyTarget};
use galileo::serve::{ChannelIdAndMessageId, Serve};
use galileo::supervisor::{verdict, CatchupGroup, GroupStep, Task};
use galileo::value::{validate_values, Value, ValuesError};
use galileo::worker::{Readiness, Source, SubmitError, SyncError, TransferWorker};

fn ten_test() -> Vec<Value> {
    vec![Value { denom: "test".to_string(), amount: 10 }]
}

#[test]
fn values_must_be_there_and_positive() {
    assert_eq!(validate_values(&vec![]), Err(ValuesError::Empty));
    assert_eq!(validate_values(&ten_test()), Ok(()));
    let mut values = ten_test();
    values.push(Value { denom: "cube".to_string(), amount: 0 });
    assert_eq!(validate_values(&values), Err(ValuesError::ZeroAmount));
    values[1].amount = 1;
    assert_eq!(validate_values(&values), Ok(()));
    values[0].amount = 0;
    assert_eq!(validate_values(&values), Err(ValuesError::ZeroAmount));
}

#[test]
fn values_errors_have_their_messages() {
    assert_eq!(ValuesError::Empty.message(), "at least one value must be provided");
    assert_eq!(ValuesError::ZeroAmount.message(), "all values must be non-zero");
}

fn pop_item(queue: &mut RequestQueue<u32>) -> Option<u32> {
    match queue.pop() {
        Pop::Item(item) => Some(item),
        _ => None,
    }
}

#[test]
fn queue_hands_out_in_arrival_order() {
    let mut queue: RequestQueue<u32> = RequestQueue::new(4);
    for item in [10, 20, 30] {
        assert!(queue.push(item).is_ok());
    }
    assert_eq!(queue.len(), 3);
    assert_eq!(pop_item(&mut queue), Some(10));
    assert!(queue.push(40).is_ok());
    assert_eq!(pop_item(&mut queue), Some(20));
    assert_eq!(pop_item(&mut queue), Some(30));
    assert_eq!(pop_item(&mut queue), Some(40));
    assert!(matches!(queue.pop(), Pop::Empty));
}

#[test]
fn full_queue_hands_the_item_back() {
    let mut queue: RequestQueue<u32> = RequestQueue::new(2);
    assert!(queue.push(1).is_ok());
    assert!(queue.push(2).is_ok());
    assert!(matches!(queue.push(3), Err(PushError::Full(3))));
    assert_eq!(queue.len(), 2);
    assert_eq!(pop_item(&mut queue), Some(1));
    assert!(queue.push(3).is_ok());
    assert_eq!(pop_item(&mut queue), Some(2));
    assert_eq!(pop_item(&mut queue), Some(3));
}

#[test]
fn queue_without_capacity_is_always_full() {
    let mut queue: RequestQueue<u32> = RequestQueue::new(0);
    assert!(matches!(queue.push(1), Err(PushError::Full(1))));
    assert!(matches!(queue.pop(), Pop::Empty));
}

#[test]
fn closed_queue_drains_then_finishes() {
    let mut queue: RequestQueue<u32> = RequestQueue::new(3);
    assert!(queue.push(1).is_ok());
    assert!(queue.push(2).is_ok());
    assert!(!queue.is_closed());
    queue.close();
    assert!(queue.is_closed());
    assert!(matches!(queue.push(3), Err(PushError::Closed(3))));
    assert_eq!(pop_item(&mut queue), Some(1));
    assert_eq!(pop_item(&mut queue), Some(2));
    assert!(matches!(queue.pop(), Pop::Finished));
    assert!(matches!(queue.pop(), Pop::Finished));
}

#[test]
fn worker_takes_nothing_before_it_is_synchronized() {
    let mut worker = TransferWorker::new(Source::Index(0), 0);
    assert_eq!(worker.readiness(), Readiness::Unsynchronized);
    assert_eq!(worker.submit("addrA".to_string(), ten_test()), Err(SubmitError::NotReady));
    assert!(worker.begin().is_none());
    assert_eq!(worker.synchronized(true), Ok(()));
    assert_eq!(worker.readiness(), Readiness::Ready);
    assert_eq!(worker.synchronized(true), Err(SyncError::Repeated));
    assert_eq!(worker.submit("addrA".to_string(), ten_test()), Ok(0));
}

#[test]
fn failed_synchronization_is_final() {
    let mut worker = TransferWorker::new(Source::Any, 0);
    assert_eq!(worker.synchronized(false), Err(SyncError::Failed));
    assert_eq!(worker.readiness(), Readiness::Broken);
    assert_eq!(worker.synchronized(true), Err(SyncError::Repeated));
    assert_eq!(worker.readiness(), Readiness::Broken);
    assert_eq!(worker.submit("addrA".to_string(), ten_test()), Err(SubmitError::NotReady));
    assert!(worker.begin().is_none());
}

#[test]
fn submissions_run_one_at_a_time_and_each_once() {
    let mut worker = TransferWorker::new(Source::Index(3), 250);
    worker.synchronized(true).unwrap();
    let k = 5u64;
    for i in 0..k {
        assert_eq!(worker.submit(format!("addr{}", i), ten_test()), Ok(i));
    }
    assert_eq!(worker.waiting(), 5);
    let mut ran = Vec::new();
    loop {
        let transfer = match worker.begin() {
            Some(transfer) => transfer,
            None => break,
        };
        assert_eq!(worker.in_flight(), Some(transfer.ticket));
        assert!(worker.begin().is_none());
        assert_eq!(transfer.source, Source::Index(3));
        assert_eq!(transfer.fee, 250);
        assert_eq!(transfer.address, format!("addr{}", transfer.ticket));
        assert_eq!(transfer.values.len(), 1);
        assert_eq!(transfer.values[0].amount, 10);
        let done = worker.complete(Ok(format!("tx{}", transfer.ticket))).unwrap();
        assert_eq!(done.ticket, transfer.ticket);
        assert_eq!(done.result, Ok(format!("tx{}", transfer.ticket)));
        assert_eq!(worker.in_flight(), None);
        ran.push(transfer.ticket);
    }
    assert_eq!(ran, vec![0, 1, 2, 3, 4]);
    assert_eq!(worker.waiting(), 0);
    assert!(worker.complete(Ok("late".to_string())).is_none());
}

#[test]
fn submissions_during_a_transfer_wait_their_turn() {
    let mut worker = TransferWorker::new(Source::Any, 0);
    worker.synchronized(true).unwrap();
    assert_eq!(worker.submit("a".to_string(), ten_test()), Ok(0));
    let first = worker.begin().unwrap();
    assert_eq!(first.source, Source::Any);
    assert_eq!(worker.submit("b".to_string(), ten_test()), Ok(1));
    assert_eq!(worker.submit("c".to_string(), ten_test()), Ok(2));
    assert!(worker.begin().is_none());
    let done = worker.complete(Err("insufficient funds".to_string())).unwrap();
    assert_eq!((done.ticket, done.result), (0, Err("insufficient funds".to_string())));
    assert_eq!(worker.begin().unwrap().address, "b");
    worker.complete(Ok("tx".to_string())).unwrap();
    assert_eq!(worker.begin().unwrap().address, "c");
}

fn message(id: u64, author_id: u64, addresses: &[&str], answered: bool) -> HistoryMessage {
    HistoryMessage {
        id,
        author_id,
        addresses: addresses.iter().map(|s| s.to_string()).collect(),
        answered,
    }
}

#[test]
fn catchup_reads_from_the_start_message_on() {
    let mut worker = Catchup::new(77, 25, 100);
    assert_eq!(
        worker.next_fetch(),
        Some(Fetch { channel_id: 77, from: 100, inclusive: true, limit: 25 })
    );
    let page = vec![
        message(100, 1, &["addrA"], false),
        message(101, 2, &[], false),
        message(102, 3, &["addrB", "addrC"], true),
        message(103, 4, &["addrD"], false),
        message(99, 5, &["addrE"], false),
    ];
    let requests = worker.consume(&page);
    assert_eq!(requests.len(), 2);
    assert_eq!(requests[0].requester_id, 1);
    assert_eq!(requests[0].reply_target, ReplyTarget { channel_id: 77, message_id: 100 });
    assert_eq!(requests[0].addresses, vec!["addrA".to_string()]);
    assert_eq!(requests[0].origin, Origin::Backlog);
    assert_eq!(requests[1].requester_id, 4);
    assert_eq!(requests[1].reply_target, ReplyTarget { channel_id: 77, message_id: 103 });
    assert_eq!(worker.cursor(), CatchupCursor { target_id: 77, last_seen: 103, batch_size: 25 });
    assert_eq!(
        worker.next_fetch(),
        Some(Fetch { channel_id: 77, from: 103, inclusive: false, limit: 25 })
    );
}

#[test]
fn answered_messages_give_no_request() {
    let mut worker = Catchup::new(77, 25, 0);
    let page = vec![message(1, 1, &["addrA"], true), message(2, 2, &["addrB"], true)];
    assert!(worker.consume(&page).is_empty());
    assert_eq!(worker.cursor().last_seen, 2);
    assert!(!worker.is_exhausted());
}

#[test]
fn a_message_seen_before_is_not_taken_up_again() {
    let mut worker = Catchup::new(77, 2, 10);
    let first = vec![message(10, 1, &["addrA"], false), message(11, 2, &["addrB"], false)];
    assert_eq!(worker.consume(&first).len(), 2);
    let second = vec![message(11, 2, &["addrB"], false), message(12, 3, &["addrC"], false)];
    let requests = worker.consume(&second);
    assert_eq!(requests.len(), 1);
    assert_eq!(requests[0].reply_target.message_id, 12);
    assert_eq!(worker.cursor().last_seen, 12);
}

#[test]
fn a_page_without_anything_new_exhausts_the_backlog() {
    let mut worker = Catchup::new(77, 2, 10);
    assert_eq!(worker.consume(&vec![message(10, 1, &["addrA"], false)]).len(), 1);
    assert!(!worker.is_exhausted());
    assert!(worker.consume(&vec![message(10, 1, &["addrA"], false)]).is_empty());
    assert!(worker.is_exhausted());
    assert_eq!(worker.next_fetch(), None);
    assert!(worker.consume(&vec![message(50, 1, &["addrZ"], false)]).is_empty());
    assert_eq!(worker.cursor().last_seen, 10);
    assert!(worker.is_exhausted());
}

#[test]
fn an_empty_first_page_exhausts_the_backlog() {
    let mut worker = Catchup::new(77, 2, 10);
    assert!(worker.consume(&vec![]).is_empty());
    assert!(worker.is_exhausted());
    assert_eq!(worker.cursor().last_seen, 10);
}

#[test]
fn the_cursor_never_moves_back() {
    let mut worker = Catchup::new(77, 5, 100);
    let mut seen = 100;
    for page in [vec![150u64, 120], vec![130, 151], vec![200], vec![201, 160]] {
        let messages: Vec<HistoryMessage> =
            page.iter().map(|id| message(*id, 1, &["addr"], false)).collect();
        worker.consume(&messages);
        assert!(worker.cursor().last_seen >= seen);
        seen = worker.cursor().last_seen;
    }
    assert_eq!(seen, 201);
}

#[test]
fn any_task_that_ends_ends_the_process() {
    let chat = verdict(Task::Chat, Err("gateway closed".to_string()));
    assert_eq!(chat.exit_code, 1);
    assert_eq!(chat.context, "error in discord client service");
    assert_eq!(chat.cause, Some("gateway closed".to_string()));
    let responder = verdict(Task::Responder, Ok(()));
    assert_ne!(responder.exit_code, 0);
    assert_eq!(responder.context, "error in responder service");
    assert_eq!(responder.cause, None);
    let catchup = verdict(Task::Catchup, Err("history unavailable".to_string()));
    assert_ne!(catchup.exit_code, 0);
    assert_eq!(catchup.context, "error in catchup service");
}

#[test]
fn first_catchup_failure_ends_the_group() {
    let mut group = CatchupGroup::new(3);
    assert!(matches!(group.start(), GroupStep::Continue));
    assert!(matches!(group.ended(Ok(())), GroupStep::Continue));
    match group.ended(Err("no access".to_string())) {
        GroupStep::Fail(error) => assert_eq!(error, "no access"),
        other => panic!("unexpected step {:?}", other),
    }
    assert_eq!(group, CatchupGroup { running: 1, failed: true });
}

#[test]
fn catchup_group_idles_when_all_are_through() {
    let mut group = CatchupGroup::new(2);
    assert!(matches!(group.ended(Ok(())), GroupStep::Continue));
    assert!(matches!(group.ended(Ok(())), GroupStep::Park));
    assert_eq!(group, CatchupGroup { running: 0, failed: false });
    assert!(matches!(CatchupGroup::new(0).start(), GroupStep::Park));
}

fn settings(values: Vec<Value>) -> Serve {
    Serve {
        fee: 0,
        rate_limit: 86_400_000_000_000,
        reply_limit: 5,
        max_addresses: 1,
        data_dir: None,
        node: "http://testnet.penumbra.zone:8080".to_string(),
        source_address: Some(0),
        catch_up: vec![
            ChannelIdAndMessageId { channel_id: 1, message_id: 10 },
            ChannelIdAndMessageId { channel_id: 2, message_id: 20 },
        ],
        catch_up_batch_size: 25,
        values,
    }
}

#[test]
fn service_is_not_set_up_without_values() {
    assert!(matches!(settings(vec![]).exec(), Err(ValuesError::Empty)));
    let zero = vec![Value { denom: "test".to_string(), amount: 0 }];
    assert!(matches!(settings(zero).exec(), Err(ValuesError::ZeroAmount)));
}

#[test]
fn service_starts_at_rest() {
    let mut service = settings(ten_test()).exec().unwrap();
    assert_eq!(service.max_addresses, 1);
    assert_eq!(service.fee, 0);
    assert_eq!(service.values.len(), 1);
    assert_eq!(service.limiter.entry(1), None);
    assert_eq!(service.worker.readiness(), Readiness::Unsynchronized);
    assert_eq!(service.catch_ups.len(), 2);
    assert_eq!(
        service.catch_ups[1].next_fetch(),
        Some(Fetch { channel_id: 2, from: 20, inclusive: true, limit: 25 })
    );
    service.worker.synchronized(true).unwrap();
    service.worker.submit("addrA".to_string(), ten_test()).unwrap();
    assert_eq!(service.worker.begin().unwrap().source, Source::Index(0));
}
