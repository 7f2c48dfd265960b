use k_iter::config::IteratorType;
use k_iter::config::StartPolicy;
use k_iter::error::Error;
use k_iter::error::ErrorKind;
use k_iter::kinesis::token_from_response;
use k_iter::kinesis::KinesisShardIterator;
use k_iter::kinesis::PollerAction;
use k_iter::kinesis::PollerState;
use k_iter::records::Record;
use k_iter::records::RecordBatch;
use k_iter::records::Shard;

fn batch(records: usize, next: Option<&str>) -> RecordBatch {
    let mut rs: Vec<Record> = Vec::new();
    for i in 0..records {
        rs.push(Record {
            approximate_arrival_timestamp: None,
            data: Some(vec![i as u8]),
            encryption_type: None,
            partition_key: Some("KEY".to_string()),
            sequence_number: Some(format!("{}", i)),
        });
    }
    RecordBatch {
        records: rs,
        next_token: next.map(|t| t.to_string()),
    }
}

#[test]
fn poller_emits_three_batches_then_terminates_normally() {
    let mut it = KinesisShardIterator::new("stream", "shard-0", IteratorType::Latest, "xx-test-1");
    assert!(matches!(it.next_action(), PollerAction::Resolve));
    it.apply_resolution(Ok("T1".to_string())).unwrap();

    let mut emitted: Vec<RecordBatch> = Vec::new();
    let script = vec![
        batch(2, Some("T2")),
        batch(1, Some("T3")),
        batch(1, None),
        batch(9, Some("T5")),
    ];
    let mut fed = 0usize;
    for b in script {
        match it.next_action() {
            PollerAction::Fetch(token) => {
                assert_eq!(format!("T{}", fed + 1), token);
                emitted.push(it.apply_fetch(Ok(b)).unwrap());
                fed += 1;
            }
            PollerAction::Stop => break,
            PollerAction::Resolve => panic!("token already resolved"),
        }
    }
    assert_eq!(3, emitted.len());
    assert!(matches!(it.next_action(), PollerAction::Stop));
    assert!(matches!(it.state, PollerState::Closed));
}

#[test]
fn zero_record_batch_still_advances_the_token() {
    let mut it = KinesisShardIterator::new("stream", "shard-0", IteratorType::TrimHorizon, "xx-test-1");
    it.apply_resolution(Ok("T1".to_string())).unwrap();
    let out = it.apply_fetch(Ok(batch(0, Some("T2")))).unwrap();
    assert_eq!(0, out.records.len());
    match it.next_action() {
        PollerAction::Fetch(token) => assert_eq!("T2", token),
        _ => panic!("poller should keep fetching"),
    }
}

#[test]
fn failed_resolution_ends_the_poller_with_the_error() {
    let mut it = KinesisShardIterator::new("stream", "shard-0", IteratorType::Latest, "xx-test-1");
    let e = Error::new(ErrorKind::Transport, "connection refused".to_string());
    let back = it.apply_resolution(Err(e)).unwrap_err();
    assert_eq!(ErrorKind::Transport, *back.kind());
    assert_eq!("connection refused", back.message());
    assert!(matches!(it.next_action(), PollerAction::Stop));
    assert!(matches!(it.state, PollerState::Failed));
}

#[test]
fn failed_fetch_ends_the_poller_with_the_error() {
    let mut it = KinesisShardIterator::new("stream", "shard-0", IteratorType::Latest, "xx-test-1");
    it.apply_resolution(Ok("T1".to_string())).unwrap();
    let e = Error::new(ErrorKind::Transport, "expired iterator".to_string());
    let back = it.apply_fetch(Err(e)).unwrap_err();
    assert_eq!(ErrorKind::Transport, *back.kind());
    assert!(matches!(it.state, PollerState::Failed));
}

#[test]
fn cancellation_stops_a_live_poller_and_keeps_a_closed_one_closed() {
    let mut it = KinesisShardIterator::new("stream", "shard-0", IteratorType::Latest, "xx-test-1");
    it.apply_resolution(Ok("T1".to_string())).unwrap();
    it.observe_cancellation();
    assert!(matches!(it.state, PollerState::Stopped));
    assert!(matches!(it.next_action(), PollerAction::Stop));

    let mut done = KinesisShardIterator::new("stream", "shard-1", IteratorType::Latest, "xx-test-1");
    done.apply_resolution(Ok("T1".to_string())).unwrap();
    done.apply_fetch(Ok(batch(0, None))).unwrap();
    done.observe_cancellation();
    assert!(matches!(done.state, PollerState::Closed));
}

#[test]
fn constructors_carry_the_policy_parameters() {
    let seq = KinesisShardIterator::new_with_sequence_number(
        "stream",
        "shard-0",
        IteratorType::AfterSequenceNumber,
        "12345",
        "xx-test-1",
    );
    assert_eq!(
        Some("12345".to_string()),
        seq.request.starting_sequence_number
    );
    assert_eq!(None, seq.request.timestamp);

    let ts = KinesisShardIterator::new_with_timestamp(
        "stream",
        "shard-0",
        IteratorType::AtTimestamp,
        1700000000000,
        "xx-test-1",
    );
    assert_eq!(Some(1700000000000), ts.request.timestamp);
    assert_eq!(None, ts.request.starting_sequence_number);

    let p = KinesisShardIterator::from_policy(
        "stream",
        "shard-0",
        &StartPolicy::AtSequenceNumber("9".to_string()),
        "xx-test-1",
    );
    assert_eq!(IteratorType::AtSequenceNumber, p.request.iterator_type);
    assert_eq!(Some("9".to_string()), p.request.starting_sequence_number);
    assert_eq!("stream", p.request.stream_name);
    assert_eq!("shard-0", p.request.shard_id);
    assert_eq!("xx-test-1", p.request.region);
}

#[test]
fn token_from_response_treats_a_missing_token_as_protocol_error() {
    assert_eq!(
        "tok".to_string(),
        token_from_response(Some("tok".to_string())).unwrap()
    );
    let e = token_from_response(None).unwrap_err();
    assert_eq!(ErrorKind::Protocol, *e.kind());
}

#[test]
fn shard_ids_keep_order_and_skip_nameless_shards() {
    let shards = vec![
        Shard {
            shard_id: Some("shardId-000000000000".to_string()),
            parent_shard_id: None,
            adjacent_parent_shard_id: None,
        },
        Shard {
            shard_id: None,
            parent_shard_id: Some("shardId-000000000000".to_string()),
            adjacent_parent_shard_id: None,
        },
        Shard {
            shard_id: Some("shardId-000000000001".to_string()),
            parent_shard_id: None,
            adjacent_parent_shard_id: None,
        },
    ];
    assert_eq!(
        vec![
            "shardId-000000000000".to_string(),
            "shardId-000000000001".to_string()
        ],
        k_iter::records::shard_ids(&shards)
    );
}
