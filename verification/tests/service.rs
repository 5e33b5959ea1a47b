use entity_snapshot::batch::ColumnarBatch;
use entity_snapshot::encode::EncodingError;
use entity_snapshot::model::{Entity, Location, Task, TaskStatus, Timestamp};
use entity_snapshot::service::{
    snapshot, snapshot_from, Action, CallState, Capability, Event, SnapshotCall, StatusCode,
};
use entity_snapshot::stream::{snapshot_messages, Message};

fn entity(id: u128, name: &str) -> Entity {
    Entity {
        id,
        name: name.to_string(),
        position: Location { lat: (id as f64).to_bits(), lon: (-(id as f64)).to_bits() },
        tasks: vec![Task { id: id + 100, name: format!("task of {}", name), status: TaskStatus::Pending }],
        updated_at: Timestamp { secs: 0, nanos: 0 },
    }
}

fn abc() -> Vec<Entity> {
    vec![entity(1, "A"), entity(2, "B"), entity(3, "C")]
}

fn data_of(messages: &[Message]) -> Vec<ColumnarBatch> {
    let mut out = Vec::new();
    for m in messages {
        match m {
            Message::Data(batch) => out.push(batch.clone()),
            Message::Schema(_) => panic!("a layout where data was expected"),
        }
    }
    out
}

fn rebuilt(parts: &[ColumnarBatch]) -> ColumnarBatch {
    let mut all = ColumnarBatch::new();
    for p in parts {
        all.ids.extend(p.ids.iter().cloned());
        all.names.extend(p.names.iter().cloned());
        all.xs.extend(p.xs.iter().cloned());
        all.ys.extend(p.ys.iter().cloned());
        all.tasks.extend(p.tasks.iter().cloned());
    }
    all
}

#[test]
fn unsupported_capabilities_are_rejected() {
    let all = [
        (Capability::Handshake, "handshake not implemented"),
        (Capability::ListFlights, "list_flights not implemented"),
        (Capability::GetFlightInfo, "get_flight_info not implemented"),
        (Capability::PollFlightInfo, "poll_flight_info not implemented"),
        (Capability::GetSchema, "get_schema not implemented"),
        (Capability::DoPut, "do_put not implemented"),
        (Capability::DoExchange, "do_exchange not implemented"),
        (Capability::DoAction, "do_action not implemented"),
        (Capability::ListActions, "list_actions not implemented"),
    ];
    for (capability, message) in all {
        let status = capability.rejection().unwrap();
        assert_eq!(status.code, StatusCode::Unimplemented);
        assert_eq!(status.message, message);
    }
}

#[test]
fn snapshot_stream_is_offered() {
    assert_eq!(Capability::DoGet.rejection(), None);
    assert_eq!(Capability::DoGet.name(), "do_get");
}

#[test]
fn snapshot_of_three_entities_keeps_their_order() {
    let messages = snapshot(&abc(), 0).unwrap();
    assert_eq!(messages.len(), 2);
    assert_eq!(messages[0], Message::Schema(Entity::arrow_schema()));
    let all = rebuilt(&data_of(&messages[1..]));
    assert_eq!(all.names, vec!["A".to_string(), "B".to_string(), "C".to_string()]);
    assert_eq!(all, Entity::to_record_batch(&abc()).unwrap());
}

#[test]
fn chunked_snapshot_rebuilds_the_rows_in_order() {
    let messages = snapshot(&abc(), 2).unwrap();
    assert_eq!(messages.len(), 3);
    assert_eq!(messages[0], Message::Schema(Entity::arrow_schema()));
    let parts = data_of(&messages[1..]);
    assert_eq!(parts[0].names, vec!["A".to_string(), "B".to_string()]);
    assert_eq!(parts[1].names, vec!["C".to_string()]);
    assert_eq!(rebuilt(&parts), Entity::to_record_batch(&abc()).unwrap());
}

#[test]
fn five_rows_in_runs_of_two() {
    let input = vec![entity(1, "A"), entity(2, "B"), entity(3, "C"), entity(4, "D"), entity(5, "E")];
    let batch = Entity::to_record_batch(&input).unwrap();
    let messages = snapshot_messages(batch.clone(), 2);
    let sizes: Vec<usize> = data_of(&messages[1..]).iter().map(|b| b.num_rows()).collect();
    assert_eq!(sizes, vec![2, 2, 1]);
    assert_eq!(rebuilt(&data_of(&messages[1..])), batch);
    let exact = snapshot_messages(batch.clone(), 5);
    assert_eq!(exact.len(), 2);
    let wide = snapshot_messages(batch.clone(), usize::MAX);
    assert_eq!(wide.len(), 2);
    let single = snapshot_messages(batch, 1);
    assert_eq!(single.len(), 6);
}

#[test]
fn empty_snapshot_has_a_layout_and_one_empty_data_message() {
    let messages = snapshot(&[], 10).unwrap();
    assert_eq!(messages.len(), 2);
    assert_eq!(messages[0], Message::Schema(Entity::arrow_schema()));
    assert_eq!(messages[1], Message::Data(ColumnarBatch::new()));
}

#[test]
fn failed_encoding_is_an_internal_error() {
    let status = snapshot_from(Err(EncodingError { row: 1, task: 0 }), 10).unwrap_err();
    assert_eq!(status.code, StatusCode::Internal);
    assert_eq!(status.message, "the entities could not be encoded");
}

#[test]
fn ragged_batch_is_an_internal_error() {
    let mut batch = ColumnarBatch::new();
    batch.ys.push(3);
    let status = snapshot_from(Ok(batch), 10).unwrap_err();
    assert_eq!(status.code, StatusCode::Internal);
}

#[test]
fn call_runs_from_ticket_to_completion() {
    let mut call = SnapshotCall::new(2);
    assert_eq!(call.state(), CallState::Received);
    assert_eq!(call.step(Event::Ticket), Action::Resolve);
    assert_eq!(call.state(), CallState::Resolving);
    assert_eq!(call.step(Event::Resolved), Action::Encode);
    assert_eq!(call.state(), CallState::Encoding);
    let batch = Entity::to_record_batch(&abc()).unwrap();
    assert_eq!(call.step(Event::Encoded(Ok(batch.clone()))), Action::Send(0));
    assert_eq!(call.state(), CallState::Streaming);
    assert_eq!(call.message(0), Some(&Message::Schema(Entity::arrow_schema())));
    assert_eq!(call.message(1), Some(&Message::Data(batch.slice(0, 2))));
    assert_eq!(call.message(2), Some(&Message::Data(batch.slice(2, 3))));
    assert_eq!(call.message(3), None);
    assert_eq!(call.step(Event::Sent), Action::Send(1));
    assert_eq!(call.step(Event::Sent), Action::Send(2));
    assert_eq!(call.step(Event::Sent), Action::Close);
    assert_eq!(call.state(), CallState::Completed);
    assert_eq!(call.message(0), None);
    assert_eq!(call.step(Event::Sent), Action::Ignore);
    assert_eq!(call.step(Event::Disconnected), Action::Ignore);
    assert_eq!(call.state(), CallState::Completed);
}

#[test]
fn disconnect_after_the_layout_stops_the_call() {
    let batch = Entity::to_record_batch(&abc()).unwrap();
    let mut gone = SnapshotCall::new(1);
    let mut other = SnapshotCall::new(1);
    for call in [&mut gone, &mut other] {
        call.step(Event::Ticket);
        call.step(Event::Resolved);
        assert_eq!(call.step(Event::Encoded(Ok(batch.clone()))), Action::Send(0));
    }
    assert_eq!(gone.step(Event::Disconnected), Action::Release);
    assert_eq!(gone.state(), CallState::Failed);
    assert_eq!(gone.message(1), None);
    assert_eq!(gone.step(Event::Sent), Action::Ignore);
    assert_eq!(gone.state(), CallState::Failed);

    assert_eq!(other.state(), CallState::Streaming);
    assert_eq!(other.step(Event::Sent), Action::Send(1));
    assert_eq!(other.step(Event::Sent), Action::Send(2));
    assert_eq!(other.step(Event::Sent), Action::Send(3));
    assert_eq!(other.step(Event::Sent), Action::Close);
    assert_eq!(other.state(), CallState::Completed);
}

#[test]
fn encoder_failure_fails_the_call() {
    let mut call = SnapshotCall::new(0);
    call.step(Event::Ticket);
    call.step(Event::Resolved);
    assert_eq!(
        call.step(Event::Encoded(Err(EncodingError { row: 0, task: 0 }))),
        Action::Fail(StatusCode::Internal)
    );
    assert_eq!(call.state(), CallState::Failed);
    assert_eq!(call.step(Event::Sent), Action::Ignore);
}

#[test]
fn events_out_of_place_change_nothing() {
    let mut call = SnapshotCall::new(0);
    assert_eq!(call.step(Event::Sent), Action::Ignore);
    assert_eq!(call.step(Event::Resolved), Action::Ignore);
    assert_eq!(call.state(), CallState::Received);
    assert_eq!(call.step(Event::Ticket), Action::Resolve);
    assert_eq!(call.step(Event::Ticket), Action::Ignore);
    assert_eq!(call.state(), CallState::Resolving);
    assert_eq!(call.step(Event::Disconnected), Action::Release);
    assert_eq!(call.state(), CallState::Failed);
}

#[test]
fn ragged_batch_fails_the_call() {
    let mut batch = ColumnarBatch::new();
    batch.names.push("A".to_string());
    let mut call = SnapshotCall::new(4);
    call.step(Event::Ticket);
    call.step(Event::Resolved);
    assert!(call.is_well_formed());
    assert_eq!(call.step(Event::Encoded(Ok(batch))), Action::Fail(StatusCode::Internal));
    assert_eq!(call.state(), CallState::Failed);
    assert!(call.is_well_formed());
}

#[test]
fn empty_batch_streams_two_messages() {
    let mut call = SnapshotCall::new(4);
    call.step(Event::Ticket);
    call.step(Event::Resolved);
    assert_eq!(call.step(Event::Encoded(Ok(ColumnarBatch::new()))), Action::Send(0));
    assert_eq!(call.step(Event::Sent), Action::Send(1));
    assert_eq!(call.message(1), Some(&Message::Data(ColumnarBatch::new())));
    assert_eq!(call.step(Event::Sent), Action::Close);
    assert_eq!(call.state(), CallState::Completed);
}
