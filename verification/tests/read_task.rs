use webtransport_client::client::WebTransportClient;
use webtransport_client::connect::{ConnectAction, ConnectEvent, SocketAddr};
use webtransport_client::read_task::{
    ReadTask, ReadTaskAction, ReadTaskEvent, StreamFrame, TransportError, BUFFER_SIZE,
};

fn task() -> ReadTask<u32> {
    let mut client = WebTransportClient::new();
    let server = SocketAddr::V6 { ipv6: [0; 16], port: 1, flowinfo: 0, scope_id: 0 };
    match client.connect::<()>(server, ConnectEvent::ConnectionOpened(3)) {
        ConnectAction::SpawnReadTask(task) => task,
        _ => panic!("no read task"),
    }
}

fn frame(len: usize) -> ReadTaskAction {
    ReadTaskAction::SendStreamData(StreamFrame { stream_id: 0, data: vec![0; len], fin: true })
}

#[test]
fn the_task_starts_by_waiting() {
    let task = task();
    assert_eq!(task.connection, 3);
    assert_eq!(task.step(ReadTaskEvent::Started), ReadTaskAction::Receive);
}

#[test]
fn a_message_becomes_a_zeroed_frame_of_its_length() {
    let task = task();
    assert_eq!(task.step(ReadTaskEvent::Received(Some(vec![1, 2, 3]))), frame(3));
    assert_eq!(task.step(ReadTaskEvent::Received(Some(vec![]))), frame(0));
    let longest = vec![255; BUFFER_SIZE];
    assert_eq!(task.step(ReadTaskEvent::Received(Some(longest))), frame(65535));
}

#[test]
fn a_closed_queue_becomes_an_empty_frame() {
    assert_eq!(task().step(ReadTaskEvent::Received(None)), frame(0));
}

#[test]
fn a_taken_frame_is_followed_by_the_next_message() {
    assert_eq!(task().step(ReadTaskEvent::Sent(Ok(()))), ReadTaskAction::Receive);
}

#[test]
fn a_closed_connection_ends_the_task() {
    assert_eq!(
        task().step(ReadTaskEvent::Sent(Err(TransportError::InvalidState))),
        ReadTaskAction::Exit(String::from("Read task exiting."))
    );
}

#[test]
fn another_error_is_reported_and_passed_over() {
    assert_eq!(
        task().step(ReadTaskEvent::Sent(Err(TransportError::Other(String::from("FlowControl"))))),
        ReadTaskAction::ReportAndReceive(String::from("Error sending data: FlowControl"))
    );
}

#[test]
fn a_run_alternates_until_the_connection_is_closed() {
    let task = task();
    assert_eq!(task.step(ReadTaskEvent::Started), ReadTaskAction::Receive);
    assert_eq!(task.step(ReadTaskEvent::Received(Some(vec![7]))), frame(1));
    assert!(matches!(
        task.step(ReadTaskEvent::Sent(Err(TransportError::Other(String::from("Blocked"))))),
        ReadTaskAction::ReportAndReceive(_)
    ));
    assert_eq!(task.step(ReadTaskEvent::Received(None)), frame(0));
    assert!(matches!(
        task.step(ReadTaskEvent::Sent(Err(TransportError::InvalidState))),
        ReadTaskAction::Exit(_)
    ));
}
