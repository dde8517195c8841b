use std::sync::Arc;
use tokio::sync::mpsc::error::TryRecvError;
use webtransport_client::client::{send_outcome, ClientState, SendDataError, WebTransportClient};
use webtransport_client::connect::{ConnectAction, ConnectEvent, ConnectionIdLen, SocketAddr};
use webtransport_client::read_task::ReadTask;

type Client = WebTransportClient<Arc<u32>>;
type Event = ConnectEvent<Arc<u32>, String>;
type Action = ConnectAction<Arc<u32>, String>;

fn server() -> SocketAddr {
    SocketAddr::V4 { ipv4: [192, 0, 2, 7], port: 4433 }
}

fn step(client: &mut Client, event: Event) -> Action {
    client.connect(server(), event)
}

fn open(client: &mut Client, connection: &Arc<u32>) -> ReadTask<Arc<u32>> {
    match step(client, ConnectEvent::ConnectionOpened(connection.clone())) {
        ConnectAction::SpawnReadTask(task) => task,
        _ => panic!("no read task"),
    }
}

fn take(task: &ReadTask<Arc<u32>>) -> Result<Vec<u8>, TryRecvError> {
    task.receiver.try_lock().unwrap().try_recv()
}

#[test]
fn a_new_client_is_initialized_and_cannot_send() {
    let mut client = Client::new();
    assert_eq!(client.state(), ClientState::Initialized);
    assert_eq!(client.send_data(vec![1, 2, 3]), Err(SendDataError::NoSender));
}

#[test]
fn an_attempt_asks_for_its_steps_in_order() {
    let mut client = Client::new();
    match step(&mut client, ConnectEvent::Started) {
        ConnectAction::BindSocket { local_addr } => {
            assert_eq!(local_addr, SocketAddr::V4 { ipv4: [0, 0, 0, 0], port: 0 });
        }
        _ => panic!("expected a bind"),
    }
    match step(&mut client, ConnectEvent::SocketBound) {
        ConnectAction::ConnectSocket { server_addr } => assert_eq!(server_addr, server()),
        _ => panic!("expected a connect"),
    }
    match step(&mut client, ConnectEvent::SocketConnected) {
        ConnectAction::CreateDefaultConfig { verify_peer } => assert!(!verify_peer),
        _ => panic!("expected a configuration"),
    }
    match step(&mut client, ConnectEvent::ConfigCreated { max_cid_size: 20 }) {
        ConnectAction::OpenConnection { id_request, server_addr } => {
            assert_eq!(id_request.cid, vec![0; 20]);
            assert_eq!(id_request.cid_len, ConnectionIdLen::Random);
            assert_eq!(server_addr, server());
        }
        _ => panic!("expected an opening"),
    }
    assert_eq!(client.state(), ClientState::Initialized);
    let connection = Arc::new(9);
    let task = open(&mut client, &connection);
    assert!(Arc::ptr_eq(&task.connection, &connection));
    assert_eq!(client.state(), ClientState::Connected);
}

#[test]
fn a_failed_step_ends_the_attempt_with_its_error() {
    let mut client = Client::new();
    match step(&mut client, ConnectEvent::Failed(String::from("refused"))) {
        ConnectAction::Fail(error) => assert_eq!(error, "refused"),
        _ => panic!("expected a failure"),
    }
    assert_eq!(client.state(), ClientState::Initialized);
    assert_eq!(client.send_data(vec![1]), Err(SendDataError::NoSender));
}

#[test]
fn a_failed_attempt_leaves_a_connected_client_alone() {
    let mut client = Client::new();
    let task = open(&mut client, &Arc::new(1));
    step(&mut client, ConnectEvent::Started);
    step(&mut client, ConnectEvent::Failed(String::from("unreachable")));
    assert_eq!(client.state(), ClientState::Connected);
    assert_eq!(client.send_data(vec![5]), Ok(()));
    assert_eq!(take(&task), Ok(vec![5]));
}

#[test]
fn sent_data_reaches_the_read_task_in_order() {
    let mut client = Client::new();
    let task = open(&mut client, &Arc::new(1));
    assert_eq!(take(&task), Err(TryRecvError::Empty));
    assert_eq!(client.send_data(vec![1, 2]), Ok(()));
    assert_eq!(client.send_data(vec![]), Ok(()));
    assert_eq!(client.send_data(vec![3]), Ok(()));
    assert_eq!(take(&task), Ok(vec![1, 2]));
    assert_eq!(take(&task), Ok(vec![]));
    assert_eq!(take(&task), Ok(vec![3]));
    assert_eq!(take(&task), Err(TryRecvError::Empty));
}

#[test]
fn connecting_again_replaces_connection_and_queue() {
    let mut client = Client::new();
    let first = open(&mut client, &Arc::new(1));
    let second = open(&mut client, &Arc::new(2));
    assert_eq!(*second.connection, 2);
    assert_eq!(client.send_data(vec![7]), Ok(()));
    assert_eq!(take(&first), Err(TryRecvError::Disconnected));
    assert_eq!(take(&second), Ok(vec![7]));
}

#[test]
fn a_closed_queue_gives_the_data_back() {
    let mut client = Client::new();
    let task = open(&mut client, &Arc::new(1));
    task.receiver.try_lock().unwrap().close();
    assert_eq!(client.send_data(vec![4, 5]), Err(SendDataError::ChannelClosed(vec![4, 5])));
}

#[test]
fn the_queue_outlives_the_read_task() {
    let mut client = Client::new();
    drop(open(&mut client, &Arc::new(1)));
    assert_eq!(client.send_data(vec![6]), Ok(()));
    assert_eq!(take(&client.spawn_read_task()), Ok(vec![6]));
}

#[test]
fn closing_changes_the_state_alone() {
    let mut client = Client::new();
    let task = open(&mut client, &Arc::new(1));
    client.on_close();
    assert_eq!(client.state(), ClientState::Closed);
    assert_eq!(client.send_data(vec![8]), Ok(()));
    assert_eq!(take(&task), Ok(vec![8]));
    client.on_close();
    assert_eq!(client.state(), ClientState::Closed);
}

#[test]
fn closing_a_new_client_gives_it_no_sender() {
    let mut client = Client::new();
    client.on_close();
    assert_eq!(client.state(), ClientState::Closed);
    assert_eq!(client.send_data(vec![1]), Err(SendDataError::NoSender));
}

#[test]
fn a_closed_client_can_be_connected_again() {
    let mut client = Client::new();
    open(&mut client, &Arc::new(1));
    client.on_close();
    let task = open(&mut client, &Arc::new(2));
    assert_eq!(client.state(), ClientState::Connected);
    assert_eq!(client.send_data(vec![1]), Ok(()));
    assert_eq!(take(&task), Ok(vec![1]));
}

#[test]
fn connection_ids_start_from_zeroed_buffers() {
    let client = Client::new();
    assert_eq!(client.generate_connection_id(0).cid, Vec::<u8>::new());
    assert_eq!(client.generate_connection_id(3).cid, vec![0, 0, 0]);
    assert_eq!(client.generate_connection_id(255).cid.len(), 255);
}

#[test]
fn received_data_is_reported_as_a_list() {
    let client = Client::new();
    assert_eq!(client.on_data_received(vec![]), "Received data: []");
    assert_eq!(client.on_data_received(vec![0]), "Received data: [0]");
    assert_eq!(client.on_data_received(vec![9, 10, 99, 100, 255]), "Received data: [9, 10, 99, 100, 255]");
    let all: Vec<u8> = (0..=255).collect();
    assert_eq!(client.on_data_received(all.clone()), format!("Received data: {:?}", all));
}

#[test]
fn send_outcomes_and_their_messages() {
    assert_eq!(send_outcome(Ok(())), Ok(()));
    assert_eq!(send_outcome(Err(vec![1])), Err(SendDataError::ChannelClosed(vec![1])));
    assert_eq!(SendDataError::NoSender.message(), "No sender channel found.");
    let closed = tokio::sync::mpsc::error::SendError(vec![1u8]);
    assert_eq!(SendDataError::ChannelClosed(vec![1]).message(), closed.to_string());
}

#[test]
fn equal_data_is_queued_as_often_as_it_is_sent() {
    let mut client = Client::new();
    let task = open(&mut client, &Arc::new(1));
    assert_eq!(client.send_data(vec![5, 5]), Ok(()));
    assert_eq!(client.send_data(vec![5, 5]), Ok(()));
    assert_eq!(take(&task), Ok(vec![5, 5]));
    assert_eq!(take(&task), Ok(vec![5, 5]));
    assert_eq!(take(&task), Err(TryRecvError::Empty));
}

#[test]
fn empty_data_is_one_datum() {
    let mut client = Client::new();
    let task = open(&mut client, &Arc::new(1));
    assert_eq!(client.send_data(vec![]), Ok(()));
    assert_eq!(take(&task), Ok(vec![]));
    assert_eq!(take(&task), Err(TryRecvError::Empty));
}

#[test]
fn data_longer_than_a_frame_is_queued_unsplit() {
    let mut client = Client::new();
    let task = open(&mut client, &Arc::new(1));
    assert_eq!(client.send_data(vec![7; 65536]), Ok(()));
    assert_eq!(take(&task), Ok(vec![7; 65536]));
    assert_eq!(take(&task), Err(TryRecvError::Empty));
}

#[test]
fn a_send_after_a_close_goes_behind_what_is_queued() {
    let mut client = Client::new();
    let task = open(&mut client, &Arc::new(1));
    assert_eq!(client.send_data(vec![1]), Ok(()));
    client.on_close();
    assert_eq!(client.send_data(vec![2]), Ok(()));
    assert_eq!(take(&task), Ok(vec![1]));
    assert_eq!(take(&task), Ok(vec![2]));
    assert_eq!(take(&task), Err(TryRecvError::Empty));
}

#[test]
fn unread_data_is_not_carried_over_to_the_next_connection() {
    let mut client = Client::new();
    let first = open(&mut client, &Arc::new(1));
    assert_eq!(client.send_data(vec![1]), Ok(()));
    let second = open(&mut client, &Arc::new(2));
    assert_eq!(take(&second), Err(TryRecvError::Empty));
    assert_eq!(client.send_data(vec![2]), Ok(()));
    assert_eq!(take(&second), Ok(vec![2]));
    assert_eq!(take(&first), Ok(vec![1]));
    assert_eq!(take(&first), Err(TryRecvError::Disconnected));
}

#[test]
fn reporting_leaves_the_queue_alone() {
    let mut client = Client::new();
    let task = open(&mut client, &Arc::new(1));
    assert_eq!(client.send_data(vec![1]), Ok(()));
    assert_eq!(client.on_data_received(vec![2]), "Received data: [2]");
    assert_eq!(client.state(), ClientState::Connected);
    assert_eq!(take(&task), Ok(vec![1]));
    assert_eq!(take(&task), Err(TryRecvError::Empty));
}

#[test]
fn a_refused_send_does_not_lose_the_sender() {
    let mut client = Client::new();
    let task = open(&mut client, &Arc::new(1));
    assert_eq!(client.send_data(vec![1]), Ok(()));
    task.receiver.try_lock().unwrap().close();
    assert_eq!(client.send_data(vec![2]), Err(SendDataError::ChannelClosed(vec![2])));
    assert_eq!(client.send_data(vec![3]), Err(SendDataError::ChannelClosed(vec![3])));
    assert_eq!(client.state(), ClientState::Connected);
    assert_eq!(take(&task), Ok(vec![1]));
    assert_eq!(take(&task), Err(TryRecvError::Disconnected));
}
