//! What each operation does, said of the values that go in and come out of a call.
use crate::client::{send_outcome, ClientState, SendDataError, WebTransportClient};
use crate::connect::{ConnectAction, ConnectEvent, ConnectionIdLen, ConnectionIdRequest, SocketAddr};
use crate::read_task::{ReadTask, ReadTaskAction, ReadTaskEvent, TransportError};
use vstd::prelude::*;

verus! {

/// Apart from two cases every operation takes every input: the read task takes messages of up to
/// 65535 bytes, and only a client with a connection has a read task.
pub proof fn law_what_the_operations_take<C: Clone, E>(
    client: &mut WebTransportClient<C>,
    seen: WebTransportClient<C>,
    server_addr: SocketAddr,
    event: ConnectEvent<C, E>,
    data: Vec<u8>,
    max_cid_size: u8,
    connection: C,
    task: ReadTask<C>,
    sent: Result<(), TransportError>,
)
    ensures
        call_requires(WebTransportClient::<C>::new, ()),
        call_requires(WebTransportClient::<C>::open, (connection,)),
        call_requires(WebTransportClient::<C>::connect::<E>, (client, server_addr, event)),
        call_requires(WebTransportClient::<C>::send_data, (client, data)),
        call_requires(WebTransportClient::<C>::on_close, (client,)),
        call_requires(WebTransportClient::<C>::state, (&seen,)),
        call_requires(WebTransportClient::<C>::on_data_received, (&seen, data)),
        call_requires(WebTransportClient::<C>::generate_connection_id, (&seen, max_cid_size)),
        seen@.connection is Some ==> call_requires(
            WebTransportClient::<C>::spawn_read_task,
            (&seen,),
        ),
        call_requires(ReadTask::<C>::step, (&task, ReadTaskEvent::Started)),
        call_requires(ReadTask::<C>::step, (&task, ReadTaskEvent::Received(None))),
        data@.len() <= 65535 ==> call_requires(
            ReadTask::<C>::step,
            (&task, ReadTaskEvent::Received(Some(data))),
        ),
        call_requires(ReadTask::<C>::step, (&task, ReadTaskEvent::Sent(sent))),
{
}

/// A new client has no connection and no queue, and is in its first state.
pub proof fn law_new_client<C>(client: WebTransportClient<C>)
    requires
        call_ensures(WebTransportClient::<C>::new, (), client),
    ensures
        client@.connection is None,
        client@.outgoing is None,
        client@.sent is None,
        !client@.open,
        client@.state == ClientState::Initialized,
{
}

/// `state` tells the state of the client that it is asked about.
pub proof fn law_state<C>(client: WebTransportClient<C>, state: ClientState)
    requires
        call_ensures(WebTransportClient::<C>::state, (&client,), state),
    ensures
        state == client@.state,
        client@.wf(),
{
}

/// An attempt starts by asking for a socket bound to 0.0.0.0 with port zero.
pub proof fn law_connect_binds_to_any_address<C: Clone, E>(
    client: &mut WebTransportClient<C>,
    server_addr: SocketAddr,
    action: ConnectAction<C, E>,
)
    requires
        call_ensures(
            WebTransportClient::<C>::connect::<E>,
            (client, server_addr, ConnectEvent::<C, E>::Started),
            action,
        ),
    ensures
        *final(client) == *old(client),
        action matches ConnectAction::BindSocket { local_addr } && local_addr matches SocketAddr::V4 {
            ipv4,
            port,
        } && ipv4@[0] == 0 && ipv4@[1] == 0 && ipv4@[2] == 0 && ipv4@[3] == 0 && port == 0,
{
}

/// A bound socket is to be connected to the very address that the caller gave.
pub proof fn law_connect_dials_the_server<C: Clone, E>(
    client: &mut WebTransportClient<C>,
    server_addr: SocketAddr,
    action: ConnectAction<C, E>,
)
    requires
        call_ensures(
            WebTransportClient::<C>::connect::<E>,
            (client, server_addr, ConnectEvent::<C, E>::SocketBound),
            action,
        ),
    ensures
        *final(client) == *old(client),
        action == (ConnectAction::<C, E>::ConnectSocket { server_addr }),
{
}

/// After the socket comes a configuration that does not verify the peer.
pub proof fn law_connect_configures_without_verification<C: Clone, E>(
    client: &mut WebTransportClient<C>,
    server_addr: SocketAddr,
    action: ConnectAction<C, E>,
)
    requires
        call_ensures(
            WebTransportClient::<C>::connect::<E>,
            (client, server_addr, ConnectEvent::<C, E>::SocketConnected),
            action,
        ),
    ensures
        *final(client) == *old(client),
        action == (ConnectAction::<C, E>::CreateDefaultConfig { verify_peer: false }),
{
}

/// After the configuration comes the connection: to the very address that the caller gave, with an
/// ID made at random in a buffer of as many zeros as an ID can have bytes.
pub proof fn law_connect_opens_to_the_server<C: Clone, E>(
    client: &mut WebTransportClient<C>,
    server_addr: SocketAddr,
    max_cid_size: u8,
    action: ConnectAction<C, E>,
)
    requires
        call_ensures(
            WebTransportClient::<C>::connect::<E>,
            (client, server_addr, ConnectEvent::<C, E>::ConfigCreated { max_cid_size }),
            action,
        ),
    ensures
        *final(client) == *old(client),
        action matches ConnectAction::OpenConnection { id_request, server_addr: target } && target
            == server_addr && id_request.cid@.len() == max_cid_size && (forall|j: int|
            0 <= j < max_cid_size ==> #[trigger] id_request.cid@[j] == 0) && id_request.cid_len
            == ConnectionIdLen::Random,
{
}

/// An opened connection makes the client a connected one that `open` builds from this connection
/// alone: whatever it had before is replaced. Nothing is queued, and the read task to be spawned has
/// a clone of this connection and the receive half of the client's new queue.
pub proof fn law_connect_takes_the_new_connection<C: Clone, E>(
    client: &mut WebTransportClient<C>,
    server_addr: SocketAddr,
    connection: C,
    action: ConnectAction<C, E>,
)
    requires
        call_ensures(
            WebTransportClient::<C>::connect::<E>,
            (client, server_addr, ConnectEvent::<C, E>::ConnectionOpened(connection)),
            action,
        ),
    ensures
        call_ensures(WebTransportClient::<C>::open, (connection,), *final(client)),
        final(client)@.connection == Some(connection),
        final(client)@.state == ClientState::Connected,
        final(client)@.sent is Some,
        final(client)@.sent->0.len() == 0,
        action matches ConnectAction::SpawnReadTask(task) && cloned(connection, task.connection)
            && final(client)@.outgoing == Some(task.messages()) && final(client)@.incoming
            == task.messages(),
{
}

/// A client made by `open` is connected over the connection it was given, with an empty queue whose
/// two ends belong together.
pub proof fn law_open_makes_a_connected_client<C>(connection: C, client: WebTransportClient<C>)
    requires
        call_ensures(WebTransportClient::<C>::open, (connection,), client),
    ensures
        client@.connection == Some(connection),
        client@.state == ClientState::Connected,
        client@.outgoing == Some(client@.incoming),
        client@.sent is Some,
        client@.sent->0.len() == 0,
{
}

/// A step that failed ends the attempt with its own error and leaves the client as it was, connected
/// or not.
pub proof fn law_connect_gives_the_error_back<C: Clone, E>(
    client: &mut WebTransportClient<C>,
    server_addr: SocketAddr,
    error: E,
    action: ConnectAction<C, E>,
)
    requires
        call_ensures(
            WebTransportClient::<C>::connect::<E>,
            (client, server_addr, ConnectEvent::<C, E>::Failed(error)),
            action,
        ),
    ensures
        *final(client) == *old(client),
        action == ConnectAction::<C, E>::Fail(error),
{
}

/// `connect` never asks for a read task unless a connection was opened, and never fails unless a
/// step did.
pub proof fn law_connect_ends_for_a_reason<C: Clone, E>(
    client: &mut WebTransportClient<C>,
    server_addr: SocketAddr,
    event: ConnectEvent<C, E>,
    action: ConnectAction<C, E>,
)
    requires
        call_ensures(
            WebTransportClient::<C>::connect::<E>,
            (client, server_addr, event),
            action,
        ),
    ensures
        action is SpawnReadTask <==> event is ConnectionOpened,
        action is Fail <==> event is Failed,
        event !is ConnectionOpened ==> *final(client) == *old(client),
        final(client)@.wf(),
{
}

/// What `connect` asks for does not depend on the client: two clients that meet the same event on
/// the way to the same server are asked for the same kind of thing.
pub proof fn law_connect_treats_all_clients_alike<C: Clone, E>(
    first: &mut WebTransportClient<C>,
    second: &mut WebTransportClient<C>,
    server_addr: SocketAddr,
    event: ConnectEvent<C, E>,
    first_action: ConnectAction<C, E>,
    second_action: ConnectAction<C, E>,
)
    requires
        call_ensures(
            WebTransportClient::<C>::connect::<E>,
            (first, server_addr, event),
            first_action,
        ),
        call_ensures(
            WebTransportClient::<C>::connect::<E>,
            (second, server_addr, event),
            second_action,
        ),
    ensures
        first_action is BindSocket <==> second_action is BindSocket,
        first_action is ConnectSocket ==> first_action == second_action,
        first_action is CreateDefaultConfig ==> first_action == second_action,
        first_action is OpenConnection <==> second_action is OpenConnection,
        first_action is SpawnReadTask <==> second_action is SpawnReadTask,
        first_action is Fail ==> first_action == second_action,
{
}

/// A connection ID is asked for in a buffer of zeros of the given size, at random.
pub proof fn law_connection_id_request<C>(
    client: WebTransportClient<C>,
    max_cid_size: u8,
    request: ConnectionIdRequest,
)
    requires
        call_ensures(
            WebTransportClient::<C>::generate_connection_id,
            (&client, max_cid_size),
            request,
        ),
    ensures
        request.cid@.len() == max_cid_size,
        forall|j: int| 0 <= j < max_cid_size ==> #[trigger] request.cid@[j] == 0,
        request.cid_len == ConnectionIdLen::Random,
{
}

/// The read task of a client has a clone of the client's connection and reads the client's queue.
pub proof fn law_read_task_belongs_to_its_client<C: Clone>(
    client: WebTransportClient<C>,
    task: ReadTask<C>,
)
    requires
        client@.connection is Some,
        call_ensures(WebTransportClient::<C>::spawn_read_task, (&client,), task),
    ensures
        cloned(client@.connection->0, task.connection),
        task.messages() == client@.incoming,
        task.messages() == crate::channel::guarded(*task.receiver),
{
}

/// A send that succeeds puts the data, as it came and once, behind all that was queued before; it is
/// then the message of the read task at that position. Nothing else about the client changes.
pub proof fn law_send_appends_the_data<C>(
    client: &mut WebTransportClient<C>,
    data: Vec<u8>,
    result: Result<(), SendDataError>,
)
    requires
        call_ensures(WebTransportClient::<C>::send_data, (client, data), result),
        result is Ok,
    ensures
        old(client)@.sent is Some,
        final(client)@.sent is Some,
        final(client)@.sent->0.len() == old(client)@.sent->0.len() + 1,
        final(client)@.sent->0.last() == data@,
        forall|i: int|
            0 <= i < old(client)@.sent->0.len() ==> #[trigger] final(client)@.sent->0[i] == old(
                client,
            )@.sent->0[i],
        old(client)@.incoming.contains_key(old(client)@.sent->0.len()),
        old(client)@.incoming[old(client)@.sent->0.len()] == data@,
        final(client)@.connection == old(client)@.connection,
        final(client)@.outgoing == old(client)@.outgoing,
        final(client)@.incoming == old(client)@.incoming,
        final(client)@.open == old(client)@.open,
        final(client)@.state == old(client)@.state,
        final(client)@.wf(),
{
}

/// A send is refused for one of two reasons: there is no sender, and then always, or the queue was
/// closed, and then the data comes back. Neither changes the client. A queue that is never closed
/// refuses nothing.
pub proof fn law_send_is_refused_for_a_reason<C>(
    client: &mut WebTransportClient<C>,
    data: Vec<u8>,
    result: Result<(), SendDataError>,
)
    requires
        call_ensures(WebTransportClient::<C>::send_data, (client, data), result),
    ensures
        old(client)@.sent is None <==> result == Err::<(), SendDataError>(SendDataError::NoSender),
        result matches Err(SendDataError::ChannelClosed(returned)) ==> returned@ == data@
            && old(client)@.sent is Some && !old(client)@.open,
        result is Err ==> final(client)@ == old(client)@,
        old(client)@.open ==> result is Ok,
{
}

/// What the channel answers is what the caller gets: success, or the data that came back.
pub proof fn law_send_outcome(sent: Result<(), Vec<u8>>, result: Result<(), SendDataError>)
    requires
        call_ensures(send_outcome, (sent,), result),
    ensures
        sent is Ok <==> result is Ok,
        sent matches Err(data) ==> result == Err::<(), SendDataError>(
            SendDataError::ChannelClosed(data),
        ),
{
}

/// The two errors of a send have words of their own.
pub proof fn law_error_messages(error: SendDataError, text: &'static str)
    requires
        call_ensures(SendDataError::message, (&error,), text),
    ensures
        error is NoSender <==> text@ == "No sender channel found."@,
        error is ChannelClosed <==> text@ == "channel closed"@,
{
    reveal_strlit("No sender channel found.");
    reveal_strlit("channel closed");
    assert("channel closed"@.len() != "No sender channel found."@.len());
}

/// A close sets the state, and nothing else changes.
pub proof fn law_close<C>(client: &mut WebTransportClient<C>)
    requires
        call_ensures(WebTransportClient::<C>::on_close, (client,), ()),
    ensures
        final(client)@.state == ClientState::Closed,
        final(client)@.connection == old(client)@.connection,
        final(client)@.outgoing == old(client)@.outgoing,
        final(client)@.incoming == old(client)@.incoming,
        final(client)@.open == old(client)@.open,
        final(client)@.sent == old(client)@.sent,
        final(client)@.wf(),
{
}

/// A message is answered with one frame that is exactly as long as the message, all zeros, on stream
/// zero, which it closes.
pub proof fn law_step_sends_a_frame_as_long_as_the_message<C>(
    task: ReadTask<C>,
    data: Vec<u8>,
    action: ReadTaskAction,
)
    requires
        data@.len() <= 65535,
        call_ensures(ReadTask::<C>::step, (&task, ReadTaskEvent::Received(Some(data))), action),
    ensures
        action matches ReadTaskAction::SendStreamData(frame) && frame.data@.len() == data@.len() && (
        forall|j: int| 0 <= j < data@.len() ==> #[trigger] frame.data@[j] == 0) && frame.stream_id
            == 0 && frame.fin,
{
}

/// A closed queue is answered with an empty frame on stream zero, which it closes.
pub proof fn law_step_sends_an_empty_frame_for_a_closed_queue<C>(
    task: ReadTask<C>,
    action: ReadTaskAction,
)
    requires
        call_ensures(ReadTask::<C>::step, (&task, ReadTaskEvent::Received(None)), action),
    ensures
        action matches ReadTaskAction::SendStreamData(frame) && frame.data@.len() == 0
            && frame.stream_id == 0 && frame.fin,
{
}

/// The task waits for a message at its start and after a frame that was taken.
pub proof fn law_step_waits_for_the_next_message<C>(
    task: ReadTask<C>,
    event: ReadTaskEvent,
    action: ReadTaskAction,
)
    requires
        event is Started || event == ReadTaskEvent::Sent(Ok(())),
        call_ensures(ReadTask::<C>::step, (&task, event), action),
    ensures
        action is Receive,
{
}

/// A closed connection ends the task, with a line that says so.
pub proof fn law_step_ends_with_the_connection<C>(task: ReadTask<C>, action: ReadTaskAction)
    requires
        call_ensures(
            ReadTask::<C>::step,
            (&task, ReadTaskEvent::Sent(Err(TransportError::InvalidState))),
            action,
        ),
    ensures
        action matches ReadTaskAction::Exit(line) && line@ == "Read task exiting."@,
{
}

/// Any other error is reported in its own words, and the task goes on.
pub proof fn law_step_reports_other_errors<C>(
    task: ReadTask<C>,
    text: String,
    action: ReadTaskAction,
)
    requires
        call_ensures(
            ReadTask::<C>::step,
            (&task, ReadTaskEvent::Sent(Err(TransportError::Other(text)))),
            action,
        ),
    ensures
        action matches ReadTaskAction::ReportAndReceive(line) && line@ == "Error sending data: "@
            + text@,
{
}

/// The number that decimal digits stand for.
pub open spec fn value_of(digits: Seq<char>) -> int
    decreases digits.len(),
{
    if digits.len() == 0 {
        0
    } else {
        10 * value_of(digits.drop_last()) + (digits.last() as int - 48)
    }
}

/// Whether `digits` is `n` in decimal notation: digits alone, at least one, no leading zero unless
/// it is the only digit, and of that value.
pub open spec fn is_numeral(digits: Seq<char>, n: int) -> bool {
    &&& digits.len() > 0
    &&& forall|i: int| 0 <= i < digits.len() ==> 48 <= #[trigger] digits[i] as int <= 57
    &&& digits[0] as int == 48 ==> digits.len() == 1
    &&& value_of(digits) == n
}

/// `decimal` writes every number as its numeral.
pub proof fn law_decimal_writes_numerals(n: nat)
    ensures
        is_numeral(crate::text::decimal(n), n as int),
        crate::text::decimal(n)[0] as int == 48 ==> n == 0,
    decreases n,
{
    let digits = crate::text::decimal(n);
    reveal_with_fuel(value_of, 2);
    if n < 10 {
        assert(digits.drop_last() =~= Seq::<char>::empty());
    } else {
        law_decimal_writes_numerals(n / 10);
        assert(digits.drop_last() =~= crate::text::decimal(n / 10));
        assert(digits[0] == crate::text::decimal(n / 10)[0]);
    }
}

/// Received data that is empty is reported as an empty list.
pub proof fn law_report_of_nothing<C>(client: WebTransportClient<C>, data: Vec<u8>, line: String)
    requires
        data@.len() == 0,
        call_ensures(WebTransportClient::<C>::on_data_received, (&client, data), line),
    ensures
        line@ == "Received data: []"@,
{
    reveal_strlit("Received data: []");
    reveal_strlit("Received data: ");
    reveal_strlit("[");
    reveal_strlit("]");
    assert(line@ =~= "Received data: []"@);
}

/// One byte more in the data is one number more at the end of the list, whatever the bytes are and
/// whichever clients report them: the line for the longer data is that for the shorter up to its
/// closing bracket, then a comma and a space unless the list was empty, the byte as a numeral, and
/// the closing bracket.
pub proof fn law_report_lists_every_byte<C>(
    client: WebTransportClient<C>,
    data: Vec<u8>,
    line: String,
    other: WebTransportClient<C>,
    longer: Vec<u8>,
    longer_line: String,
    byte: u8,
)
    requires
        call_ensures(WebTransportClient::<C>::on_data_received, (&client, data), line),
        call_ensures(WebTransportClient::<C>::on_data_received, (&other, longer), longer_line),
        longer@ == data@.push(byte),
    ensures
        line@.len() > 0,
        ({
            let kept = line@.len() - 1;
            let start = kept + if data@.len() == 0 { 0int } else { 2int };
            let end = longer_line@.len() - 1;
            &&& start < end
            &&& longer_line@.take(kept) == line@.take(kept)
            &&& data@.len() > 0 ==> longer_line@[kept] == ',' && longer_line@[kept + 1] == ' '
            &&& is_numeral(longer_line@.subrange(start, end), byte as int)
            &&& longer_line@[end] == ']'
            &&& line@[kept] == ']'
        }),
{
    reveal_strlit("Received data: ");
    reveal_strlit("[");
    reveal_strlit("]");
    reveal_strlit(", ");
    law_decimal_writes_numerals(byte as nat);
    let number = crate::text::decimal(byte as nat);
    let kept = line@.len() - 1;
    let start = kept + if data@.len() == 0 { 0int } else { 2int };
    let end = longer_line@.len() - 1;
    assert(longer@.drop_last() =~= data@);
    assert(longer@.last() == byte);
    assert(longer_line@.take(kept) =~= line@.take(kept));
    assert(longer_line@.subrange(start, end) =~= number);
}

} // verus!
