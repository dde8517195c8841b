//! What holds of the client and of its read task over several calls.
use crate::client::{ClientView, SendDataError};
use crate::connect::{ConnectAction, ConnectEvent, ConnectionIdLen, SocketAddr};
use crate::read_task::{ReadTask, ReadTaskActionView, ReadTaskEventView, TransportErrorView};
use vstd::prelude::*;

verus! {

/// Whether `event` is an outcome of `action`.
pub open spec fn connect_answers<C, E>(
    action: ConnectAction<C, E>,
    event: ConnectEvent<C, E>,
) -> bool {
    match action {
        ConnectAction::BindSocket { .. } => event is SocketBound || event is Failed,
        ConnectAction::ConnectSocket { .. } => event is SocketConnected || event is Failed,
        ConnectAction::CreateDefaultConfig { .. } => event is ConfigCreated || event is Failed,
        ConnectAction::OpenConnection { .. } => event is ConnectionOpened || event is Failed,
        ConnectAction::SpawnReadTask(_) => false,
        ConnectAction::Fail(_) => false,
    }
}

/// Whether `events` and `actions` are an attempt to connect, or the first part of one, that takes
/// the client through `clients`: it begins with `Started`, every event but the first is an outcome
/// of the action before it, and every action is what `connect` does about its event.
pub open spec fn is_attempt<C: Clone, E>(
    server_addr: SocketAddr,
    clients: Seq<ClientView<C>>,
    events: Seq<ConnectEvent<C, E>>,
    actions: Seq<ConnectAction<C, E>>,
) -> bool {
    &&& events.len() > 0
    &&& actions.len() == events.len()
    &&& clients.len() == events.len() + 1
    &&& events[0] is Started
    &&& forall|i: int|
        0 <= i < events.len() ==> crate::client::connect_step(
            clients[i],
            server_addr,
            #[trigger] events[i],
            actions[i],
            clients[i + 1],
        )
    &&& forall|i: int|
        0 < i < events.len() ==> connect_answers(actions[i - 1], #[trigger] events[i])
}

/// An attempt goes through its steps in order: the socket is bound, then connected, then the
/// configuration is made, then the connection is opened. It ends at the first failure, and so a
/// connection is opened only where every earlier step went well.
pub proof fn law_connect_order<C: Clone, E>(
    server_addr: SocketAddr,
    clients: Seq<ClientView<C>>,
    events: Seq<ConnectEvent<C, E>>,
    actions: Seq<ConnectAction<C, E>>,
)
    requires
        is_attempt(server_addr, clients, events, actions),
    ensures
        events.len() <= 5,
        forall|i: int|
            0 <= i < events.len() ==> match #[trigger] events[i] {
                ConnectEvent::Started => i == 0,
                ConnectEvent::SocketBound => i == 1,
                ConnectEvent::SocketConnected => i == 2,
                ConnectEvent::ConfigCreated { .. } => i == 3,
                ConnectEvent::ConnectionOpened(_) => i == 4,
                ConnectEvent::Failed(_) => i >= 1 && i == events.len() - 1,
            },
{
    assert(events[0] is Started);
    if events.len() > 1 {
        assert(connect_answers(actions[0], events[1]));
    }
    if events.len() > 2 {
        assert(connect_answers(actions[1], events[2]));
    }
    if events.len() > 3 {
        assert(connect_answers(actions[2], events[3]));
    }
    if events.len() > 4 {
        assert(connect_answers(actions[3], events[4]));
    }
    if events.len() > 5 {
        assert(connect_answers(actions[4], events[5]));
    }
}

/// An attempt that has not opened a connection, because it failed or is still under way, leaves
/// the client as it was.
pub proof fn law_unopened_attempt_changes_nothing<C: Clone, E>(
    server_addr: SocketAddr,
    clients: Seq<ClientView<C>>,
    events: Seq<ConnectEvent<C, E>>,
    actions: Seq<ConnectAction<C, E>>,
)
    requires
        is_attempt(server_addr, clients, events, actions),
        events.last() !is ConnectionOpened,
    ensures
        clients.last() == clients[0],
{
    law_connect_order(server_addr, clients, events, actions);
    lemma_unchanged_until(server_addr, clients, events, actions, events.len() as int);
}

/// Before the connection is opened no step of an attempt changes the client.
proof fn lemma_unchanged_until<C: Clone, E>(
    server_addr: SocketAddr,
    clients: Seq<ClientView<C>>,
    events: Seq<ConnectEvent<C, E>>,
    actions: Seq<ConnectAction<C, E>>,
    n: int,
)
    requires
        is_attempt(server_addr, clients, events, actions),
        0 <= n <= events.len(),
        forall|i: int| 0 <= i < n ==> #[trigger] events[i] !is ConnectionOpened,
    ensures
        clients[n] == clients[0],
    decreases n,
{
    if n > 0 {
        lemma_unchanged_until(server_addr, clients, events, actions, n - 1);
        assert(events[n - 1] !is ConnectionOpened);
    }
}

/// An attempt that has opened a connection leaves the client connected over it and spawns a read
/// task on a clone of that very connection. Every message that the client's sender gets accepted is
/// one for that task. Nothing
/// is queued yet. What connection and queue the client had before does not matter.
pub proof fn law_opened_attempt_connects<C: Clone, E>(
    server_addr: SocketAddr,
    clients: Seq<ClientView<C>>,
    events: Seq<ConnectEvent<C, E>>,
    actions: Seq<ConnectAction<C, E>>,
)
    requires
        is_attempt(server_addr, clients, events, actions),
        events.last() is ConnectionOpened,
    ensures
        clients.last().state == crate::client::ClientState::Connected,
        clients.last().connection == Some(events.last()->ConnectionOpened_0),
        actions.last() matches ConnectAction::SpawnReadTask(task)
            && clients.last().outgoing == Some(task.messages())
            && clients.last().incoming == task.messages()
            && cloned(events.last()->ConnectionOpened_0, task.connection),
        clients.last().sent == Some(Seq::<Seq<u8>>::empty()),
        clients.last().wf(),
{
    assert(crate::client::connect_step(
        clients[events.len() - 1],
        server_addr,
        events[events.len() - 1],
        actions[events.len() - 1],
        clients[events.len() as int],
    ));
}

/// Every step of an attempt is for the server that the attempt was started for: the socket is bound
/// to any local address, connected to that server, and the connection is opened to that server. The
/// peer is not verified, and the connection ID starts from zeros in a buffer of the largest size.
pub proof fn law_attempt_is_for_its_server<C: Clone, E>(
    server_addr: SocketAddr,
    clients: Seq<ClientView<C>>,
    events: Seq<ConnectEvent<C, E>>,
    actions: Seq<ConnectAction<C, E>>,
    i: int,
)
    requires
        is_attempt(server_addr, clients, events, actions),
        0 <= i < actions.len(),
    ensures
        match actions[i] {
            ConnectAction::BindSocket { local_addr } => local_addr matches SocketAddr::V4 {
                ipv4,
                port,
            } && port == 0 && forall|j: int| 0 <= j < 4 ==> #[trigger] ipv4@[j] == 0,
            ConnectAction::ConnectSocket { server_addr: target } => target == server_addr,
            ConnectAction::CreateDefaultConfig { verify_peer } => !verify_peer,
            ConnectAction::OpenConnection { id_request, server_addr: target } => {
                &&& target == server_addr
                &&& events[i] matches ConnectEvent::ConfigCreated { max_cid_size }
                &&& id_request.cid@.len() == max_cid_size
                &&& forall|j: int| 0 <= j < max_cid_size ==> #[trigger] id_request.cid@[j] == 0
                &&& id_request.cid_len == ConnectionIdLen::Random
            },
            ConnectAction::SpawnReadTask(_) => true,
            ConnectAction::Fail(_) => true,
        },
{
    assert(crate::client::connect_step(
        clients[i],
        server_addr,
        events[i],
        actions[i],
        clients[i + 1],
    ));
}

/// An attempt ends as its last event says, whatever the client was before: with the error of the
/// step that failed, given back as it is, or with a read task where the connection was opened. It
/// fails for nothing else, and spawns a task for nothing else.
pub proof fn law_attempt_ends_as_its_last_event_says<C: Clone, E>(
    server_addr: SocketAddr,
    clients: Seq<ClientView<C>>,
    events: Seq<ConnectEvent<C, E>>,
    actions: Seq<ConnectAction<C, E>>,
    i: int,
)
    requires
        is_attempt(server_addr, clients, events, actions),
        0 <= i < events.len(),
    ensures
        events[i] matches ConnectEvent::Failed(error) ==> actions[i] == ConnectAction::<
            C,
            E,
        >::Fail(error) && clients[i + 1] == clients[i],
        actions[i] is Fail ==> events[i] is Failed && i == events.len() - 1,
        events[i] is ConnectionOpened <==> actions[i] is SpawnReadTask,
        actions[i] is SpawnReadTask ==> i == events.len() - 1,
{
    law_connect_order(server_addr, clients, events, actions);
    assert(crate::client::connect_step(
        clients[i],
        server_addr,
        events[i],
        actions[i],
        clients[i + 1],
    ));
    if i + 1 < events.len() {
        assert(connect_answers(actions[i + 1 - 1], events[i + 1]));
    }
}

/// What holds of every client: a connection, a sender and a record of what was queued come
/// together; what was queued is what the read task is given, in the same order; a client that has
/// yet to be connected has none of them, and a connected one has them all.
pub proof fn law_meaning_of_the_invariant<C>(client: ClientView<C>)
    requires
        client.wf(),
    ensures
        client.connection is Some <==> client.sent is Some,
        client.connection is Some <==> client.outgoing is Some,
        client.outgoing is Some ==> client.outgoing == Some(client.incoming),
        client.sent is Some ==> forall|i: int|
            0 <= i < client.sent->0.len() ==> client.incoming.contains_pair(
                i as nat,
                #[trigger] client.sent->0[i],
            ),
        client.open ==> client.sent is Some,
        client.state == crate::client::ClientState::Initialized ==> client.connection is None,
        client.state == crate::client::ClientState::Connected ==> client.connection is Some,
{
}

/// No step of an attempt to connect breaks what holds of every client, and none takes the sender
/// of a client away.
pub proof fn law_connect_keeps_the_sender<C: Clone, E>(
    before: ClientView<C>,
    server_addr: SocketAddr,
    event: ConnectEvent<C, E>,
    action: ConnectAction<C, E>,
    after: ClientView<C>,
)
    requires
        before.wf(),
        crate::client::connect_step(before, server_addr, event, action, after),
    ensures
        after.wf(),
        before.outgoing is Some ==> after.outgoing is Some,
{
}

/// Two sends that succeed one after the other queue both data behind what was queued before, first
/// in first out and each as a datum of its own, also where the two are equal.
pub proof fn law_two_sends_queue_both_in_order<C>(
    client: ClientView<C>,
    first: Seq<u8>,
    between: ClientView<C>,
    second: Seq<u8>,
    after: ClientView<C>,
)
    requires
        crate::client::send_step(client, first, Ok(()), between),
        crate::client::send_step(between, second, Ok(()), after),
    ensures
        client.sent is Some,
        after.sent == Some(client.sent->0 + seq![first, second]),
        after == (ClientView { sent: after.sent, ..client }),
{
    assert(client.sent->0.push(first).push(second) =~= client.sent->0 + seq![first, second]);
}

/// A client whose queue is never closed at the other end takes all data, and stays such a client.
pub proof fn law_open_queue_takes_all_data<C>(
    client: ClientView<C>,
    data: Seq<u8>,
    result: Result<(), SendDataError>,
    after: ClientView<C>,
)
    requires
        client.wf(),
        client.open,
        crate::client::send_step(client, data, result, after),
    ensures
        result is Ok,
        after == (ClientView { sent: Some(client.sent->0.push(data)), ..client }),
        after.open,
{
}

/// A send to a closed client answers and queues as it would have without the close.
pub proof fn law_send_does_not_heed_a_close<C>(
    client: ClientView<C>,
    data: Seq<u8>,
    result: Result<(), SendDataError>,
    after: ClientView<C>,
)
    requires
        crate::client::send_step(client.closed(), data, result, after),
    ensures
        crate::client::send_step(client, data, result, ClientView { state: client.state, ..after }),
        after.state == crate::client::ClientState::Closed,
        after.connection == client.connection,
        after.outgoing == client.outgoing,
        after.incoming == client.incoming,
        after.open == client.open,
        result is Ok ==> client.sent is Some && after.sent == Some(client.sent->0.push(data)),
        result is Err ==> after.sent == client.sent,
{
}

/// Reporting received data leaves the client as it is: nothing is queued, and neither its queue nor
/// its connection nor its state changes.
pub proof fn law_report_leaves_the_client_alone<C>(
    client: ClientView<C>,
    data: Seq<u8>,
    line: Seq<char>,
    after: ClientView<C>,
)
    requires
        crate::client::report_step(client, data, line, after),
    ensures
        after == client,
{
}

/// A call of one of the client's operations, with what went in and what came out.
pub enum ClientCall<C, E> {
    Connect { server_addr: SocketAddr, event: ConnectEvent<C, E>, action: ConnectAction<C, E> },
    Send { data: Seq<u8>, result: Result<(), SendDataError> },
    Report { data: Seq<u8>, line: Seq<char> },
    Close,
}

/// What a call makes of the client.
pub open spec fn call_step<C: Clone, E>(
    before: ClientView<C>,
    call: ClientCall<C, E>,
    after: ClientView<C>,
) -> bool {
    match call {
        ClientCall::Connect { server_addr, event, action } => crate::client::connect_step(
            before,
            server_addr,
            event,
            action,
            after,
        ),
        ClientCall::Send { data, result } => crate::client::send_step(before, data, result, after),
        ClientCall::Report { data, line } => crate::client::report_step(before, data, line, after),
        ClientCall::Close => after == before.closed(),
    }
}

/// Whether `calls` take a new client through `clients`.
pub open spec fn is_history<C: Clone, E>(
    clients: Seq<ClientView<C>>,
    calls: Seq<ClientCall<C, E>>,
) -> bool {
    &&& clients.len() == calls.len() + 1
    &&& clients[0].wf()
    &&& clients[0].is_new()
    &&& forall|i: int|
        0 <= i < calls.len() ==> call_step(clients[i], #[trigger] calls[i], clients[i + 1])
}

/// The data of the sends that succeeded since a connection was last opened, first to last; nothing
/// at all where none ever was.
pub open spec fn sent_since_opening<C, E>(calls: Seq<ClientCall<C, E>>) -> Option<Seq<Seq<u8>>>
    decreases calls.len(),
{
    if calls.len() == 0 {
        None
    } else {
        let earlier = sent_since_opening(calls.drop_last());
        match calls.last() {
            ClientCall::Connect { event: ConnectEvent::ConnectionOpened(_), .. } => Some(
                Seq::empty(),
            ),
            ClientCall::Send { data, result: Ok(_) } => Some(earlier->0.push(data)),
            _ => earlier,
        }
    }
}

/// Whatever is done with a client, its queue has been given exactly the data of the sends that
/// succeeded since the connection was last opened, each once and in that order, and what holds of
/// every client holds of it.
pub proof fn law_queue_is_what_was_sent<C: Clone, E>(
    clients: Seq<ClientView<C>>,
    calls: Seq<ClientCall<C, E>>,
)
    requires
        is_history(clients, calls),
    ensures
        clients.last().sent == sent_since_opening(calls),
        clients.last().wf(),
    decreases calls.len(),
{
    if calls.len() > 0 {
        let n = calls.len() - 1;
        assert forall|i: int| 0 <= i < calls.drop_last().len() implies call_step(
            clients.drop_last()[i],
            #[trigger] calls.drop_last()[i],
            clients.drop_last()[i + 1],
        ) by {
            assert(call_step(clients[i], calls[i], clients[i + 1]));
        }
        law_queue_is_what_was_sent(clients.drop_last(), calls.drop_last());
        let before = clients[n];
        let after = clients[n + 1];
        assert(call_step(before, calls[n], after));
        if let ClientCall::Send { data, result: Ok(_) } = calls[n] {
            assert forall|i: int|
                0 <= i < after.sent->0.len() implies after.incoming.contains_pair(
                i as nat,
                #[trigger] after.sent->0[i],
            ) by {
                if i < before.sent->0.len() {
                    assert(after.sent->0[i] == before.sent->0[i]);
                }
            }
        }
    }
}

/// Closing a client once is as good as closing it twice, and takes neither its connection nor its
/// queue away: a client that had a sender can still queue data.
pub proof fn law_close_keeps_the_queue<C>(client: ClientView<C>)
    requires
        client.wf(),
    ensures
        client.closed().state == crate::client::ClientState::Closed,
        client.closed().wf(),
        client.closed().closed() == client.closed(),
        client.closed().connection == client.connection,
        client.closed().outgoing == client.outgoing,
        client.closed().incoming == client.incoming,
        client.closed().sent == client.sent,
        client.closed().open == client.open,
{
}

/// Whether `event` can follow upon `action` of the read task.
pub open spec fn read_task_answers(action: ReadTaskActionView, event: ReadTaskEventView) -> bool {
    match action {
        ReadTaskActionView::Receive => event is Received,
        ReadTaskActionView::SendStreamData(_) => event is Sent,
        ReadTaskActionView::ReportAndReceive(_) => event is Received,
        ReadTaskActionView::Exit(_) => false,
    }
}

/// Whether the event at `i` can follow upon what the read task does about the event before it.
pub open spec fn follows(events: Seq<ReadTaskEventView>, i: int) -> bool {
    read_task_answers(crate::read_task::next_action(events[i - 1]), events[i])
}

/// Whether `events` are what happens to one read task, or the first part of that.
pub open spec fn is_run(events: Seq<ReadTaskEventView>) -> bool {
    &&& events.len() > 0
    &&& events[0] is Started
    &&& forall|i: int| 0 < i < events.len() ==> #[trigger] follows(events, i)
}

/// The read task takes messages and sends frames in turn: after the start every odd event is a
/// message and every even one the outcome of the frame for the message before it. That frame holds
/// as many zero bytes as the message has bytes, goes to the one stream of the task and closes it.
pub proof fn law_read_task_sends_a_frame_for_each_message(events: Seq<ReadTaskEventView>, i: int)
    requires
        is_run(events),
        0 < i < events.len(),
    ensures
        i % 2 == 1 <==> events[i] is Received,
        i % 2 == 0 <==> events[i] is Sent,
        events[i] matches ReadTaskEventView::Received(received)
            ==> crate::read_task::next_action(events[i]) matches ReadTaskActionView::SendStreamData(
            frame,
        ) && frame.data.len() == (match received {
            Some(data) => data.len(),
            None => 0,
        }) && (forall|j: int| 0 <= j < frame.data.len() ==> #[trigger] frame.data[j] == 0)
            && frame.stream_id == 0 && frame.fin,
    decreases i,
{
    assert(follows(events, i));
    if i > 1 {
        law_read_task_sends_a_frame_for_each_message(events, i - 1);
    }
}

/// The read task ends when the connection answers that it is closed, and for no other reason: not
/// for another error, and not because its queue is closed.
pub proof fn law_read_task_ends_with_its_connection(events: Seq<ReadTaskEventView>, i: int)
    requires
        is_run(events),
        0 <= i < events.len(),
    ensures
        crate::read_task::next_action(events[i]) is Exit <==> events[i]
            == ReadTaskEventView::Sent(Err(TransportErrorView::InvalidState)),
        events[i] == ReadTaskEventView::Sent(Err(TransportErrorView::InvalidState)) ==> i
            == events.len() - 1,
{
    if i + 1 < events.len() {
        assert(follows(events, i + 1));
    }
}

/// Whether the read task gets the messages of its queue in their order: the first message that it
/// receives is the one at position zero, and so on.
pub open spec fn drains(events: Seq<ReadTaskEventView>, messages: Map<nat, Seq<u8>>) -> bool {
    forall|k: nat|
        2 * k + 1 < events.len() && #[trigger] messages.contains_key(k) ==> events[2 * k as int + 1]
            == ReadTaskEventView::Received(Some(messages[k]))
}

/// First in, first out, from the client to the connection: the read task of a client answers the
/// data of the client's sends in the order in which they were queued, the first message that it
/// receives being the first that was sent since the connection was opened, with one frame each.
pub proof fn law_frames_follow_the_sends<C>(
    client: ClientView<C>,
    task: ReadTask<C>,
    events: Seq<ReadTaskEventView>,
    k: nat,
)
    requires
        client.wf(),
        client.sent is Some,
        k < client.sent->0.len(),
        task.messages() == client.incoming,
        is_run(events),
        drains(events, task.messages()),
        2 * k + 1 < events.len(),
    ensures
        events[2 * k as int + 1] == ReadTaskEventView::Received(Some(client.sent->0[k as int])),
        crate::read_task::next_action(
            events[2 * k as int + 1],
        ) matches ReadTaskActionView::SendStreamData(frame) && frame.data.len()
            == client.sent->0[k as int].len() && (forall|j: int|
            0 <= j < frame.data.len() ==> #[trigger] frame.data[j] == 0) && frame.stream_id == 0
            && frame.fin,
{
    assert(client.incoming.contains_pair(k, client.sent->0[k as int]));
    assert(task.messages().contains_key(k));
}

} // verus!
