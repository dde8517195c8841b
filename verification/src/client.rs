//! The client and what its operations do.
use crate::channel::{guard, send, unbounded_channel, SharedReceiver};
use crate::connect::{
    ConnectAction, ConnectEvent, ConnectionIdLen, ConnectionIdRequest, SocketAddr,
};
use crate::read_task::{zero_bytes, ReadTask};
use crate::text::append_bracketed;
use std::sync::Arc;
use tokio::sync::mpsc::{UnboundedReceiver, UnboundedSender};
use vstd::prelude::*;

verus! {

/// How far the client has come.
#[derive(Debug, Clone, Copy, PartialEq, Eq, Structural)]
pub enum ClientState {
    Initialized,
    Connected,
    Closed,
}

/// Why `send_data` did not queue the data.
#[derive(Debug, PartialEq, Eq)]
pub enum SendDataError {
    /// The client has never been connected.
    NoSender,
    /// The queue is closed; the data comes back.
    ChannelClosed(Vec<u8>),
}

impl SendDataError {
    /// The error in words.
    pub fn message(&self) -> (text: &'static str)
        ensures
            match self {
                SendDataError::NoSender => text@ == "No sender channel found."@,
                SendDataError::ChannelClosed(_) => text@ == "channel closed"@,
            },
    {
        match self {
            SendDataError::NoSender => "No sender channel found.",
            SendDataError::ChannelClosed(_) => "channel closed",
        }
    }
}

/// What `send_data` answers when the channel answers `sent`.
pub open spec fn outcome_of(sent: Result<(), Vec<u8>>) -> Result<(), SendDataError> {
    match sent {
        Ok(_) => Ok(()),
        Err(data) => Err(SendDataError::ChannelClosed(data)),
    }
}

/// What `send_data` answers when the channel answers `sent`: success, or the data that came back.
pub fn send_outcome(sent: Result<(), Vec<u8>>) -> (result: Result<(), SendDataError>)
    ensures
        result == outcome_of(sent),
{
    match sent {
        Ok(_) => Ok(()),
        Err(data) => Err(SendDataError::ChannelClosed(data)),
    }
}

/// What a client is.
#[verifier::ext_equal]
pub struct ClientView<C> {
    pub connection: Option<C>,
    /// The messages that the client's sender gets accepted over its whole life, by position.
    pub outgoing: Option<Map<nat, Seq<u8>>>,
    /// The messages that the client's receive half delivers over its whole life, by position.
    pub incoming: Map<nat, Seq<u8>>,
    /// Whether the client has a sender whose channel is never closed at the other end.
    pub open: bool,
    /// What the client has queued through its sender so far, first to last.
    pub sent: Option<Seq<Seq<u8>>>,
    pub state: ClientState,
}

impl<C> ClientView<C> {
    /// What holds of every client: it has a connection exactly if it has a sender, the sender and
    /// the receiver belong to one channel, what the client has queued is what that channel delivers
    /// first, in the same order, and the state agrees with that.
    pub open spec fn wf(self) -> bool {
        &&& self.connection is Some <==> self.outgoing is Some
        &&& self.outgoing matches Some(messages) ==> messages == self.incoming
        &&& self.outgoing is Some <==> self.sent is Some
        &&& self.sent matches Some(queued) ==> forall|i: int|
            0 <= i < queued.len() ==> self.incoming.contains_pair(i as nat, #[trigger] queued[i])
        &&& self.open ==> self.sent is Some
        &&& self.state == ClientState::Initialized ==> self.connection is None
        &&& self.state == ClientState::Connected ==> self.connection is Some
    }

    /// A client that was just made.
    pub open spec fn is_new(self) -> bool {
        &&& self.connection is None
        &&& self.outgoing is None
        &&& self.sent is None
        &&& !self.open
        &&& self.state == ClientState::Initialized
    }

    /// The client after it was connected over a channel that delivers `messages` and is never
    /// closed if `open`. Nothing is queued.
    pub open spec fn connected(connection: C, messages: Map<nat, Seq<u8>>, open: bool) -> Self {
        ClientView {
            connection: Some(connection),
            outgoing: Some(messages),
            incoming: messages,
            open,
            sent: Some(Seq::empty()),
            state: ClientState::Connected,
        }
    }

    /// The client after it queued `data`: once, behind all that it had queued before.
    pub open spec fn queued(self, data: Seq<u8>) -> Self {
        ClientView { sent: Some(self.sent->0.push(data)), ..self }
    }

    /// The client after it was closed.
    pub open spec fn closed(self) -> Self {
        ClientView { state: ClientState::Closed, ..self }
    }
}

/// What `connect` does about `event`: the action it asks for and what becomes of the client.
pub open spec fn connect_step<C: Clone, E>(
    before: ClientView<C>,
    server_addr: SocketAddr,
    event: ConnectEvent<C, E>,
    action: ConnectAction<C, E>,
    after: ClientView<C>,
) -> bool {
    match event {
        ConnectEvent::Started => {
            &&& action matches ConnectAction::BindSocket { local_addr }
            &&& crate::connect::is_any_local(local_addr)
            &&& after == before
        },
        ConnectEvent::SocketBound => {
            &&& action == ConnectAction::<C, E>::ConnectSocket { server_addr }
            &&& after == before
        },
        ConnectEvent::SocketConnected => {
            &&& action == ConnectAction::<C, E>::CreateDefaultConfig { verify_peer: false }
            &&& after == before
        },
        ConnectEvent::ConfigCreated { max_cid_size } => {
            &&& action matches ConnectAction::OpenConnection { id_request, server_addr: target }
            &&& id_request.asks_for_random(max_cid_size as nat)
            &&& target == server_addr
            &&& after == before
        },
        ConnectEvent::ConnectionOpened(connection) => {
            &&& action matches ConnectAction::SpawnReadTask(task)
            &&& after == ClientView::connected(connection, task.messages(), after.open)
            &&& cloned(connection, task.connection)
        },
        ConnectEvent::Failed(error) => {
            &&& action == ConnectAction::<C, E>::Fail(error)
            &&& after == before
        },
    }
}

/// What `send_data` does with `data`: its answer and what becomes of the client.
pub open spec fn send_step<C>(
    before: ClientView<C>,
    data: Seq<u8>,
    result: Result<(), SendDataError>,
    after: ClientView<C>,
) -> bool {
    match result {
        Ok(_) => {
            &&& before.sent is Some
            &&& before.incoming.contains_pair(before.sent->0.len(), data)
            &&& after == before.queued(data)
        },
        Err(SendDataError::NoSender) => {
            &&& before.sent is None
            &&& after == before
        },
        Err(SendDataError::ChannelClosed(returned)) => {
            &&& before.sent is Some
            &&& !before.open
            &&& returned@ == data
            &&& after == before
        },
    }
}

/// What `on_data_received` does with `data`: the line that it makes and what becomes of the client.
pub open spec fn report_step<C>(
    before: ClientView<C>,
    data: Seq<u8>,
    line: Seq<char>,
    after: ClientView<C>,
) -> bool {
    &&& line == "Received data: "@ + crate::text::bracketed(data)
    &&& after == before
}

/// A WebTransport client.
///
/// `C` is a shared handle on a QUIC connection: a clone of it is a handle on the same connection.
pub struct WebTransportClient<C> {
    connection: Option<C>,
    sender: Option<UnboundedSender<Vec<u8>>>,
    receiver: SharedReceiver,
    state: ClientState,
}

impl<C> View for WebTransportClient<C> {
    type V = ClientView<C>;

    closed spec fn view(&self) -> ClientView<C> {
        ClientView {
            connection: self.connection,
            outgoing: match self.sender {
                Some(sender) => Some(crate::channel::accepted(sender)),
                None => None,
            },
            incoming: crate::channel::guarded(*self.receiver),
            open: self.sender matches Some(sender) && crate::channel::never_closed(sender),
            sent: match self.sender {
                Some(sender) => Some(crate::channel::sent_so_far(sender)),
                None => None,
            },
            state: self.state,
        }
    }
}

impl<C> WebTransportClient<C> {
    #[verifier::type_invariant]
    closed spec fn inv(self) -> bool {
        self@.wf()
    }

    /// A client that has yet to be connected.
    pub fn new() -> (client: Self)
        ensures
            client@.wf(),
            client@.is_new(),
    {
        let (_sender, receiver) = unbounded_channel();
        WebTransportClient {
            connection: None,
            sender: None,
            receiver: Arc::new(guard(receiver)),
            state: ClientState::Initialized,
        }
    }

    /// How far the client has come.
    pub fn state(&self) -> (state: ClientState)
        ensures
            state == self@.state,
            self@.wf(),
    {
        proof {
            use_type_invariant(self);
        }
        self.state
    }

    /// A connected client with the two halves of its unused channel.
    fn assemble(
        connection: C,
        sender: UnboundedSender<Vec<u8>>,
        receiver: UnboundedReceiver<Vec<u8>>,
    ) -> (client: Self)
        requires
            crate::channel::accepted(sender) == crate::channel::deliverable(receiver),
            crate::channel::sent_so_far(sender) == Seq::<Seq<u8>>::empty(),
        ensures
            client.connection == Some(connection),
            client.sender == Some(sender),
            crate::channel::guarded(*client.receiver) == crate::channel::deliverable(receiver),
            client.state == ClientState::Connected,
    {
        WebTransportClient {
            connection: Some(connection),
            sender: Some(sender),
            receiver: Arc::new(guard(receiver)),
            state: ClientState::Connected,
        }
    }

    /// A client connected over `connection`, with a queue of its own.
    pub fn open(connection: C) -> (client: Self)
        ensures
            client@.wf(),
            client@ == ClientView::connected(connection, client@.incoming, client@.open),
    {
        let (sender, receiver) = unbounded_channel();
        Self::assemble(connection, sender, receiver)
    }

    /// Whether `open` made this client from `connection`, and so from nothing else: no queue that
    /// was in use before is carried over.
    pub open spec fn opened_on(self, connection: C) -> bool {
        call_ensures(Self::open, (connection,), self)
    }

    /// Asks for a connection ID of random length in a zeroed buffer of `max_cid_size` bytes.
    pub fn generate_connection_id(&self, max_cid_size: u8) -> (request: ConnectionIdRequest)
        ensures
            request.asks_for_random(max_cid_size as nat),
    {
        ConnectionIdRequest {
            cid: zero_bytes(max_cid_size as usize),
            cid_len: ConnectionIdLen::Random,
        }
    }

    /// Whether the channel of the client `self`, offered `data` by one call, can answer `sent` and
    /// leave the client with the sender that `after` has.
    pub closed spec fn channel_answers(
        self,
        data: Vec<u8>,
        sent: Result<(), Vec<u8>>,
        after: Self,
    ) -> bool {
        &&& self.sender matches Some(sender)
        &&& after.sender matches Some(sender_after)
        &&& call_ensures(send, (sender, data), (sender_after, sent))
    }

    /// The view shows the client's own channel: the messages of its sender and of its receive half,
    /// what was sent through that sender, and whether its channel is ever closed at the other end.
    proof fn law_view_shows_the_channel(self)
        ensures
            self@.connection == self.connection,
            self@.state == self.state,
            self@.incoming == crate::channel::guarded(*self.receiver),
            self.sender is None ==> self@.outgoing is None && self@.sent is None && !self@.open,
            self.sender matches Some(sender) ==> {
                &&& self@.outgoing == Some(crate::channel::accepted(sender))
                &&& self@.sent == Some(crate::channel::sent_so_far(sender))
                &&& self@.open == crate::channel::never_closed(sender)
            },
    {
    }

    /// With a sender, `send_data` makes one call of the channel's `send`, with that sender and the
    /// data as it came. The client goes on with the sender that comes back, and the answer decides
    /// the result.
    proof fn law_send_data_asks_the_channel(
        client: &mut Self,
        data: Vec<u8>,
        result: Result<(), SendDataError>,
    )
        requires
            call_ensures(Self::send_data, (client, data), result),
            old(client).sender is Some,
        ensures
            exists|sent: Result<(), Vec<u8>>|
                {
                    &&& final(client).sender is Some
                    &&& #[trigger] call_ensures(
                        send,
                        (old(client).sender->0, data),
                        (final(client).sender->0, sent),
                    )
                    &&& sent is Ok <==> result is Ok
                    &&& sent matches Err(returned) ==> result == Err::<(), SendDataError>(
                        SendDataError::ChannelClosed(returned),
                    )
                },
    {
    }

    /// Queues `data` for the read task.
    ///
    /// Without a sender nothing is queued. With one, the queue takes the data unless it is closed,
    /// in which case the data comes back. A queue that is never closed takes all data.
    pub fn send_data(&mut self, data: Vec<u8>) -> (result: Result<(), SendDataError>)
        ensures
            send_step(old(self)@, data@, result, final(self)@),
            final(self)@.wf(),
            old(self)@.sent is None <==> result == Err::<(), SendDataError>(
                SendDataError::NoSender,
            ),
            old(self)@.open ==> result is Ok,
            old(self)@.sent is Some ==> exists|sent: Result<(), Vec<u8>>| #[trigger]
                old(self).channel_answers(data, sent, *final(self)) && result == outcome_of(sent),
    {
        proof {
            use_type_invariant(&*self);
        }
        let ghost before = *self;
        let mut client = WebTransportClient {
            connection: None,
            sender: None,
            receiver: self.receiver.clone(),
            state: ClientState::Initialized,
        };
        std::mem::swap(self, &mut client);
        let WebTransportClient { connection, sender, receiver, state } = client;
        match sender {
            Some(sender) => {
                let (sender, sent) = send(sender, data);
                proof {
                    let queued = crate::channel::sent_so_far(sender);
                    assert forall|i: int|
                        0 <= i < queued.len() implies before@.incoming.contains_pair(
                        i as nat,
                        #[trigger] queued[i],
                    ) by {
                        if i < before@.sent->0.len() {
                            assert(queued[i] == before@.sent->0[i]);
                        }
                    }
                }
                *self = WebTransportClient { connection, sender: Some(sender), receiver, state };
                assert(before.channel_answers(data, sent, *self));
                send_outcome(sent)
            },
            None => {
                *self = WebTransportClient { connection, sender: None, receiver, state };
                Err(SendDataError::NoSender)
            },
        }
    }

    /// The line that reports data from the server. The client and its queue stay as they are.
    pub fn on_data_received(&self, data: Vec<u8>) -> (line: String)
        ensures
            report_step(self@, data@, line@, self@),
    {
        let mut line = String::from_str("Received data: ");
        append_bracketed(&mut line, &data);
        line
    }

    /// Marks the client as closed. Its connection and its queue stay as they are.
    pub fn on_close(&mut self)
        ensures
            final(self)@ == old(self)@.closed(),
            final(self)@.wf(),
    {
        proof {
            use_type_invariant(&*self);
        }
        self.state = ClientState::Closed;
    }
}

impl<C: Clone> WebTransportClient<C> {
    /// The read task of a client that has a connection.
    pub fn spawn_read_task(&self) -> (task: ReadTask<C>)
        requires
            self@.connection is Some,
        ensures
            cloned(self@.connection->0, task.connection),
            task.messages() == self@.incoming,
    {
        ReadTask {
            connection: self.connection.as_ref().unwrap().clone(),
            receiver: self.receiver.clone(),
        }
    }

    /// Decides what an attempt to connect to `server_addr` does about `event`.
    ///
    /// An attempt starts with `Started` and goes on with the outcome of each action. The client
    /// changes only when the connection is opened: then it is connected, over a new queue.
    pub fn connect<E>(&mut self, server_addr: SocketAddr, event: ConnectEvent<C, E>) -> (action:
        ConnectAction<C, E>)
        ensures
            connect_step(old(self)@, server_addr, event, action, final(self)@),
            match event {
                ConnectEvent::ConnectionOpened(connection) => final(self).opened_on(connection),
                _ => *final(self) == *old(self),
            },
            final(self)@.wf(),
    {
        proof {
            use_type_invariant(&*self);
        }
        match event {
            ConnectEvent::Started => {
                let local_addr = SocketAddr::V4 { ipv4: [0u8, 0u8, 0u8, 0u8], port: 0 };
                ConnectAction::BindSocket { local_addr }
            },
            ConnectEvent::SocketBound => ConnectAction::ConnectSocket { server_addr },
            ConnectEvent::SocketConnected => ConnectAction::CreateDefaultConfig {
                verify_peer: false,
            },
            ConnectEvent::ConfigCreated { max_cid_size } => {
                let id_request = self.generate_connection_id(max_cid_size);
                ConnectAction::OpenConnection { id_request, server_addr }
            },
            ConnectEvent::ConnectionOpened(connection) => {
                *self = Self::open(connection);
                ConnectAction::SpawnReadTask(self.spawn_read_task())
            },
            ConnectEvent::Failed(error) => ConnectAction::Fail(error),
        }
    }
}

} // verus!
