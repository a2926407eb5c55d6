//! The coordinator: where each message goes, and what is sent there.
//!
//! Both connectors feed one queue. The coordinator takes one message at a
//! time from it and sends it to the platform it did not come from, as
//! `"{author}: {body}"`. It never sends a message back to where it came
//! from, never to both sides, and never merges two messages into one.
use crate::connectors::connector_message::ConnectorMessage;
use crate::connectors::connector_message::ConnectorMessageView;
use crate::connectors::connector_message::MessageSource;
use vstd::prelude::*;
use vstd::string::StringExecFns;

verus! {

/// One send that the coordinator asks for.
#[derive(Clone, Debug, PartialEq, Eq)]
pub struct Outbound {
    /// The platform to send to.
    pub destination: MessageSource,
    /// The text to send.
    pub text: String,
}

/// An [`Outbound`] as contracts see it.
pub struct OutboundView {
    pub destination: MessageSource,
    pub text: Seq<char>,
}

impl View for Outbound {
    type V = OutboundView;

    open spec fn view(&self) -> OutboundView {
        OutboundView { destination: self.destination, text: self.text@ }
    }
}

/// The text under which a message is relayed: its author, a colon and a
/// space, its body.
pub open spec fn relay_text(author: Seq<char>, body: Seq<char>) -> Seq<char> {
    author + ": "@ + body
}

/// The send that relays `msg`: to the other platform, as
/// `"{author}: {body}"`.
pub open spec fn route(msg: ConnectorMessageView) -> OutboundView {
    OutboundView {
        destination: msg.source.spec_opposite(),
        text: relay_text(msg.author, msg.message),
    }
}

/// The sends that relay `msgs`, one for each, in the same order.
pub open spec fn route_all(msgs: Seq<ConnectorMessageView>) -> Seq<OutboundView> {
    Seq::new(msgs.len(), |i: int| route(msgs[i]))
}

/// The text under which a message by `author` with text `body` is relayed.
pub fn format_relay(author: &str, body: &str) -> (text: String)
    ensures
        text@ == relay_text(author@, body@),
{
    let mut text = String::from_str(author);
    text.append(": ");
    text.append(body);
    text
}

/// The send that relays `msg`.
pub fn route_message(msg: &ConnectorMessage) -> (out: Outbound)
    ensures
        out@ == route(msg@),
        out.destination != msg.source,
{
    Outbound {
        destination: msg.source.opposite(),
        text: format_relay(msg.author.as_str(), msg.message.as_str()),
    }
}

/// What the coordinator is doing.
#[derive(Clone, Copy, Debug, PartialEq, Eq)]
pub enum CoordinatorState {
    /// Waiting for the next message of the queue.
    Idle,
    /// One send is under way.
    Dispatching,
}

/// The coordinator of the relay.
///
/// It is idle until it is given a message, asks for one send, and is busy
/// until it is told how that send went. Beside its state it keeps, for
/// proofs only, the messages it took and the sends it asked for.
pub struct Coordinator {
    state: CoordinatorState,
    taken: Ghost<Seq<ConnectorMessageView>>,
    asked: Ghost<Seq<OutboundView>>,
}

impl Coordinator {
    /// The state the coordinator is in.
    pub closed spec fn current(&self) -> CoordinatorState {
        self.state
    }

    /// The messages taken so far, oldest first.
    pub closed spec fn received(&self) -> Seq<ConnectorMessageView> {
        self.taken@
    }

    /// The sends asked for so far, oldest first.
    pub closed spec fn sent(&self) -> Seq<OutboundView> {
        self.asked@
    }

    /// Every message taken has been answered by exactly one send, its own,
    /// and the sends stand in the order in which the messages were taken.
    pub open spec fn wf(&self) -> bool {
        self.sent() == route_all(self.received())
    }

    #[verifier::type_invariant]
    spec fn inv(self) -> bool {
        self.wf()
    }

    /// An idle coordinator that has taken nothing yet.
    pub fn new() -> (coordinator: Coordinator)
        ensures
            coordinator.current() == CoordinatorState::Idle,
            coordinator.received() == Seq::<ConnectorMessageView>::empty(),
            coordinator.sent() == Seq::<OutboundView>::empty(),
            coordinator.wf(),
    {
        assert(route_all(Seq::<ConnectorMessageView>::empty()) =~= Seq::<OutboundView>::empty());
        Coordinator {
            state: CoordinatorState::Idle,
            taken: Ghost(Seq::empty()),
            asked: Ghost(Seq::empty()),
        }
    }

    /// The state the coordinator is in.
    pub fn state(&self) -> (state: CoordinatorState)
        ensures
            state == self.current(),
    {
        self.state
    }

    /// Takes the next message of the queue.
    ///
    /// An idle coordinator asks for the one send that relays `msg` and is
    /// busy from then on. A busy coordinator takes nothing: it gives no send
    /// and stays as it is.
    pub fn dispatch(&mut self, msg: &ConnectorMessage) -> (out: Option<Outbound>)
        ensures
            final(self).wf(),
            old(self).current() == CoordinatorState::Idle ==> {
                &&& out matches Some(o)
                &&& o@ == route(msg@)
                &&& o.destination != msg.source
                &&& final(self).current() == CoordinatorState::Dispatching
                &&& final(self).received() == old(self).received().push(msg@)
                &&& final(self).sent() == old(self).sent().push(o@)
            },
            old(self).current() == CoordinatorState::Dispatching ==> {
                &&& out is None
                &&& final(self).current() == CoordinatorState::Dispatching
                &&& final(self).received() == old(self).received()
                &&& final(self).sent() == old(self).sent()
            },
    {
        proof {
            use_type_invariant(&*self);
        }
        match self.state {
            CoordinatorState::Dispatching => None,
            CoordinatorState::Idle => {
                let out = route_message(msg);
                proof {
                    assert(route_all(self.taken@.push(msg@)) =~= route_all(self.taken@).push(
                        out@,
                    ));
                }
                *self = Coordinator {
                    state: CoordinatorState::Dispatching,
                    taken: Ghost(self.taken@.push(msg@)),
                    asked: Ghost(self.asked@.push(out@)),
                };
                Some(out)
            },
        }
    }

    /// Is told that the send under way has ended, and whether the text was
    /// `delivered`.
    ///
    /// The coordinator is idle afterwards, however the send went: a failed
    /// send is not tried again. Gives `true` where a failure is to be
    /// reported, that is, where a send was under way and it failed.
    pub fn complete(&mut self, delivered: bool) -> (failed: bool)
        ensures
            final(self).wf(),
            final(self).current() == CoordinatorState::Idle,
            final(self).received() == old(self).received(),
            final(self).sent() == old(self).sent(),
            failed == (old(self).current() == CoordinatorState::Dispatching && !delivered),
    {
        proof {
            use_type_invariant(&*self);
        }
        let failed = match self.state {
            CoordinatorState::Dispatching => !delivered,
            CoordinatorState::Idle => false,
        };
        self.state = CoordinatorState::Idle;
        failed
    }
}

/// Messages leave in the order in which they came: the send for each
/// message taken is the one that relays it, and of two messages the one
/// taken first is sent first.
pub proof fn lemma_sends_follow_arrival(coordinator: Coordinator, earlier: int, later: int)
    requires
        coordinator.wf(),
        0 <= earlier < later < coordinator.received().len(),
    ensures
        coordinator.sent().len() == coordinator.received().len(),
        coordinator.sent()[earlier] == route(coordinator.received()[earlier]),
        coordinator.sent()[later] == route(coordinator.received()[later]),
{
}

/// A message is never sent back to the platform it came from.
pub proof fn lemma_never_back(msg: ConnectorMessageView)
    ensures
        route(msg).destination != msg.source,
{
}

} // verus!
