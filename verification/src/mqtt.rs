//! The operation codes carried by the event bus, and the decisions taken at
//! the boundary between the bus and the broker.

use futures::sync::mpsc::{Receiver, Sender};
use vstd::prelude::*;
use vstd::string::{StrSliceExecFns, StringSliceAdditionalSpecFns};
use vstd::utf8::{decode_utf8, encode_utf8, encode_utf8_decode_utf8, valid_utf8};

verus! {

/// `futures::sync::mpsc::Sender`, the sending half of a bounded channel,
/// carried without looking inside.
#[verifier::external_type_specification]
#[verifier::external_body]
#[verifier::reject_recursive_types(T)]
pub struct ExBusSender<T>(Sender<T>);

/// `futures::sync::mpsc::Receiver`, the receiving half of a bounded channel,
/// carried without looking inside.
#[verifier::external_type_specification]
#[verifier::external_body]
#[verifier::reject_recursive_types(T)]
pub struct ExBusReceiver<T>(Receiver<T>);

/// The buffer that the channel behind a sender was made with: the number of
/// messages it holds beyond the one slot that each sender has for itself.
pub uninterp spec fn bus_buffer(sender: Sender<OpCode>) -> nat;

/// Calls `futures::sync::mpsc::channel`, which panics on a buffer of a
/// quarter of the address space or more, and otherwise returns the two halves
/// of a new channel made with that buffer.
#[verifier::external_body]
fn bounded_channel(buffer: usize) -> (halves: (Sender<OpCode>, Receiver<OpCode>))
    requires
        buffer < usize::MAX / 4,
    ensures
        bus_buffer(halves.0) == buffer,
{
    futures::sync::mpsc::channel(buffer)
}

/// Calls `std::str::from_utf8`, which accepts exactly the byte strings that
/// are well-formed UTF-8 and returns them unchanged as text.
#[verifier::external_body]
fn text_of(bytes: &[u8]) -> (text: Option<&str>)
    ensures
        text is Some <==> valid_utf8(bytes@),
        text matches Some(t) ==> t.spec_bytes() == bytes@,
{
    match std::str::from_utf8(bytes) {
        Ok(t) => Some(t),
        Err(_) => None,
    }
}

/// A hierarchical name of a monitored signal or of an actuator.
pub type Topic = String;

/// The text published on, or observed at, a topic.
pub type Value = String;

/// One message on the event bus.
#[derive(Debug, PartialEq, Eq)]
pub enum OpCode {
    /// An observation that arrived from the broker.
    MessageReceived((Topic, Value)),
    /// A request to start observing a topic.
    Subscribe(Topic),
    /// A request to stop observing a topic.
    Unsubscribe(Topic),
    /// A request to send a value to a topic.
    Publish((Topic, Value)),
    /// Asks the bus to wind down.
    Shutdown,
    /// Reports that the bus has wound down.
    ShutdownComplete,
}

/// What an [`OpCode`] says, with its text as character sequences.
pub enum OpCodeView {
    MessageReceived(Seq<char>, Seq<char>),
    Subscribe(Seq<char>),
    Unsubscribe(Seq<char>),
    Publish(Seq<char>, Seq<char>),
    Shutdown,
    ShutdownComplete,
}

impl View for OpCode {
    type V = OpCodeView;

    open spec fn view(&self) -> OpCodeView {
        match *self {
            OpCode::MessageReceived(pair) => OpCodeView::MessageReceived(pair.0@, pair.1@),
            OpCode::Subscribe(topic) => OpCodeView::Subscribe(topic@),
            OpCode::Unsubscribe(topic) => OpCodeView::Unsubscribe(topic@),
            OpCode::Publish(pair) => OpCodeView::Publish(pair.0@, pair.1@),
            OpCode::Shutdown => OpCodeView::Shutdown,
            OpCode::ShutdownComplete => OpCodeView::ShutdownComplete,
        }
    }
}

impl DeepView for OpCode {
    type V = OpCodeView;

    open spec fn deep_view(&self) -> OpCodeView {
        self@
    }
}

impl Clone for OpCode {
    /// Operation codes cross task boundaries by value; a copy says the same.
    fn clone(&self) -> (copy: Self)
        ensures
            copy@ == self@,
    {
        match self {
            OpCode::MessageReceived(pair) => OpCode::MessageReceived(
                (pair.0.clone(), pair.1.clone()),
            ),
            OpCode::Subscribe(topic) => OpCode::Subscribe(topic.clone()),
            OpCode::Unsubscribe(topic) => OpCode::Unsubscribe(topic.clone()),
            OpCode::Publish(pair) => OpCode::Publish((pair.0.clone(), pair.1.clone())),
            OpCode::Shutdown => OpCode::Shutdown,
            OpCode::ShutdownComplete => OpCode::ShutdownComplete,
        }
    }
}

/// How hard the broker tries to deliver a message.
#[derive(Debug, Clone, Copy, PartialEq, Eq, Structural)]
pub enum QoS {
    AtMostOnce,
    AtLeastOnce,
    ExactlyOnce,
}

/// When the session reconnects after it has lost the broker.
#[derive(Debug, Clone, Copy, PartialEq, Eq, Structural)]
pub enum Reconnect {
    Never,
    /// Only if the first connection succeeded; the pause is in seconds.
    AfterFirstSuccess(u64),
    /// Always; the pause is in seconds.
    Always(u64),
}

/// The settings of the session with the broker.
#[derive(Debug, PartialEq, Eq)]
pub struct SessionSettings {
    pub client_id: String,
    pub broker: String,
    pub port: u16,
    pub keep_alive_secs: u16,
    pub reconnect: Reconnect,
    pub clean_session: bool,
}

/// What the broker is asked to do for one message taken off the bus.
#[derive(Debug, PartialEq, Eq)]
pub enum BrokerRequest {
    /// Start observing the topic.
    Subscribe { topic: Topic, qos: QoS },
    /// Stop observing the topic.
    Unsubscribe { topic: Topic },
    /// Send the payload to the topic.
    Publish { topic: Topic, qos: QoS, retain: bool, payload: Vec<u8> },
    /// The message asks nothing of the broker: it is an observation, or it
    /// concerns the bus itself. It is handed back.
    Unimplemented(OpCode),
}

/// The number of messages that each direction of the bus buffers.
pub const BUS_BUFFER: usize = 512;

/// The name under which the session registers with the broker.
pub open spec fn client_id() -> Seq<char> {
    "space-shutdown"@
}

/// What a [`BrokerRequest`] says.
pub enum BrokerRequestView {
    Subscribe { topic: Seq<char>, qos: QoS },
    Unsubscribe { topic: Seq<char> },
    Publish { topic: Seq<char>, qos: QoS, retain: bool, payload: Seq<u8> },
    Unimplemented(OpCodeView),
}

impl View for BrokerRequest {
    type V = BrokerRequestView;

    open spec fn view(&self) -> BrokerRequestView {
        match *self {
            BrokerRequest::Subscribe { topic, qos } => BrokerRequestView::Subscribe {
                topic: topic@,
                qos,
            },
            BrokerRequest::Unsubscribe { topic } => BrokerRequestView::Unsubscribe { topic: topic@ },
            BrokerRequest::Publish { topic, qos, retain, payload } => BrokerRequestView::Publish {
                topic: topic@,
                qos,
                retain,
                payload: payload@,
            },
            BrokerRequest::Unimplemented(op) => BrokerRequestView::Unimplemented(op@),
        }
    }
}

/// The request that a message on the bus stands for. A subscription, the end
/// of one and a publication go to the broker. What is subscribed to and what
/// is published is to be delivered at least once; a published value goes as
/// its UTF-8 bytes and is not retained. Nothing else goes to the broker.
pub open spec fn request_for(op: OpCodeView) -> BrokerRequestView {
    match op {
        OpCodeView::Subscribe(topic) => BrokerRequestView::Subscribe {
            topic,
            qos: QoS::AtLeastOnce,
        },
        OpCodeView::Unsubscribe(topic) => BrokerRequestView::Unsubscribe { topic },
        OpCodeView::Publish(topic, value) => BrokerRequestView::Publish {
            topic,
            qos: QoS::AtLeastOnce,
            retain: false,
            payload: encode_utf8(value),
        },
        other => BrokerRequestView::Unimplemented(other),
    }
}

/// The bridge between the event bus and the broker: it emits what the broker
/// delivers and takes off the bus what the broker has to be told.
pub struct MqttConnection {
    event_emitter: Sender<OpCode>,
    event_receiver: Receiver<OpCode>,
}

impl MqttConnection {
    /// The sender on which the connection emits what the broker delivers.
    pub closed spec fn emitter(&self) -> Sender<OpCode> {
        self.event_emitter
    }

    /// The receiver from which the connection takes what the broker is to be
    /// told.
    pub closed spec fn requests(&self) -> Receiver<OpCode> {
        self.event_receiver
    }

    /// Sets up the bus. The first pair is for the application: it sends
    /// requests and receives observations. The connection holds the other
    /// ends. Each direction buffers [`BUS_BUFFER`] messages.
    pub fn new() -> (made: ((Sender<OpCode>, Receiver<OpCode>), Self))
        ensures
            bus_buffer(made.0.0) == BUS_BUFFER,
            bus_buffer(made.1.emitter()) == BUS_BUFFER,
    {
        let (inner_sender, outer_receiver) = bounded_channel(BUS_BUFFER);
        let (outer_sender, inner_receiver) = bounded_channel(BUS_BUFFER);
        let m = MqttConnection { event_emitter: inner_sender, event_receiver: inner_receiver };
        ((outer_sender, outer_receiver), m)
    }

    /// Gives up the connection's ends of the bus: the sender on which it
    /// emits observations, and the receiver from which it takes requests.
    pub fn into_parts(self) -> (parts: (Sender<OpCode>, Receiver<OpCode>))
        ensures
            parts.0 == self.emitter(),
            parts.1 == self.requests(),
    {
        (self.event_emitter, self.event_receiver)
    }

    /// The settings of the session with `broker`: a fixed client name, a
    /// keep-alive of ten seconds, a persistent session, and a reconnect after
    /// five seconds whenever the connection is lost.
    pub fn settings(broker: &str, port: u16) -> (settings: SessionSettings)
        ensures
            settings.client_id@ == client_id(),
            settings.broker@ == broker@,
            settings.port == port,
            settings.keep_alive_secs == 10,
            settings.reconnect == Reconnect::Always(5),
            !settings.clean_session,
    {
        SessionSettings {
            client_id: "space-shutdown".to_owned(),
            broker: broker.to_owned(),
            port,
            keep_alive_secs: 10,
            reconnect: Reconnect::Always(5),
            clean_session: false,
        }
    }

    /// Decides what the broker is asked to do for a message taken off the
    /// bus.
    pub fn outbound(op: OpCode) -> (request: BrokerRequest)
        ensures
            request@ == request_for(op@),
    {
        match op {
            OpCode::Subscribe(topic) => BrokerRequest::Subscribe { topic, qos: QoS::AtLeastOnce },
            OpCode::Unsubscribe(topic) => BrokerRequest::Unsubscribe { topic },
            OpCode::Publish((topic, value)) => {
                let payload = value.as_str().as_bytes_vec();
                BrokerRequest::Publish { topic, qos: QoS::AtLeastOnce, retain: false, payload }
            },
            other => BrokerRequest::Unimplemented(other),
        }
    }

    /// Turns a publication that the broker delivered into the observation to
    /// emit on the bus. A payload that is not UTF-8 text yields none.
    pub fn inbound(topic: Topic, payload: &[u8]) -> (observation: Option<OpCode>)
        ensures
            observation is Some <==> valid_utf8(payload@),
            observation matches Some(op) ==> op@ == OpCodeView::MessageReceived(
                topic@,
                decode_utf8(payload@),
            ),
    {
        match text_of(payload) {
            Some(text) => {
                proof {
                    encode_utf8_decode_utf8(text@);
                }
                Some(OpCode::MessageReceived((topic, text.to_owned())))
            },
            None => None,
        }
    }
}

} // verus!
