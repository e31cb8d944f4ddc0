//! The event dispatcher: what the bridge does about each event that polling
//! the broker connection yields.
//!
//! The program around this crate polls and performs; the dispatcher decides.

use crate::delivery::DeliveryOutcome;
use crate::flatten::{handle_msg, readings_of, FieldModel, FlatField};
use vstd::prelude::*;

verus! {

/// The delivery guarantee asked of the broker.
#[derive(Clone, Copy, Debug, PartialEq, Eq, Structural)]
pub enum QoS {
    AtMostOnce,
    AtLeastOnce,
    ExactlyOnce,
}

/// Where the dispatcher stands.
#[derive(Clone, Copy, Debug, PartialEq, Eq, Structural)]
pub enum Phase {
    /// Not yet subscribed.
    Connecting,
    /// Subscribed to every configured topic; nothing polled yet.
    Subscribed,
    /// The last poll yielded an event.
    Polling,
    /// The last poll failed; the next one tries the connection again.
    ReconnectBackoff,
}

/// What one poll of the broker connection yielded.
#[derive(Clone, Debug, PartialEq, Eq)]
pub enum BrokerEvent {
    /// The poll failed.
    PollError,
    /// The broker answered a keep-alive ping.
    PingResp,
    /// A message was published on a subscribed topic.
    Publish { topic: String, payload: Vec<u8> },
    /// Any other packet from the broker.
    Incoming,
    /// A packet on its way to the broker.
    Outgoing,
}

/// The mathematical model of a [`BrokerEvent`].
pub enum EventModel {
    PollError,
    PingResp,
    Publish { topic: Seq<char>, payload: Seq<u8> },
    Incoming,
    Outgoing,
}

impl DeepView for BrokerEvent {
    type V = EventModel;

    open spec fn deep_view(&self) -> EventModel {
        match self {
            BrokerEvent::PollError => EventModel::PollError,
            BrokerEvent::PingResp => EventModel::PingResp,
            BrokerEvent::Publish { topic, payload } => EventModel::Publish {
                topic: topic@,
                payload: payload@,
            },
            BrokerEvent::Incoming => EventModel::Incoming,
            BrokerEvent::Outgoing => EventModel::Outgoing,
        }
    }
}

/// What the program is to do about an event. Polling goes on after every one
/// of them.
#[derive(Clone, Debug, PartialEq, Eq)]
pub enum Action {
    /// Log that the poll failed.
    ReportPollError,
    /// Do nothing, and log nothing.
    Ignore,
    /// Send each reading to the endpoint, each as a request of its own that
    /// waits for no other.
    Deliver(Vec<FlatField>),
    /// Log the event for diagnosis.
    ReportEvent,
    /// Log the endpoint's answer.
    ReportDelivered,
    /// Log that a delivery failed. It is not tried again.
    ReportDeliveryError,
}

/// The mathematical model of an [`Action`].
pub enum ActionModel {
    ReportPollError,
    Ignore,
    Deliver(Seq<FieldModel>),
    ReportEvent,
    ReportDelivered,
    ReportDeliveryError,
}

impl DeepView for Action {
    type V = ActionModel;

    open spec fn deep_view(&self) -> ActionModel {
        match self {
            Action::ReportPollError => ActionModel::ReportPollError,
            Action::Ignore => ActionModel::Ignore,
            Action::Deliver(fields) => ActionModel::Deliver(fields.deep_view()),
            Action::ReportEvent => ActionModel::ReportEvent,
            Action::ReportDelivered => ActionModel::ReportDelivered,
            Action::ReportDeliveryError => ActionModel::ReportDeliveryError,
        }
    }
}

/// The action that an event calls for: a failed poll is reported, a ping
/// response is passed over in silence, the readings of a published message
/// are delivered, and any other event is reported for diagnosis.
pub open spec fn action_for(event: EventModel) -> ActionModel {
    match event {
        EventModel::PollError => ActionModel::ReportPollError,
        EventModel::PingResp => ActionModel::Ignore,
        EventModel::Publish { topic, payload } => ActionModel::Deliver(readings_of(topic, payload)),
        EventModel::Incoming => ActionModel::ReportEvent,
        EventModel::Outgoing => ActionModel::ReportEvent,
    }
}

/// The phase after an event, whatever the phase before it.
pub open spec fn phase_after(event: EventModel) -> Phase {
    if event is PollError {
        Phase::ReconnectBackoff
    } else {
        Phase::Polling
    }
}

/// The action that the outcome of a delivery calls for.
pub open spec fn action_after(outcome: DeliveryOutcome) -> ActionModel {
    match outcome {
        DeliveryOutcome::Delivered => ActionModel::ReportDelivered,
        DeliveryOutcome::Failed(_) => ActionModel::ReportDeliveryError,
    }
}

/// The event dispatcher.
#[derive(Clone, Copy, Debug, PartialEq, Eq, Structural)]
pub struct Dispatcher {
    pub phase: Phase,
}

impl Dispatcher {
    /// A dispatcher that has not subscribed yet.
    pub fn new() -> (dispatcher: Dispatcher)
        ensures
            dispatcher.phase == Phase::Connecting,
    {
        Dispatcher { phase: Phase::Connecting }
    }

    /// The quality of service of every subscription: at least once.
    pub fn subscription_qos(&self) -> (qos: QoS)
        ensures
            qos == QoS::AtLeastOnce,
    {
        QoS::AtLeastOnce
    }

    /// Notes that every configured topic is subscribed to.
    pub fn subscribed(&mut self)
        ensures
            final(self).phase == if old(self).phase == Phase::Connecting {
                Phase::Subscribed
            } else {
                old(self).phase
            },
    {
        if self.phase == Phase::Connecting {
            self.phase = Phase::Subscribed;
        }
    }

    /// Decides what to do about one event, and moves on to the next poll.
    pub fn step(&mut self, event: &BrokerEvent) -> (action: Action)
        ensures
            action.deep_view() == action_for(event.deep_view()),
            final(self).phase == phase_after(event.deep_view()),
    {
        match event {
            BrokerEvent::PollError => {
                self.phase = Phase::ReconnectBackoff;
                Action::ReportPollError
            },
            BrokerEvent::PingResp => {
                self.phase = Phase::Polling;
                Action::Ignore
            },
            BrokerEvent::Publish { topic, payload } => {
                self.phase = Phase::Polling;
                Action::Deliver(handle_msg(topic.as_str(), payload.as_slice()))
            },
            BrokerEvent::Incoming => {
                self.phase = Phase::Polling;
                Action::ReportEvent
            },
            BrokerEvent::Outgoing => {
                self.phase = Phase::Polling;
                Action::ReportEvent
            },
        }
    }

    /// Decides what to do about the outcome of one delivery. The outcome is
    /// reported and nothing more: the dispatcher stays as it is, and no other
    /// delivery is touched.
    pub fn delivery_done(&self, outcome: &DeliveryOutcome) -> (action: Action)
        ensures
            action.deep_view() == action_after(*outcome),
    {
        match outcome {
            DeliveryOutcome::Delivered => Action::ReportDelivered,
            DeliveryOutcome::Failed(_) => Action::ReportDeliveryError,
        }
    }
}

/// Polling never ends: after every event the dispatcher is polling or about
/// to reconnect, and the first event after a failed poll puts it back to
/// polling.
pub proof fn lemma_polling_goes_on(event: EventModel)
    ensures
        phase_after(event) == Phase::Polling || phase_after(event) == Phase::ReconnectBackoff,
        phase_after(event) == Phase::ReconnectBackoff <==> event is PollError,
{
}

/// Only a published message leads to deliveries, and then to as many as its
/// payload has readings.
pub proof fn lemma_deliveries_only_for_publish(event: EventModel)
    ensures
        action_for(event) is Deliver <==> event is Publish,
        event matches EventModel::Publish { topic, payload } ==> action_for(event)
            == ActionModel::Deliver(readings_of(topic, payload)),
{
}

} // verus!
