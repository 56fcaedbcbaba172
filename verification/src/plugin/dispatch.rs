//! Routing of inbound messages to plugin-wide hooks and to action instances.
//!
//! The dispatcher keeps the live action instances by context. `route` decides,
//! for one inbound message, what the host does with it; the host then runs the
//! handlers and reports back with `insert_instance` (an instance appeared and its
//! first handler succeeded) and `remove_instance` (an instance disappears).
use vstd::prelude::*;

use crate::json::{Json, JsonValue};
use crate::keyed::KeyedVec;
use crate::plugin::action::{action_event_of, payload_or_null, ActionEvent, ActionEventView};
use crate::plugin::registry::{ActionRegistration, Registry};
use crate::protocol::events::{DeviceInfo, DeviceInfoView, EventNames, IncomingMessage, IncomingMessageView};
use crate::protocol::payload::{
    action_payload_of, parse_action_payload, text_or_empty, ActionPayload, ActionPayloadView,
};
use crate::text::{ascii_lowercase, str_eq};

verus! {

/// Plugin-wide events that are not bound to an action instance.
pub enum LifecycleEvent {
    /// `applicationDidLaunch`, with the application named in the payload.
    ApplicationDidLaunch(String),
    /// `applicationDidTerminate`, with the application named in the payload.
    ApplicationDidTerminate(String),
    /// `deviceDidConnect`
    DeviceDidConnect(String, DeviceInfo),
    /// `deviceDidDisconnect`
    DeviceDidDisconnect(String),
    /// `deviceDidChange`
    DeviceDidChange(String, DeviceInfo),
    /// `systemDidWakeUp`
    SystemDidWakeUp,
    /// `didReceiveDeepLink`, with the URL of the payload.
    DidReceiveDeepLink(String),
    /// `didReceiveGlobalSettings`, with the settings of the payload.
    DidReceiveGlobalSettings(JsonValue),
    /// `didReceiveSecrets`, with the secrets of the payload.
    DidReceiveSecrets(JsonValue),
}

pub enum LifecycleEventView {
    ApplicationDidLaunch(Seq<char>),
    ApplicationDidTerminate(Seq<char>),
    DeviceDidConnect(Seq<char>, DeviceInfoView),
    DeviceDidDisconnect(Seq<char>),
    DeviceDidChange(Seq<char>, DeviceInfoView),
    SystemDidWakeUp,
    DidReceiveDeepLink(Seq<char>),
    DidReceiveGlobalSettings(Json),
    DidReceiveSecrets(Json),
}

impl View for LifecycleEvent {
    type V = LifecycleEventView;

    open spec fn view(&self) -> LifecycleEventView {
        match self {
            LifecycleEvent::ApplicationDidLaunch(a) => LifecycleEventView::ApplicationDidLaunch(a@),
            LifecycleEvent::ApplicationDidTerminate(a) => LifecycleEventView::ApplicationDidTerminate(
                a@,
            ),
            LifecycleEvent::DeviceDidConnect(d, i) => LifecycleEventView::DeviceDidConnect(d@, i@),
            LifecycleEvent::DeviceDidDisconnect(d) => LifecycleEventView::DeviceDidDisconnect(d@),
            LifecycleEvent::DeviceDidChange(d, i) => LifecycleEventView::DeviceDidChange(d@, i@),
            LifecycleEvent::SystemDidWakeUp => LifecycleEventView::SystemDidWakeUp,
            LifecycleEvent::DidReceiveDeepLink(u) => LifecycleEventView::DidReceiveDeepLink(u@),
            LifecycleEvent::DidReceiveGlobalSettings(s) => LifecycleEventView::DidReceiveGlobalSettings(
                s@,
            ),
            LifecycleEvent::DidReceiveSecrets(s) => LifecycleEventView::DidReceiveSecrets(s@),
        }
    }
}

/// A new action instance: where it lives and what its `willAppear` carried.
pub struct Appearance {
    /// Instance context.
    pub context: String,
    /// Action UUID, as the message gave it.
    pub action_uuid: String,
    /// Device identifier, empty when the message gave none.
    pub device: String,
    /// The `willAppear` payload; its coordinates and settings seed the instance.
    pub payload: ActionPayload,
}

pub struct AppearanceView {
    pub context: Seq<char>,
    pub action_uuid: Seq<char>,
    pub device: Seq<char>,
    pub payload: ActionPayloadView,
}

impl View for Appearance {
    type V = AppearanceView;

    open spec fn view(&self) -> AppearanceView {
        AppearanceView {
            context: self.context@,
            action_uuid: self.action_uuid@,
            device: self.device@,
            payload: self.payload@,
        }
    }
}

/// What the host does with one inbound message.
pub enum Route<'a, F> {
    /// Run every plugin-wide hook, in order, with this event.
    Lifecycle(LifecycleEvent),
    /// Build an instance with `registration`, seed it from the appearance, run its
    /// `willAppear` handler, and keep it (`insert_instance`) when that succeeds.
    Appear(&'a ActionRegistration<F>, Appearance),
    /// Take the instance out (`remove_instance`) and run this handler on it.
    Disappear(String, ActionEvent),
    /// Run this handler on the live instance of the context.
    Deliver(String, ActionEvent),
    /// Nothing to do.
    Ignore,
}

pub enum RouteView<F> {
    Lifecycle(LifecycleEventView),
    Appear(ActionRegistration<F>, AppearanceView),
    Disappear(Seq<char>, ActionEventView),
    Deliver(Seq<char>, ActionEventView),
    Ignore,
}

impl<'a, F> View for Route<'a, F> {
    type V = RouteView<F>;

    open spec fn view(&self) -> RouteView<F> {
        match self {
            Route::Lifecycle(e) => RouteView::Lifecycle(e@),
            Route::Appear(r, a) => RouteView::Appear(**r, a@),
            Route::Disappear(c, e) => RouteView::Disappear(c@, e@),
            Route::Deliver(c, e) => RouteView::Deliver(c@, e@),
            Route::Ignore => RouteView::Ignore,
        }
    }
}

/// The text under `key` in the message payload, empty when there is none.
pub open spec fn nested_text(m: IncomingMessageView, key: Seq<char>) -> Seq<char> {
    match payload_or_null(m).field(key) {
        Some(v) => text_or_empty(v),
        None => Seq::empty(),
    }
}

/// The value under `key` in the message payload, `null` when there is none.
pub open spec fn nested_json(m: IncomingMessageView, key: Seq<char>) -> Json {
    match payload_or_null(m).field(key) {
        Some(v) => v,
        None => Json::Null,
    }
}

/// The plugin-wide event a message carries, if it is one of them and has what
/// the event needs (device events need a device, connect and change a device
/// description too). `Some(None)` is a plugin-wide event with nothing to report.
pub open spec fn lifecycle_event_of(m: IncomingMessageView) -> Option<Option<LifecycleEventView>> {
    let e = m.event;
    if e == EventNames::APPLICATION_DID_LAUNCH@ {
        Some(Some(LifecycleEventView::ApplicationDidLaunch(nested_text(m, "application"@))))
    } else if e == EventNames::APPLICATION_DID_TERMINATE@ {
        Some(Some(LifecycleEventView::ApplicationDidTerminate(nested_text(m, "application"@))))
    } else if e == EventNames::DEVICE_DID_CONNECT@ {
        Some(
            match (m.device, m.device_info) {
                (Some(d), Some(i)) => Some(LifecycleEventView::DeviceDidConnect(d, i)),
                _ => None,
            },
        )
    } else if e == EventNames::DEVICE_DID_DISCONNECT@ {
        Some(
            match m.device {
                Some(d) => Some(LifecycleEventView::DeviceDidDisconnect(d)),
                None => None,
            },
        )
    } else if e == EventNames::DEVICE_DID_CHANGE@ {
        Some(
            match (m.device, m.device_info) {
                (Some(d), Some(i)) => Some(LifecycleEventView::DeviceDidChange(d, i)),
                _ => None,
            },
        )
    } else if e == EventNames::SYSTEM_DID_WAKE_UP@ {
        Some(Some(LifecycleEventView::SystemDidWakeUp))
    } else if e == EventNames::DID_RECEIVE_DEEP_LINK@ {
        Some(Some(LifecycleEventView::DidReceiveDeepLink(nested_text(m, "url"@))))
    } else if e == EventNames::DID_RECEIVE_GLOBAL_SETTINGS@ {
        Some(Some(LifecycleEventView::DidReceiveGlobalSettings(nested_json(m, "settings"@))))
    } else if e == EventNames::DID_RECEIVE_SECRETS@ {
        Some(Some(LifecycleEventView::DidReceiveSecrets(nested_json(m, "secrets"@))))
    } else {
        None
    }
}

/// What the host does with message `m`, given the registrations (by lower-cased
/// UUID) and the contexts of the live instances.
pub open spec fn route_of<F>(
    registry: Map<Seq<char>, ActionRegistration<F>>,
    live: Set<Seq<char>>,
    m: IncomingMessageView,
) -> RouteView<F> {
    let e = m.event;
    if e == EventNames::WILL_APPEAR@ {
        match (m.context, m.action) {
            (Some(c), Some(a)) => if registry.contains_key(ascii_lowercase(a)) {
                RouteView::Appear(
                    registry[ascii_lowercase(a)],
                    AppearanceView {
                        context: c,
                        action_uuid: a,
                        device: match m.device {
                            Some(d) => d,
                            None => Seq::empty(),
                        },
                        payload: action_payload_of(payload_or_null(m)),
                    },
                )
            } else {
                RouteView::Ignore
            },
            _ => RouteView::Ignore,
        }
    } else if e == EventNames::WILL_DISAPPEAR@ {
        match m.context {
            Some(c) => if live.contains(c) {
                RouteView::Disappear(c, ActionEventView::WillDisappear(action_payload_of(payload_or_null(m))))
            } else {
                RouteView::Ignore
            },
            None => RouteView::Ignore,
        }
    } else {
        match lifecycle_event_of(m) {
            Some(Some(l)) => RouteView::Lifecycle(l),
            Some(None) => RouteView::Ignore,
            None => match m.context {
                Some(c) => if live.contains(c) {
                    match action_event_of(m) {
                        Some(ev) => RouteView::Deliver(c, ev),
                        None => RouteView::Ignore,
                    }
                } else {
                    RouteView::Ignore
                },
                None => RouteView::Ignore,
            },
        }
    }
}

/// Creates and routes events to action instances of type `I`, built by
/// registrations of type `F`.
pub struct Dispatcher<F, I> {
    registry: Registry<F>,
    instances: KeyedVec<I>,
}

impl<F, I> Dispatcher<F, I> {
    /// The registrations, by lower-cased UUID.
    pub closed spec fn registrations(self) -> Map<Seq<char>, ActionRegistration<F>> {
        self.registry@
    }

    /// The live instances, by context.
    pub closed spec fn instances(self) -> Map<Seq<char>, I> {
        self.instances@
    }

    /// A dispatcher with no live instance.
    pub fn new(registry: Registry<F>) -> (r: Dispatcher<F, I>)
        ensures
            r.registrations() == registry@,
            r.instances() == Map::<Seq<char>, I>::empty(),
    {
        Dispatcher { registry, instances: KeyedVec::new() }
    }

    /// The registry.
    pub fn registry(&self) -> (r: &Registry<F>)
        ensures
            r@ == self.registrations(),
    {
        &self.registry
    }

    /// The live instance of `context`.
    pub fn instance(&self, context: &str) -> (r: Option<&I>)
        ensures
            match r {
                Some(i) => self.instances().contains_key(context@) && self.instances()[context@] == *i,
                None => !self.instances().contains_key(context@),
            },
    {
        self.instances.get(context)
    }

    /// Keep `instance` as the live instance of `context`, replacing any other.
    pub fn insert_instance(&mut self, context: String, instance: I)
        ensures
            final(self).instances() == old(self).instances().insert(context@, instance),
            final(self).registrations() == old(self).registrations(),
    {
        self.instances.insert(context, instance);
    }

    /// Take out the live instance of `context`, if any.
    pub fn remove_instance(&mut self, context: &str) -> (r: Option<I>)
        ensures
            final(self).instances() == old(self).instances().remove(context@),
            final(self).registrations() == old(self).registrations(),
            match r {
                Some(i) => old(self).instances().contains_key(context@) && old(self).instances()[context@]
                    == i,
                None => !old(self).instances().contains_key(context@),
            },
    {
        self.instances.remove(context)
    }

    /// What the host does with `message`.
    pub fn route(&self, message: &IncomingMessage) -> (r: Route<'_, F>)
        ensures
            r@ == route_of(self.registrations(), self.instances().dom(), message@),
    {
        let e = message.event.as_str();
        if str_eq(e, EventNames::WILL_APPEAR) {
            return self.route_appear(message);
        }
        if str_eq(e, EventNames::WILL_DISAPPEAR) {
            return match &message.context {
                Some(c) => if self.instances.contains(c.as_str()) {
                    Route::Disappear(
                        c.clone(),
                        ActionEvent::WillDisappear(parse_action_payload(&payload_of(message))),
                    )
                } else {
                    Route::Ignore
                },
                None => Route::Ignore,
            };
        }
        match lifecycle_event(message) {
            Some(Some(l)) => Route::Lifecycle(l),
            Some(None) => Route::Ignore,
            None => match &message.context {
                Some(c) => if self.instances.contains(c.as_str()) {
                    match ActionEvent::from_message(message) {
                        Some(ev) => Route::Deliver(c.clone(), ev),
                        None => Route::Ignore,
                    }
                } else {
                    Route::Ignore
                },
                None => Route::Ignore,
            },
        }
    }

    fn route_appear(&self, message: &IncomingMessage) -> (r: Route<'_, F>)
        requires
            message@.event == EventNames::WILL_APPEAR@,
        ensures
            r@ == route_of(self.registrations(), self.instances().dom(), message@),
    {
        match (&message.context, &message.action) {
            (Some(c), Some(a)) => match self.registry.get(a.as_str()) {
                Some(registration) => {
                    let device = match &message.device {
                        Some(d) => d.clone(),
                        None => String::new(),
                    };
                    let payload = parse_action_payload(&payload_of(message));
                    Route::Appear(
                        registration,
                        Appearance { context: c.clone(), action_uuid: a.clone(), device, payload },
                    )
                },
                None => Route::Ignore,
            },
            _ => Route::Ignore,
        }
    }
}

/// The payload of a message, `null` when it has none.
fn payload_of(message: &IncomingMessage) -> (r: JsonValue)
    ensures
        r@ == payload_or_null(message@),
{
    match &message.payload {
        Some(p) => p.clone(),
        None => JsonValue::Null,
    }
}

fn nested_text_of(message: &IncomingMessage, key: &str) -> (r: String)
    ensures
        r@ == nested_text(message@, key@),
{
    let p = payload_of(message);
    match p.get(key) {
        Some(JsonValue::String(s)) => s.clone(),
        _ => String::new(),
    }
}

fn nested_json_of(message: &IncomingMessage, key: &str) -> (r: JsonValue)
    ensures
        r@ == nested_json(message@, key@),
{
    let p = payload_of(message);
    match p.get(key) {
        Some(v) => v.clone(),
        None => JsonValue::Null,
    }
}

fn device_and_info(message: &IncomingMessage) -> (r: Option<(String, DeviceInfo)>)
    ensures
        match r {
            Some((d, i)) => message@.device == Some(d@) && message@.device_info == Some(i@),
            None => message@.device is None || message@.device_info is None,
        },
{
    match (&message.device, &message.device_info) {
        (Some(d), Some(i)) => Some((d.clone(), i.clone())),
        _ => None,
    }
}

/// The plugin-wide event `message` carries.
pub fn lifecycle_event(message: &IncomingMessage) -> (r: Option<Option<LifecycleEvent>>)
    ensures
        match r {
            Some(Some(l)) => lifecycle_event_of(message@) == Some(Some(l@)),
            Some(None) => lifecycle_event_of(message@) == Some(None::<LifecycleEventView>),
            None => lifecycle_event_of(message@) is None,
        },
{
    let e = message.event.as_str();
    if str_eq(e, EventNames::APPLICATION_DID_LAUNCH) {
        Some(Some(LifecycleEvent::ApplicationDidLaunch(nested_text_of(message, "application"))))
    } else if str_eq(e, EventNames::APPLICATION_DID_TERMINATE) {
        Some(Some(LifecycleEvent::ApplicationDidTerminate(nested_text_of(message, "application"))))
    } else if str_eq(e, EventNames::DEVICE_DID_CONNECT) {
        Some(
            match device_and_info(message) {
                Some((d, i)) => Some(LifecycleEvent::DeviceDidConnect(d, i)),
                None => None,
            },
        )
    } else if str_eq(e, EventNames::DEVICE_DID_DISCONNECT) {
        Some(
            match &message.device {
                Some(d) => Some(LifecycleEvent::DeviceDidDisconnect(d.clone())),
                None => None,
            },
        )
    } else if str_eq(e, EventNames::DEVICE_DID_CHANGE) {
        Some(
            match device_and_info(message) {
                Some((d, i)) => Some(LifecycleEvent::DeviceDidChange(d, i)),
                None => None,
            },
        )
    } else if str_eq(e, EventNames::SYSTEM_DID_WAKE_UP) {
        Some(Some(LifecycleEvent::SystemDidWakeUp))
    } else if str_eq(e, EventNames::DID_RECEIVE_DEEP_LINK) {
        Some(Some(LifecycleEvent::DidReceiveDeepLink(nested_text_of(message, "url"))))
    } else if str_eq(e, EventNames::DID_RECEIVE_GLOBAL_SETTINGS) {
        Some(Some(LifecycleEvent::DidReceiveGlobalSettings(nested_json_of(message, "settings"))))
    } else if str_eq(e, EventNames::DID_RECEIVE_SECRETS) {
        Some(Some(LifecycleEvent::DidReceiveSecrets(nested_json_of(message, "secrets"))))
    } else {
        None
    }
}

} // verus!
