//! Normalized action-scoped events and the identity of a live action instance.
use vstd::prelude::*;

use crate::json::{Json, JsonValue};
use crate::protocol::events::{Coordinates, EventNames, IncomingMessage, IncomingMessageView};
use crate::protocol::payload::{
    action_payload_of, dial_rotate_of, parse_action_payload, parse_dial_rotate,
    parse_title_parameters, parse_touch_tap, title_parameters_payload_of, touch_tap_of,
    ActionPayload, ActionPayloadView, DialRotatePayload, DialRotatePayloadView,
    TitleParametersPayload, TitleParametersPayloadView, TouchTapPayload, TouchTapPayloadView,
};
use crate::text::str_eq;

verus! {

/// Identity of a live action instance.
pub struct ActionIdentity {
    /// Instance context.
    pub context: String,
    /// Action UUID.
    pub action_id: String,
    /// Device identifier.
    pub device_id: String,
    /// Slot coordinates.
    pub coordinates: Option<Coordinates>,
}

pub struct ActionIdentityView {
    pub context: Seq<char>,
    pub action_id: Seq<char>,
    pub device_id: Seq<char>,
    pub coordinates: Option<Coordinates>,
}

impl View for ActionIdentity {
    type V = ActionIdentityView;

    open spec fn view(&self) -> ActionIdentityView {
        ActionIdentityView {
            context: self.context@,
            action_id: self.action_id@,
            device_id: self.device_id@,
            coordinates: self.coordinates,
        }
    }
}

impl Clone for ActionIdentity {
    fn clone(&self) -> (r: Self)
        ensures
            r@ == self@,
    {
        ActionIdentity {
            context: self.context.clone(),
            action_id: self.action_id.clone(),
            device_id: self.device_id.clone(),
            coordinates: self.coordinates,
        }
    }
}

/// Normalized action-scoped event.
pub enum ActionEvent {
    /// `willAppear`
    WillAppear(ActionPayload),
    /// `willDisappear`
    WillDisappear(ActionPayload),
    /// `keyDown`
    KeyDown(ActionPayload),
    /// `keyUp`
    KeyUp(ActionPayload),
    /// `dialDown`
    DialDown(ActionPayload),
    /// `dialUp`
    DialUp(ActionPayload),
    /// `dialRotate`
    DialRotate(DialRotatePayload),
    /// `touchTap`
    TouchTap(TouchTapPayload),
    /// `didReceiveSettings`
    DidReceiveSettings(ActionPayload),
    /// `sendToPlugin`
    PropertyInspectorMessage(JsonValue),
    /// `propertyInspectorDidAppear`
    PropertyInspectorDidAppear,
    /// `propertyInspectorDidDisappear`
    PropertyInspectorDidDisappear,
    /// `titleParametersDidChange`
    TitleParametersDidChange(TitleParametersPayload),
    /// `didReceiveResources`
    DidReceiveResources(ActionPayload),
}

pub enum ActionEventView {
    WillAppear(ActionPayloadView),
    WillDisappear(ActionPayloadView),
    KeyDown(ActionPayloadView),
    KeyUp(ActionPayloadView),
    DialDown(ActionPayloadView),
    DialUp(ActionPayloadView),
    DialRotate(DialRotatePayloadView),
    TouchTap(TouchTapPayloadView),
    DidReceiveSettings(ActionPayloadView),
    PropertyInspectorMessage(Json),
    PropertyInspectorDidAppear,
    PropertyInspectorDidDisappear,
    TitleParametersDidChange(TitleParametersPayloadView),
    DidReceiveResources(ActionPayloadView),
}

impl View for ActionEvent {
    type V = ActionEventView;

    open spec fn view(&self) -> ActionEventView {
        match self {
            ActionEvent::WillAppear(p) => ActionEventView::WillAppear(p@),
            ActionEvent::WillDisappear(p) => ActionEventView::WillDisappear(p@),
            ActionEvent::KeyDown(p) => ActionEventView::KeyDown(p@),
            ActionEvent::KeyUp(p) => ActionEventView::KeyUp(p@),
            ActionEvent::DialDown(p) => ActionEventView::DialDown(p@),
            ActionEvent::DialUp(p) => ActionEventView::DialUp(p@),
            ActionEvent::DialRotate(p) => ActionEventView::DialRotate(p@),
            ActionEvent::TouchTap(p) => ActionEventView::TouchTap(p@),
            ActionEvent::DidReceiveSettings(p) => ActionEventView::DidReceiveSettings(p@),
            ActionEvent::PropertyInspectorMessage(p) => ActionEventView::PropertyInspectorMessage(
                p@,
            ),
            ActionEvent::PropertyInspectorDidAppear => ActionEventView::PropertyInspectorDidAppear,
            ActionEvent::PropertyInspectorDidDisappear => {
                ActionEventView::PropertyInspectorDidDisappear
            },
            ActionEvent::TitleParametersDidChange(p) => ActionEventView::TitleParametersDidChange(
                p@,
            ),
            ActionEvent::DidReceiveResources(p) => ActionEventView::DidReceiveResources(p@),
        }
    }
}

impl Clone for ActionEvent {
    fn clone(&self) -> (r: Self)
        ensures
            r@ == self@,
    {
        match self {
            ActionEvent::WillAppear(p) => ActionEvent::WillAppear(p.clone()),
            ActionEvent::WillDisappear(p) => ActionEvent::WillDisappear(p.clone()),
            ActionEvent::KeyDown(p) => ActionEvent::KeyDown(p.clone()),
            ActionEvent::KeyUp(p) => ActionEvent::KeyUp(p.clone()),
            ActionEvent::DialDown(p) => ActionEvent::DialDown(p.clone()),
            ActionEvent::DialUp(p) => ActionEvent::DialUp(p.clone()),
            ActionEvent::DialRotate(p) => ActionEvent::DialRotate(p.clone()),
            ActionEvent::TouchTap(p) => ActionEvent::TouchTap(p.clone()),
            ActionEvent::DidReceiveSettings(p) => ActionEvent::DidReceiveSettings(p.clone()),
            ActionEvent::PropertyInspectorMessage(p) => ActionEvent::PropertyInspectorMessage(
                p.clone(),
            ),
            ActionEvent::PropertyInspectorDidAppear => ActionEvent::PropertyInspectorDidAppear,
            ActionEvent::PropertyInspectorDidDisappear => ActionEvent::PropertyInspectorDidDisappear,
            ActionEvent::TitleParametersDidChange(p) => ActionEvent::TitleParametersDidChange(
                p.clone(),
            ),
            ActionEvent::DidReceiveResources(p) => ActionEvent::DidReceiveResources(p.clone()),
        }
    }
}

/// The payload of a message, `null` when it has none.
pub open spec fn payload_or_null(m: IncomingMessageView) -> Json {
    match m.payload {
        Some(p) => p,
        None => Json::Null,
    }
}

/// The action-scoped event a message carries, by its event name; nothing for an
/// event that is not action-scoped.
pub open spec fn action_event_of(m: IncomingMessageView) -> Option<ActionEventView> {
    let p = payload_or_null(m);
    let e = m.event;
    if e == EventNames::WILL_APPEAR@ {
        Some(ActionEventView::WillAppear(action_payload_of(p)))
    } else if e == EventNames::WILL_DISAPPEAR@ {
        Some(ActionEventView::WillDisappear(action_payload_of(p)))
    } else if e == EventNames::KEY_DOWN@ {
        Some(ActionEventView::KeyDown(action_payload_of(p)))
    } else if e == EventNames::KEY_UP@ {
        Some(ActionEventView::KeyUp(action_payload_of(p)))
    } else if e == EventNames::DIAL_DOWN@ {
        Some(ActionEventView::DialDown(action_payload_of(p)))
    } else if e == EventNames::DIAL_UP@ {
        Some(ActionEventView::DialUp(action_payload_of(p)))
    } else if e == EventNames::DIAL_ROTATE@ {
        Some(ActionEventView::DialRotate(dial_rotate_of(p)))
    } else if e == EventNames::TOUCH_TAP@ {
        Some(ActionEventView::TouchTap(touch_tap_of(p)))
    } else if e == EventNames::DID_RECEIVE_SETTINGS@ {
        Some(ActionEventView::DidReceiveSettings(action_payload_of(p)))
    } else if e == EventNames::SEND_TO_PLUGIN@ {
        Some(ActionEventView::PropertyInspectorMessage(p))
    } else if e == EventNames::PROPERTY_INSPECTOR_DID_APPEAR@ {
        Some(ActionEventView::PropertyInspectorDidAppear)
    } else if e == EventNames::PROPERTY_INSPECTOR_DID_DISAPPEAR@ {
        Some(ActionEventView::PropertyInspectorDidDisappear)
    } else if e == EventNames::TITLE_PARAMETERS_DID_CHANGE@ {
        Some(ActionEventView::TitleParametersDidChange(title_parameters_payload_of(p)))
    } else if e == EventNames::DID_RECEIVE_RESOURCES@ {
        Some(ActionEventView::DidReceiveResources(action_payload_of(p)))
    } else {
        None
    }
}

impl ActionEvent {
    /// Build an event from a raw inbound message.
    pub fn from_message(message: &IncomingMessage) -> (r: Option<ActionEvent>)
        ensures
            match r {
                Some(e) => action_event_of(message@) == Some(e@),
                None => action_event_of(message@) is None,
            },
    {
        let payload = match &message.payload {
            Some(p) => p.clone(),
            None => JsonValue::Null,
        };
        let e = message.event.as_str();
        if str_eq(e, EventNames::WILL_APPEAR) {
            Some(ActionEvent::WillAppear(parse_action_payload(&payload)))
        } else if str_eq(e, EventNames::WILL_DISAPPEAR) {
            Some(ActionEvent::WillDisappear(parse_action_payload(&payload)))
        } else if str_eq(e, EventNames::KEY_DOWN) {
            Some(ActionEvent::KeyDown(parse_action_payload(&payload)))
        } else if str_eq(e, EventNames::KEY_UP) {
            Some(ActionEvent::KeyUp(parse_action_payload(&payload)))
        } else if str_eq(e, EventNames::DIAL_DOWN) {
            Some(ActionEvent::DialDown(parse_action_payload(&payload)))
        } else if str_eq(e, EventNames::DIAL_UP) {
            Some(ActionEvent::DialUp(parse_action_payload(&payload)))
        } else if str_eq(e, EventNames::DIAL_ROTATE) {
            Some(ActionEvent::DialRotate(parse_dial_rotate(&payload)))
        } else if str_eq(e, EventNames::TOUCH_TAP) {
            Some(ActionEvent::TouchTap(parse_touch_tap(&payload)))
        } else if str_eq(e, EventNames::DID_RECEIVE_SETTINGS) {
            Some(ActionEvent::DidReceiveSettings(parse_action_payload(&payload)))
        } else if str_eq(e, EventNames::SEND_TO_PLUGIN) {
            Some(ActionEvent::PropertyInspectorMessage(payload))
        } else if str_eq(e, EventNames::PROPERTY_INSPECTOR_DID_APPEAR) {
            Some(ActionEvent::PropertyInspectorDidAppear)
        } else if str_eq(e, EventNames::PROPERTY_INSPECTOR_DID_DISAPPEAR) {
            Some(ActionEvent::PropertyInspectorDidDisappear)
        } else if str_eq(e, EventNames::TITLE_PARAMETERS_DID_CHANGE) {
            Some(ActionEvent::TitleParametersDidChange(parse_title_parameters(&payload)))
        } else if str_eq(e, EventNames::DID_RECEIVE_RESOURCES) {
            Some(ActionEvent::DidReceiveResources(parse_action_payload(&payload)))
        } else {
            None
        }
    }
}

/// The handler of an action that an event calls.
#[derive(Debug, Clone, Copy, PartialEq, Eq, Structural)]
pub enum ActionHandler {
    WillAppear,
    WillDisappear,
    KeyDown,
    KeyUp,
    DialDown,
    DialUp,
    DialRotate,
    TouchTap,
    DidReceiveSettings,
    PropertyInspectorMessage,
    PropertyInspectorDidAppear,
    PropertyInspectorDidDisappear,
    TitleParametersDidChange,
    DidReceiveResources,
}

/// One step of handling an event on an action instance.
pub enum HandlerStep {
    /// Keep the settings held now as the previous ones, then replace them with
    /// the settings read from this JSON value.
    ApplySettings(JsonValue),
    /// Run this handler with the event's payload.
    Run(ActionHandler),
    /// Run the settings-changed hook with the settings held before `ApplySettings`.
    SettingsChanged,
}

pub enum HandlerStepView {
    ApplySettings(Json),
    Run(ActionHandler),
    SettingsChanged,
}

impl View for HandlerStep {
    type V = HandlerStepView;

    open spec fn view(&self) -> HandlerStepView {
        match self {
            HandlerStep::ApplySettings(s) => HandlerStepView::ApplySettings(s@),
            HandlerStep::Run(h) => HandlerStepView::Run(*h),
            HandlerStep::SettingsChanged => HandlerStepView::SettingsChanged,
        }
    }
}

/// The handler each event calls.
pub open spec fn handler_of(e: ActionEventView) -> ActionHandler {
    match e {
        ActionEventView::WillAppear(_) => ActionHandler::WillAppear,
        ActionEventView::WillDisappear(_) => ActionHandler::WillDisappear,
        ActionEventView::KeyDown(_) => ActionHandler::KeyDown,
        ActionEventView::KeyUp(_) => ActionHandler::KeyUp,
        ActionEventView::DialDown(_) => ActionHandler::DialDown,
        ActionEventView::DialUp(_) => ActionHandler::DialUp,
        ActionEventView::DialRotate(_) => ActionHandler::DialRotate,
        ActionEventView::TouchTap(_) => ActionHandler::TouchTap,
        ActionEventView::DidReceiveSettings(_) => ActionHandler::DidReceiveSettings,
        ActionEventView::PropertyInspectorMessage(_) => ActionHandler::PropertyInspectorMessage,
        ActionEventView::PropertyInspectorDidAppear => ActionHandler::PropertyInspectorDidAppear,
        ActionEventView::PropertyInspectorDidDisappear => ActionHandler::PropertyInspectorDidDisappear,
        ActionEventView::TitleParametersDidChange(_) => ActionHandler::TitleParametersDidChange,
        ActionEventView::DidReceiveResources(_) => ActionHandler::DidReceiveResources,
    }
}

/// The steps that handling an event takes: `didReceiveSettings` applies the
/// payload's settings, runs its handler, then the settings-changed hook; every
/// other event runs its own handler alone.
pub open spec fn handler_plan_of(e: ActionEventView) -> Seq<HandlerStepView> {
    match e {
        ActionEventView::DidReceiveSettings(p) => seq![
            HandlerStepView::ApplySettings(p.settings),
            HandlerStepView::Run(ActionHandler::DidReceiveSettings),
            HandlerStepView::SettingsChanged,
        ],
        _ => seq![HandlerStepView::Run(handler_of(e))],
    }
}

/// The steps that handling `event` takes, in order. The host runs them in this
/// order and stops at the first step that fails; `SettingsChanged` is given the
/// settings that were held before `ApplySettings` replaced them.
pub fn handler_plan(event: &ActionEvent) -> (r: Vec<HandlerStep>)
    ensures
        r@.map_values(|s: HandlerStep| s@) == handler_plan_of(event@),
{
    let handler = match event {
        ActionEvent::WillAppear(_) => ActionHandler::WillAppear,
        ActionEvent::WillDisappear(_) => ActionHandler::WillDisappear,
        ActionEvent::KeyDown(_) => ActionHandler::KeyDown,
        ActionEvent::KeyUp(_) => ActionHandler::KeyUp,
        ActionEvent::DialDown(_) => ActionHandler::DialDown,
        ActionEvent::DialUp(_) => ActionHandler::DialUp,
        ActionEvent::DialRotate(_) => ActionHandler::DialRotate,
        ActionEvent::TouchTap(_) => ActionHandler::TouchTap,
        ActionEvent::DidReceiveSettings(p) => {
            let r = vec![
                HandlerStep::ApplySettings(p.settings.clone()),
                HandlerStep::Run(ActionHandler::DidReceiveSettings),
                HandlerStep::SettingsChanged,
            ];
            assert(r@.map_values(|s: HandlerStep| s@) =~= handler_plan_of(event@));
            return r;
        },
        ActionEvent::PropertyInspectorMessage(_) => ActionHandler::PropertyInspectorMessage,
        ActionEvent::PropertyInspectorDidAppear => ActionHandler::PropertyInspectorDidAppear,
        ActionEvent::PropertyInspectorDidDisappear => ActionHandler::PropertyInspectorDidDisappear,
        ActionEvent::TitleParametersDidChange(_) => ActionHandler::TitleParametersDidChange,
        ActionEvent::DidReceiveResources(_) => ActionHandler::DidReceiveResources,
    };
    let r = vec![HandlerStep::Run(handler)];
    assert(r@.map_values(|s: HandlerStep| s@) =~= handler_plan_of(event@));
    r
}

} // verus!
