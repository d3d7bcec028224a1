//! Anonymous usage tracking. It can be switched off, and what is sent holds no
//! personal data, no prompt and nothing of the session.
use vstd::prelude::*;
use vstd::string::*;

use crate::text::concat2;

verus! {

/// Where the events are sent.
pub const TELEMETRY_ENDPOINT: &'static str = "https://apiv2.stakpak.dev/v1/telemetry";

/// Something that happened and is counted.
#[derive(Debug, PartialEq, Eq)]
pub enum TelemetryEvent {
    FirstOpen,
    UserPrompted,
    CommandCalled(String),
}

/// The model of a [`TelemetryEvent`].
pub enum TelemetryEventView {
    FirstOpen,
    UserPrompted,
    CommandCalled(Seq<char>),
}

impl View for TelemetryEvent {
    type V = TelemetryEventView;

    open spec fn view(&self) -> TelemetryEventView {
        match self {
            TelemetryEvent::FirstOpen => TelemetryEventView::FirstOpen,
            TelemetryEvent::UserPrompted => TelemetryEventView::UserPrompted,
            TelemetryEvent::CommandCalled(name) => TelemetryEventView::CommandCalled(name@),
        }
    }
}

impl Clone for TelemetryEvent {
    fn clone(&self) -> (res: Self)
        ensures
            res == *self,
    {
        match self {
            TelemetryEvent::FirstOpen => TelemetryEvent::FirstOpen,
            TelemetryEvent::UserPrompted => TelemetryEvent::UserPrompted,
            TelemetryEvent::CommandCalled(name) => TelemetryEvent::CommandCalled(name.clone()),
        }
    }
}

/// How an event is written.
pub open spec fn event_text(event: TelemetryEventView) -> Seq<char> {
    match event {
        TelemetryEventView::FirstOpen => "FirstOpen"@,
        TelemetryEventView::UserPrompted => "UserPrompted"@,
        TelemetryEventView::CommandCalled(name) => name + "_command_called"@,
    }
}

impl TelemetryEvent {
    /// The event as text.
    pub fn to_string(&self) -> (res: String)
        ensures
            res@ == event_text(self@),
    {
        match self {
            TelemetryEvent::FirstOpen => "FirstOpen".to_string(),
            TelemetryEvent::UserPrompted => "UserPrompted".to_string(),
            TelemetryEvent::CommandCalled(name) => concat2(name.as_str(), "_command_called"),
        }
    }
}

/// What is sent about an event.
#[derive(Debug, PartialEq, Eq)]
pub struct TelemetryPayload {
    pub event: TelemetryEvent,
    pub machine_name: String,
    pub provider: String,
    pub user_id: String,
}

/// The model of a [`TelemetryPayload`].
pub struct TelemetryPayloadView {
    pub event: TelemetryEventView,
    pub machine_name: Seq<char>,
    pub provider: Seq<char>,
    pub user_id: Seq<char>,
}

impl DeepView for TelemetryPayload {
    type V = TelemetryPayloadView;

    open spec fn deep_view(&self) -> TelemetryPayloadView {
        TelemetryPayloadView {
            event: self.event@,
            machine_name: self.machine_name@,
            provider: self.provider@,
            user_id: self.user_id@,
        }
    }
}

/// What is sent about `event`: nothing where tracking is off.
pub open spec fn payload_of(
    anonymous_id: Seq<char>,
    machine_name: Option<Seq<char>>,
    enabled: bool,
    event: TelemetryEventView,
) -> Option<TelemetryPayloadView> {
    if enabled {
        Some(
            TelemetryPayloadView {
                event,
                machine_name: match machine_name {
                    Some(name) => name,
                    None => Seq::empty(),
                },
                provider: "Local"@,
                user_id: anonymous_id,
            },
        )
    } else {
        None
    }
}

/// What is to be posted to [`TELEMETRY_ENDPOINT`] about an event.
pub fn capture_event(
    anonymous_id: &str,
    machine_name: Option<&str>,
    enabled: bool,
    event: TelemetryEvent,
) -> (res: Option<TelemetryPayload>)
    ensures
        res.deep_view() == payload_of(
            anonymous_id@,
            machine_name.deep_view(),
            enabled,
            event@,
        ),
{
    if !enabled {
        return None;
    }
    let machine_name = match machine_name {
        Some(name) => name.to_string(),
        None => String::new(),
    };
    Some(
        TelemetryPayload {
            event,
            machine_name,
            provider: "Local".to_string(),
            user_id: anonymous_id.to_string(),
        },
    )
}

/// Who is asked for, and whether they agreed to be counted.
#[derive(Debug, PartialEq, Eq)]
pub struct TelemetrySettings {
    pub anonymous_id: Option<String>,
    pub machine_name: Option<String>,
    pub collect_telemetry: Option<bool>,
}

/// What is sent about `event` under these settings: nothing without an anonymous
/// id, and nothing where collecting was declined. It is not declined by default.
pub open spec fn settings_payload(
    settings: TelemetrySettings,
    event: TelemetryEventView,
) -> Option<TelemetryPayloadView> {
    match settings.anonymous_id {
        Some(id) => if settings.collect_telemetry == Some(false) {
            None
        } else {
            payload_of(id@, settings.machine_name.deep_view(), true, event)
        },
        None => None,
    }
}

impl TelemetrySettings {
    /// What is to be posted about an event.
    pub fn capture(&self, event: TelemetryEvent) -> (res: Option<TelemetryPayload>)
        ensures
            res.deep_view() == settings_payload(*self, event@),
    {
        let declined = match self.collect_telemetry {
            Some(collect) => !collect,
            None => false,
        };
        if declined {
            return None;
        }
        match &self.anonymous_id {
            Some(id) => {
                let machine_name = match &self.machine_name {
                    Some(name) => Some(name.as_str()),
                    None => None,
                };
                capture_event(id.as_str(), machine_name, true, event)
            },
            None => None,
        }
    }
}

/// Tracking that is switched off sends nothing, whatever happens.
pub proof fn law_switched_off_sends_nothing(
    anonymous_id: Seq<char>,
    machine_name: Option<Seq<char>>,
    event: TelemetryEventView,
    settings: TelemetrySettings,
)
    requires
        settings.collect_telemetry == Some(false),
    ensures
        payload_of(anonymous_id, machine_name, false, event) is None,
        settings_payload(settings, event) is None,
{
}

/// Counting is on unless it was declined, for everybody who has an anonymous id.
pub proof fn law_counting_is_opt_out(settings: TelemetrySettings, event: TelemetryEventView)
    ensures
        settings_payload(settings, event) is Some <==> settings.anonymous_id is Some
            && settings.collect_telemetry != Some(false),
{
}

} // verus!
