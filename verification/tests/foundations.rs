use stakpak_interactive::closing::{closing_lines, model_display, shows_usage, TerminalColors};
use stakpak_interactive::headers::request_headers;
use stakpak_interactive::ids::{checkpoint_number, invalid_checkpoint};
use stakpak_interactive::json::{session_of_metadata, state_of_metadata};
use stakpak_interactive::startup::{init_banner, init_prompt, start_from, BannerStyle, StartFrom};
use stakpak_interactive::telemetry::{
    capture_event, TelemetryEvent, TelemetrySettings, TELEMETRY_ENDPOINT,
};
use stakpak_interactive::text::{
    begins_with, concat2, concat3, decimal_text, join, join_from, list_contains, pad,
};
use stakpak_interactive::usage::{LLMTokenUsage, PromptTokensDetails};

fn texts(parts: &[&str]) -> Vec<String> {
    parts.iter().map(|part| part.to_string()).collect()
}

#[test]
fn texts_are_put_together() {
    assert_eq!(concat2("ab", "c"), "abc");
    assert_eq!(concat3("a", "", "ü"), "aü");
    assert_eq!(join(&texts(&["a", "b", "c"]), ", "), "a, b, c");
    assert_eq!(join(&texts(&[]), ", "), "");
    assert_eq!(join_from(&texts(&["a", "b", "c"]), 1, ": "), "b: c");
    assert_eq!(join_from(&texts(&["a"]), 1, ": "), "");
    assert_eq!(pad("ab", 4), "ab  ");
    assert_eq!(pad("äö", 3), "äö ");
    assert_eq!(pad("abc", 2), "abc");
}

#[test]
fn texts_are_compared() {
    assert!(begins_with("stakpak://x", "stakpak://"));
    assert!(!begins_with("stakpak:/", "stakpak://"));
    assert!(begins_with("x", ""));
    assert!(list_contains(&texts(&["a", "b"]), "b"));
    assert!(!list_contains(&texts(&["a", "b"]), "B"));
}

#[test]
fn numbers_are_written_in_decimal() {
    assert_eq!(decimal_text(0), "0");
    assert_eq!(decimal_text(1234567890), "1234567890");
    assert_eq!(decimal_text(u64::MAX), "18446744073709551615");
}

#[test]
fn checkpoint_names_are_read() {
    let name = "00000000-0000-0000-0000-0000000000ff";
    assert_eq!(checkpoint_number(name), Ok(255));
    assert_eq!(
        checkpoint_number("xyz"),
        Err("Invalid checkpoint ID 'xyz' - must be a valid UUID".to_string())
    );
    assert_eq!(invalid_checkpoint(""), "Invalid checkpoint ID '' - must be a valid UUID");
}

fn object(members: &[(&str, serde_json::Value)]) -> serde_json::Value {
    let mut map = serde_json::Map::new();
    for (name, value) in members {
        map.insert(name.to_string(), value.clone());
    }
    serde_json::Value::Object(map)
}

#[test]
fn metadata_names_session_and_state() {
    let id = "00000000-0000-0000-0000-00000000000a";
    let state = object(&[("n", serde_json::Value::from(1))]);
    let both = Some(object(&[
        ("session_id", serde_json::Value::from(id)),
        ("state_metadata", state.clone()),
    ]));
    assert_eq!(session_of_metadata(&both), Some(10));
    assert_eq!(state_of_metadata(&both), Some(state));
    assert_eq!(session_of_metadata(&None), None);
    assert_eq!(state_of_metadata(&None), None);
    let number = Some(object(&[("session_id", serde_json::Value::from(10))]));
    assert_eq!(session_of_metadata(&number), None);
    assert_eq!(state_of_metadata(&number), None);
    let wrong = Some(object(&[("session_id", serde_json::Value::from("ten"))]));
    assert_eq!(session_of_metadata(&wrong), None);
    assert_eq!(session_of_metadata(&Some(serde_json::Value::from(id))), None);
}

#[test]
fn study_mode_asks_for_its_prompt() {
    let headers = request_headers(true).unwrap();
    assert_eq!(headers.len(), 1);
    assert_eq!(headers.get("x-system-prompt-key").unwrap(), "agent_study_mode");
    assert!(request_headers(false).is_none());
}

#[test]
fn telemetry_payload_holds_the_event() {
    let payload =
        capture_event("anon", Some("box"), true, TelemetryEvent::CommandCalled("/help".to_string()))
            .unwrap();
    assert_eq!(payload.event, TelemetryEvent::CommandCalled("/help".to_string()));
    assert_eq!(payload.machine_name, "box");
    assert_eq!(payload.provider, "Local");
    assert_eq!(payload.user_id, "anon");
    let nameless = capture_event("anon", None, true, TelemetryEvent::FirstOpen).unwrap();
    assert_eq!(nameless.machine_name, "");
    assert_eq!(TELEMETRY_ENDPOINT, "https://apiv2.stakpak.dev/v1/telemetry");
}

#[test]
fn telemetry_events_as_text() {
    assert_eq!(TelemetryEvent::FirstOpen.to_string(), "FirstOpen");
    assert_eq!(TelemetryEvent::UserPrompted.to_string(), "UserPrompted");
    assert_eq!(
        TelemetryEvent::CommandCalled("/new".to_string()).clone().to_string(),
        "/new_command_called"
    );
}

fn settings_with(id: Option<&str>, collect: Option<bool>) -> TelemetrySettings {
    TelemetrySettings {
        anonymous_id: id.map(|id| id.to_string()),
        machine_name: Some("box".to_string()),
        collect_telemetry: collect,
    }
}

#[test]
fn telemetry_switched_off_sends_nothing() {
    assert!(capture_event("anon", None, false, TelemetryEvent::FirstOpen).is_none());
    assert!(settings_with(Some("anon"), Some(false)).capture(TelemetryEvent::UserPrompted).is_none());
}

#[test]
fn telemetry_is_opt_out() {
    assert!(settings_with(Some("anon"), None).capture(TelemetryEvent::UserPrompted).is_some());
    assert!(settings_with(Some("anon"), Some(true)).capture(TelemetryEvent::UserPrompted).is_some());
    assert!(settings_with(None, Some(true)).capture(TelemetryEvent::UserPrompted).is_none());
}

fn used(prompt: u32, completion: u32, details: Option<PromptTokensDetails>) -> LLMTokenUsage {
    LLMTokenUsage {
        prompt_tokens: prompt,
        completion_tokens: completion,
        total_tokens: prompt + completion,
        prompt_tokens_details: details,
    }
}

fn detailed(input: Option<u32>, cache_read: Option<u32>) -> PromptTokensDetails {
    PromptTokensDetails {
        input_tokens: input,
        output_tokens: None,
        cache_read_input_tokens: cache_read,
        cache_write_input_tokens: None,
    }
}

#[test]
fn usage_is_summed() {
    let mut total = LLMTokenUsage::none();
    total.accumulate(&used(10, 2, None));
    assert_eq!(total, used(10, 2, None));
    total.accumulate(&used(1, 1, Some(detailed(Some(5), None))));
    assert_eq!(total, used(11, 3, Some(detailed(Some(5), None))));
    total.accumulate(&used(1, 1, Some(detailed(Some(7), Some(4)))));
    assert_eq!(total, used(12, 4, Some(detailed(Some(12), Some(4)))));
    total.accumulate(&used(1, 0, None));
    assert_eq!(total, used(13, 4, Some(detailed(Some(12), Some(4)))));
}

#[test]
fn usage_sums_do_not_depend_on_order_or_grouping() {
    let a = used(1, 2, Some(detailed(Some(1), None)));
    let b = used(3, 4, None);
    let c = used(5, 6, Some(detailed(Some(2), Some(9))));
    let mut left = a;
    left.accumulate(&b);
    left.accumulate(&c);
    let mut tail = b;
    tail.accumulate(&c);
    let mut right = a;
    right.accumulate(&tail);
    assert_eq!(left, right);
    let mut swapped = c;
    swapped.accumulate(&b);
    assert_eq!(swapped, tail);
}

#[test]
fn usage_that_does_not_fit_is_noticed() {
    let full = used(u32::MAX, 0, None);
    assert!(full.can_take(&used(0, 0, None)));
    assert!(!full.can_take(&used(1, 0, None)));
    let read = used(0, 0, Some(detailed(None, Some(u32::MAX))));
    assert!(!read.can_take(&used(0, 0, Some(detailed(None, Some(1))))));
    assert!(read.can_take(&used(0, 0, Some(detailed(Some(1), None)))));
}

#[test]
fn init_prompt_carries_discoveries() {
    assert_eq!(init_prompt("base", ""), "base");
    assert_eq!(
        init_prompt("base", "  found\n"),
        "base\n\n<discovery_results>\nfound</discovery_results>"
    );
}

#[test]
fn banner_offers_init_without_app_description() {
    let banner = init_banner(None).unwrap();
    assert_eq!(banner.style, BannerStyle::Info);
    assert_eq!(banner.action, "/init");
    assert_eq!(
        banner.text,
        "Run /init to auto-discover your apps, infra, and dependencies. Stakpak works better with context."
    );
    assert!(init_banner(Some(false)).is_some());
    assert!(init_banner(Some(true)).is_none());
}

#[test]
fn session_goes_before_checkpoint() {
    let name = |text: &str| Some(text.to_string());
    assert_eq!(start_from(name("s"), name("c")), StartFrom::Session("s".to_string()));
    assert_eq!(start_from(None, name("c")), StartFrom::Checkpoint("c".to_string()));
    assert_eq!(start_from(None, None), StartFrom::Scratch);
}

fn plain_colors() -> TerminalColors {
    TerminalColors {
        magenta: "<m>".to_string(),
        orange: "<o>".to_string(),
        reset: "<r>".to_string(),
    }
}

#[test]
fn last_lines_of_a_session() {
    let feedback =
        "<m>Feedback or bug report?<r> <o>Join our Discord:<r> <o>https://discord.gg/c4HUkDD45d<r>";
    assert_eq!(
        closing_lines(Some("stakpak -s 1"), Some(1), "ada", &plain_colors()),
        texts(&[
            "To resume, run:\nstakpak -s 1\n",
            "To view full session in browser:\nhttps://stakpak.dev/ada/agent-sessions/00000000-0000-0000-0000-000000000001",
            "",
            feedback,
            "",
        ])
    );
    assert_eq!(closing_lines(None, None, "ada", &plain_colors()), texts(&["", feedback, ""]));
}

#[test]
fn usage_is_printed_if_there_was_any() {
    assert!(!shows_usage(&LLMTokenUsage::none()));
    assert!(shows_usage(&used(1, 0, None)));
    assert_eq!(model_display("anthropic", "m"), "anthropic/m");
}
