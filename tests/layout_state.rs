use yabai_menu::error::LayoutError;
use yabai_menu::layout::LayoutMode;
use yabai_menu::poll::{next_poll, retry_delay, PollStep, RetryPolicy};
use yabai_menu::response::{layout_of_response, parse_space_response, space_from_fields};
use yabai_menu::state::{LayoutState, YabaiState};
use yabai_menu::sync::{apply_outcome, finish_toggle, query_outcome, refresh, toggle_target};

const BSP_REPLY: &str = r#"{"id":3,"uuid":"A1B2-C3","index":2,"type":"bsp","label":"code","display":1}"#;

fn reply_with_type(t: &str) -> String {
    format!(
        r#"{{"id":3,"uuid":"A1B2-C3","index":2,"type":"{}","label":"code","display":1}}"#,
        t
    )
}

#[test]
fn default_mode_is_float() {
    assert_eq!(LayoutMode::default(), LayoutMode::Float);
    assert_eq!(LayoutState::default().current(), LayoutMode::Float);
}

#[test]
fn mode_names_are_lowercase() {
    assert_eq!(LayoutMode::Float.to_string(), "float");
    assert_eq!(LayoutMode::Bsp.to_string(), "bsp");
}

#[test]
fn mode_names_read_in_any_case() {
    assert_eq!(LayoutMode::from_name("bsp"), Some(LayoutMode::Bsp));
    assert_eq!(LayoutMode::from_name("BSP"), Some(LayoutMode::Bsp));
    assert_eq!(LayoutMode::from_name("Float"), Some(LayoutMode::Float));
    assert_eq!(LayoutMode::from_name("stack"), None);
    assert_eq!(LayoutMode::from_name(""), None);
    assert_eq!(LayoutMode::from_name("bsp "), None);
}

#[test]
fn indicator_texts() {
    assert_eq!(LayoutMode::Float.icon_name(), "macwindow.on.rectangle");
    assert_eq!(LayoutMode::Bsp.icon_name(), "uiwindow.split.2x1");
    assert_eq!(LayoutMode::Float.tooltip(), "Float");
    assert_eq!(LayoutMode::Bsp.tooltip(), "BSP");
}

#[test]
fn repeated_set_notifies_once() {
    let mut s = LayoutState::new(LayoutMode::Float);
    assert!(s.set(LayoutMode::Bsp));
    assert!(!s.set(LayoutMode::Bsp));
    assert_eq!(s.current(), LayoutMode::Bsp);
}

#[test]
fn set_to_current_value_is_silent() {
    for m in [LayoutMode::Float, LayoutMode::Bsp] {
        let mut s = LayoutState::new(m);
        assert!(!s.set(m));
        assert_eq!(s.current(), m);
        let shared = YabaiState::new(m);
        assert!(!shared.set(m));
        assert_eq!(shared.current(), m);
    }
}

#[test]
fn toggle_requests_the_other_mode() {
    assert_eq!(toggle_target(&LayoutState::new(LayoutMode::Float)), LayoutMode::Bsp);
    assert_eq!(toggle_target(&LayoutState::new(LayoutMode::Bsp)), LayoutMode::Float);
    assert_eq!(LayoutMode::Float.toggled(), LayoutMode::Bsp);
    assert_eq!(YabaiState::new(LayoutMode::Bsp).toggle_target(), LayoutMode::Float);
}

#[test]
fn failed_toggle_keeps_state() {
    let mut s = LayoutState::new(LayoutMode::Bsp);
    let target = toggle_target(&s);
    assert_eq!(target, LayoutMode::Float);
    let r = finish_toggle(&mut s, target, Err(LayoutError::Apply));
    assert_eq!(r, Err(LayoutError::Apply));
    assert_eq!(s.current(), LayoutMode::Bsp);
}

#[test]
fn failed_toggle_keeps_shared_state() {
    let s = YabaiState::new(LayoutMode::Bsp);
    let target = s.toggle_target();
    assert_eq!(s.finish_toggle(target, Err(LayoutError::Spawn)), Err(LayoutError::Spawn));
    assert_eq!(s.current(), LayoutMode::Bsp);
}

#[test]
fn successful_toggle_from_bsp() {
    let mut s = LayoutState::new(LayoutMode::Bsp);
    let target = toggle_target(&s);
    assert_eq!(finish_toggle(&mut s, target, Ok(())), Ok(true));
    assert_eq!(s.current(), LayoutMode::Float);

    let shared = YabaiState::new(LayoutMode::Bsp);
    let target = shared.toggle_target();
    assert_eq!(shared.finish_toggle(target, Ok(())), Ok(true));
    assert_eq!(shared.current(), LayoutMode::Float);
}

#[test]
fn poller_observes_external_change() {
    let s = YabaiState::new(LayoutMode::Float);
    let observed = layout_of_response(BSP_REPLY);
    assert_eq!(observed, Ok(LayoutMode::Bsp));
    assert_eq!(s.update(observed), Ok(true));
    assert_eq!(s.current(), LayoutMode::Bsp);
    assert_eq!(s.update(Ok(LayoutMode::Bsp)), Ok(false));
}

#[test]
fn two_refreshes_with_same_value_notify_once() {
    let s = YabaiState::new(LayoutMode::Float);
    let notified = [s.update(Ok(LayoutMode::Bsp)), s.update(Ok(LayoutMode::Bsp))]
        .iter()
        .filter(|r| **r == Ok(true))
        .count();
    assert_eq!(notified, 1);

    let mut local = LayoutState::new(LayoutMode::Bsp);
    assert_eq!(refresh(&mut local, Ok(LayoutMode::Bsp)), Ok(false));
    assert_eq!(refresh(&mut local, Ok(LayoutMode::Bsp)), Ok(false));
}

#[test]
fn failed_refresh_keeps_state() {
    let mut s = LayoutState::new(LayoutMode::Bsp);
    assert_eq!(refresh(&mut s, Err(LayoutError::Parse)), Err(LayoutError::Parse));
    assert_eq!(s.current(), LayoutMode::Bsp);
    let shared = YabaiState::new(LayoutMode::Float);
    assert_eq!(shared.update(Err(LayoutError::Spawn)), Err(LayoutError::Spawn));
    assert_eq!(shared.current(), LayoutMode::Float);
}

#[test]
fn parses_well_formed_reply() {
    let r = parse_space_response(BSP_REPLY).unwrap();
    assert_eq!(r.id, 3);
    assert_eq!(r.uuid, "A1B2-C3");
    assert_eq!(r.index, 2);
    assert_eq!(r.layout, LayoutMode::Bsp);
    assert_eq!(r.label, "code");
    assert_eq!(r.display, 1);
    assert_eq!(layout_of_response(&reply_with_type("float")), Ok(LayoutMode::Float));
    assert_eq!(layout_of_response(&reply_with_type("BSP")), Ok(LayoutMode::Bsp));
}

#[test]
fn unrecognized_layout_is_parse_failure() {
    assert_eq!(layout_of_response(&reply_with_type("stack")).err(), Some(LayoutError::Parse));
    assert_eq!(layout_of_response(&reply_with_type("")).err(), Some(LayoutError::Parse));
}

#[test]
fn malformed_replies_are_parse_failures() {
    assert_eq!(layout_of_response("not json").err(), Some(LayoutError::Parse));
    assert_eq!(layout_of_response(r#"{"type":"bsp"}"#).err(), Some(LayoutError::Parse));
    assert_eq!(
        layout_of_response(
            r#"{"id":4294967296,"uuid":"u","index":1,"type":"bsp","label":"","display":1}"#
        )
        .err(),
        Some(LayoutError::Parse)
    );
    assert_eq!(
        layout_of_response(r#"{"id":1,"uuid":7,"index":1,"type":"bsp","label":"","display":1}"#)
            .err(),
        Some(LayoutError::Parse)
    );
    assert_eq!(layout_of_response("[]").err(), Some(LayoutError::Parse));
}

#[test]
fn fields_build_reply() {
    let r = space_from_fields(Some(1), Some("u"), Some(2), Some("Float"), Some("l"), Some(3)).unwrap();
    assert_eq!((r.id, r.index, r.display), (1, 2, 3));
    assert_eq!(r.layout, LayoutMode::Float);
    assert_eq!(
        space_from_fields(Some(1), None, Some(2), Some("bsp"), Some("l"), Some(3)).err(),
        Some(LayoutError::Parse)
    );
    assert_eq!(
        space_from_fields(Some(1), Some("u"), Some(u64::from(u32::MAX) + 1), Some("bsp"), Some("l"), Some(3)).err(),
        Some(LayoutError::Parse)
    );
    assert!(space_from_fields(Some(u64::from(u32::MAX)), Some("u"), Some(0), Some("bsp"), Some(""), Some(0)).is_ok());
}

#[test]
fn apply_outcomes() {
    assert_eq!(apply_outcome(false, false), Err(LayoutError::Spawn));
    assert_eq!(apply_outcome(true, false), Err(LayoutError::Apply));
    assert_eq!(apply_outcome(true, true), Ok(()));
}

#[test]
fn error_descriptions_are_not_empty() {
    for e in [LayoutError::Spawn, LayoutError::Query, LayoutError::Parse, LayoutError::Apply] {
        assert!(!e.to_string().is_empty());
    }
}

fn policy() -> RetryPolicy {
    RetryPolicy { interval_ms: 1000, max_failures: 4, base_delay_ms: 250, max_delay_ms: 1500 }
}

#[test]
fn backoff_doubles_up_to_cap() {
    let p = policy();
    assert_eq!(retry_delay(&p, 0), 250);
    assert_eq!(retry_delay(&p, 1), 500);
    assert_eq!(retry_delay(&p, 2), 1000);
    assert_eq!(retry_delay(&p, 3), 1500);
    assert_eq!(retry_delay(&p, 40), 1500);
    let big = RetryPolicy { interval_ms: 1, max_failures: 1, base_delay_ms: u64::MAX / 2 + 1, max_delay_ms: u64::MAX };
    assert_eq!(retry_delay(&big, 1), u64::MAX);
}

#[test]
fn poll_decisions() {
    let p = policy();
    assert_eq!(next_poll(&p, 2, Ok(false)), (0, PollStep::Wait { delay_ms: 1000 }));
    assert_eq!(next_poll(&p, 0, Err(LayoutError::Parse)), (1, PollStep::Wait { delay_ms: 250 }));
    assert_eq!(next_poll(&p, 2, Err(LayoutError::Parse)), (3, PollStep::Wait { delay_ms: 1000 }));
    assert_eq!(next_poll(&p, 3, Err(LayoutError::Apply)), (4, PollStep::Stop));
    assert_eq!(next_poll(&p, 0, Err(LayoutError::Spawn)), (0, PollStep::Stop));
    assert_eq!(next_poll(&p, u32::MAX, Err(LayoutError::Parse)), (u32::MAX, PollStep::Stop));
}

#[test]
fn names_read_back() {
    for m in [LayoutMode::Float, LayoutMode::Bsp] {
        assert_eq!(LayoutMode::from_name(&m.to_string()), Some(m));
    }
}

#[test]
fn query_outcomes() {
    assert_eq!(query_outcome(false, false, None), Err(LayoutError::Spawn));
    assert_eq!(query_outcome(true, false, Some(BSP_REPLY)), Err(LayoutError::Query));
    assert_eq!(query_outcome(true, true, None), Err(LayoutError::Parse));
    assert_eq!(query_outcome(true, true, Some(BSP_REPLY)), Ok(LayoutMode::Bsp));
    assert_eq!(query_outcome(true, true, Some("{}")), Err(LayoutError::Parse));
}

#[test]
fn failed_query_is_retried() {
    let p = policy();
    assert_eq!(next_poll(&p, 0, Err(LayoutError::Query)), (1, PollStep::Wait { delay_ms: 250 }));
}
