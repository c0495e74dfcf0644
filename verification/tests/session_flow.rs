use ebina::choice::{ChoiceSet, PresentationConfig};
use ebina::gateway::GatewayModel;
use ebina::protocol::{run_disambiguation, InboundMessage};
use ebina::session::{DisambiguationSession, SessionOutcome};

fn choices_of(labels: &[&str]) -> ChoiceSet {
    let labels: Vec<String> = labels.iter().map(|s| s.to_string()).collect();
    ChoiceSet::new(labels).unwrap()
}

fn config(edit_after_choice: bool) -> PresentationConfig {
    PresentationConfig::new("Pick one!".to_string(), None, None, edit_after_choice).unwrap()
}

fn reply(author_id: u64, channel_id: u64, message_id: u64, body: &str, at_secs: u64) -> InboundMessage {
    InboundMessage {
        author_id,
        channel_id,
        message_id,
        body: body.to_string(),
        at_secs,
    }
}

const REQUESTER: u64 = 7;
const CHANNEL: u64 = 11;
const START: u64 = 1000;

#[test]
fn single_option_resolves_immediately() {
    let mut gateway = GatewayModel::new();
    let inbound: Vec<InboundMessage> = Vec::new();
    let r = run_disambiguation(
        choices_of(&["Steins;Gate"]),
        config(true),
        REQUESTER,
        CHANNEL,
        START,
        &mut gateway,
        &inbound,
    );
    assert_eq!(r, Ok(Some((0, 0, CHANNEL))));
}

#[test]
fn single_option_never_awaits() {
    // Drive the state machine by hand: after presentation the session is
    // already resolved, so the reply-wait primitive is never invoked.
    let mut session =
        DisambiguationSession::new(choices_of(&["Steins;Gate"]), config(true), REQUESTER, CHANNEL);
    let directive = session.on_presented(42, START);
    match directive.outcome {
        Some(SessionOutcome::Chosen { index, message }) => {
            assert_eq!(index, 0);
            assert_eq!(message.message_id, 42);
            assert_eq!(message.channel_id, CHANNEL);
        }
        other => panic!("expected an immediate choice, got {:?}", other),
    }
}

#[test]
fn numeric_reply_selects_that_option() {
    let mut gateway = GatewayModel::new();
    let inbound = vec![reply(REQUESTER, CHANNEL, 900, "2", START + 5)];
    let r = run_disambiguation(
        choices_of(&["A", "B", "C"]),
        config(true),
        REQUESTER,
        CHANNEL,
        START,
        &mut gateway,
        &inbound,
    );
    assert_eq!(r, Ok(Some((1, 0, CHANNEL))));
}

#[test]
fn presented_and_edited_scenario() {
    // options = ["Naruto", "One Piece"], editAfterChoice = true; the user
    // replies "2"; the session returns index 1 and the handle of the
    // presented message, which the caller then edits with the detail.
    let choices = choices_of(&["Naruto", "One Piece"]);
    let cfg = config(true);
    let body = ebina::presenter::render_choice_body(&choices);
    assert_eq!(body, "1. Naruto\n2. One Piece\nCancel");
    let mut gateway = GatewayModel::new();
    let inbound = vec![reply(REQUESTER, CHANNEL, 900, "2", START + 3)];
    let r = run_disambiguation(choices, cfg, REQUESTER, CHANNEL, START, &mut gateway, &inbound);
    let (index, message_id, channel_id) = r.unwrap().unwrap();
    assert_eq!(index, 1);
    assert_eq!(channel_id, CHANNEL);
    // The presented message is still there, showing the options.
    assert_eq!(gateway.message_content(message_id), Some(body));
    // The caller renders the final detail into it in place.
    let edited = ebina::protocol::render_final_result(
        r.unwrap(),
        "One Piece: a pirate story".to_string(),
        &mut gateway,
    );
    assert!(edited);
    assert_eq!(
        gateway.message_content(message_id),
        Some("One Piece: a pirate story".to_string())
    );
}

#[test]
fn render_does_nothing_without_a_selection() {
    let mut gateway = GatewayModel::new();
    let edited =
        ebina::protocol::render_final_result(None, "unused detail".to_string(), &mut gateway);
    assert!(!edited);
    assert_eq!(gateway.message_count(), 0);
}

#[test]
fn selection_without_edit_deletes_presented_message() {
    let mut gateway = GatewayModel::new();
    let inbound = vec![reply(REQUESTER, CHANNEL, 900, "1", START + 3)];
    let r = run_disambiguation(
        choices_of(&["A", "B"]),
        config(false),
        REQUESTER,
        CHANNEL,
        START,
        &mut gateway,
        &inbound,
    );
    assert_eq!(r, Ok(Some((0, 0, CHANNEL))));
    assert!(!gateway.contains_message(0));
    assert_eq!(gateway.message_count(), 0);
}

#[test]
fn cancel_deletes_message_and_returns_none() {
    let mut gateway = GatewayModel::new();
    let inbound = vec![reply(REQUESTER, CHANNEL, 900, "cancel", START + 10)];
    let r = run_disambiguation(
        choices_of(&["A", "B"]),
        config(true),
        REQUESTER,
        CHANNEL,
        START,
        &mut gateway,
        &inbound,
    );
    assert_eq!(r, Ok(None));
    assert!(!gateway.contains_message(0));
}

#[test]
fn cancel_is_case_insensitive_and_trimmed() {
    for body in ["CANCEL", "CaNcEl", "  cancel  ", "Cancel"] {
        let mut gateway = GatewayModel::new();
        let inbound = vec![reply(REQUESTER, CHANNEL, 900, body, START + 10)];
        let r = run_disambiguation(
            choices_of(&["A", "B"]),
            config(true),
            REQUESTER,
            CHANNEL,
            START,
            &mut gateway,
            &inbound,
        );
        assert_eq!(r, Ok(None), "body {:?} should cancel", body);
        assert!(!gateway.contains_message(0));
    }
}

#[test]
fn silence_times_out_and_deletes_message() {
    let mut gateway = GatewayModel::new();
    let inbound: Vec<InboundMessage> = Vec::new();
    let r = run_disambiguation(
        choices_of(&["A", "B"]),
        config(true),
        REQUESTER,
        CHANNEL,
        START,
        &mut gateway,
        &inbound,
    );
    assert_eq!(r, Ok(None));
    assert!(!gateway.contains_message(0));
}

#[test]
fn late_reply_times_out() {
    // The deadline is start + 60; a qualifying reply arriving after it
    // only confirms the timeout.
    let mut gateway = GatewayModel::new();
    let inbound = vec![reply(REQUESTER, CHANNEL, 900, "1", START + 61)];
    let r = run_disambiguation(
        choices_of(&["A", "B"]),
        config(true),
        REQUESTER,
        CHANNEL,
        START,
        &mut gateway,
        &inbound,
    );
    assert_eq!(r, Ok(None));
    assert!(!gateway.contains_message(0));
}

#[test]
fn reply_at_the_deadline_still_counts() {
    let mut gateway = GatewayModel::new();
    let inbound = vec![reply(REQUESTER, CHANNEL, 900, "2", START + 60)];
    let r = run_disambiguation(
        choices_of(&["A", "B"]),
        config(true),
        REQUESTER,
        CHANNEL,
        START,
        &mut gateway,
        &inbound,
    );
    assert_eq!(r, Ok(Some((1, 0, CHANNEL))));
}

#[test]
fn out_of_range_number_is_not_a_choice() {
    // "99" with only two options decides nothing; with no valid reply
    // before the deadline the outcome equals a timeout.
    let mut gateway = GatewayModel::new();
    let inbound = vec![reply(REQUESTER, CHANNEL, 900, "99", START + 5)];
    let r = run_disambiguation(
        choices_of(&["A", "B"]),
        config(true),
        REQUESTER,
        CHANNEL,
        START,
        &mut gateway,
        &inbound,
    );
    assert_eq!(r, Ok(None));
    assert!(!gateway.contains_message(0));
}

#[test]
fn out_of_range_then_valid_reply_still_selects() {
    // An out-of-range number neither resolves nor consumes the wait; a
    // later valid reply still selects.
    let mut gateway = GatewayModel::new();
    let inbound = vec![
        reply(REQUESTER, CHANNEL, 900, "99", START + 5),
        reply(REQUESTER, CHANNEL, 901, "0", START + 6),
        reply(REQUESTER, CHANNEL, 902, "2", START + 7),
    ];
    let r = run_disambiguation(
        choices_of(&["A", "B"]),
        config(true),
        REQUESTER,
        CHANNEL,
        START,
        &mut gateway,
        &inbound,
    );
    assert_eq!(r, Ok(Some((1, 0, CHANNEL))));
}

#[test]
fn other_users_and_channels_are_ignored() {
    let mut gateway = GatewayModel::new();
    let inbound = vec![
        reply(REQUESTER + 1, CHANNEL, 900, "1", START + 1),
        reply(REQUESTER, CHANNEL + 1, 901, "1", START + 2),
        reply(REQUESTER, CHANNEL, 902, "2", START + 3),
    ];
    let r = run_disambiguation(
        choices_of(&["A", "B"]),
        config(true),
        REQUESTER,
        CHANNEL,
        START,
        &mut gateway,
        &inbound,
    );
    assert_eq!(r, Ok(Some((1, 0, CHANNEL))));
}

#[test]
fn concurrent_sessions_resolve_independently() {
    // Two sessions with different (requester, channel) keys observe the
    // same shared feed; each resolves only on its own replies.
    let shared = vec![
        reply(21, 31, 900, "2", START + 1),
        reply(22, 32, 901, "cancel", START + 2),
    ];
    let mut gateway_a = GatewayModel::new();
    let r_a = run_disambiguation(
        choices_of(&["A", "B"]),
        config(true),
        21,
        31,
        START,
        &mut gateway_a,
        &shared,
    );
    assert_eq!(r_a, Ok(Some((1, 0, 31))));
    let mut gateway_b = GatewayModel::new();
    let r_b = run_disambiguation(
        choices_of(&["A", "B"]),
        config(true),
        22,
        32,
        START,
        &mut gateway_b,
        &shared,
    );
    assert_eq!(r_b, Ok(None));
}

#[test]
fn send_failure_surfaces_delivery_error() {
    let mut gateway = GatewayModel::new_failing();
    let inbound: Vec<InboundMessage> = Vec::new();
    let r = run_disambiguation(
        choices_of(&["A", "B"]),
        config(true),
        REQUESTER,
        CHANNEL,
        START,
        &mut gateway,
        &inbound,
    );
    assert!(r.is_err());
    assert_eq!(gateway.message_count(), 0);
}
