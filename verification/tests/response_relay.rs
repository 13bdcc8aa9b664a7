use solai_coder::response_relay::relay_step;
use solai_coder::response_relay::RelayEvent;
use solai_coder::response_relay::RelayState;

type Event = RelayEvent<&'static str, Option<u64>, &'static str, String>;

fn completed(id: &str) -> Event {
    RelayEvent::Completed {
        response_id: id.to_string(),
        token_usage: None,
        end_turn: None,
    }
}

#[test]
fn last_response_carries_items_once() {
    let mut state: RelayState<&str> = RelayState::new();
    let ev: Event = RelayEvent::OutputItemDone("a");
    assert!(relay_step(&mut state, ev).last_response.is_none());
    let ev: Event = RelayEvent::Other("delta");
    assert!(relay_step(&mut state, ev).last_response.is_none());
    let ev: Event = RelayEvent::OutputItemDone("b");
    relay_step(&mut state, ev);
    let out = relay_step(&mut state, completed("resp-1"));
    let last = out.last_response.expect("handed over at the first completion");
    assert_eq!(last.response_id, "resp-1");
    assert_eq!(last.items_added, vec!["a", "b"]);
    assert!(state.items_added.is_empty());
    let ev: Event = RelayEvent::OutputItemDone("c");
    relay_step(&mut state, ev);
    assert!(relay_step(&mut state, completed("resp-2")).last_response.is_none());
    assert_eq!(state.items_added, vec!["c"]);
}

#[test]
fn only_the_first_failure_is_logged() {
    let mut state: RelayState<u8> = RelayState::new();
    let first: RelayEvent<u8, (), (), String> = RelayEvent::Failed("boom".to_string());
    assert!(relay_step(&mut state, first).log_error);
    let second: RelayEvent<u8, (), (), String> = RelayEvent::Failed("again".to_string());
    let out = relay_step(&mut state, second);
    assert!(!out.log_error);
    assert!(matches!(out.forward, RelayEvent::Failed(ref e) if e == "again"));
    assert!(state.logged_error);
}

#[test]
fn every_event_is_passed_on_and_the_record_has_the_first_completion_id() {
    let mut state: RelayState<&str> = RelayState::new();
    let events: Vec<Event> = vec![
        RelayEvent::OutputItemDone("a"),
        RelayEvent::Completed {
            response_id: "r1".to_string(),
            token_usage: Some(7),
            end_turn: Some(true),
        },
        RelayEvent::OutputItemDone("b"),
        RelayEvent::Failed("late".to_string()),
        RelayEvent::Other("tail"),
    ];
    let mut forwarded = Vec::new();
    let mut records = Vec::new();
    for event in events {
        let out = relay_step(&mut state, event);
        forwarded.push(out.forward);
        if let Some(last) = out.last_response {
            records.push(last);
        }
    }
    assert_eq!(forwarded.len(), 5);
    assert!(matches!(forwarded[0], RelayEvent::OutputItemDone("a")));
    match &forwarded[1] {
        RelayEvent::Completed { response_id, token_usage, end_turn } => {
            assert_eq!(response_id, "r1");
            assert_eq!(*token_usage, Some(7));
            assert_eq!(*end_turn, Some(true));
        }
        _ => panic!("expected the completion"),
    }
    assert!(matches!(forwarded[2], RelayEvent::OutputItemDone("b")));
    assert!(matches!(forwarded[3], RelayEvent::Failed(ref e) if e == "late"));
    assert!(matches!(forwarded[4], RelayEvent::Other("tail")));
    assert_eq!(records.len(), 1);
    assert_eq!(records[0].response_id, "r1");
    assert_eq!(records[0].items_added, vec!["a"]);
}

#[test]
fn nothing_is_handed_over_without_a_completion() {
    let mut state: RelayState<&str> = RelayState::new();
    let events: Vec<Event> = vec![RelayEvent::OutputItemDone("a"), RelayEvent::Other("x")];
    for event in events {
        assert!(relay_step(&mut state, event).last_response.is_none());
    }
    assert_eq!(state.items_added, vec!["a"]);
}
