use solai_coder::incremental::incremental_start;
use solai_coder::incremental::websocket_request_plan;
use solai_coder::incremental::WebsocketRequestPlan;
use solai_coder::incremental::responses_websocket_enabled;
use solai_coder::incremental::LastResponse;
use solai_coder::incremental::WebsocketSession;
use solai_coder::incremental::responses_request_properties_match;
use solai_coder::incremental::websocket_send_plan;
use solai_coder::incremental::RequestProperties;
use solai_coder::request_options::OllamaRequestOptions;

#[test]
fn delta_starts_after_previous_input_and_response_items() {
    let previous = vec![1, 2];
    let response = vec![3];
    let current = vec![1, 2, 3, 4, 5];
    assert_eq!(incremental_start(Some(&previous), true, &current, &response, false), Some(3));
    assert_eq!(&current[3..], &[4, 5]);
}

#[test]
fn no_delta_without_a_matching_baseline() {
    let previous = vec![1, 2];
    let response = vec![3];
    assert_eq!(incremental_start(None, true, &vec![1, 2, 3], &response, true), None);
    assert_eq!(incremental_start(Some(&previous), false, &vec![1, 2, 3, 4], &response, true), None);
    assert_eq!(incremental_start(Some(&previous), true, &vec![1, 9, 3, 4], &response, true), None);
    assert_eq!(incremental_start(Some(&previous), true, &vec![1, 2, 7, 4], &response, true), None);
    assert_eq!(incremental_start(Some(&previous), true, &vec![1, 2], &response, true), None);
}

#[test]
fn empty_delta_only_when_allowed() {
    let previous = vec![1];
    let response: Vec<u64> = Vec::new();
    assert_eq!(incremental_start(Some(&previous), true, &vec![1], &response, true), Some(1));
    assert_eq!(incremental_start(Some(&previous), true, &vec![1], &response, false), None);
}

#[test]
fn websocket_plan_needs_a_response_id_and_a_delta() {
    match websocket_request_plan(Some("resp_1"), Some(4)) {
        WebsocketRequestPlan::Incremental { previous_response_id, delta_start } => {
            assert_eq!(previous_response_id, "resp_1");
            assert_eq!(delta_start, 4);
        }
        WebsocketRequestPlan::Full => panic!("expected an incremental request"),
    }
    assert!(matches!(websocket_request_plan(Some(""), Some(4)), WebsocketRequestPlan::Full));
    assert!(matches!(websocket_request_plan(None, Some(4)), WebsocketRequestPlan::Full));
    assert!(matches!(websocket_request_plan(Some("r"), None), WebsocketRequestPlan::Full));
}

#[test]
fn websocket_is_enabled_only_when_supported_and_not_disabled() {
    assert!(responses_websocket_enabled(true, false));
    assert!(!responses_websocket_enabled(true, true));
    assert!(!responses_websocket_enabled(false, false));
    assert!(!responses_websocket_enabled(false, true));
}

fn response(id: &str, items: Vec<u64>) -> LastResponse {
    LastResponse {
        response_id: id.to_string(),
        items_added: items,
    }
}

fn incremental(plan: &WebsocketRequestPlan) -> Option<(String, usize)> {
    match plan {
        WebsocketRequestPlan::Incremental { previous_response_id, delta_start } => {
            Some((previous_response_id.clone(), *delta_start))
        }
        WebsocketRequestPlan::Full => None,
    }
}

fn properties(model: &str) -> RequestProperties {
    RequestProperties {
        model: model.to_string(),
        instructions: "be brief".to_string(),
        tools_json: Some("[]".to_string()),
        tool_choice: "auto".to_string(),
        parallel_tool_calls: true,
        reasoning_json: None,
        store: false,
        stream: true,
        extra_outputs: vec!["reasoning.encrypted_content".to_string()],
        service_tier: None,
        prompt_cache_key: Some("key".to_string()),
        text_json: None,
        options: None,
    }
}

#[test]
fn request_properties_match_field_by_field() {
    assert!(responses_request_properties_match(&properties("m"), &properties("m")));
    assert!(!responses_request_properties_match(&properties("m"), &properties("n")));
    let mut other = properties("m");
    other.extra_outputs.clear();
    assert!(!responses_request_properties_match(&properties("m"), &other));
    let mut other = properties("m");
    other.options = Some(OllamaRequestOptions { num_ctx: Some(8192) });
    assert!(!responses_request_properties_match(&properties("m"), &other));
    let mut other = properties("m");
    other.tools_json = None;
    assert!(!responses_request_properties_match(&properties("m"), &other));
    let mut other = properties("m");
    other.store = true;
    assert!(!responses_request_properties_match(&properties("m"), &other));
}

#[test]
fn warmups_ask_for_no_generation_and_are_not_traced() {
    let warm = websocket_send_plan(true, false);
    assert!(warm.no_generation && !warm.traced && !warm.trace_whole_request);
    let turn = websocket_send_plan(false, true);
    assert!(!turn.no_generation && turn.traced && turn.trace_whole_request);
    let plain = websocket_send_plan(false, false);
    assert!(!plain.no_generation && plain.traced && !plain.trace_whole_request);
}

#[test]
fn session_continues_a_warmup_then_a_turn() {
    let mut session = WebsocketSession::new();
    assert!(session.needs_prewarm(true));
    assert!(!session.needs_prewarm(false));
    session.record_sent(properties("m"), vec![1, 2], true);
    assert!(!session.needs_prewarm(true));

    let warm = response("resp-1", vec![]);
    let (plan, from_warmup) = session.prepare_request(Some(&warm), &properties("m"), &vec![1, 2, 3]);
    assert_eq!(incremental(&plan), Some(("resp-1".to_string(), 2)));
    assert!(from_warmup);

    session.record_sent(properties("m"), vec![1, 2, 3], false);
    let turn = response("resp-2", vec![4]);
    let (plan, from_warmup) =
        session.prepare_request(Some(&turn), &properties("m"), &vec![1, 2, 3, 4, 5]);
    assert_eq!(incremental(&plan), Some(("resp-2".to_string(), 4)));
    assert!(!from_warmup);
}

#[test]
fn session_sends_whole_requests_when_it_cannot_continue() {
    let mut session = WebsocketSession::new();
    session.record_sent(properties("m"), vec![1, 2], true);
    let (plan, flag) = session.prepare_request(None, &properties("m"), &vec![1, 2, 3]);
    assert!(incremental(&plan).is_none() && !flag);
    let unnamed = response("", vec![]);
    let (plan, flag) = session.prepare_request(Some(&unnamed), &properties("m"), &vec![1, 2, 3]);
    assert!(incremental(&plan).is_none() && !flag);
    let named = response("resp-1", vec![]);
    let (plan, flag) = session.prepare_request(Some(&named), &properties("other"), &vec![1, 2, 3]);
    assert!(incremental(&plan).is_none() && !flag);
    session.reset();
    assert!(session.last_request.is_none());
    let (plan, flag) = session.prepare_request(Some(&named), &properties("m"), &vec![1, 2, 3]);
    assert!(incremental(&plan).is_none() && !flag);
    assert!(session.needs_prewarm(true));
}
