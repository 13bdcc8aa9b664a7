//! Reusing a websocket session: when a request can be sent as a delta of
//! the previous one, and what the delta is.
//!
//! Conversation items are identified by integers: equal items carry equal
//! identifiers.

use vstd::prelude::*;

use crate::request_options::OllamaRequestOptions;
use crate::text::{chars_eq, chars_of};

verus! {

/// `p` is a prefix of `s`.
pub open spec fn is_item_prefix(p: Seq<u64>, s: Seq<u64>) -> bool {
    p.len() <= s.len() && s.take(p.len() as int) == p
}

/// Where the new items of `current` start, when `current` extends the
/// previous request's input followed by the items the previous response
/// added, the other request properties are unchanged, and (unless empty
/// deltas are allowed) something is new.
pub open spec fn spec_incremental_start(
    previous_input: Option<Seq<u64>>,
    properties_match: bool,
    current_input: Seq<u64>,
    response_items: Seq<u64>,
    allow_empty_delta: bool,
) -> Option<int> {
    match previous_input {
        None => None,
        Some(previous) => {
            let baseline = previous + response_items;
            if properties_match && is_item_prefix(baseline, current_input) && (allow_empty_delta
                || current_input.len() > baseline.len()) {
                Some(baseline.len() as int)
            } else {
                None
            }
        },
    }
}

fn prefix_at(s: &Vec<u64>, start: usize, p: &Vec<u64>) -> (r: bool)
    requires
        start <= s@.len(),
    ensures
        r == (start + p@.len() <= s@.len() && s@.subrange(start as int, start + p@.len()) == p@),
{
    if p.len() > s.len() - start {
        return false;
    }
    let mut i: usize = 0;
    while i < p.len()
        invariant
            start + p@.len() <= s@.len(),
            s@.len() == s.len(),
            i <= p@.len(),
            forall|k: int| 0 <= k < i ==> s@[start + k] == p@[k],
        decreases p@.len() - i,
    {
        if s[start + i] != p[i] {
            assert(s@.subrange(start as int, start + p@.len())[i as int] != p@[i as int]);
            return false;
        }
        i = i + 1;
    }
    assert(s@.subrange(start as int, start + p@.len()) =~= p@);
    true
}

/// The index in `current_input` where the items to send incrementally
/// start, or `None` when the request must be sent whole.
pub fn incremental_start(
    previous_input: Option<&Vec<u64>>,
    properties_match: bool,
    current_input: &Vec<u64>,
    response_items: &Vec<u64>,
    allow_empty_delta: bool,
) -> (r: Option<usize>)
    ensures
        match spec_incremental_start(
            match previous_input {
                Some(p) => Some(p@),
                None => None,
            },
            properties_match,
            current_input@,
            response_items@,
            allow_empty_delta,
        ) {
            Some(k) => r == Some(k as usize),
            None => r is None,
        },
{
    let previous = match previous_input {
        Some(p) => p,
        None => {
            return None;
        },
    };
    let ghost baseline = previous@ + response_items@;
    if !properties_match {
        return None;
    }
    if !prefix_at(current_input, 0, previous) {
        assert(!is_item_prefix(baseline, current_input@)) by {
            if is_item_prefix(baseline, current_input@) {
                assert(current_input@.subrange(0, previous@.len() as int) =~= baseline.take(
                    previous@.len() as int,
                ));
                assert(baseline.take(previous@.len() as int) =~= previous@);
            }
        }
        return None;
    }
    let start = previous.len();
    if !prefix_at(current_input, start, response_items) {
        assert(!is_item_prefix(baseline, current_input@)) by {
            if is_item_prefix(baseline, current_input@) {
                assert(current_input@.subrange(start as int, start + response_items@.len())
                    =~= baseline.subrange(start as int, baseline.len() as int));
                assert(baseline.subrange(start as int, baseline.len() as int) =~= response_items@);
            }
        }
        return None;
    }
    assert(current_input@.len() == current_input.len());
    let end = start + response_items.len();
    assert(is_item_prefix(baseline, current_input@)) by {
        assert(current_input@.take(end as int) =~= baseline) by {
            assert forall|k: int| 0 <= k < end implies current_input@.take(end as int)[k]
                == baseline[k] by {
                if k < start {
                    assert(current_input@.subrange(0, start as int)[k] == previous@[k]);
                } else {
                    assert(current_input@.subrange(start as int, end as int)[k - start]
                        == response_items@[k - start]);
                }
            }
        }
    }
    if !allow_empty_delta && current_input.len() <= end {
        return None;
    }
    Some(end)
}

/// How a request goes over a reused websocket.
pub enum WebsocketRequestPlan {
    /// Send the whole request.
    Full,
    /// Send the items from `delta_start` on, continuing `previous_response_id`.
    Incremental { previous_response_id: String, delta_start: usize },
}

/// Decides how to send a request over a reused websocket, given the id of
/// the previous response (`None` when none was received) and where the new
/// items start (`None` when the request is not an extension): incremental
/// only with both and a non-empty response id.
pub fn websocket_request_plan(last_response_id: Option<&str>, delta_start: Option<usize>) -> (r:
    WebsocketRequestPlan)
    ensures
        match (last_response_id, delta_start) {
            (Some(id), Some(k)) => if id@.len() > 0 {
                r matches WebsocketRequestPlan::Incremental { previous_response_id, delta_start }
                    && previous_response_id@ == id@ && delta_start == k
            } else {
                r is Full
            },
            _ => r is Full,
        },
{
    match (last_response_id, delta_start) {
        (Some(id), Some(k)) => {
            if id.is_empty() {
                WebsocketRequestPlan::Full
            } else {
                WebsocketRequestPlan::Incremental {
                    previous_response_id: String::from_str(id),
                    delta_start: k,
                }
            }
        },
        _ => WebsocketRequestPlan::Full,
    }
}

/// Whether requests go over the Responses websocket: the provider supports
/// websockets and the session has not fallen back to HTTP.
pub fn responses_websocket_enabled(supports_websockets: bool, websockets_disabled: bool) -> (r:
    bool)
    ensures
        r == (supports_websockets && !websockets_disabled),
{
    if !supports_websockets || websockets_disabled {
        return false;
    }
    true
}

/// What the previous response reported once it arrived: its id and the
/// items it added.
pub struct LastResponse {
    pub response_id: String,
    pub items_added: Vec<u64>,
}

/// The properties of a Responses request that decide whether the next
/// request may continue it: all but its input and client metadata. The
/// tools, reasoning settings and text controls are held as their JSON text.
pub struct RequestProperties {
    pub model: String,
    pub instructions: String,
    pub tools_json: Option<String>,
    pub tool_choice: String,
    pub parallel_tool_calls: bool,
    pub reasoning_json: Option<String>,
    pub store: bool,
    pub stream: bool,
    pub extra_outputs: Vec<String>,
    pub service_tier: Option<String>,
    pub prompt_cache_key: Option<String>,
    pub text_json: Option<String>,
    pub options: Option<OllamaRequestOptions>,
}

/// The abstract value of [`RequestProperties`].
pub ghost struct RequestPropertiesView {
    pub model: Seq<char>,
    pub instructions: Seq<char>,
    pub tools_json: Option<Seq<char>>,
    pub tool_choice: Seq<char>,
    pub parallel_tool_calls: bool,
    pub reasoning_json: Option<Seq<char>>,
    pub store: bool,
    pub stream: bool,
    pub extra_outputs: Seq<Seq<char>>,
    pub service_tier: Option<Seq<char>>,
    pub prompt_cache_key: Option<Seq<char>>,
    pub text_json: Option<Seq<char>>,
    pub options: Option<OllamaRequestOptions>,
}

/// The text of an optional string.
pub open spec fn opt_text(s: Option<String>) -> Option<Seq<char>> {
    match s {
        Some(t) => Some(t@),
        None => None,
    }
}

impl View for RequestProperties {
    type V = RequestPropertiesView;

    open spec fn view(&self) -> RequestPropertiesView {
        RequestPropertiesView {
            model: self.model@,
            instructions: self.instructions@,
            tools_json: opt_text(self.tools_json),
            tool_choice: self.tool_choice@,
            parallel_tool_calls: self.parallel_tool_calls,
            reasoning_json: opt_text(self.reasoning_json),
            store: self.store,
            stream: self.stream,
            extra_outputs: self.extra_outputs@.map_values(|t: String| t@),
            service_tier: opt_text(self.service_tier),
            prompt_cache_key: opt_text(self.prompt_cache_key),
            text_json: opt_text(self.text_json),
            options: self.options,
        }
    }
}

fn same_text(a: &str, b: &str) -> (r: bool)
    ensures
        r == (a@ == b@),
{
    chars_eq(&chars_of(a), &chars_of(b))
}

fn same_opt_text(a: &Option<String>, b: &Option<String>) -> (r: bool)
    ensures
        r == (opt_text(*a) == opt_text(*b)),
{
    match (a, b) {
        (Some(x), Some(y)) => same_text(x.as_str(), y.as_str()),
        (None, None) => true,
        _ => false,
    }
}

fn same_texts(a: &Vec<String>, b: &Vec<String>) -> (r: bool)
    ensures
        r == (a@.map_values(|t: String| t@) == b@.map_values(|t: String| t@)),
{
    let ghost va = a@.map_values(|t: String| t@);
    let ghost vb = b@.map_values(|t: String| t@);
    if a.len() != b.len() {
        assert(va.len() != vb.len());
        return false;
    }
    let mut i: usize = 0;
    while i < a.len()
        invariant
            a@.len() == b@.len(),
            va == a@.map_values(|t: String| t@),
            vb == b@.map_values(|t: String| t@),
            i <= a@.len(),
            forall|k: int| 0 <= k < i ==> va[k] == vb[k],
        decreases a@.len() - i,
    {
        if !same_text(a[i].as_str(), b[i].as_str()) {
            assert(va[i as int] != vb[i as int]);
            return false;
        }
        i = i + 1;
    }
    assert(va =~= vb);
    true
}

fn same_options(a: &Option<OllamaRequestOptions>, b: &Option<OllamaRequestOptions>) -> (r: bool)
    ensures
        r == (*a == *b),
{
    match (a, b) {
        (Some(x), Some(y)) => match (x.num_ctx, y.num_ctx) {
            (Some(m), Some(n)) => m == n,
            (None, None) => true,
            _ => false,
        },
        (None, None) => true,
        _ => false,
    }
}

/// Whether two requests agree in every property but their input and client
/// metadata, so that the second may continue the first.
pub fn responses_request_properties_match(
    previous: &RequestProperties,
    current: &RequestProperties,
) -> (r: bool)
    ensures
        r == (previous@ == current@),
{
    same_text(previous.model.as_str(), current.model.as_str()) && same_text(
        previous.instructions.as_str(),
        current.instructions.as_str(),
    ) && same_opt_text(&previous.tools_json, &current.tools_json) && same_text(
        previous.tool_choice.as_str(),
        current.tool_choice.as_str(),
    ) && previous.parallel_tool_calls == current.parallel_tool_calls && same_opt_text(
        &previous.reasoning_json,
        &current.reasoning_json,
    ) && previous.store == current.store && previous.stream == current.stream && same_texts(
        &previous.extra_outputs,
        &current.extra_outputs,
    ) && same_opt_text(&previous.service_tier, &current.service_tier) && same_opt_text(
        &previous.prompt_cache_key,
        &current.prompt_cache_key,
    ) && same_opt_text(&previous.text_json, &current.text_json) && same_options(
        &previous.options,
        &current.options,
    )
}

/// A request sent on the session: its properties and its input.
pub struct SentRequest {
    pub properties: RequestProperties,
    pub input: Vec<u64>,
}

/// What a websocket session remembers between the requests of a turn.
pub struct WebsocketSession {
    /// The last request sent on the connection.
    pub last_request: Option<SentRequest>,
    /// The last request sent was a warmup (`generate=false`), whose response
    /// is not traced.
    pub last_response_from_untraced_warmup: bool,
}

/// The input a session remembers.
pub open spec fn remembered_input(session: WebsocketSession) -> Option<Seq<u64>> {
    match session.last_request {
        Some(r) => Some(r.input@),
        None => None,
    }
}

/// The session remembers a request with the properties `properties`.
pub open spec fn remembers_properties(
    session: WebsocketSession,
    properties: RequestPropertiesView,
) -> bool {
    match session.last_request {
        Some(r) => r.properties@ == properties,
        None => false,
    }
}

/// How the next request goes, given what the session remembers, the
/// response received to the last request (if any), whether the request's
/// other properties are unchanged, and the request's input: incremental
/// from the new items on, continuing the response, when it extends the
/// last input and the response's items and the response has an id; the
/// flag tells whether the continued response was a warmup's.
pub open spec fn spec_prepare_request(
    input: Option<Seq<u64>>,
    from_warmup: bool,
    received: Option<(Seq<char>, Seq<u64>)>,
    properties_match: bool,
    current_input: Seq<u64>,
) -> Option<(Seq<char>, int, bool)> {
    match received {
        None => None,
        Some((id, items)) => match spec_incremental_start(
            input,
            properties_match,
            current_input,
            items,
            true,
        ) {
            Some(k) => if id.len() > 0 {
                Some((id, k, from_warmup))
            } else {
                None
            },
            None => None,
        },
    }
}

/// How a request is sent over the websocket.
pub struct WebsocketSendPlan {
    /// The payload asks the model not to generate (`generate = false`).
    pub no_generation: bool,
    /// The request is recorded as an inference attempt.
    pub traced: bool,
    /// The trace records the whole request rather than the delta sent.
    pub trace_whole_request: bool,
}

/// How a request is sent: a warmup asks for no generation and is not
/// traced as an inference attempt; a request that continues a warmup's
/// response is traced as the whole request, since the warmup's part of
/// it was never traced.
pub fn websocket_send_plan(warmup: bool, continues_warmup: bool) -> (r: WebsocketSendPlan)
    ensures
        r.no_generation == warmup,
        r.traced == !warmup,
        r.trace_whole_request == continues_warmup,
{
    WebsocketSendPlan { no_generation: warmup, traced: !warmup, trace_whole_request: continues_warmup }
}

impl WebsocketSession {
    /// A session that remembers nothing.
    pub fn new() -> (r: Self)
        ensures
            r.last_request is None,
            !r.last_response_from_untraced_warmup,
    {
        WebsocketSession { last_request: None, last_response_from_untraced_warmup: false }
    }

    /// Forgets the last request: when the session is reset or a new
    /// connection is opened.
    pub fn reset(&mut self)
        ensures
            final(self).last_request is None,
            !final(self).last_response_from_untraced_warmup,
    {
        self.last_request = None;
        self.last_response_from_untraced_warmup = false;
    }

    /// Whether a warmup request is sent before the first turn: only with
    /// the websocket enabled and before any request was sent.
    pub fn needs_prewarm(&self, websocket_enabled: bool) -> (r: bool)
        ensures
            r == (websocket_enabled && self.last_request is None),
    {
        websocket_enabled && self.last_request.is_none()
    }

    /// Remembers a request that is being sent, and whether it is a warmup.
    pub fn record_sent(&mut self, properties: RequestProperties, input: Vec<u64>, warmup: bool)
        ensures
            remembered_input(*final(self)) == Some(input@),
            remembers_properties(*final(self), properties@),
            final(self).last_response_from_untraced_warmup == warmup,
    {
        self.last_request = Some(SentRequest { properties, input });
        self.last_response_from_untraced_warmup = warmup;
    }

    /// How the next request goes (see [`spec_prepare_request`]; its
    /// properties match when they equal the remembered request's), and
    /// whether it continues a warmup's response (`false` when it is sent
    /// whole).
    pub fn prepare_request(
        &self,
        received: Option<&LastResponse>,
        properties: &RequestProperties,
        current_input: &Vec<u64>,
    ) -> (r: (WebsocketRequestPlan, bool))
        ensures
            match spec_prepare_request(
                remembered_input(*self),
                self.last_response_from_untraced_warmup,
                match received {
                    Some(lr) => Some((lr.response_id@, lr.items_added@)),
                    None => None,
                },
                remembers_properties(*self, properties@),
                current_input@,
            ) {
                Some((id, k, flag)) => r.0 matches WebsocketRequestPlan::Incremental {
                    previous_response_id,
                    delta_start,
                } && previous_response_id@ == id && delta_start == k && r.1 == flag,
                None => r.0 is Full && !r.1,
            },
    {
        let last = match received {
            Some(lr) => lr,
            None => {
                return (WebsocketRequestPlan::Full, false);
            },
        };
        let (previous_input, properties_match) = match &self.last_request {
            Some(sent) => (
                Some(&sent.input),
                responses_request_properties_match(&sent.properties, properties),
            ),
            None => (None, false),
        };
        let start = incremental_start(
            previous_input,
            properties_match,
            current_input,
            &last.items_added,
            true,
        );
        proof {
            let spec_start = spec_incremental_start(
                remembered_input(*self),
                properties_match,
                current_input@,
                last.items_added@,
                true,
            );
            if let Some(k) = spec_start {
                assert(0 <= k <= current_input@.len());
                assert(current_input@.len() == current_input.len());
                assert(k as usize == k);
                assert(start == Some(k as usize));
            } else {
                assert(start is None);
            }
        }
        let plan = websocket_request_plan(Some(last.response_id.as_str()), start);
        match plan {
            WebsocketRequestPlan::Incremental { .. } => (plan, self.last_response_from_untraced_warmup),
            WebsocketRequestPlan::Full => (plan, false),
        }
    }
}

} // verus!
