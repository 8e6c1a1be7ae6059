//! The completion requests that a pylon makes of its own upstream, for the
//! calibration and the canary of a model.

use http::{HeaderMap, HeaderValue};
use vstd::prelude::*;

use crate::generated_request_id::{GeneratedRequestIds, GeneratedRequestKind};
use crate::generation::ModelGeneration;
use crate::headers::{insert_header, new_headers};
use crate::live_requests::Requests;
use crate::request_observation::{
    RequestObservation, RequestObservationEndpoint, RequestObservationState, RequiredTunnelHeaders,
};
use crate::request_observer::{PublishedObservation, RequestObserver, TunnelRequestObserver};
use crate::runtime_state::{Models, PylonRuntimeState};
use crate::tunnel_backend::bytes_of_decimal;
use crate::tunnel_contract::{HEADER_INPUT_TOKENS, HEADER_MODEL, HEADER_REQUEST_ID};
use crate::tunnel_forward::ObservedStep;

verus! {

/// A completion request on its way. A canary is not followed: it is no load
/// that the router should know of.
#[derive(Debug)]
pub struct CompletionAttempt {
    pub request_id: String,
    pub model_id: String,
    pub input_tokens: u64,
    pub observer: Option<TunnelRequestObserver>,
}

/// The tokens of a prompt are the bytes of its text; a request without a text
/// counts as one.
pub open spec fn prompt_size(content_bytes: Option<usize>) -> u64 {
    match content_bytes {
        Some(bytes) => bytes as u64,
        None => 1,
    }
}

/// The headers that name a request, its model and its size.
pub open spec fn naming_headers(
    request_id: Seq<char>,
    model_id: Seq<char>,
    input_tokens: u64,
) -> crate::headers::HeaderContents {
    Map::<Seq<char>, Seq<Seq<u8>>>::empty().insert(HEADER_REQUEST_ID@, seq![vstd::utf8::encode_utf8(request_id)]).insert(
        HEADER_MODEL@,
        seq![vstd::utf8::encode_utf8(model_id)],
    ).insert(
        HEADER_INPUT_TOKENS@,
        seq![crate::headers::ascii_bytes(crate::text::decimal_text(input_tokens as nat))],
    )
}

/// What is reported of a completion that came back.
#[derive(Debug)]
pub struct CompletionReport {
    pub output: Option<PublishedObservation>,
    pub tokens: Option<PublishedObservation>,
    pub finished: Option<PublishedObservation>,
}

/// What an observer has seen once the text of a completion is back.
pub open spec fn message_seen(observer: RequestObserver, time: u64) -> RequestObservation {
    crate::request_observer::with_message(observer.observation(), time)
}

/// What an observer has seen once the tokens of a completion are counted.
pub open spec fn tokens_seen(observer: RequestObserver, tokens: u64, time: u64) -> RequestObservation {
    crate::request_observer::with_counted_tokens(message_seen(observer, time), tokens, false, time)
}

/// What an observer has seen once a completion is back.
pub open spec fn completed(observer: RequestObserver, tokens: u64, time: u64) -> RequestObservation {
    crate::request_observer::ended(tokens_seen(observer, tokens, time), RequestObservationState::Complete, time)
}

/// The live requests once the text of a completion is back.
pub open spec fn requests_messaged(
    observer: RequestObserver,
    models: Models,
    requests: Requests,
    time: u64,
) -> Requests {
    observer.requests_after_step(models, requests, message_seen(observer, time))
}

/// The live requests once the tokens of a completion are counted.
pub open spec fn requests_counted(
    observer: RequestObserver,
    models: Models,
    requests: Requests,
    tokens: u64,
    time: u64,
) -> Requests {
    observer.requests_after_step(
        models,
        requests_messaged(observer, models, requests, time),
        tokens_seen(observer, tokens, time),
    )
}

/// The live requests once a completion is back.
pub open spec fn requests_completed(
    observer: RequestObserver,
    models: Models,
    requests: Requests,
    tokens: u64,
    time: u64,
) -> Requests {
    observer.requests_after_step(
        models,
        requests_counted(observer, models, requests, tokens, time),
        completed(observer, tokens, time),
    )
}

impl CompletionAttempt {
    pub open spec fn same_request(&self, other: &CompletionAttempt) -> bool {
        &&& self.request_id == other.request_id
        &&& self.model_id == other.model_id
        &&& self.input_tokens == other.input_tokens
    }

    /// The attempt is followed as a chat completion, or not at all.
    pub open spec fn wf(&self) -> bool {
        self.observer matches Some(observer) ==> observer.streaming()
    }

    /// The headers that the request is sent with: nothing where a name cannot
    /// stand in a header.
    pub fn request_headers(&self) -> (headers: Option<HeaderMap<HeaderValue>>)
        ensures
            match headers {
                Some(headers) => {
                    &&& crate::headers::valid_value(vstd::utf8::encode_utf8(self.request_id@))
                    &&& crate::headers::valid_value(vstd::utf8::encode_utf8(self.model_id@))
                    &&& crate::headers::header_contents(headers) == naming_headers(
                        self.request_id@,
                        self.model_id@,
                        self.input_tokens,
                    )
                },
                None => {
                    ||| !crate::headers::valid_value(vstd::utf8::encode_utf8(self.request_id@))
                    ||| !crate::headers::valid_value(vstd::utf8::encode_utf8(self.model_id@))
                },
            },
    {
        proof {
            crate::tunnel_contract::lemma_header_names();
        }
        let mut headers = new_headers();
        if !insert_header(&mut headers, HEADER_REQUEST_ID, self.request_id.as_str().as_bytes()) {
            return None;
        }
        if !insert_header(&mut headers, HEADER_MODEL, self.model_id.as_str().as_bytes()) {
            return None;
        }
        let size = bytes_of_decimal(self.input_tokens);
        if !insert_header(&mut headers, HEADER_INPUT_TOKENS, size.as_slice()) {
            return None;
        }
        Some(headers)
    }

    /// Takes a request up under an identifier of its own.
    pub fn begin(
        ids: &mut GeneratedRequestIds,
        kind: GeneratedRequestKind,
        generation: &ModelGeneration,
        content_bytes: Option<usize>,
        observed: bool,
        state: &mut PylonRuntimeState,
        now: u64,
    ) -> (started: (Self, Option<PublishedObservation>))
        requires
            old(ids).wf(),
            old(ids).counter() < u64::MAX,
            old(state).wf(),
        ensures
            final(ids).wf(),
            final(ids).counter() == old(ids).counter() + 1,
            final(ids).scope() == old(ids).scope(),
            final(ids).scope_value() == old(ids).scope_value(),
            started.0.wf(),
            started.0.request_id@ == crate::generated_request_id::issued(
                kind,
                old(ids).scope(),
                generation@.sequence,
                old(ids).counter(),
            ),
            crate::generated_request_id::parts_of(started.0.request_id@, old(ids).scope_value()) == Some(
                (kind, generation@.sequence),
            ),
            started.0.model_id@ == generation@.model_id,
            started.0.input_tokens == prompt_size(content_bytes),
            if observed {
                &&& started.0.observer matches Some(observer)
                &&& observer.observer().generation() == Some(generation@)
                &&& observer.observer().accepted_at() == now
                &&& observer.observer().observation().endpoint is ChatCompletions
                &&& observer.observer().observation().request_id@ == started.0.request_id@
                &&& observer.observer().observation().model_id@ == generation@.model_id
                &&& observer.observer().observation().priority == 0
                &&& observer.observer().observation().input_tokens == prompt_size(content_bytes)
                &&& observer.observer().observation().state is Accepted
                &&& crate::request_observer::moved(
                    *old(state),
                    *final(state),
                    crate::request_observer::requests_after(
                        old(state).models(),
                        old(state).requests(),
                        observer.observer().observation(),
                        Some(generation@),
                    ),
                )
                &&& started.1 matches Some(published) && published.tells(
                    old(state).models(),
                    old(state).requests(),
                    observer.observer().observation(),
                    Some(generation@),
                )
            } else {
                &&& started.0.observer is None
                &&& started.1 is None
                &&& *final(state) == *old(state)
            },
    {
        let request_id = ids.next_generated_request_id(kind, generation);
        let model_id = generation.model_id().to_string();
        let input_tokens: u64 = match content_bytes {
            Some(bytes) => bytes as u64,
            None => 1,
        };
        let mut observer: Option<TunnelRequestObserver> = None;
        let mut published: Option<PublishedObservation> = None;
        if observed {
            let required = RequiredTunnelHeaders {
                request_id: request_id.clone(),
                routing_key: None,
                model_id: model_id.clone(),
                priority: None,
                input_tokens,
                accepted_at: now,
            };
            let (accepted, told) = TunnelRequestObserver::accepted(
                RequestObservationEndpoint::ChatCompletions,
                &required,
                Some(generation.clone()),
                state,
            );
            observer = Some(accepted);
            published = Some(told);
        }
        (CompletionAttempt { request_id, model_id, input_tokens, observer }, published)
    }

    /// The request is being sent.
    pub fn on_upstream_send(&mut self, state: &mut PylonRuntimeState, now: u64) -> (published: Option<
        PublishedObservation,
    >)
        requires
            old(state).wf(),
        ensures
            final(self).same_request(old(self)),
            old(self).wf() ==> final(self).wf(),
            crate::tunnel_forward::observer_took(old(self).observer, final(self).observer, ObservedStep::Sent, now),
            crate::request_observer::moved(
                *old(state),
                *final(state),
                crate::tunnel_forward::observed_step(
                    old(self).observer,
                    old(state).models(),
                    old(state).requests(),
                    ObservedStep::Sent,
                    now,
                ),
            ),
            crate::tunnel_forward::told(
                published,
                old(self).observer,
                old(state).models(),
                old(state).requests(),
                ObservedStep::Sent,
                now,
            ),
    {
        match &mut self.observer {
            Some(observer) => observer.on_upstream_send(state, now),
            None => None,
        }
    }

    /// The head of the response has come.
    pub fn on_upstream_response_headers(&mut self, status: u16, state: &mut PylonRuntimeState, now: u64) -> (
    published: Option<PublishedObservation>)
        requires
            old(state).wf(),
        ensures
            final(self).same_request(old(self)),
            old(self).wf() ==> final(self).wf(),
            crate::tunnel_forward::observer_took(
                old(self).observer,
                final(self).observer,
                (ObservedStep::Answered { status }),
                now,
            ),
            crate::request_observer::moved(
                *old(state),
                *final(state),
                crate::tunnel_forward::observed_step(
                    old(self).observer,
                    old(state).models(),
                    old(state).requests(),
                    (ObservedStep::Answered { status }),
                    now,
                ),
            ),
            crate::tunnel_forward::told(
                published,
                old(self).observer,
                old(state).models(),
                old(state).requests(),
                (ObservedStep::Answered { status }),
                now,
            ),
    {
        match &mut self.observer {
            Some(observer) => observer.on_upstream_response_headers(state, status, now),
            None => None,
        }
    }

    /// The completion is back, with the number of its tokens.
    pub fn finish_observation(&mut self, completion_tokens: u32, state: &mut PylonRuntimeState, now: u64) -> (report:
        CompletionReport)
        requires
            old(state).wf(),
            old(self).wf(),
        ensures
            final(self).same_request(old(self)),
            final(self).wf(),
            match (old(self).observer, final(self).observer) {
                (Some(before), Some(after)) => {
                    let time = crate::request_observer::elapsed(before.observer().accepted_at(), now);
                    &&& after.observer().same_request(&before.observer())
                    &&& after.observer().observation() == (if before.observer().terminal() {
                        before.observer().observation()
                    } else {
                        completed(before.observer(), completion_tokens as u64, time)
                    })
                    &&& crate::request_observer::moved(
                        *old(state),
                        *final(state),
                        requests_completed(
                            before.observer(),
                            old(state).models(),
                            old(state).requests(),
                            completion_tokens as u64,
                            time,
                        ),
                    )
                    &&& if before.observer().terminal() {
                        &&& report.output is None
                        &&& report.tokens is None
                        &&& report.finished is None
                    } else {
                        &&& report.output matches Some(published) && published.tells(
                            old(state).models(),
                            old(state).requests(),
                            message_seen(before.observer(), time),
                            before.observer().generation(),
                        )
                        &&& report.tokens matches Some(published) && published.tells(
                            old(state).models(),
                            requests_messaged(before.observer(), old(state).models(), old(state).requests(), time),
                            tokens_seen(before.observer(), completion_tokens as u64, time),
                            before.observer().generation(),
                        )
                        &&& report.finished matches Some(published) && published.tells(
                            old(state).models(),
                            requests_counted(
                                before.observer(),
                                old(state).models(),
                                old(state).requests(),
                                completion_tokens as u64,
                                time,
                            ),
                            after.observer().observation(),
                            before.observer().generation(),
                        )
                    }
                },
                (None, None) => {
                    &&& report.output is None
                    &&& report.tokens is None
                    &&& report.finished is None
                    &&& *final(state) == *old(state)
                },
                _ => false,
            },
    {
        let mut output: Option<PublishedObservation> = None;
        let mut tokens: Option<PublishedObservation> = None;
        let mut finished: Option<PublishedObservation> = None;
        if let Some(observer) = &mut self.observer {
            if let Some(generated) = observer.generation_mut() {
                output = generated.observe_output_message(state, now);
                tokens = generated.observe_output_tokens_total(state, completion_tokens as u64, now);
            }
            finished = observer.finish(state, now);
        }
        CompletionReport { output, tokens, finished }
    }

    /// The request is given up.
    pub fn abandon(&mut self, state: &mut PylonRuntimeState, now: u64) -> (published: Option<PublishedObservation>)
        requires
            old(state).wf(),
        ensures
            final(self).same_request(old(self)),
            old(self).wf() ==> final(self).wf(),
            crate::tunnel_forward::observer_took(
                old(self).observer,
                final(self).observer,
                (ObservedStep::Ended { state: RequestObservationState::Failed }),
                now,
            ),
            crate::request_observer::moved(
                *old(state),
                *final(state),
                crate::tunnel_forward::observed_step(
                    old(self).observer,
                    old(state).models(),
                    old(state).requests(),
                    (ObservedStep::Ended { state: RequestObservationState::Failed }),
                    now,
                ),
            ),
            crate::tunnel_forward::told(
                published,
                old(self).observer,
                old(state).models(),
                old(state).requests(),
                (ObservedStep::Ended { state: RequestObservationState::Failed }),
                now,
            ),
    {
        match &mut self.observer {
            Some(observer) => observer.fail(state, now),
            None => None,
        }
    }
}

/// A completion that is back is no load any more, as long as its generation is
/// served; the other requests are as they were.
pub proof fn law_completed_request_is_gone(
    observer: RequestObserver,
    models: Models,
    requests: Requests,
    tokens: u64,
    time: u64,
)
    requires
        !observer.terminal(),
        !crate::runtime_state::stale(models, observer.generation()),
    ensures
        requests_completed(observer, models, requests, tokens, time) == requests.remove(
            observer.observation().request_id@,
        ),
{
    let id = observer.observation().request_id@;
    let after_message = requests_messaged(observer, models, requests, time);
    let after_tokens = requests_counted(observer, models, requests, tokens, time);
    assert(after_message.remove(id) =~= requests.remove(id));
    assert(after_tokens.remove(id) =~= requests.remove(id));
}

} // verus!
