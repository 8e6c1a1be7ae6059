//! What is known of one request while it passes through the tunnel.

use vstd::prelude::*;

verus! {

/// The generation endpoint that a request is for.
#[derive(Clone, Copy, Debug, PartialEq, Eq, Structural, Hash)]
pub enum RequestObservationEndpoint {
    ChatCompletions,
    Responses,
    Embeddings,
}

/// How far a request has come. `Complete` and `Failed` are final.
#[derive(Clone, Copy, Debug, PartialEq, Eq, Structural, Hash)]
pub enum RequestObservationState {
    Accepted,
    UpstreamConnecting,
    InputProcessing,
    OutputGeneration,
    Complete,
    Failed,
}

impl RequestObservationState {
    pub open spec fn terminal(self) -> bool {
        self is Complete || self is Failed
    }

    /// Whether the request has ended.
    pub fn is_terminal(self) -> (terminal: bool)
        ensures
            terminal == self.terminal(),
    {
        match self {
            RequestObservationState::Complete | RequestObservationState::Failed => true,
            _ => false,
        }
    }
}

/// One observation of a request. Durations are in nanoseconds.
#[derive(Debug)]
pub struct RequestObservation {
    pub endpoint: RequestObservationEndpoint,
    pub request_id: String,
    pub routing_key: Option<String>,
    pub model_id: String,
    pub priority: u32,
    pub input_tokens: u64,
    pub embedding_items: u64,
    pub embedding_items_observed: bool,
    pub upstream_status: Option<u16>,
    pub output_messages: u64,
    pub output_tokens: u64,
    pub output_tokens_explicit: bool,
    pub output_tokens_from_chunk_usage: bool,
    pub state: RequestObservationState,
    pub time_to_response_headers: Option<u64>,
    pub time_to_first_output: Option<u64>,
    pub time_to_first_token: Option<u64>,
    pub total_duration: u64,
}

impl RequestObservation {
    pub fn is_terminal(&self) -> (terminal: bool)
        ensures
            terminal == self.state.terminal(),
    {
        self.state.is_terminal()
    }
}

/// A copy of an optional text.
pub fn copy_text(text: &Option<String>) -> (copy: Option<String>)
    ensures
        copy == *text,
{
    match text {
        Some(text) => Some(text.clone()),
        None => None,
    }
}

impl Clone for RequestObservation {
    fn clone(&self) -> (copy: Self)
        ensures
            copy == *self,
    {
        RequestObservation {
            endpoint: self.endpoint,
            request_id: self.request_id.clone(),
            routing_key: copy_text(&self.routing_key),
            model_id: self.model_id.clone(),
            priority: self.priority,
            input_tokens: self.input_tokens,
            embedding_items: self.embedding_items,
            embedding_items_observed: self.embedding_items_observed,
            upstream_status: self.upstream_status,
            output_messages: self.output_messages,
            output_tokens: self.output_tokens,
            output_tokens_explicit: self.output_tokens_explicit,
            output_tokens_from_chunk_usage: self.output_tokens_from_chunk_usage,
            state: self.state,
            time_to_response_headers: self.time_to_response_headers,
            time_to_first_output: self.time_to_first_output,
            time_to_first_token: self.time_to_first_token,
            total_duration: self.total_duration,
        }
    }
}

/// The headers that a tunnelled generation request must carry, and the moment
/// at which it was accepted, in nanoseconds of a monotonic clock.
#[derive(Debug)]
pub struct RequiredTunnelHeaders {
    pub request_id: String,
    pub routing_key: Option<String>,
    pub model_id: String,
    pub priority: Option<u32>,
    pub input_tokens: u64,
    pub accepted_at: u64,
}

impl RequiredTunnelHeaders {
    /// The priority under which the request queues: zero where none was given.
    pub open spec fn spec_queue_priority(&self) -> u32 {
        match self.priority {
            Some(priority) => priority,
            None => 0,
        }
    }

    pub fn queue_priority(&self) -> (priority: u32)
        ensures
            priority == self.spec_queue_priority(),
    {
        match self.priority {
            Some(priority) => priority,
            None => 0,
        }
    }
}

impl Clone for RequiredTunnelHeaders {
    fn clone(&self) -> (copy: Self)
        ensures
            copy == *self,
    {
        RequiredTunnelHeaders {
            request_id: self.request_id.clone(),
            routing_key: copy_text(&self.routing_key),
            model_id: self.model_id.clone(),
            priority: self.priority,
            input_tokens: self.input_tokens,
            accepted_at: self.accepted_at,
        }
    }
}

} // verus!
