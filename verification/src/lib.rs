//! Verified logic of a pylon: the agent beside an inference server that
//! admits tunnelled requests, keeps the live queue model, and drives the
//! bring-up of the models it serves.

pub mod admission_laws;
pub mod binary64;
pub mod bringup;
pub mod bringup_laws;
pub mod build_plan;
pub mod completion_request;
pub mod engine_laws;
pub mod forward_laws;
pub mod generated_request_id;
pub mod generation;
pub mod header_laws;
pub mod headers;
pub mod json_text;
pub mod keyed;
pub mod kv_cache;
pub mod lifecycle_laws;
pub mod live_requests;
pub mod mock_laws;
pub mod model_lifecycle;
pub mod model_stats;
pub mod observer_laws;
pub mod openai;
pub mod parts_laws;
pub mod queue_admission;
pub mod queue_laws;
pub mod queue_model;
pub mod registration;
pub mod registration_laws;
pub mod relay;
pub mod request_laws;
pub mod request_observation;
pub mod request_observer;
pub mod runtime_laws;
pub mod runtime_state;
pub mod serving_laws;
pub mod sse_stream;
pub mod stats_laws;
pub mod stats_stream;
pub mod sums;
pub mod supervision_laws;
pub mod test_control;
pub mod text;
pub mod text_laws;
pub mod timing;
pub mod tunnel_backend;
pub mod tunnel_contract;
pub mod tunnel_endpoint;
pub mod tunnel_forward;
pub mod tunnel_headers;
pub mod tunnel_laws;
pub mod tunnel_request;
pub mod upstream_health;
