# pylon

A pylon stands between a fleet of routers and one inference engine. It forwards
the requests of the routers to the engine, follows each of them, turns requests
away when the local queue is longer than the router was promised, brings the
engine's models up, and advertises them.

`src/` is the library: the rules, the state and the decisions, each with its
contract. Nothing in it waits or does input and output. Times are numbers of
nanoseconds that callers hand in; rates are held by their binary64 encoding, and
arithmetic on them is done by functions that callers hand in.

- Requests: `live_requests`, `queue_model`, `queue_admission`,
  `request_observation`, `request_observer`, `completion_request`,
  `generated_request_id`
- Models: `runtime_state`, `model_stats`, `model_lifecycle`, `generation`,
  `bringup`, `upstream_health`, `registration`
- The tunnel: `tunnel_contract`, `tunnel_backend`, `tunnel_headers`,
  `tunnel_request`, `tunnel_forward`, `tunnel_endpoint`, `sse_stream`
- The mock engine: `openai`, `timing`, `kv_cache`, `stats_stream`, `relay`,
  `test_control`
- What they stand on: `text`, `keyed`, `sums`, `headers`, `json_text`,
  `binary64`, `build_plan`
- What holds across them: `queue_laws`, `runtime_laws`, `lifecycle_laws`,
  `tunnel_laws`, and the proof functions named `law_` in the other modules

`app/` serves the mock engine over HTTP or, with `--pylon-upstream`, a pylon in
front of an engine.
