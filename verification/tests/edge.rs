use turbosheet::edge::orchestrator::{
    AssertionKind, AssertionSpec, AssertionValue, EdgeJob, JobOutcome, JobResult, OrchestratorConfig,
    OrchestratorError, WasmOrchestrator,
};
use turbosheet::edge::protocol::{EdgeMessage, MessageBuilder, MessageType, ProtocolError, GridCommandType};
use turbosheet::edge::runtime::{EdgeRuntime, RuntimeConfig, RuntimeInfo, RuntimeType};
use turbosheet::edge::routing::{lowest_latency, route_by_latency, eligible_nodes, NodeCapabilities, NodeStatus, RoutingConfig, RoutingMetrics, has_capacity};
use turbosheet::edge::runner::EdgeTestRunner;
use std::sync::Arc;

fn job(id: &str, priority: u8, created_at: u64) -> EdgeJob {
    EdgeJob::with_identity(id.to_string(), "t.spec.ts".to_string(), "chromium".to_string(), created_at)
        .with_priority(priority)
}

fn small_config(max: usize) -> OrchestratorConfig {
    OrchestratorConfig { max_pending_jobs: max, ..OrchestratorConfig::default() }
}

#[test]
fn job_defaults() {
    let j = EdgeJob::new("a.spec.ts".to_string(), "firefox".to_string());
    assert_eq!(j.priority, 5);
    assert_eq!(j.timeout_secs, 300);
    assert_eq!(j.retries_remaining, 3);
    assert!(j.assertions.is_empty());
    assert_eq!(j.id.len(), 36);
    for (i, c) in j.id.chars().enumerate() {
        if i == 8 || i == 13 || i == 18 || i == 23 {
            assert_eq!(c, '-');
        } else {
            assert!(c.is_ascii_hexdigit() && !c.is_ascii_uppercase());
        }
    }
}

#[test]
fn job_builders() {
    let j = job("x", 1, 0).with_timeout(9).with_retries(0);
    assert_eq!(j.priority, 1);
    assert_eq!(j.timeout_secs, 9);
    assert!(!j.can_retry());
    let mut k = job("y", 5, 0).with_retries(1);
    assert!(k.can_retry());
    k.decrement_retries();
    assert_eq!(k.retries_remaining, 0);
    k.decrement_retries();
    assert_eq!(k.retries_remaining, 0);
}

#[test]
fn higher_priority_is_claimed_first() {
    let mut o = WasmOrchestrator::new(OrchestratorConfig::default());
    o.submit_at(job("low", 1, 0), 0).unwrap();
    o.submit_at(job("high", 9, 0), 0).unwrap();
    assert_eq!(o.claim_next_at(0).unwrap().id, "high");
    assert_eq!(o.claim_next_at(0).unwrap().id, "low");
    assert!(o.claim_next_at(0).is_none());
}

#[test]
fn equal_scores_are_claimed_in_submission_order() {
    let mut o = WasmOrchestrator::new(OrchestratorConfig::default());
    o.submit_at(job("a", 5, 100), 100).unwrap();
    o.submit_at(job("b", 5, 100), 100).unwrap();
    assert_eq!(o.claim_next_at(200).unwrap().id, "a");
}

#[test]
fn queue_full_counts_running_jobs() {
    let mut o = WasmOrchestrator::new(small_config(2));
    o.submit_at(job("a", 5, 0), 0).unwrap();
    o.submit_at(job("b", 5, 0), 0).unwrap();
    assert_eq!(o.submit_at(job("c", 5, 0), 0), Err(OrchestratorError::QueueFull));
    o.claim_next_at(0).unwrap();
    assert_eq!(o.get_running_count(), 1);
    assert_eq!(o.submit_at(job("c", 5, 0), 0), Err(OrchestratorError::QueueFull));
}

#[test]
fn retries_come_back_with_one_fewer() {
    let mut o = WasmOrchestrator::new(OrchestratorConfig::default());
    o.submit_for_retry(job("r", 5, 0).with_retries(2));
    o.submit_for_retry(job("none", 5, 0).with_retries(0));
    assert_eq!(o.get_retry_count(), 1);
    let c = o.claim_next_at(10).unwrap();
    assert_eq!(c.id, "r");
    assert_eq!(c.retries_remaining, 1);
    assert_eq!(o.get_retry_count(), 0);
}

#[test]
fn timeouts_are_recorded() {
    let mut o = WasmOrchestrator::new(OrchestratorConfig::default());
    o.submit_at(job("slow", 5, 0).with_timeout(2), 0).unwrap();
    o.submit_at(job("fast", 4, 0).with_timeout(100), 0).unwrap();
    o.claim_next_at(1_000).unwrap();
    o.claim_next_at(1_000).unwrap();
    assert!(o.check_timeout_at(2_999).is_empty());
    assert_eq!(o.check_timeout_at(3_000), vec!["slow".to_string()]);
    let s = o.get_stats();
    assert_eq!((s.pending, s.running, s.retrying, s.completed), (0, 1, 0, 1));
}

#[test]
fn complete_moves_a_job_to_the_history() {
    let mut o = WasmOrchestrator::new(OrchestratorConfig::default());
    o.submit_at(job("j", 5, 0), 0).unwrap();
    o.claim_next_at(0).unwrap();
    o.complete("j", JobResult {
        job_id: "j".to_string(),
        status: JobOutcome::Passed,
        duration_ms: 5,
        assertions_run: 0,
        error: None,
        retry_attempt: 0,
    });
    let s = o.get_stats();
    assert_eq!((s.running, s.completed), (0, 1));
}

#[test]
fn history_is_bounded() {
    let mut o = WasmOrchestrator::new(OrchestratorConfig::default());
    for i in 0..1005u32 {
        o.complete("none", JobResult {
            job_id: i.to_string(),
            status: JobOutcome::Skipped,
            duration_ms: 0,
            assertions_run: 0,
            error: None,
            retry_attempt: 0,
        });
    }
    assert_eq!(o.get_stats().completed, 1000);
}

#[test]
fn orchestrator_error_messages() {
    assert_eq!(OrchestratorError::QueueFull.message(), "Job queue is full");
    assert_eq!(OrchestratorError::JobNotFound.message(), "Job not found");
    assert_eq!(OrchestratorError::InvalidJob.message(), "Invalid job");
}

#[test]
fn message_round_trip() {
    let m = EdgeMessage::new(MessageType::GridCommand, 0x0102030405060708, vec![9, 8, 7]);
    let bytes = m.encode();
    assert_eq!(bytes, vec![1, 0x20, 1, 2, 3, 4, 5, 6, 7, 8, 0, 0, 0, 3, 9, 8, 7]);
    let d = EdgeMessage::decode(&bytes).unwrap();
    assert_eq!(d.version, 1);
    assert_eq!(d.msg_type, MessageType::GridCommand);
    assert_eq!(d.request_id, 0x0102030405060708);
    assert_eq!(d.payload, vec![9, 8, 7]);
}

#[test]
fn decode_errors() {
    assert_eq!(EdgeMessage::decode(&[1, 2, 3]).err(), Some(ProtocolError::InvalidMessage));
    assert_eq!(EdgeMessage::decode(&[1, 0x55, 0, 0, 0, 0, 0, 0, 0, 0]).err(), Some(ProtocolError::UnknownMessageType));
    let mut short = EdgeMessage::ping().encode();
    short[13] = 5;
    assert_eq!(EdgeMessage::decode(&short).err(), Some(ProtocolError::InvalidMessage));
}

#[test]
fn type_codes() {
    assert_eq!(MessageType::Ping.code(), 0x01);
    assert_eq!(MessageType::Error.code(), 0xFF);
    assert_eq!(MessageType::from_code(0x31), Some(MessageType::AssertionResult));
    assert_eq!(MessageType::from_code(0x00), None);
}

#[test]
fn claim_carries_the_worker_id() {
    let m = EdgeMessage::claim_job("worker-7", 42);
    assert_eq!(m.msg_type, MessageType::ClaimJob);
    assert_eq!(m.request_id, 42);
    assert_eq!(m.payload, b"worker-7".to_vec());
    assert_eq!(MessageBuilder::build_ping().msg_type, MessageType::Ping);
    assert_eq!(MessageBuilder::build_pong().msg_type, MessageType::Pong);
}

#[test]
fn grid_commands() {
    let n = MessageBuilder::build_navigate("https://a.b", 100).unwrap();
    assert_eq!(n.command_type, GridCommandType::Navigate);
    assert_eq!(n.params.url.as_deref(), Some("https://a.b"));
    assert_eq!(n.params.timeout_ms, Some(100));
    let f = MessageBuilder::build_fill("#q", "hi", 5).unwrap();
    assert_eq!(f.command_type, GridCommandType::Fill);
    assert_eq!(f.params.selector.as_deref(), Some("#q"));
    assert_eq!(f.params.value.as_deref(), Some("hi"));
    let c = MessageBuilder::build_click("#b", 5).unwrap();
    assert_eq!(c.command_type, GridCommandType::Click);
    assert!(c.params.url.is_none());
}

#[test]
fn protocol_error_messages() {
    assert_eq!(ProtocolError::InvalidMessage.message(), "Invalid message format");
    assert_eq!(ProtocolError::UnknownMessageType.message(), "Unknown message type");
}

#[test]
fn native_runtime_detection() {
    let info = RuntimeInfo::detect();
    assert_eq!(info.runtime_type, RuntimeType::BareMetal);
    assert_eq!(info.version.as_deref(), Some("native"));
    assert!(info.features.cpu_count.unwrap() >= 1);
    let wasm = RuntimeInfo::detect_wasm();
    assert_eq!(wasm.runtime_type, RuntimeType::Unknown);
    assert_eq!(wasm.features.max_memory_mb, Some(512));
}

#[test]
fn runtime_configs_and_decisions() {
    let rt = EdgeRuntime::new(RuntimeConfig::for_workerd());
    assert_eq!(rt.recommended_max_jobs(), 2);
    assert!(rt.can_run_assertions());
    assert!(!rt.should_proxy_to_grid());
    let bare = EdgeRuntime::new(RuntimeConfig::for_bare_metal());
    assert_eq!(bare.recommended_max_jobs(), 16);
    assert!(!bare.can_run_assertions());
    assert_eq!(EdgeRuntime::new(RuntimeConfig::for_deno()).recommended_max_jobs(), 8);
    assert_eq!(EdgeRuntime::new(RuntimeConfig::default()).recommended_max_jobs(), 4);
}

#[test]
fn runner_plan_on_native_runtime() {
    let runner = EdgeTestRunner::new(Arc::new(EdgeRuntime::new(RuntimeConfig::default())));
    assert_eq!(runner.runtime_type(), RuntimeType::BareMetal);
    assert_eq!(runner.execution_plan().ok(), Some(150));
}

#[test]
fn routing_by_latency() {
    let cfg = RoutingConfig::default();
    let ls = [None, Some(300), Some(120), Some(120), Some(900)];
    assert_eq!(lowest_latency(&ls), Some((2, 120)));
    assert_eq!(route_by_latency(&ls, &cfg), Some((2, 120)));
    let far = [Some(800), Some(700)];
    assert_eq!(route_by_latency(&far, &cfg), Some((1, 700)));
    let strict = RoutingConfig { fallback_to_closest: false, ..RoutingConfig::default() };
    assert_eq!(route_by_latency(&far, &strict), None);
    assert_eq!(route_by_latency(&[None, None], &cfg), None);
}

#[test]
fn routing_capabilities() {
    let caps = NodeCapabilities {
        browsers: vec!["chromium".to_string(), "firefox".to_string()],
        max_concurrent: 4,
        tags: vec!["gpu".to_string(), "eu".to_string()],
    };
    assert!(caps.can_run_browser("firefox"));
    assert!(!caps.can_run_browser("webkit"));
    assert!(caps.has_tags(&[]));
    assert!(caps.has_tags(&["eu".to_string()]));
    assert!(!caps.has_tags(&["eu".to_string(), "us".to_string()]));
    assert!(has_capacity(1, 2));
    assert!(!has_capacity(2, 2));
}

#[test]
fn routing_metrics() {
    let m = RoutingMetrics::from_nodes(&[Some(10), None, Some(25)], &[true, false, true]);
    assert_eq!(m.total_nodes, 3);
    assert_eq!(m.available_nodes, 2);
    assert_eq!(m.nodes_with_latency, 2);
    assert_eq!(m.average_latency_ms, Some(17));
    let none = RoutingMetrics::from_nodes(&[None], &[false]);
    assert_eq!(none.average_latency_ms, None);
}

#[test]
fn clocked_queue_operations() {
    let mut o = WasmOrchestrator::new(small_config(2));
    let spec = AssertionSpec {
        kind: AssertionKind::Text,
        target: "h1".to_string(),
        expected: AssertionValue::Exact("Hi".to_string()),
        timeout_ms: 100,
    };
    let j = EdgeJob::new("a.spec.ts".to_string(), "chromium".to_string()).with_assertions(vec![spec]);
    assert_eq!(j.assertions.len(), 1);
    assert!(o.submit(j).is_ok());
    assert_eq!(o.get_pending_count(), 1);
    let claimed = o.claim_next().unwrap();
    assert_eq!(claimed.test_file, "a.spec.ts");
    assert_eq!(o.get_pending_count(), 0);
    assert!(o.check_timeout().is_empty());
    assert_eq!(o.get_running_count(), 1);
    assert!(o.claim_next().is_none());
}

fn node_status(browsers: &[&str], tags: &[&str], active_jobs: usize, max_jobs: usize) -> NodeStatus {
    NodeStatus {
        capabilities: NodeCapabilities {
            browsers: browsers.iter().map(|b| b.to_string()).collect(),
            max_concurrent: max_jobs,
            tags: tags.iter().map(|t| t.to_string()).collect(),
        },
        active_jobs,
        max_jobs,
    }
}

#[test]
fn eligible_nodes_filters_by_browser_tags_and_room() {
    let nodes = vec![
        node_status(&["chromium"], &["gpu", "eu"], 0, 4),
        node_status(&["firefox"], &["gpu"], 0, 4),
        node_status(&["chromium"], &["eu"], 1, 4),
        node_status(&["chromium", "webkit"], &["gpu"], 4, 4),
        node_status(&["chromium"], &["gpu"], 3, 4),
    ];
    assert_eq!(eligible_nodes(&nodes, "chromium", &["gpu".to_string()]), vec![0, 4]);
    assert_eq!(eligible_nodes(&nodes, "chromium", &[]), vec![0, 2, 4]);
    assert_eq!(eligible_nodes(&nodes, "webkit", &[]), Vec::<usize>::new());
}

#[test]
fn claimed_job_with_no_timeout_expires_at_once() {
    let mut o = WasmOrchestrator::new(OrchestratorConfig::default());
    let job = EdgeJob::new("t".to_string(), "chromium".to_string()).with_timeout(0).with_retries(5);
    assert!(o.submit(job).is_ok());
    let j = o.claim_next().unwrap();
    assert_eq!(o.get_running_count(), 1);
    assert_eq!(o.check_timeout(), vec![j.id.clone()]);
    assert_eq!(o.get_running_count(), 0);
    assert_eq!(o.get_stats().completed, 1);
}
