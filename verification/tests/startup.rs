use sglang_server::config::ServerArgs;
use sglang_server::runtime::{
    api_core, join_step, plan_pools, require_tokenizer, start, tokenizer_source, CorePlan,
    DetokenizerBackend, JoinStep, Runnable, Runtime,
};
use sglang_server::startup::{
    bind_text, grpc_listen_addr, listen_addr, value_error, ListenAddr, ListenHost,
};

fn args(host: &str) -> ServerArgs {
    ServerArgs {
        host: host.into(),
        port: 0,
        grpc_port: None,
        model_path: String::new(),
        served_model_name: String::new(),
        tokenizer_path: String::new(),
        revision: None,
        chat_template: None,
        model_type: None,
        preferred_sampling_params: None,
        weight_version: None,
        load_format: None,
        reasoning_parser: None,
        tool_call_parser: None,
        disaggregation_mode: "null".into(),
        is_disaggregation: false,
        limit_mm_data_per_request: Default::default(),
        context_len: 0,
        max_total_num_tokens: 0,
        version: String::new(),
        skip_tokenizer_init: true,
        skip_server_warmup: true,
        incremental_streaming_output: false,
        tokenizer_worker_num: 3,
        detokenizer_worker_num: 2,
    }
}

/// What the text `[::]:<port>` is read as.
fn any_v6(port: u16) -> ListenAddr {
    ListenAddr {
        host: ListenHost::V6 {
            segments: 0,
            flow_info: 0,
            scope_id: 0,
        },
        port,
    }
}

#[test]
fn listen_addr_uses_server_host_and_port_offset() {
    let args = ServerArgs {
        port: 30_000,
        ..args("::")
    };
    assert_eq!(
        listen_addr(&args, None, Ok(any_v6(30_000))).unwrap(),
        any_v6(30_000)
    );
    assert_eq!(
        listen_addr(&args, Some(7), Ok(any_v6(30_000))).unwrap(),
        any_v6(30_007)
    );
}

#[test]
fn listen_addr_rejects_port_overflow() {
    let args = ServerArgs {
        port: u16::MAX,
        ..args("127.0.0.1")
    };
    let error = listen_addr(&args, Some(1), Ok(any_v6(u16::MAX))).unwrap_err();
    assert!(error.contains("exceeds"));
    assert_eq!(error, "port 65535 + offset 1 exceeds 65535");
}

#[test]
fn grpc_listen_addr_is_optional_and_uses_the_same_offset() {
    let mut args = args("::");
    assert_eq!(
        grpc_listen_addr(&args, Some(7), Ok(any_v6(0))).unwrap(),
        None
    );

    args.grpc_port = Some(50_051);
    assert_eq!(
        grpc_listen_addr(&args, Some(7), Ok(any_v6(0))).unwrap(),
        Some(any_v6(50_058))
    );
}

#[test]
fn grpc_listen_addr_rejects_port_overflow() {
    let args = ServerArgs {
        grpc_port: Some(u16::MAX),
        ..args("127.0.0.1")
    };
    assert!(grpc_listen_addr(&args, Some(1), Ok(any_v6(0)))
        .unwrap_err()
        .contains("exceeds"));
}

#[test]
fn the_last_port_is_still_a_port() {
    let args = ServerArgs {
        port: 65_530,
        ..args("::")
    };
    assert_eq!(
        listen_addr(&args, Some(5), Ok(any_v6(65_530))).unwrap().port,
        65_535
    );
    assert_eq!(
        listen_addr(&args, Some(6), Ok(any_v6(65_530))).unwrap_err(),
        "port 65530 + offset 6 exceeds 65535"
    );
}

#[test]
fn an_unreadable_host_is_quoted_with_the_reason() {
    let args = ServerArgs {
        port: 1,
        ..args("not \"a\" host")
    };
    let error = listen_addr(&args, None, Err("invalid socket address syntax".into())).unwrap_err();
    assert_eq!(
        error,
        "invalid host \"not \\\"a\\\" host\": invalid socket address syntax"
    );
    // The port is looked at before the host.
    let args = ServerArgs {
        port: u16::MAX,
        ..args
    };
    let error = listen_addr(&args, Some(2), Err("whatever".into())).unwrap_err();
    assert_eq!(error, "port 65535 + offset 2 exceeds 65535");
}

#[test]
fn different_offsets_give_different_ports() {
    let args = ServerArgs {
        port: 30_000,
        ..args("::")
    };
    let first = listen_addr(&args, Some(1), Ok(any_v6(30_000))).unwrap();
    let second = listen_addr(&args, Some(2), Ok(any_v6(30_000))).unwrap();
    assert_ne!(first.port, second.port);
    assert_eq!(first.host, second.host);
}

#[test]
fn startup_failures_name_what_was_being_done() {
    assert_eq!(value_error("server args", "bad json"), "server args: bad json");
}

fn cores() -> CorePlan {
    CorePlan {
        api: vec![0, 1],
        tok: vec![2, 3],
        detok: vec![4],
        tm: vec![5, 6],
    }
}

#[test]
fn pools_follow_the_tokenizer_and_the_core_plan() {
    let args = args("::");
    let plan = cores();
    let pools = plan_pools(&args, Some(&plan), true);
    assert_eq!(pools.backend, DetokenizerBackend::Decode);
    assert_eq!(pools.detokenizer.count, 2);
    assert_eq!(pools.detokenizer.cores, Some(vec![4]));
    let tokenizer = pools.tokenizer.unwrap();
    assert_eq!(tokenizer.count, 3);
    assert_eq!(tokenizer.cores, Some(vec![2, 3]));
    assert_eq!(pools.from_scheduler.cores, Some(vec![5]));
    assert_eq!(pools.to_scheduler.cores, Some(vec![6]));
    assert_eq!(pools.from_scheduler.count, 1);
    assert_eq!(pools.to_scheduler.count, 1);
    assert_eq!(pools.api_cores, Some(vec![0, 1]));

    let bare = plan_pools(&args, None, false);
    assert_eq!(bare.backend, DetokenizerBackend::Skip);
    assert!(bare.tokenizer.is_none());
    assert_eq!(bare.detokenizer.cores, None);
    assert_eq!(bare.from_scheduler.cores, None);
    assert_eq!(bare.to_scheduler.cores, None);
    assert_eq!(bare.api_cores, None);
}

#[test]
fn router_and_intake_share_a_single_manager_core() {
    let one = CorePlan {
        tm: vec![9],
        ..cores()
    };
    let pools = plan_pools(&args("::"), Some(&one), true);
    assert_eq!(pools.from_scheduler.cores, Some(vec![9]));
    assert_eq!(pools.to_scheduler.cores, Some(vec![9]));

    let none = CorePlan {
        tm: vec![],
        ..cores()
    };
    let pools = plan_pools(&args("::"), Some(&none), true);
    assert_eq!(pools.from_scheduler.cores, None);
    assert_eq!(pools.to_scheduler.cores, None);
}

#[test]
fn api_threads_take_turns_on_the_cores() {
    let cores = vec![10, 20, 30];
    let taken: Vec<usize> = (0..5).map(|index| api_core(&cores, index)).collect();
    assert_eq!(taken, vec![10, 20, 30, 10, 20]);
}

#[test]
fn a_port_conflict_fails_the_start() {
    let started = start::<&str>(
        &args("::"),
        8,
        None,
        false,
        "127.0.0.1:30000",
        Err("address in use".into()),
        None,
    );
    let error = started.unwrap_err();
    assert!(error.contains("bind"));
    assert_eq!(
        error,
        "binding HTTP listener on 127.0.0.1:30000 failed: address in use"
    );
}

#[test]
fn a_grpc_port_conflict_releases_the_http_listener() {
    let http = std::rc::Rc::new(());
    let held = std::rc::Rc::downgrade(&http);
    let started = start(
        &args("::"),
        8,
        None,
        false,
        "127.0.0.1:1",
        Ok(http),
        Some(("127.0.0.1:2".to_owned(), Err("address in use".to_owned()))),
    );
    let error = started.unwrap_err();
    assert!(error.contains("gRPC listener"));
    assert_eq!(
        error,
        "binding gRPC listener on 127.0.0.1:2 failed: address in use"
    );
    assert!(held.upgrade().is_none());
}

#[test]
fn a_start_holds_every_configured_listener() {
    let mut args = args("::");
    args.is_disaggregation = true;
    args.limit_mm_data_per_request.insert("image".into(), 1);
    args.limit_mm_data_per_request.insert("audio".into(), 0);
    args.model_path = "/model".into();
    let startup = start(
        &args,
        16,
        None,
        false,
        "a",
        Ok("http"),
        Some(("b".to_owned(), Ok("grpc"))),
    )
    .unwrap();
    assert_eq!(startup.listeners.http, "http");
    assert_eq!(startup.listeners.grpc, Some("grpc"));
    assert_eq!(startup.frontend.response_capacity, 16);
    assert!(startup.frontend.startup_ready);
    assert!(startup.frontend.is_disaggregation);
    assert_eq!(
        startup.frontend.mm_limits,
        args.limit_mm_data_per_request
    );
    assert_eq!(startup.frontend.mm_limits.get("image"), Some(&1));
    assert_eq!(startup.frontend.metadata.model_path, "/model");

    let http_only = start(&args, 16, None, false, "a", Ok("http"), None).unwrap();
    assert_eq!(http_only.listeners.grpc, None);
}

#[test]
fn a_server_starts_without_a_tokenizer_only_where_it_is_skipped() {
    let args = ServerArgs {
        skip_tokenizer_init: false,
        ..args("::")
    };
    let grpc = || Some(("b".to_owned(), Ok("grpc")));
    let refused = start(&args, 16, None, false, "a", Ok("http"), grpc()).unwrap_err();
    assert_eq!(
        refused,
        "no tokenizer is loaded, and skip_tokenizer_init is not set"
    );
    // The tokenizer is looked at before the listeners.
    let both = start::<&str>(&args, 16, None, false, "a", Err("in use".into()), None);
    assert_eq!(both.unwrap_err(), refused);

    let started = start(&args, 16, None, true, "a", Ok("http"), grpc()).unwrap();
    assert_eq!(started.pools.backend, DetokenizerBackend::Decode);
    assert_eq!(started.pools.tokenizer.unwrap().count, 3);

    let skipped = ServerArgs {
        skip_tokenizer_init: true,
        ..args
    };
    let started = start(&skipped, 16, None, false, "a", Ok("http"), grpc()).unwrap();
    assert_eq!(started.pools.backend, DetokenizerBackend::Skip);
    assert!(started.pools.tokenizer.is_none());
}

#[test]
fn a_failed_tokenizer_load_ends_the_start() {
    let skipped = args("::");
    let needed = ServerArgs {
        skip_tokenizer_init: false,
        ..args("::")
    };
    for args in [&skipped, &needed] {
        let failed = require_tokenizer(args, Err("no such file".into()));
        assert_eq!(failed, Err("no such file".to_owned()));
        assert_eq!(require_tokenizer(args, Ok(true)), Ok(true));
    }
    assert_eq!(require_tokenizer(&skipped, Ok(false)), Ok(false));
    assert!(require_tokenizer(&needed, Ok(false)).is_err());
}

#[test]
fn a_shutdown_waits_for_a_thread_until_the_time_limit() {
    assert_eq!(join_step(false, 0), JoinStep::Wait);
    assert_eq!(join_step(false, 4_999), JoinStep::Wait);
    assert_eq!(join_step(false, 5_000), JoinStep::Abandon);
    assert_eq!(join_step(false, u128::MAX), JoinStep::Abandon);
    assert_eq!(join_step(true, 0), JoinStep::Join);
    assert_eq!(join_step(true, 5_000), JoinStep::Join);
}

#[test]
fn an_ipv6_host_is_bound_in_brackets() {
    let text = |host: &str, port: u16| {
        bind_text(&ServerArgs {
            port,
            ..args(host)
        })
    };
    assert_eq!(text("::", 30_000), "[::]:30000");
    assert_eq!(text("fe80::1", 0), "[fe80::1]:0");
    assert_eq!(text("127.0.0.1", 65_535), "127.0.0.1:65535");
    assert_eq!(text("localhost", 80), "localhost:80");
    assert_eq!(text("", 1), ":1");
}

#[test]
fn a_second_shutdown_finds_nothing_to_join() {
    let mut runtime = Runtime::new(vec!["router", "intake"]);
    runtime.add_thread("api");
    assert_eq!(runtime.request_shutdown(), vec!["router", "intake", "api"]);
    assert!(runtime.request_shutdown().is_empty());
}

#[test]
fn multimodal_pools_are_unpinned_and_never_empty() {
    let runtime: Runtime<u8> = Runtime::new(vec![]);
    let (context, pool) = runtime.start_mm_workers(Ok("context"), 0).unwrap();
    assert_eq!(context, "context");
    assert_eq!(pool.count, 1);
    assert_eq!(pool.cores, None);
    assert_eq!(runtime.start_mm_workers_with_processor(4).count, 4);
    let refused: Result<((), _), _> = runtime.start_mm_workers(Err("no spec".into()), 2);
    assert_eq!(refused.unwrap_err(), "no spec");
}

#[test]
fn an_empty_tokenizer_path_is_no_path() {
    let mut args = args("::");
    assert_eq!(tokenizer_source(&args), None);
    args.tokenizer_path = "/tokenizer".into();
    assert_eq!(tokenizer_source(&args), Some("/tokenizer"));
}

struct Stage(std::sync::mpsc::Sender<u8>);

impl Runnable for Stage {
    fn run(self) {
        self.0.send(7).unwrap();
    }
}

#[test]
fn a_stage_runs_with_what_it_owns() {
    let (sender, receiver) = std::sync::mpsc::channel();
    Stage(sender).run();
    assert_eq!(receiver.recv().unwrap(), 7);
}
