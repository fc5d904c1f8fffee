use simplelog::backend::{
    create_log_line, ConfigError, SinkError, Step, WorkerEvent, HEARTBEAT_MILLIS,
};
use simplelog::clock::{MAX_UNIX_SECS, MIN_UNIX_SECS};
use simplelog::types::should_emit;
use simplelog::{Backend, LogError, LogLevel, Logger, LoggingMessage, Timestamp};
use std::time::Duration;

const LEVELS: [LogLevel; 5] = [
    LogLevel::Debug,
    LogLevel::Info,
    LogLevel::Warn,
    LogLevel::Error,
    LogLevel::Fatal,
];

fn stamp(secs: i64, nanos: u32) -> Timestamp {
    Timestamp::from_unix(secs, nanos).unwrap()
}

fn sample(level: LogLevel) -> LoggingMessage {
    LoggingMessage::new(
        level,
        String::from("src"),
        stamp(1431648000, 0),
        String::from("hello"),
    )
}

#[test]
fn filter_matrix_follows_rank() {
    for (i, level) in LEVELS.iter().enumerate() {
        for (j, threshold) in LEVELS.iter().enumerate() {
            assert_eq!(should_emit(*level, *threshold), i >= j);
        }
    }
    assert!(should_emit(LogLevel::Fatal, LogLevel::Fatal));
    assert!(!should_emit(LogLevel::Error, LogLevel::Fatal));
    assert!(should_emit(LogLevel::Debug, LogLevel::Debug));
}

#[test]
fn ranks_and_names() {
    let ranks: Vec<i32> = LEVELS.iter().map(i32::from).collect();
    assert_eq!(ranks, vec![0, 1, 2, 3, 4]);
    let names: Vec<&str> = LEVELS.iter().map(|l| l.name()).collect();
    assert_eq!(names, vec!["DEBUG", "INFO", "WARN", "ERROR", "FATAL"]);
    assert_eq!(LogLevel::Error.rank(), 3);
}

#[test]
fn timestamp_range() {
    assert!(Timestamp::from_unix(MIN_UNIX_SECS, 0).is_some());
    assert!(Timestamp::from_unix(MAX_UNIX_SECS, 999_999_999).is_some());
    assert!(Timestamp::from_unix(MIN_UNIX_SECS - 1, 0).is_none());
    assert!(Timestamp::from_unix(MAX_UNIX_SECS + 1, 0).is_none());
    assert!(Timestamp::from_unix(0, 1_000_000_000).is_none());
    let t = stamp(-5, 7);
    assert_eq!((t.secs(), t.nanos()), (-5, 7));
}

#[test]
fn timestamp_rendering() {
    assert_eq!(stamp(1431648000, 0).render(), "2015-05-15 00:00:00 UTC");
    assert_eq!(stamp(1431648000, 250_000_000).render(), "2015-05-15 00:00:00.250 UTC");
    assert_eq!(stamp(0, 0).render(), "1970-01-01 00:00:00 UTC");
    assert_eq!(stamp(MAX_UNIX_SECS, 0).render(), "+262142-12-31 23:59:59 UTC");
    assert_eq!(stamp(MIN_UNIX_SECS, 0).render(), "-262143-01-01 00:00:00 UTC");
}

#[test]
fn current_time_is_after_epoch() {
    assert!(Timestamp::now().secs() > 1_500_000_000);
}

#[test]
fn log_line_layout() {
    assert_eq!(
        create_log_line(&sample(LogLevel::Warn)),
        "src - WARN - 2015-05-15 00:00:00 UTC - hello\n"
    );
    assert_eq!(
        create_log_line(&sample(LogLevel::Fatal)),
        "src - FATAL - 2015-05-15 00:00:00 UTC - hello\n"
    );
}

#[test]
fn formatting_is_deterministic() {
    for level in LEVELS {
        assert_eq!(create_log_line(&sample(level)), create_log_line(&sample(level)));
    }
}

#[test]
fn message_accessors() {
    let m = sample(LogLevel::Info);
    assert_eq!(m.level(), LogLevel::Info);
    assert_eq!(m.from(), "src");
    assert_eq!(m.when(), stamp(1431648000, 0));
    assert_eq!(m.msg(), "hello");
}

#[test]
fn folder_output_is_refused() {
    let r = Backend::new().to_folder(&std::path::PathBuf::from("/tmp/logs"));
    assert!(matches!(r, Err(ConfigError::FolderUnsupported)));
}

#[test]
fn idle_and_closed_cycles_write_nothing() {
    let (tx, _rx) = crossbeam::channel::unbounded::<String>();
    let backend = Backend::new().to_stdout().to_channel(&tx);
    let idle = backend.plan(WorkerEvent::Idle);
    assert!(idle.stdout.is_none() && idle.forward.is_none() && idle.keep_running);
    let closed = backend.plan(WorkerEvent::Closed);
    assert!(closed.stdout.is_none() && closed.forward.is_none() && !closed.keep_running);
}

#[test]
fn received_message_reaches_configured_sinks_only() {
    let line = "src - ERROR - 2015-05-15 00:00:00 UTC - hello\n";
    let (tx, _rx) = crossbeam::channel::unbounded::<String>();
    let both: Step = Backend::new()
        .to_stdout()
        .to_channel(&tx)
        .plan(WorkerEvent::Received(sample(LogLevel::Error)));
    assert_eq!(both.stdout.as_deref(), Some(line));
    assert_eq!(both.forward.as_deref(), Some(line));
    assert!(both.keep_running);
    let none = Backend::new().plan(WorkerEvent::Received(sample(LogLevel::Error)));
    assert!(none.stdout.is_none() && none.forward.is_none() && none.keep_running);
    let console = Backend::new()
        .to_stdout()
        .plan(WorkerEvent::Received(sample(LogLevel::Error)));
    assert_eq!(console.stdout.as_deref(), Some(line));
    assert!(console.forward.is_none());
}

#[test]
fn client_message_respects_threshold() {
    let (channel, _worker) = Backend::new().build();
    let logger = Logger::new(String::from("api"), LogLevel::Warn, &channel);
    let when = stamp(10, 0);
    assert!(logger.message(LogLevel::Info, "x", when).is_none());
    let m = logger.message(LogLevel::Error, "disk full", when).unwrap();
    assert_eq!(m.level(), LogLevel::Error);
    assert_eq!(m.from(), "api");
    assert_eq!(m.when(), when);
    assert_eq!(m.msg(), "disk full");
}

#[test]
fn every_level_method_submits() {
    let (tx, rx) = crossbeam::channel::unbounded::<String>();
    let (channel, worker) = Backend::new().to_channel(&tx).build();
    let logger = Logger::new(String::from("all"), LogLevel::Debug, &channel);
    logger.debug("a").unwrap();
    logger.info("b").unwrap();
    logger.warn("c").unwrap();
    logger.error("d").unwrap();
    logger.fatal("e").unwrap();
    let mut seen = Vec::new();
    for _ in 0..5 {
        let step = worker.next_step();
        worker.forward(step.forward.unwrap()).unwrap();
        seen.push(rx.recv_timeout(Duration::from_secs(2)).unwrap());
    }
    let expect = [("DEBUG", "a"), ("INFO", "b"), ("WARN", "c"), ("ERROR", "d"), ("FATAL", "e")];
    for (line, (level, text)) in seen.iter().zip(expect.iter()) {
        assert!(line.starts_with(&format!("all - {} - ", level)));
        assert!(line.ends_with(&format!(" - {}\n", text)));
    }
}

#[test]
fn many_clients_give_one_line_each() {
    let (tx, rx) = crossbeam::channel::unbounded::<String>();
    let (channel, worker) = Backend::new().to_channel(&tx).build();
    let n: usize = 8;
    let loggers: Vec<Logger> = (0..n)
        .map(|i| Logger::new(format!("client{}", i), LogLevel::Debug, &channel))
        .collect();
    crossbeam::scope(|scope| {
        for (i, logger) in loggers.iter().enumerate() {
            scope.spawn(move |_| logger.info(&format!("message {}", i)).unwrap());
        }
    })
    .unwrap();
    for _ in 0..n {
        let step = worker.next_step();
        worker.forward(step.forward.unwrap()).unwrap();
    }
    let idle = worker.next_step();
    assert!(idle.forward.is_none() && idle.keep_running);
    let mut lines: Vec<String> = rx.try_iter().collect();
    assert_eq!(lines.len(), n);
    lines.sort();
    for (i, line) in lines.iter().enumerate() {
        assert!(line.starts_with(&format!("client{} - INFO - ", i)));
        assert!(line.ends_with(&format!(" - message {}\n", i)));
    }
}

#[test]
fn idle_worker_sends_nothing() {
    let (tx, rx) = crossbeam::channel::unbounded::<String>();
    let (_channel, worker) = Backend::new().to_stdout().to_channel(&tx).build();
    let start = std::time::Instant::now();
    let step = worker.next_step();
    assert!(start.elapsed() >= Duration::from_millis(HEARTBEAT_MILLIS));
    assert!(step.stdout.is_none() && step.forward.is_none() && step.keep_running);
    assert!(rx.try_recv().is_err());
}

#[test]
fn worker_stops_when_clients_are_gone() {
    let (channel, worker) = Backend::new().build();
    let logger = Logger::new(String::from("short"), LogLevel::Debug, &channel);
    drop(logger);
    drop(channel);
    assert!(matches!(worker.wait(), WorkerEvent::Closed));
    assert!(!worker.next_step().keep_running);
}

#[test]
fn client_reports_missing_worker() {
    let (channel, worker) = Backend::new().build();
    let logger = Logger::new(String::from("late"), LogLevel::Info, &channel);
    drop(worker);
    assert_eq!(logger.warn("lost"), Err(LogError::Disconnected));
    assert_eq!(logger.debug("filtered"), Ok(()));
}

#[test]
fn forwarding_failures_are_reported() {
    let (_channel, worker) = Backend::new().build();
    assert_eq!(worker.forward(String::from("x")), Err(SinkError::NoChannel));
    let (tx, rx) = crossbeam::channel::unbounded::<String>();
    let (_channel2, worker2) = Backend::new().to_channel(&tx).build();
    drop(rx);
    assert_eq!(worker2.forward(String::from("x")), Err(SinkError::Closed));
}

#[test]
fn builder_settings() {
    let (tx, _rx) = crossbeam::channel::unbounded::<String>();
    let b = Backend::new();
    assert_eq!(b.worker_name(), "Logging-backend");
    assert!(!b.has_stdout() && !b.has_channel());
    let b = b.name("worker-1").to_stdout().to_channel(&tx);
    assert_eq!(b.worker_name(), "worker-1");
    assert!(b.has_stdout() && b.has_channel());
    let (_channel, worker) = b.build();
    assert_eq!(worker.settings().worker_name(), "worker-1");
}
