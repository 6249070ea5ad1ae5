use std::io::Write;
use std::sync::{Arc, Mutex};
use subscriber_service::telemetry::{
    get_subscriber, init_subscriber, AlreadyInstalledError, FilterOrigin, InstallGuard,
    InstallStage,
};
use tracing_log::log::{logger, Level, Record};
use tracing_subscriber::fmt::writer::BoxMakeWriter;

struct Capture(Arc<Mutex<Vec<u8>>>);

impl Write for Capture {
    fn write(&mut self, bytes: &[u8]) -> std::io::Result<usize> {
        self.0.lock().unwrap().extend_from_slice(bytes);
        Ok(bytes.len())
    }

    fn flush(&mut self) -> std::io::Result<()> {
        Ok(())
    }
}

fn emit(level: Level) {
    logger().log(&Record::builder().level(level).target("install_test").build());
}

fn text(written: &Arc<Mutex<Vec<u8>>>) -> String {
    String::from_utf8(written.lock().unwrap().clone()).unwrap()
}

#[test]
fn install_once_then_refuse() {
    let written = Arc::new(Mutex::new(Vec::new()));
    let sink = written.clone();
    let pipeline = get_subscriber(
        "orders".to_string(),
        "info".to_string(),
        None,
        BoxMakeWriter::new(move || Capture(sink.clone())),
    );
    assert_eq!(pipeline.name, "orders");
    assert_eq!(pipeline.default_directive, "info");
    assert_eq!(pipeline.origin, FilterOrigin::Fallback);

    let mut guard = InstallGuard::new();
    assert!(!guard.is_spent());
    assert_eq!(init_subscriber(&mut guard, pipeline), Ok(()));
    assert!(guard.is_spent());

    emit(Level::Error);
    let after_error = text(&written);
    assert_eq!(after_error.lines().count(), 1);
    assert!(after_error.contains("\"name\":\"orders\""));
    assert!(after_error.contains("\"level\":50"));
    emit(Level::Debug);
    assert_eq!(text(&written), after_error);

    let mut calls = 0;
    while calls < 3 {
        let again = get_subscriber(
            "other".to_string(),
            "debug".to_string(),
            None,
            BoxMakeWriter::new(std::io::sink),
        );
        assert_eq!(
            init_subscriber(&mut guard, again),
            Err(AlreadyInstalledError { stage: InstallStage::Guard })
        );
        assert!(guard.is_spent());
        calls += 1;
    }

    let third = get_subscriber(
        "third".to_string(),
        "debug".to_string(),
        None,
        BoxMakeWriter::new(std::io::sink),
    );
    let mut fresh = InstallGuard::new();
    assert_eq!(
        init_subscriber(&mut fresh, third),
        Err(AlreadyInstalledError { stage: InstallStage::LogBridge })
    );
    assert!(fresh.is_spent());

    emit(Level::Error);
    assert_eq!(text(&written).lines().count(), 2);
}

#[test]
fn environment_directive_decides_what_passes() {
    let written = Arc::new(Mutex::new(Vec::new()));
    let sink = written.clone();
    let pipeline = get_subscriber(
        "ledger".to_string(),
        "error".to_string(),
        Some("debug".to_string()),
        BoxMakeWriter::new(move || Capture(sink.clone())),
    );
    assert_eq!(pipeline.origin, FilterOrigin::Environment);

    let mut guard = InstallGuard::new();
    assert_eq!(init_subscriber(&mut guard, pipeline), Ok(()));

    emit(Level::Debug);
    let after_debug = text(&written);
    assert_eq!(after_debug.lines().count(), 1);
    assert!(after_debug.contains("\"name\":\"ledger\""));
    assert!(after_debug.contains("\"level\":20"));
    emit(Level::Trace);
    assert_eq!(text(&written), after_debug);
}
