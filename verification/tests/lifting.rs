use auth_error::convert::lift_czmq_rendered;
use auth_error::convert::lift_io;
use auth_error::convert::lift_io_rendered;
use auth_error::convert::lift_log_init;
use auth_error::convert::lift_log_init_rendered;
use auth_error::convert::lift_serde_json;
use auth_error::convert::lift_serde_json_rendered;
use auth_error::convert::lift_zdaemon_rendered;
use auth_error::convert::lift_zmq_encode_rendered;
use auth_error::error::Error;

#[test]
fn io_lift_keeps_rendered_message() {
    let source = std::io::Error::new(std::io::ErrorKind::NotFound, "no such certificate file");
    let rendered = format!("{}", source);
    let lifted = lift_io(source);
    assert!(matches!(lifted, Error::Io(_)));
    assert_eq!(lifted.message(), format!("IO error: {}", rendered));
    assert!(lifted.message().contains(&rendered));
    assert!(!lifted.description().is_empty());
}

#[test]
fn io_lift_of_file_not_found_scenario() {
    let source = std::io::Error::from(std::io::ErrorKind::NotFound);
    let platform_rendered = format!("{}", source);
    let lifted = lift_io(source);
    assert_eq!(lifted.message(), format!("IO error: {}", platform_rendered));
}

#[allow(deprecated)]
#[test]
fn serde_json_lift_keeps_rendered_message() {
    let source = serde_json::from_str::<serde_json::Value>("{ not json").unwrap_err();
    let rendered = format!("{}", source);
    let described = std::error::Error::description(&source).to_string();
    let lifted = lift_serde_json(source);
    assert!(matches!(lifted, Error::SerdeJson(_)));
    assert_eq!(lifted.message(), format!("Serde JSON error: {}", rendered));
    assert!(lifted.message().contains(&rendered));
    assert_eq!(lifted.description(), described);
}

struct NullLogger;

impl log::Log for NullLogger {
    fn enabled(&self, _metadata: &log::Metadata) -> bool {
        false
    }

    fn log(&self, _record: &log::Record) {}

    fn flush(&self) {}
}

#[allow(deprecated)]
#[test]
fn log_init_lift_keeps_rendered_message() {
    let logger: &'static NullLogger = Box::leak(Box::new(NullLogger));
    // The first registration may succeed; the second must fail.
    let _ = log::set_logger(logger);
    let source = log::set_logger(logger).unwrap_err();
    let rendered = format!("{}", source);
    let described = std::error::Error::description(&source).to_string();
    let lifted = lift_log_init(source);
    assert!(matches!(lifted, Error::LogInit(_)));
    assert_eq!(
        lifted.message(),
        "Log init error: attempted to set a logger after the logging system was already initialized"
    );
    assert!(lifted.message().contains(&rendered));
    assert_eq!(lifted.description(), described);
}

#[test]
fn rendered_text_constructors_keep_both_strings() {
    let e = lift_io_rendered("permission denied".to_string(), "io cause".to_string());
    assert!(matches!(e, Error::Io(_)));
    assert_eq!(e.message(), "IO error: permission denied");
    assert_eq!(e.description(), "io cause");

    let e = lift_log_init_rendered("double init".to_string(), "log cause".to_string());
    assert!(matches!(e, Error::LogInit(_)));
    assert_eq!(e.message(), "Log init error: double init");
    assert_eq!(e.description(), "log cause");

    let e = lift_serde_json_rendered("eof at line 1".to_string(), "json cause".to_string());
    assert!(matches!(e, Error::SerdeJson(_)));
    assert_eq!(e.message(), "Serde JSON error: eof at line 1");
    assert_eq!(e.description(), "json cause");

    let e = lift_czmq_rendered("interrupted".to_string(), "czmq cause".to_string());
    assert!(matches!(e, Error::Czmq(_)));
    assert_eq!(e.message(), "CZMQ error: interrupted");
    assert_eq!(e.description(), "czmq cause");

    let e = lift_zdaemon_rendered("endpoint taken".to_string(), "zdaemon cause".to_string());
    assert!(matches!(e, Error::ZDaemon(_)));
    assert_eq!(e.message(), "ZDaemon error: endpoint taken");
    assert_eq!(e.description(), "zdaemon cause");

    let e = lift_zmq_encode_rendered("bad length".to_string());
    assert!(matches!(e, Error::ZmqEncode(_)));
    assert_eq!(e.message(), "Could not encode Z85 string: bad length");
    assert_eq!(e.description(), "Could not encode Z85 string");
}

#[test]
fn lifted_json_description_is_nonempty() {
    let json_err = serde_json::from_str::<serde_json::Value>("").unwrap_err();
    assert!(!lift_serde_json(json_err).description().is_empty());
}
