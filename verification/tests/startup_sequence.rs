use backend::http::ServiceError;
use backend::startup::{step, Startup, StartupEvent};

#[test]
fn startup_happy_path_reaches_accepting() {
    let s = Startup::Init;
    let s = step(s, StartupEvent::PoolInit(true));
    assert_eq!(s, Startup::PoolReady);
    let s = step(s, StartupEvent::Bind(true));
    assert_eq!(s, Startup::Accepting);
}

#[test]
fn unreachable_backend_fails_startup_before_accepting() {
    let s = Startup::Init;
    let s = step(s, StartupEvent::PoolInit(false));
    assert_eq!(s, Startup::Failed(ServiceError::ConnectionError));
    let s = step(s, StartupEvent::Bind(true));
    assert_eq!(s, Startup::Failed(ServiceError::ConnectionError));
}

#[test]
fn bind_failure_is_fatal() {
    let s = Startup::Init;
    let s = step(s, StartupEvent::PoolInit(true));
    let s = step(s, StartupEvent::Bind(false));
    assert_eq!(s, Startup::Failed(ServiceError::BindError));
    let s = step(s, StartupEvent::PoolInit(true));
    assert_eq!(s, Startup::Failed(ServiceError::BindError));
}

#[test]
fn bind_before_pool_init_changes_nothing() {
    let s = Startup::Init;
    let s = step(s, StartupEvent::Bind(true));
    assert_eq!(s, Startup::Init);
}
