use dinosaur::service::{
    health_status, is_health, AppState, HealthStatus, NeonTestService,
    PersistentStructureDataService,
};

#[test]
fn service_test_neon_test_service_connected() {
    let service = NeonTestService::new(true);
    assert!(service.is_connected());
}

#[test]
fn service_test_neon_test_service_disconnected() {
    let service = NeonTestService::new(false);
    assert!(!service.is_connected());
}

#[test]
fn lib_test_neon_test_service_connected() {
    let service = NeonTestService::new(true);
    assert!(service.is_connected());
    assert!(service.is_connected());
}

#[test]
fn lib_test_neon_test_service_disconnected() {
    let service = NeonTestService::new(false);
    assert!(!service.is_connected());
    assert!(!service.is_connected());
}

#[test]
fn health_api_test_is_health_returns_ok_when_connected() {
    let state = AppState { service: NeonTestService::new(true) };
    let status = is_health(&state);
    assert_eq!(status, HealthStatus::Healthy);
    assert_eq!(status.code(), 200);
}

#[test]
fn health_api_test_is_health_returns_service_unavailable_when_disconnected() {
    let state = AppState { service: NeonTestService::new(false) };
    let status = is_health(&state);
    assert_eq!(status, HealthStatus::ServiceUnavailable);
    assert_eq!(status.code(), 503);
}

#[test]
fn is_health_test_test_is_health_returns_ok_when_connected() {
    let service = NeonTestService::new(true);
    let state = AppState { service };
    assert_eq!(is_health(&state).code(), 200);
}

#[test]
fn is_health_test_test_is_health_returns_service_unavailable_when_disconnected() {
    let service = NeonTestService::new(false);
    let state = AppState { service };
    assert_eq!(is_health(&state).code(), 503);
}

#[test]
fn health_status_maps_each_answer() {
    assert_eq!(health_status(true), HealthStatus::Healthy);
    assert_eq!(health_status(false), HealthStatus::ServiceUnavailable);
    assert_eq!(HealthStatus::Healthy.code(), 200);
    assert_eq!(HealthStatus::ServiceUnavailable.code(), 503);
}

struct Flaky {
    answers: std::cell::Cell<u32>,
}

impl PersistentStructureDataService for Flaky {
    fn is_connected(&self) -> bool {
        let asked = self.answers.get();
        self.answers.set(asked + 1);
        asked % 2 == 0
    }
}

#[test]
fn is_health_asks_the_service_once_per_call() {
    let state = AppState { service: Flaky { answers: std::cell::Cell::new(0) } };
    assert_eq!(is_health(&state), HealthStatus::Healthy);
    assert_eq!(state.service.answers.get(), 1);
    assert_eq!(is_health(&state), HealthStatus::ServiceUnavailable);
    assert_eq!(state.service.answers.get(), 2);
}
