//! The health check of the backend: a service that knows whether its
//! database answers, and the status that the health route reports for it.

use vstd::prelude::*;

verus! {

/// A service that keeps structured data in a database and can say whether
/// the database answers.
pub trait PersistentStructureDataService {
    /// Whether a connection check of this service may come back as
    /// `connected`. A service whose database decides admits both answers,
    /// and so does every service that does not say otherwise.
    open spec fn may_report(&self, connected: bool) -> bool {
        true
    }

    /// Checks whether the database connection is active.
    fn is_connected(&self) -> (connected: bool)
        ensures
            self.may_report(connected),
    ;
}

/// A stand-in service whose answer is fixed when it is made.
pub struct NeonTestService {
    connected: bool,
}

impl NeonTestService {
    /// The answer that this service gives to every connection check.
    pub closed spec fn answer(&self) -> bool {
        self.connected
    }

    /// A service that reports `connected` whenever it is asked.
    pub fn new(connected: bool) -> (service: NeonTestService)
        ensures
            service.answer() == connected,
    {
        NeonTestService { connected }
    }
}

impl PersistentStructureDataService for NeonTestService {
    open spec fn may_report(&self, connected: bool) -> bool {
        connected == self.answer()
    }

    fn is_connected(&self) -> (connected: bool) {
        self.connected
    }
}

/// What the application hands to its routes: the data service.
pub struct AppState<S: PersistentStructureDataService> {
    /// The data service.
    pub service: S,
}

/// What the health route answers.
#[derive(Clone, Copy, PartialEq, Eq, Structural, Debug)]
pub enum HealthStatus {
    /// The database answers.
    Healthy,
    /// The database does not answer.
    ServiceUnavailable,
}

impl HealthStatus {
    /// The HTTP status code of the answer.
    pub open spec fn status_code(self) -> u16 {
        match self {
            HealthStatus::Healthy => 200,
            HealthStatus::ServiceUnavailable => 503,
        }
    }

    /// The HTTP status code of the answer: 200 or 503.
    pub fn code(&self) -> (code: u16)
        ensures
            code == self.status_code(),
    {
        match self {
            HealthStatus::Healthy => 200,
            HealthStatus::ServiceUnavailable => 503,
        }
    }
}

/// The health for a given result of the connection check.
pub open spec fn health_of(connected: bool) -> HealthStatus {
    if connected {
        HealthStatus::Healthy
    } else {
        HealthStatus::ServiceUnavailable
    }
}

/// Turns the result of a connection check into the answer of the health
/// route: healthy when connected, unavailable when not.
pub fn health_status(connected: bool) -> (status: HealthStatus)
    ensures
        status == health_of(connected),
{
    if connected {
        HealthStatus::Healthy
    } else {
        HealthStatus::ServiceUnavailable
    }
}

/// Asks the service of `state` once whether its database answers and
/// reports the health for what it said: healthy only if the service may
/// report a connection, unavailable only if it may report none.
pub fn is_health<S: PersistentStructureDataService>(state: &AppState<S>) -> (status: HealthStatus)
    ensures
        state.service.may_report(status == HealthStatus::Healthy),
{
    health_status(state.service.is_connected())
}

/// The health route answers for the stand-in service exactly as the
/// service was made: whatever `is_health` may report for it is the health
/// of its fixed answer.
pub proof fn lemma_stand_in_health(service: NeonTestService, status: HealthStatus)
    requires
        service.may_report(status == HealthStatus::Healthy),
    ensures
        status == health_of(service.answer()),
{
}

} // verus!
