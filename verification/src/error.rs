use vstd::prelude::*;

verus! {

/// State-misuse failures of the telemetry lifecycle: every variant marks a
/// call made out of its required order, which is rejected explicitly and
/// changes nothing.
#[derive(Clone, Copy, PartialEq, Eq, Structural, Debug)]
pub enum TelemetryError {
    SinkAlreadyInstalled,
    AgentNotReady,
    AgentNotRunning,
    AgentNotStopped,
    LoggerAlreadyShutDown,
    GuardAlreadyShutDown,
}

/// The service's unified error type.
#[derive(Debug)]
pub enum AppError {
    NotFound(String),
    Validation(String),
    Internal(String),
    Database(String),
}

impl AppError {
    /// The HTTP status, body code and client-facing message for this error.
    /// A database error never leaks its detail: the client sees a generic
    /// message.
    pub fn response_parts(&self) -> (r: (u16, i32, String))
        ensures
            (match self {
                AppError::NotFound(m) => r.0 == 404 && r.1 == 404 && r.2@ == m@,
                AppError::Validation(m) => r.0 == 400 && r.1 == 400 && r.2@ == m@,
                AppError::Internal(m) => r.0 == 500 && r.1 == 500 && r.2@ == m@,
                AppError::Database(_) => r.0 == 500 && r.1 == 500 && r.2@
                    == "Internal server error"@,
            }),
    {
        match self {
            AppError::NotFound(m) => (404, 404, m.clone()),
            AppError::Validation(m) => (400, 400, m.clone()),
            AppError::Internal(m) => (500, 500, m.clone()),
            AppError::Database(_) => (500, 500, "Internal server error".to_owned()),
        }
    }

    /// Builds the variant that wraps a failure of the data store, keeping
    /// its detail for the operator log.
    pub fn from_database_message(detail: String) -> (r: AppError)
        ensures
            r matches AppError::Database(m) && m@ == detail@,
    {
        AppError::Database(detail)
    }
}

} // verus!
