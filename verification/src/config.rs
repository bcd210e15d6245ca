use vstd::prelude::*;

verus! {

/// Startup configuration shared by the whole service: where to serve, where
/// the store lives, and where the two telemetry collectors listen.
pub struct AppConfig {
    pub server_addr: String,
    pub database_url: String,
    pub otel_endpoint: String,
    pub pyroscope_endpoint: String,
}

impl AppConfig {
    /// Resolves the configuration from optionally-present settings, falling
    /// back to the documented default for each one that is absent.
    pub fn from_values(
        server_addr: Option<String>,
        database_url: Option<String>,
        otel_endpoint: Option<String>,
        pyroscope_endpoint: Option<String>,
    ) -> (config: AppConfig)
        ensures
            config.server_addr@ == (match server_addr {
                Some(s) => s@,
                None => "0.0.0.0:8000"@,
            }),
            config.database_url@ == (match database_url {
                Some(s) => s@,
                None => "sqlite:./demo.db?mode=rwc"@,
            }),
            config.otel_endpoint@ == (match otel_endpoint {
                Some(s) => s@,
                None => "http://localhost:4317"@,
            }),
            config.pyroscope_endpoint@ == (match pyroscope_endpoint {
                Some(s) => s@,
                None => "http://localhost:4040"@,
            }),
    {
        AppConfig {
            server_addr: match server_addr {
                Some(s) => s,
                None => "0.0.0.0:8000".to_owned(),
            },
            database_url: match database_url {
                Some(s) => s,
                None => "sqlite:./demo.db?mode=rwc".to_owned(),
            },
            otel_endpoint: match otel_endpoint {
                Some(s) => s,
                None => "http://localhost:4317".to_owned(),
            },
            pyroscope_endpoint: match pyroscope_endpoint {
                Some(s) => s,
                None => "http://localhost:4040".to_owned(),
            },
        }
    }
}

} // verus!
