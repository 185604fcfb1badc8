//! Storage failures and the health report built from the stores' pings.
use vstd::prelude::*;
use vstd::string::*;

use crate::dto::{ComponentHealth, HealthResponse};
use crate::error::CrewError;

verus! {

/// A failure of Postgres or Mongo. `source` is the text of the driver's
/// error.
#[derive(Debug)]
pub enum StoreError {
    Connect { store: &'static str, source: String },
    Init { store: &'static str, source: String },
    Migrate(String),
    Query { store: &'static str, source: String },
}

impl StoreError {
    pub open spec fn display_text(&self) -> Seq<char> {
        match self {
            StoreError::Connect { store, source } => "cannot connect to "@ + store@ + ": "@
                + source@,
            StoreError::Init { store, source } => "cannot initialize "@ + store@ + ": "@
                + source@,
            StoreError::Migrate(source) => "migration failed: "@ + source@,
            StoreError::Query { store, source } => store@ + " query failed: "@ + source@,
        }
    }

    /// The text `Display` would print for the error.
    pub fn to_string(&self) -> (s: String)
        ensures
            s@ == self.display_text(),
    {
        match self {
            StoreError::Connect { store, source } => {
                let mut s = String::from_str("cannot connect to ");
                s.append(store);
                s.append(": ");
                s.append(source.as_str());
                s
            },
            StoreError::Init { store, source } => {
                let mut s = String::from_str("cannot initialize ");
                s.append(store);
                s.append(": ");
                s.append(source.as_str());
                s
            },
            StoreError::Migrate(source) => {
                let mut s = String::from_str("migration failed: ");
                s.append(source.as_str());
                s
            },
            StoreError::Query { store, source } => {
                let mut s = String::from_str(store);
                s.append(" query failed: ");
                s.append(source.as_str());
                s
            },
        }
    }
}

/// Every storage failure is a backend problem, which clients surface as exit
/// status 5.
impl From<StoreError> for CrewError {
    fn from(err: StoreError) -> (e: CrewError)
        ensures
            e matches CrewError::Storage(m) && m@ == err.display_text(),
    {
        CrewError::Storage(err.to_string())
    }
}

/// The storage message is a `String` built at run time, which no spec function
/// can construct; the exact result is stated on `from` itself instead.
impl vstd::std_specs::convert::FromSpecImpl<StoreError> for CrewError {
    open spec fn obeys_from_spec() -> bool {
        false
    }

    open spec fn from_spec(err: StoreError) -> CrewError {
        CrewError::Storage(vstd::pervasive::arbitrary())
    }
}

/// What a component reports for the outcome of its ping.
pub open spec fn reports_ping(c: ComponentHealth, ping: Result<(), StoreError>) -> bool {
    &&& c.version is None
    &&& match ping {
        Ok(_) => c.ok && c.message is None,
        Err(e) => !c.ok && (c.message matches Some(m) && m@ == e.display_text()),
    }
}

impl HealthResponse {
    /// The health report from the two stores' pings: the server is up and
    /// names its version; each store is up exactly when its ping succeeded,
    /// and otherwise says what failed.
    pub fn from_pings(
        postgres: &Result<(), StoreError>,
        mongo: &Result<(), StoreError>,
        version: &str,
    ) -> (h: HealthResponse)
        ensures
            h.server.ok,
            h.server.version matches Some(v) && v@ == version@,
            h.server.message is None,
            reports_ping(h.postgres, *postgres),
            reports_ping(h.mongo, *mongo),
            (h.server.ok && h.postgres.ok && h.mongo.ok) <==> (postgres is Ok && mongo is Ok),
    {
        let pg = match postgres {
            Ok(()) => ComponentHealth::ok(),
            Err(e) => ComponentHealth::failed(e.to_string().as_str()),
        };
        let mg = match mongo {
            Ok(()) => ComponentHealth::ok(),
            Err(e) => ComponentHealth::failed(e.to_string().as_str()),
        };
        HealthResponse { server: ComponentHealth::ok_with_version(version), postgres: pg, mongo: mg }
    }
}

} // verus!
