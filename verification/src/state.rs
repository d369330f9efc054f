//! What the parts of the shared state have in common: the settings that
//! never change, and the names under which the guarded fields fail.
//!
//! The credential, the cache slot and the subscriber registry are guarded one
//! by one, so that a reader of one never waits for a writer of another. A
//! guard that cannot be taken fails the request that asked for it, with an
//! error that names the field, and nothing else.

use vstd::prelude::*;
use vstd::string::StringExecFns;
use crate::errors::ShowMeErrors;
use crate::text::join;
use crate::text::pairs_view;

verus! {

/// A guarded field of the shared state.
#[derive(Clone, Copy, PartialEq, Eq, Structural, Debug)]
pub enum Field {
    /// The cached bearer token.
    Token,
    /// The claims of the assertion that obtained it.
    Payload,
    /// The script catalogue, where it is written.
    ScriptList,
    /// The script catalogue, where it is read.
    ScriptsEndpoint,
    /// The id of the transaction that is watched.
    TransactionId,
    /// The registry of subscribers.
    Subscribers,
}

/// The name under which a field fails.
pub open spec fn field_name(field: Field) -> Seq<char> {
    match field {
        Field::Token => "token"@,
        Field::Payload => "payload"@,
        Field::ScriptList => "script list"@,
        Field::ScriptsEndpoint => "get scripts endpoint"@,
        Field::TransactionId => "transaction_id"@,
        Field::Subscribers => "subscribers"@,
    }
}

/// The failure of a request that could not take the guard of `field`.
pub fn locking_error(field: Field) -> (error: ShowMeErrors)
    ensures
        error matches ShowMeErrors::SharedLocking(name) && name@ == field_name(field),
{
    let name = match field {
        Field::Token => "token",
        Field::Payload => "payload",
        Field::ScriptList => "script list",
        Field::ScriptsEndpoint => "get scripts endpoint",
        Field::TransactionId => "transaction_id",
        Field::Subscribers => "subscribers",
    };
    ShowMeErrors::SharedLocking(String::from_str(name))
}

/// What is guarded, or the failure that names the field whose guard could not
/// be taken.
pub fn guarded<T>(taken: Option<T>, field: Field) -> (r: Result<T, ShowMeErrors>)
    ensures
        taken matches Some(value) ==> r == Ok::<T, ShowMeErrors>(value),
        taken is None ==> (r matches Err(ShowMeErrors::SharedLocking(name)) && name@
            == field_name(field)),
{
    match taken {
        Some(value) => Ok(value),
        None => Err(locking_error(field)),
    }
}

/// The settings that are read once at startup: the platform's domain, the
/// key and the secret of its monitoring and log interfaces, and the address
/// of its logs.
#[derive(Debug, PartialEq, Eq)]
pub struct Settings {
    pub dom: String,
    pub key: String,
    pub sec: String,
    pub log: String,
}

/// One of the platform's services that can be monitored.
#[derive(Clone, Copy, PartialEq, Eq, Structural, Debug)]
pub enum Monitored {
    Idm,
    Am,
}

/// Where the platform at `dom` reports the metrics of a service.
pub open spec fn metrics_location(dom: Seq<char>, service: Monitored) -> Seq<char> {
    match service {
        Monitored::Idm => dom + "/monitoring/prometheus/idm"@,
        Monitored::Am => dom + "/monitoring/prometheus/am"@,
    }
}

/// Where the platform at `dom` lists its journeys.
pub fn journeys_url(dom: &str) -> (url: String)
    ensures
        url@ == dom@
            + "/am/json/realms/root/realms/alpha/realm-config/authentication/authenticationtrees/trees?_queryFilter=true"@,
{
    join(
        dom,
        "/am/json/realms/root/realms/alpha/realm-config/authentication/authenticationtrees/trees?_queryFilter=true",
    )
}

impl Settings {
    /// Where the platform reports the metrics of `service`.
    pub fn metrics_url(&self, service: Monitored) -> (url: String)
        ensures
            url@ == metrics_location(self.dom@, service),
    {
        match service {
            Monitored::Idm => join(self.dom.as_str(), "/monitoring/prometheus/idm"),
            Monitored::Am => join(self.dom.as_str(), "/monitoring/prometheus/am"),
        }
    }

    /// The two headers that open the monitoring and log interfaces.
    pub fn api_headers(&self) -> (headers: Vec<(String, String)>)
        ensures
            pairs_view(headers@) == seq![("x-api-key"@, self.key@), ("x-api-secret"@, self.sec@)],
    {
        let mut headers: Vec<(String, String)> = Vec::new();
        headers.push((String::from_str("x-api-key"), self.key.clone()));
        headers.push((String::from_str("x-api-secret"), self.sec.clone()));
        assert(pairs_view(headers@) =~= seq![
            ("x-api-key"@, self.key@),
            ("x-api-secret"@, self.sec@),
        ]);
        headers
    }
}

} // verus!
