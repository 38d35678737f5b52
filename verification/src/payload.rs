//! The two records that the service answers with, and their JSON bodies.

use crate::clock::{is_utc_timestamp, utc_now_rfc3339};
use crate::json::{encode_string, is_plain, json_string, quoted};
use vstd::prelude::*;

verus! {

/// Name by which the service reports itself.
pub const SERVICE_NAME: &'static str = "Zeus Orchestrator";

/// Version that the service reports.
pub const SERVICE_VERSION: &'static str = "0.1.0";

/// Status reported by the root route.
pub const STATUS_RUNNING: &'static str = "running";

/// Status reported by the health route.
pub const STATUS_HEALTHY: &'static str = "healthy";

/// What the root route reports.
#[derive(Debug, PartialEq, Eq)]
pub struct StatusInfo {
    pub service: String,
    pub version: String,
    pub status: String,
}

/// The mathematical content of a [`StatusInfo`].
pub struct StatusInfoView {
    pub service: Seq<char>,
    pub version: Seq<char>,
    pub status: Seq<char>,
}

impl View for StatusInfo {
    type V = StatusInfoView;

    open spec fn view(&self) -> StatusInfoView {
        StatusInfoView { service: self.service@, version: self.version@, status: self.status@ }
    }
}

/// What the health route reports.
#[derive(Debug, PartialEq, Eq)]
pub struct HealthInfo {
    pub status: String,
    pub timestamp: String,
}

/// The mathematical content of a [`HealthInfo`].
pub struct HealthInfoView {
    pub status: Seq<char>,
    pub timestamp: Seq<char>,
}

impl View for HealthInfo {
    type V = HealthInfoView;

    open spec fn view(&self) -> HealthInfoView {
        HealthInfoView { status: self.status@, timestamp: self.timestamp@ }
    }
}

/// The JSON object of a status record, given its three members as JSON
/// values: `{"service":…,"version":…,"status":…}`.
pub open spec fn status_object(service: Seq<char>, version: Seq<char>, status: Seq<char>) -> Seq<
    char,
> {
    "{\"service\":"@ + service + ",\"version\":"@ + version + ",\"status\":"@ + status + "}"@
}

/// The JSON object of a health record, given its two members as JSON values:
/// `{"status":…,"timestamp":…}`.
pub open spec fn health_object(status: Seq<char>, timestamp: Seq<char>) -> Seq<char> {
    "{\"status\":"@ + status + ",\"timestamp\":"@ + timestamp + "}"@
}

/// The body of a status record whose members are written as JSON string
/// literals.
pub open spec fn status_json(info: StatusInfoView) -> Seq<char> {
    status_object(json_string(info.service), json_string(info.version), json_string(info.status))
}

/// The body of a health record whose members are written as JSON string
/// literals.
pub open spec fn health_json(info: HealthInfoView) -> Seq<char> {
    health_object(json_string(info.status), json_string(info.timestamp))
}

/// Frames the three members of a status record, each already a JSON value,
/// as one JSON object.
pub fn status_body(service: &str, version: &str, status: &str) -> (body: String)
    ensures
        body@ == status_object(service@, version@, status@),
{
    let mut body = String::from_str("{\"service\":");
    body.append(service);
    body.append(",\"version\":");
    body.append(version);
    body.append(",\"status\":");
    body.append(status);
    body.append("}");
    body
}

/// Frames the two members of a health record, each already a JSON value, as
/// one JSON object.
pub fn health_body(status: &str, timestamp: &str) -> (body: String)
    ensures
        body@ == health_object(status@, timestamp@),
{
    let mut body = String::from_str("{\"status\":");
    body.append(status);
    body.append(",\"timestamp\":");
    body.append(timestamp);
    body.append("}");
    body
}

impl StatusInfo {
    /// The record as a JSON object. Where no member holds a character that
    /// JSON escapes, each member stands in it unchanged between double quotes.
    pub fn to_json(&self) -> (body: String)
        ensures
            body@ == status_json(self@),
            is_plain(self.service@) && is_plain(self.version@) && is_plain(self.status@) ==> body@
                == status_object(
                quoted(self.service@),
                quoted(self.version@),
                quoted(self.status@),
            ),
    {
        let service = encode_string(self.service.as_str());
        let version = encode_string(self.version.as_str());
        let status = encode_string(self.status.as_str());
        status_body(service.as_str(), version.as_str(), status.as_str())
    }
}

impl HealthInfo {
    /// The record as a JSON object. Where no member holds a character that
    /// JSON escapes, each member stands in it unchanged between double quotes.
    pub fn to_json(&self) -> (body: String)
        ensures
            body@ == health_json(self@),
            is_plain(self.status@) && is_plain(self.timestamp@) ==> body@ == health_object(
                quoted(self.status@),
                quoted(self.timestamp@),
            ),
    {
        let status = encode_string(self.status.as_str());
        let timestamp = encode_string(self.timestamp.as_str());
        health_body(status.as_str(), timestamp.as_str())
    }
}

/// The answer of the root route: always the same record.
pub fn root() -> (info: StatusInfo)
    ensures
        info@ == (StatusInfoView {
            service: SERVICE_NAME@,
            version: SERVICE_VERSION@,
            status: STATUS_RUNNING@,
        }),
{
    StatusInfo {
        service: String::from_str(SERVICE_NAME),
        version: String::from_str(SERVICE_VERSION),
        status: String::from_str(STATUS_RUNNING),
    }
}

/// The answer of the health route at a given time: the status `healthy` and
/// the timestamp as it was handed in.
pub fn health_at(timestamp: String) -> (info: HealthInfo)
    ensures
        info@ == (HealthInfoView { status: STATUS_HEALTHY@, timestamp: timestamp@ }),
{
    HealthInfo { status: String::from_str(STATUS_HEALTHY), timestamp }
}

/// The answer of the health route now. The timestamp is the current UTC time
/// in RFC 3339 format; whatever the clock says, the status is `healthy` and
/// the timestamp has the shape of a UTC timestamp.
pub fn health() -> (info: HealthInfo)
    ensures
        info@.status == STATUS_HEALTHY@,
        is_utc_timestamp(info@.timestamp),
{
    health_at(utc_now_rfc3339())
}

} // verus!
