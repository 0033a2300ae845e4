use vstd::prelude::*;
use crate::codec::{base64_bytes, decode_cap};
use crate::error::ZinharoError;

verus! {

/// An absolute instant: whole seconds since 1970-01-01T00:00:00Z and the
/// nanoseconds past that second (above 999 999 999 only inside a leap second).
#[derive(Debug, Clone, Copy, PartialEq, Eq, Structural)]
pub struct Timestamp {
    pub secs: i64,
    pub nanos: u32,
}

/// The UTC instant that an RFC 3339 text denotes, as seconds and
/// nanoseconds since the Unix epoch, if the text is valid RFC 3339.
pub uninterp spec fn rfc3339_instant(text: Seq<char>) -> Option<(i64, u32)>;

pub open spec fn instant_of(text: Seq<char>) -> Timestamp {
    let t = rfc3339_instant(text)->0;
    Timestamp { secs: t.0, nanos: t.1 }
}

/// Relies on `chrono::DateTime::parse_from_rfc3339`, which parses an RFC 3339
/// date-time with its offset or fails, and on `DateTime::timestamp` and
/// `DateTime::timestamp_subsec_nanos`, which read that instant in UTC. The
/// result depends on the text alone.
#[verifier::external_body]
fn parse_rfc3339(text: &str) -> (r: Option<Timestamp>)
    ensures
        r is Some <==> rfc3339_instant(text@) is Some,
        r is Some ==> r->0 == instant_of(text@),
{
    match chrono::DateTime::parse_from_rfc3339(text) {
        Ok(d) => Some(Timestamp { secs: d.timestamp(), nanos: d.timestamp_subsec_nanos() }),
        Err(_) => None,
    }
}

/// Reads an RFC 3339 timestamp as a UTC instant; `InvalidResponse` when the
/// text is not RFC 3339.
pub fn parse_timestamp(text: &str) -> (r: Result<Timestamp, ZinharoError>)
    ensures
        r is Ok <==> rfc3339_instant(text@) is Some,
        r is Ok ==> r->Ok_0 == instant_of(text@),
        r is Err ==> r matches Err(ZinharoError::InvalidResponse),
{
    match parse_rfc3339(text) {
        Some(t) => Ok(t),
        None => Err(ZinharoError::InvalidResponse),
    }
}

/// A leased unit of work.
#[derive(Debug, Clone)]
pub struct ZinharoQueuedJob {
    /// The raw capture to crack.
    pub cap: Vec<u8>,
    /// The job's id.
    pub id: i32,
    /// When the job was created.
    pub created: Timestamp,
}

impl ZinharoQueuedJob {
    /// A job from its already decoded parts: `InvalidResponse` when the
    /// capture or the timestamp could not be decoded.
    pub fn from_decoded(
        cap: Option<Vec<u8>>,
        id: i32,
        created: Option<Timestamp>,
    ) -> (r: Result<Self, ZinharoError>)
        ensures
            r is Ok <==> cap is Some && created is Some,
            r is Ok ==> r->Ok_0.cap@ == cap->0@ && r->Ok_0.id == id && r->Ok_0.created
                == created->0,
            r is Err ==> r matches Err(ZinharoError::InvalidResponse),
    {
        match (cap, created) {
            (Some(cap), Some(created)) => Ok(ZinharoQueuedJob { cap, id, created }),
            _ => Err(ZinharoError::InvalidResponse),
        }
    }

    /// A job from the fields of a lease's body: the capture as base64 text,
    /// the id, and the creation time as RFC 3339 text.
    pub fn decode(cap: &str, id: i32, created: &str) -> (r: Result<Self, ZinharoError>)
        ensures
            r is Ok <==> base64_bytes(cap@) is Some && rfc3339_instant(created@) is Some,
            r is Ok ==> {
                &&& r->Ok_0.cap@ == base64_bytes(cap@)->0
                &&& r->Ok_0.id == id
                &&& r->Ok_0.created == instant_of(created@)
            },
            r is Err ==> r matches Err(ZinharoError::InvalidResponse),
    {
        let bytes = match decode_cap(cap) {
            Ok(b) => Some(b),
            Err(_) => None,
        };
        let when = match parse_timestamp(created) {
            Ok(t) => Some(t),
            Err(_) => None,
        };
        ZinharoQueuedJob::from_decoded(bytes, id, when)
    }
}

/// A finished job on a capture, as the coordinator records it.
#[derive(Debug, Clone)]
pub struct ZinharoJob {
    /// The job's id.
    pub id: i32,
    /// The password that the job found.
    pub password: String,
    /// The client that posted the job.
    pub client_id: i32,
    /// The capture (hash) that the job was for.
    pub hash_id: i32,
    /// When the job was created.
    pub created: Timestamp,
}

/// A report filed on a capture, as the coordinator records it.
#[derive(Debug, Clone)]
pub struct ZinharoReport {
    /// The report's id.
    pub id: i32,
    /// The reason given, if any.
    pub info: Option<String>,
    /// The client that filed the report.
    pub client_id: i32,
    /// The capture (hash) that the report is on.
    pub hash_id: i32,
    /// When the report was filed.
    pub created: Timestamp,
}

/// A finished job as it arrives, before its timestamp is read.
#[derive(Debug, Clone)]
pub struct RawJob {
    pub id: i32,
    pub password: String,
    pub client_id: i32,
    pub created: String,
}

/// A report as it arrives, before its timestamp is read.
#[derive(Debug, Clone)]
pub struct RawReport {
    pub id: i32,
    pub info: Option<String>,
    pub client_id: i32,
    pub created: String,
}

/// A capture uploaded to the coordinator, with the jobs and reports on it.
#[derive(Debug, Clone)]
pub struct ZinharoHash {
    /// The capture's id.
    pub id: i32,
    /// The capture's bytes.
    pub cap: Vec<u8>,
    /// The jobs on the capture.
    pub jobs: Vec<ZinharoJob>,
    /// The reports on the capture.
    pub reports: Vec<ZinharoReport>,
    /// When the capture was uploaded.
    pub created: Timestamp,
}

pub open spec fn view_info(info: Option<String>) -> Option<Seq<char>> {
    match info {
        Some(s) => Some(s@),
        None => None,
    }
}

/// `job` is `raw` with its timestamp read, on the capture `hash_id`.
pub open spec fn job_from(job: ZinharoJob, raw: RawJob, hash_id: i32) -> bool {
    &&& job.id == raw.id
    &&& job.password@ == raw.password@
    &&& job.client_id == raw.client_id
    &&& job.hash_id == hash_id
    &&& job.created == instant_of(raw.created@)
}

/// `report` is `raw` with its timestamp read, on the capture `hash_id`.
pub open spec fn report_from(report: ZinharoReport, raw: RawReport, hash_id: i32) -> bool {
    &&& report.id == raw.id
    &&& view_info(report.info) == view_info(raw.info)
    &&& report.client_id == raw.client_id
    &&& report.hash_id == hash_id
    &&& report.created == instant_of(raw.created@)
}

pub open spec fn jobs_readable(raw: Seq<RawJob>) -> bool {
    forall|i: int| 0 <= i < raw.len() ==> (#[trigger] rfc3339_instant(raw[i].created@)) is Some
}

pub open spec fn reports_readable(raw: Seq<RawReport>) -> bool {
    forall|i: int| 0 <= i < raw.len() ==> (#[trigger] rfc3339_instant(raw[i].created@)) is Some
}

fn clone_info(info: &Option<String>) -> (r: Option<String>)
    ensures
        view_info(r) == view_info(*info),
{
    match info {
        Some(s) => Some(s.clone()),
        None => None,
    }
}

/// Reads the jobs of the capture `hash_id`; `None` when a timestamp is not RFC 3339.
fn read_jobs(raw: &Vec<RawJob>, hash_id: i32) -> (r: Option<Vec<ZinharoJob>>)
    ensures
        r is Some <==> jobs_readable(raw@),
        r is Some ==> r->0@.len() == raw@.len() && forall|i: int|
            0 <= i < raw@.len() ==> job_from(#[trigger] r->0@[i], raw@[i], hash_id),
{
    let mut out: Vec<ZinharoJob> = Vec::new();
    let mut i: usize = 0;
    while i < raw.len()
        invariant
            i <= raw@.len(),
            out@.len() == i,
            forall|j: int| 0 <= j < i ==> (#[trigger] rfc3339_instant(raw@[j].created@)) is Some,
            forall|j: int| 0 <= j < i ==> job_from(#[trigger] out@[j], raw@[j], hash_id),
        decreases raw@.len() - i,
    {
        let r = &raw[i];
        let created = match parse_rfc3339(r.created.as_str()) {
            Some(t) => t,
            None => {
                return None;
            },
        };
        out.push(
            ZinharoJob {
                id: r.id,
                password: r.password.clone(),
                client_id: r.client_id,
                hash_id,
                created,
            },
        );
        i = i + 1;
    }
    Some(out)
}

/// Reads the reports on the capture `hash_id`; `None` when a timestamp is not RFC 3339.
fn read_reports(raw: &Vec<RawReport>, hash_id: i32) -> (r: Option<Vec<ZinharoReport>>)
    ensures
        r is Some <==> reports_readable(raw@),
        r is Some ==> r->0@.len() == raw@.len() && forall|i: int|
            0 <= i < raw@.len() ==> report_from(#[trigger] r->0@[i], raw@[i], hash_id),
{
    let mut out: Vec<ZinharoReport> = Vec::new();
    let mut i: usize = 0;
    while i < raw.len()
        invariant
            i <= raw@.len(),
            out@.len() == i,
            forall|j: int| 0 <= j < i ==> (#[trigger] rfc3339_instant(raw@[j].created@)) is Some,
            forall|j: int| 0 <= j < i ==> report_from(#[trigger] out@[j], raw@[j], hash_id),
        decreases raw@.len() - i,
    {
        let r = &raw[i];
        let created = match parse_rfc3339(r.created.as_str()) {
            Some(t) => t,
            None => {
                return None;
            },
        };
        out.push(
            ZinharoReport {
                id: r.id,
                info: clone_info(&r.info),
                client_id: r.client_id,
                hash_id,
                created,
            },
        );
        i = i + 1;
    }
    Some(out)
}

impl ZinharoHash {
    /// The record of an uploaded capture `cap` from the coordinator's answer:
    /// its id, its creation time, and the jobs and reports on it, each of
    /// which is attached to this capture. `InvalidResponse` when any of the
    /// timestamps is not RFC 3339.
    pub fn from_parts(
        cap: Vec<u8>,
        id: i32,
        created: &str,
        jobs: &Vec<RawJob>,
        reports: &Vec<RawReport>,
    ) -> (r: Result<Self, ZinharoError>)
        ensures
            r is Ok <==> rfc3339_instant(created@) is Some && jobs_readable(jobs@)
                && reports_readable(reports@),
            r is Ok ==> {
                let h = r->Ok_0;
                &&& h.id == id
                &&& h.cap@ == cap@
                &&& h.created == instant_of(created@)
                &&& h.jobs@.len() == jobs@.len()
                &&& forall|i: int| 0 <= i < jobs@.len() ==> job_from(#[trigger] h.jobs@[i], jobs@[i], id)
                &&& h.reports@.len() == reports@.len()
                &&& forall|i: int|
                    0 <= i < reports@.len() ==> report_from(#[trigger] h.reports@[i], reports@[i], id)
            },
            r is Err ==> r matches Err(ZinharoError::InvalidResponse),
    {
        let when = match parse_rfc3339(created) {
            Some(t) => t,
            None => {
                return Err(ZinharoError::InvalidResponse);
            },
        };
        let final_jobs = match read_jobs(jobs, id) {
            Some(j) => j,
            None => {
                return Err(ZinharoError::InvalidResponse);
            },
        };
        let final_reports = match read_reports(reports, id) {
            Some(r) => r,
            None => {
                return Err(ZinharoError::InvalidResponse);
            },
        };
        Ok(ZinharoHash { id, cap, jobs: final_jobs, reports: final_reports, created: when })
    }
}

} // verus!
