//! Per-route request pipelines and the service-level error taxonomy.
//!
//! A handler resolves the configured upstream URL, lets the caller perform
//! the one outbound fetch, and hands the fetch's outcome — a decoded
//! catalog payload or a typed fetch failure — to the functions here. They
//! turn it into the route's response body or into one service-level error.
//! Every failure is unrecoverable within the request: nothing is retried
//! and no partial or default payload is ever returned.

use vstd::prelude::*;

use crate::model::{Response, ResponseAvg, ResponseMax, ResponseMin};
use crate::stats::{aggregate, spec_aggregate, AggOp, AggregateError};

verus! {

/// Why the upstream fetch produced no payload.
#[derive(Debug, Clone, Copy, PartialEq, Eq)]
pub enum FetchError {
    /// Network-level failure reaching upstream (DNS, connection, TLS,
    /// timeout).
    Transport,
    /// The upstream body does not match the catalog schema. An upstream
    /// error status with a non-catalog body surfaces here too: the service
    /// does not classify non-2xx statuses separately.
    Decode,
}

/// Everything that can make a request fail, across all four routes.
#[derive(Debug, Clone, Copy, PartialEq, Eq)]
pub enum ServiceError {
    /// No upstream URL is configured.
    ConfigMissing,
    /// Network-level failure reaching upstream.
    Transport,
    /// The upstream body does not match the catalog schema.
    Decode,
    /// A selected pollutant reading is not a well-formed `u32` numeral.
    Parse,
    /// The upstream payload holds no records to aggregate.
    EmptyInput,
}

/// The service-level class of a fetch failure.
pub open spec fn fetch_error_class(e: FetchError) -> ServiceError {
    match e {
        FetchError::Transport => ServiceError::Transport,
        FetchError::Decode => ServiceError::Decode,
    }
}

/// The service-level class of an aggregation failure.
pub open spec fn aggregate_error_class(e: AggregateError) -> ServiceError {
    match e {
        AggregateError::Parse => ServiceError::Parse,
        AggregateError::EmptyInput => ServiceError::EmptyInput,
    }
}

/// Map a fetch failure to its service-level class.
pub fn classify_fetch_error(e: FetchError) -> (r: ServiceError)
    ensures
        r == fetch_error_class(e),
{
    match e {
        FetchError::Transport => ServiceError::Transport,
        FetchError::Decode => ServiceError::Decode,
    }
}

/// Map an aggregation failure to its service-level class.
pub fn classify_aggregate_error(e: AggregateError) -> (r: ServiceError)
    ensures
        r == aggregate_error_class(e),
{
    match e {
        AggregateError::Parse => ServiceError::Parse,
        AggregateError::EmptyInput => ServiceError::EmptyInput,
    }
}

/// Resolve the upstream URL from the configuration mapping's `api_url`
/// entry: the entry's value if it exists, else [`ServiceError::ConfigMissing`].
pub fn resolve_api_url(configured: Option<String>) -> (r: Result<String, ServiceError>)
    ensures
        (configured matches Some(u) ==> (r matches Ok(v) && v == u)),
        (configured is None ==> (r matches Err(e) && e == ServiceError::ConfigMissing)),
{
    match configured {
        Some(u) => Ok(u),
        None => Err(ServiceError::ConfigMissing),
    }
}

/// The numeric outcome a statistic route owes for a given fetch outcome:
/// a fetch failure propagates as its own class, and a fetched payload is
/// aggregated over its records.
pub open spec fn spec_route_stat(fetched: Result<Response, FetchError>, op: AggOp) -> Result<
    u32,
    ServiceError,
> {
    match fetched {
        Ok(resp) => match spec_aggregate(resp.records@, op) {
            Ok(v) => Ok(v),
            Err(e) => Err(aggregate_error_class(e)),
        },
        Err(e) => Err(fetch_error_class(e)),
    }
}

/// The pass-through route: the fetched catalog payload, unmodified, or the
/// fetch failure's service-level class.
pub fn index_payload(fetched: Result<Response, FetchError>) -> (r: Result<Response, ServiceError>)
    ensures
        (fetched matches Ok(p) ==> (r matches Ok(q) && q == p)),
        (fetched matches Err(e) ==> (r matches Err(c) && c == fetch_error_class(e))),
{
    match fetched {
        Ok(p) => Ok(p),
        Err(e) => Err(classify_fetch_error(e)),
    }
}

/// The average route's response body for a given fetch outcome.
pub open spec fn spec_average_payload(fetched: Result<Response, FetchError>) -> Result<
    ResponseAvg,
    ServiceError,
> {
    match spec_route_stat(fetched, AggOp::Average) {
        Ok(v) => Ok(ResponseAvg { avg: v }),
        Err(e) => Err(e),
    }
}

/// The maximum route's response body for a given fetch outcome.
pub open spec fn spec_maximum_payload(fetched: Result<Response, FetchError>) -> Result<
    ResponseMax,
    ServiceError,
> {
    match spec_route_stat(fetched, AggOp::Maximum) {
        Ok(v) => Ok(ResponseMax { max: v }),
        Err(e) => Err(e),
    }
}

/// The minimum route's response body for a given fetch outcome.
pub open spec fn spec_minimum_payload(fetched: Result<Response, FetchError>) -> Result<
    ResponseMin,
    ServiceError,
> {
    match spec_route_stat(fetched, AggOp::Minimum) {
        Ok(v) => Ok(ResponseMin { min: v }),
        Err(e) => Err(e),
    }
}

/// The average route: floor-average of the records' `pollutant_avg`
/// readings, or the pipeline's typed failure.
pub fn average_payload(fetched: Result<Response, FetchError>) -> (r: Result<
    ResponseAvg,
    ServiceError,
>)
    ensures
        r == spec_average_payload(fetched),
{
    match fetched {
        Ok(resp) => match aggregate(&resp.records, AggOp::Average) {
            Ok(v) => Ok(ResponseAvg { avg: v }),
            Err(e) => Err(classify_aggregate_error(e)),
        },
        Err(e) => Err(classify_fetch_error(e)),
    }
}

/// The maximum route: largest of the records' `pollutant_max` readings, or
/// the pipeline's typed failure.
pub fn maximum_payload(fetched: Result<Response, FetchError>) -> (r: Result<
    ResponseMax,
    ServiceError,
>)
    ensures
        r == spec_maximum_payload(fetched),
{
    match fetched {
        Ok(resp) => match aggregate(&resp.records, AggOp::Maximum) {
            Ok(v) => Ok(ResponseMax { max: v }),
            Err(e) => Err(classify_aggregate_error(e)),
        },
        Err(e) => Err(classify_fetch_error(e)),
    }
}

/// The minimum route: smallest of the records' `pollutant_avg` readings
/// (deliberately not `pollutant_min`, mirroring the service's observed
/// behaviour), or the pipeline's typed failure.
pub fn minimum_payload(fetched: Result<Response, FetchError>) -> (r: Result<
    ResponseMin,
    ServiceError,
>)
    ensures
        r == spec_minimum_payload(fetched),
{
    match fetched {
        Ok(resp) => match aggregate(&resp.records, AggOp::Minimum) {
            Ok(v) => Ok(ResponseMin { min: v }),
            Err(e) => Err(classify_aggregate_error(e)),
        },
        Err(e) => Err(classify_fetch_error(e)),
    }
}

/// A fetched payload with no records fails every statistic route with
/// [`ServiceError::EmptyInput`]: no route ever answers an empty record set
/// with a number.
pub proof fn lemma_empty_records_route(resp: Response, op: AggOp)
    requires
        resp.records@.len() == 0,
    ensures
        spec_route_stat(Ok(resp), op) == Err::<u32, ServiceError>(ServiceError::EmptyInput),
{
}

/// A fetch failure propagates to every statistic route as its own class:
/// a transport failure surfaces as [`ServiceError::Transport`] and a decode
/// failure as [`ServiceError::Decode`], never as a cached or default payload.
pub proof fn lemma_fetch_failure_propagates(e: FetchError, op: AggOp)
    ensures
        spec_route_stat(Err(e), op) == Err::<u32, ServiceError>(fetch_error_class(e)),
{
}

/// The statistic routes are stateless: the response is a function of the
/// fetched payload alone, so two requests that see equal upstream payloads
/// get identical responses.
pub proof fn lemma_route_stat_idempotent(
    a: Result<Response, FetchError>,
    b: Result<Response, FetchError>,
    op: AggOp,
)
    requires
        a == b,
    ensures
        spec_route_stat(a, op) == spec_route_stat(b, op),
{
}

} // verus!
