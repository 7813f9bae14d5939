//! Data shapes of the upstream catalog payload and of the derived-statistic
//! responses.
//!
//! These are plain carriers: the upstream envelope is consumed as-is by the
//! pass-through route, and only `records` feeds the aggregation routes. The
//! four pollutant value fields of a [`JsonRecord`] arrive as text and are the
//! validation boundary: nothing guarantees they are well-formed numerals.

use vstd::prelude::*;

verus! {

/// Upstream bucket metadata, passed through unchanged.
#[derive(Debug, Clone, PartialEq, Eq)]
pub struct JsonTargetBucket {
    pub index: String,
    /// The upstream `type` attribute.
    pub kind: String,
    pub field: String,
}

/// Schema descriptor for one record column, passed through unchanged.
#[derive(Debug, Clone, PartialEq, Eq)]
pub struct JsonField {
    pub id: String,
    pub name: String,
    /// The upstream `type` attribute.
    pub kind: String,
}

/// One station-level pollutant observation. The four `pollutant_*` value
/// fields are text-encoded numerals that must be validated before any
/// arithmetic.
#[derive(Debug, Clone, PartialEq, Eq)]
pub struct JsonRecord {
    pub id: String,
    pub country: String,
    pub state: String,
    pub city: String,
    pub station: String,
    pub last_update: String,
    pub pollutant_id: String,
    pub pollutant_min: String,
    pub pollutant_max: String,
    pub pollutant_avg: String,
    pub pollutant_unit: String,
}

/// The full upstream catalog envelope.
#[derive(Debug, Clone, PartialEq, Eq)]
pub struct Response {
    pub index_name: String,
    pub title: String,
    pub desc: String,
    pub org_type: String,
    pub org: Vec<String>,
    pub sector: Vec<String>,
    pub source: String,
    pub catalog_uuid: String,
    pub visualizable: String,
    pub active: String,
    pub created: i64,
    pub updated: i64,
    pub created_date: String,
    pub updated_date: String,
    pub target_bucket: JsonTargetBucket,
    pub field: Vec<JsonField>,
    pub message: String,
    pub version: String,
    pub status: String,
    pub total: i64,
    pub count: i64,
    pub limit: String,
    pub offset: String,
    pub records: Vec<JsonRecord>,
}

/// Response body of the average route.
#[derive(Debug, Clone, Copy, PartialEq, Eq)]
pub struct ResponseAvg {
    pub avg: u32,
}

/// Response body of the maximum route.
#[derive(Debug, Clone, Copy, PartialEq, Eq)]
pub struct ResponseMax {
    pub max: u32,
}

/// Response body of the minimum route.
#[derive(Debug, Clone, Copy, PartialEq, Eq)]
pub struct ResponseMin {
    pub min: u32,
}

} // verus!
