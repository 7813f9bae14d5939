use ind_pollution::model::{
    JsonField, JsonRecord, JsonTargetBucket, Response, ResponseAvg, ResponseMax, ResponseMin,
};
use ind_pollution::service::{
    average_payload, index_payload, maximum_payload, minimum_payload, resolve_api_url, FetchError,
    ServiceError,
};

fn record_with(avg: &str, max: &str) -> JsonRecord {
    JsonRecord {
        id: String::from("1"),
        country: String::from("India"),
        state: String::from("Delhi"),
        city: String::from("Delhi"),
        station: String::from("Anand Vihar"),
        last_update: String::from("01-01-2020 01:00:00"),
        pollutant_id: String::from("PM10"),
        pollutant_min: String::from("2"),
        pollutant_max: String::from(max),
        pollutant_avg: String::from(avg),
        pollutant_unit: String::from("ug/m3"),
    }
}

fn catalog_with(records: Vec<JsonRecord>) -> Response {
    Response {
        index_name: String::from("air_quality"),
        title: String::from("Real time air quality index"),
        desc: String::from("Station-level pollutant readings"),
        org_type: String::from("Central"),
        org: vec![String::from("Ministry of Environment")],
        sector: vec![String::from("Environment")],
        source: String::from("data.gov.in"),
        catalog_uuid: String::from("a1b2c3"),
        visualizable: String::from("1"),
        active: String::from("1"),
        created: 1575972119,
        updated: 1575976231,
        created_date: String::from("2019-12-10"),
        updated_date: String::from("2019-12-10"),
        target_bucket: JsonTargetBucket {
            index: String::from("air_quality"),
            kind: String::from("pollution"),
            field: String::from("records"),
        },
        field: vec![JsonField {
            id: String::from("pollutant_avg"),
            name: String::from("Pollutant average"),
            kind: String::from("keyword"),
        }],
        message: String::from("Resource detail"),
        version: String::from("2.1.0"),
        status: String::from("ok"),
        total: records.len() as i64,
        count: records.len() as i64,
        limit: String::from("10"),
        offset: String::from("0"),
        records,
    }
}

#[test]
fn index_passes_payload_through() {
    let payload = catalog_with(vec![record_with("10", "20")]);
    let expected = payload.clone();
    assert_eq!(index_payload(Ok(payload)), Ok(expected));
}

#[test]
fn average_payload_ok() {
    let payload = catalog_with(vec![
        record_with("10", "1"),
        record_with("20", "1"),
        record_with("30", "1"),
    ]);
    assert_eq!(average_payload(Ok(payload)), Ok(ResponseAvg { avg: 20 }));
}

#[test]
fn maximum_payload_ok() {
    let payload = catalog_with(vec![
        record_with("1", "5"),
        record_with("1", "50"),
        record_with("1", "12"),
    ]);
    assert_eq!(maximum_payload(Ok(payload)), Ok(ResponseMax { max: 50 }));
}

#[test]
fn minimum_payload_ok() {
    let payload = catalog_with(vec![
        record_with("5", "9"),
        record_with("50", "99"),
        record_with("12", "19"),
    ]);
    assert_eq!(minimum_payload(Ok(payload)), Ok(ResponseMin { min: 5 }));
}

#[test]
fn transport_failure_reaches_every_route() {
    assert_eq!(index_payload(Err(FetchError::Transport)), Err(ServiceError::Transport));
    assert_eq!(average_payload(Err(FetchError::Transport)), Err(ServiceError::Transport));
    assert_eq!(maximum_payload(Err(FetchError::Transport)), Err(ServiceError::Transport));
    assert_eq!(minimum_payload(Err(FetchError::Transport)), Err(ServiceError::Transport));
}

#[test]
fn decode_failure_reaches_every_route() {
    assert_eq!(index_payload(Err(FetchError::Decode)), Err(ServiceError::Decode));
    assert_eq!(average_payload(Err(FetchError::Decode)), Err(ServiceError::Decode));
    assert_eq!(maximum_payload(Err(FetchError::Decode)), Err(ServiceError::Decode));
    assert_eq!(minimum_payload(Err(FetchError::Decode)), Err(ServiceError::Decode));
}

#[test]
fn empty_catalog_fails_every_statistic() {
    let empty: Vec<JsonRecord> = Vec::new();
    assert_eq!(average_payload(Ok(catalog_with(empty.clone()))), Err(ServiceError::EmptyInput));
    assert_eq!(maximum_payload(Ok(catalog_with(empty.clone()))), Err(ServiceError::EmptyInput));
    assert_eq!(minimum_payload(Ok(catalog_with(empty))), Err(ServiceError::EmptyInput));
}

#[test]
fn unparsable_reading_fails_the_route() {
    let payload = catalog_with(vec![record_with("abc", "1"), record_with("10", "1")]);
    assert_eq!(average_payload(Ok(payload)), Err(ServiceError::Parse));
}

#[test]
fn average_is_idempotent() {
    let payload = catalog_with(vec![record_with("10", "1"), record_with("21", "1")]);
    let first = average_payload(Ok(payload.clone()));
    let second = average_payload(Ok(payload));
    assert_eq!(first, second);
    assert_eq!(first, Ok(ResponseAvg { avg: 15 }));
}

#[test]
fn resolve_api_url_present() {
    let url = String::from("https://api.example.org/resource?api-key=demo&format=json");
    assert_eq!(resolve_api_url(Some(url.clone())), Ok(url));
}

#[test]
fn resolve_api_url_missing() {
    assert_eq!(resolve_api_url(None), Err(ServiceError::ConfigMissing));
}
