use influxdb_client::error::influxdb_error::InfluxDbError;
use influxdb_client::mapper::response_mapper::{map_bad_response, map_response, HttpResponse};

fn response(code: u16, text: &str, body: Result<&str, &str>) -> HttpResponse<String> {
    HttpResponse {
        status_code: code,
        status_text: text.to_string(),
        body: body.map(|b| b.to_string()).map_err(|e| e.to_string()),
    }
}

#[test]
fn response_mapper_map_bad_response_no_body() {
    let result = map_bad_response::<String>(Ok("".to_string()), "500".to_string());
    assert_eq!("Rest call failed 500", result.to_string());
}

#[test]
fn response_mapper_map_bad_response_no_body_formatter() {
    let result = map_bad_response::<String>(Ok("".to_string()), "500".to_string());
    assert_eq!("InfluxDbErrorError(Rest call failed 500)", result.to_debug_string());
}

#[test]
fn map_bad_response_with_body() {
    let result =
        map_bad_response::<String>(Ok("Some terrible error".to_string()), "500".to_string());
    assert_eq!("Rest call failed Some terrible error", result.to_string());
}

#[test]
fn map_bad_response_with_body_formatter() {
    let result =
        map_bad_response::<String>(Ok("Some terrible error".to_string()), "500".to_string());
    assert_eq!(
        "InfluxDbErrorError(Rest call failed Some terrible error)",
        result.to_debug_string()
    );
}

#[test]
fn map_bad_response_unreadable_body_falls_back_to_status() {
    let result =
        map_bad_response::<String>(Err("decode failed".to_string()), "500".to_string());
    assert_eq!("Rest call failed 500", result.to_string());
    let InfluxDbError::Failed(cause, _) = result;
    assert!(cause.is_none());
}

#[test]
fn map_response_error_no_body() {
    let result = map_response(Ok(response(500, "500 Internal Server Error", Ok(""))));
    assert!(result.is_err());
    assert_eq!("Rest call failed 500 Internal Server Error", result.unwrap_err().to_string());
}

#[test]
fn map_response_error_with_body() {
    let result =
        map_response(Ok(response(500, "500 Internal Server Error", Ok("Some terrible error"))));
    assert!(result.is_err());
    assert_eq!("Rest call failed Some terrible error", result.unwrap_err().to_string());
}

#[test]
fn map_response_failed_request() {
    let result = map_response(Ok(response(404, "404 Not Found", Ok(""))));
    assert!(result.is_err());
    assert_eq!("Rest call failed 404 Not Found", result.unwrap_err().to_string());
}

#[test]
fn map_response_success() {
    let result = map_response(Ok(response(200, "200 OK", Ok("test"))));
    assert!(result.is_ok());
    assert_eq!("test", result.unwrap().to_string());
}

#[test]
fn map_response_transport_failure() {
    let result = map_response::<String>(Err("connection refused".to_string()));
    assert!(result.is_err());
    let error = result.unwrap_err();
    assert_eq!("Rest call failed request failed", error.to_string());
    let InfluxDbError::Failed(cause, _) = error;
    assert_eq!(Some("connection refused".to_string()), cause);
}

#[test]
fn map_response_success_status_unreadable_body() {
    let result = map_response(Ok(response(200, "200 OK", Err("decode failed"))));
    assert!(result.is_err());
    let error = result.unwrap_err();
    assert_eq!("Rest call failed ", error.to_string());
    let InfluxDbError::Failed(cause, _) = error;
    assert_eq!(Some("decode failed".to_string()), cause);
}

#[test]
fn map_response_success_class_boundaries() {
    assert!(map_response(Ok(response(200, "200 OK", Ok("x")))).is_ok());
    assert!(map_response(Ok(response(299, "299", Ok("x")))).is_ok());
    assert!(map_response(Ok(response(199, "199", Ok("x")))).is_err());
    assert!(map_response(Ok(response(300, "300 Multiple Choices", Ok("x")))).is_err());
}

#[test]
fn map_response_is_idempotent_over_its_input() {
    let outcome = || Ok(response(500, "500 Internal Server Error", Ok("Some terrible error")));
    let first = map_response::<String>(outcome());
    let second = map_response::<String>(outcome());
    assert_eq!(
        first.as_ref().err().map(|e| e.to_string()),
        second.as_ref().err().map(|e| e.to_string())
    );
    let success = || Ok(response(200, "200 OK", Ok("test")));
    let first = map_response::<String>(success());
    let second = map_response::<String>(success());
    assert_eq!(first.ok(), second.ok());
}
