use vstd::prelude::*;
use vstd::string::StringExecFns;

use crate::error::influxdb_error::InfluxDbError;

verus! {

/// A received HTTP response, captured after the attempt to read its body as
/// text: the numeric status code, the stringified status (for example
/// `500 Internal Server Error`), and the outcome of the body read, which can
/// fail independently of the status. `E` is the transport's error type; the
/// transport itself hands the classifier a `Result` of this capture or of the
/// error that kept any response from arriving.
pub struct HttpResponse<E> {
    pub status_code: u16,
    pub status_text: String,
    pub body: Result<String, E>,
}

/// Whether a status code is in the success class, 2xx.
pub open spec fn is_success_status(code: u16) -> bool {
    200 <= code < 300
}

/// The message selected for a non-2xx response: the body text replaces the
/// stringified status entirely when the body was read and is non-empty;
/// otherwise the stringified status stands.
pub open spec fn bad_response_message<E>(body: Result<String, E>, status: Seq<char>) -> Seq<char> {
    match body {
        Ok(text) => if text@.len() > 0 {
            text@
        } else {
            status
        },
        Err(_) => status,
    }
}

/// Whether classifying a dispatch outcome succeeds: the transport delivered a
/// response, its status is 2xx, and its body was readable.
pub open spec fn classification_succeeds<E>(result: Result<HttpResponse<E>, E>) -> bool {
    &&& result is Ok
    &&& is_success_status(result->Ok_0.status_code)
    &&& result->Ok_0.body is Ok
}

/// The body text handed back when classification succeeds.
pub open spec fn success_body<E>(result: Result<HttpResponse<E>, E>) -> Seq<char> {
    result->Ok_0.body->Ok_0@
}

/// The message carried by the failure when classification fails, in strict
/// precedence order: a transport failure maps to `request failed`; a non-2xx
/// status defers to `bad_response_message`; a 2xx status whose body could not
/// be read keeps the message empty.
pub open spec fn failure_message<E>(result: Result<HttpResponse<E>, E>) -> Seq<char> {
    match result {
        Err(_) => "request failed"@,
        Ok(response) => if !is_success_status(response.status_code) {
            bad_response_message(response.body, response.status_text@)
        } else {
            Seq::<char>::empty()
        },
    }
}

/// The diagnostic cause carried by the failure: the transport error when the
/// transport failed, the body-read error when a 2xx body was unreadable, and
/// nothing for a plain bad status.
pub open spec fn failure_cause<E>(result: Result<HttpResponse<E>, E>) -> Option<E> {
    match result {
        Err(error) => Some(error),
        Ok(response) => if !is_success_status(response.status_code) {
            None
        } else {
            match response.body {
                Ok(_) => None,
                Err(error) => Some(error),
            }
        },
    }
}

impl<E> HttpResponse<E> {
    /// Whether this response's status is in the success class.
    pub fn is_success(&self) -> (r: bool)
        ensures
            r == is_success_status(self.status_code),
    {
        200 <= self.status_code && self.status_code < 300
    }
}

/// Builds the failure for a non-2xx response, with no cause and with the
/// message that `bad_response_message` selects: the body text when it was
/// read and is non-empty, the stringified status otherwise.
pub fn map_bad_response<E>(body: Result<String, E>, status: String) -> (r: InfluxDbError<
    Option<E>,
>)
    ensures
        r.spec_cause() is None,
        r.spec_message() == bad_response_message(body, status@),
{
    InfluxDbError::Failed(
        None,
        match body {
            Ok(text) => if !text.as_str().is_empty() {
                text
            } else {
                status
            },
            Err(_) => status,
        },
    )
}

/// Classifies the outcome of dispatching a request. Success is owed exactly
/// when the transport delivered a 2xx response with a readable body, and the
/// body text is handed back unchanged; every other outcome yields the failure
/// whose message and cause `failure_message` and `failure_cause` prescribe.
pub fn map_response<E>(result: Result<HttpResponse<E>, E>) -> (r: Result<
    String,
    InfluxDbError<Option<E>>,
>)
    ensures
        r is Ok <==> classification_succeeds(result),
        r matches Ok(text) ==> text@ == success_body(result),
        r matches Err(failure) ==> failure.spec_message() == failure_message(result),
        r matches Err(failure) ==> failure.spec_cause() == failure_cause(result),
{
    match result {
        Err(error) => Err(
            InfluxDbError::Failed(Some(error), String::from_str("request failed")),
        ),
        Ok(response) => {
            if !response.is_success() {
                return Err(map_bad_response(response.body, response.status_text));
            }
            match response.body {
                Err(error) => Err(InfluxDbError::Failed(Some(error), String::new())),
                Ok(text) => Ok(text),
            }
        },
    }
}

/// Classification is pure: equal captured outcomes agree on whether
/// classification succeeds and on the body, message and cause that the
/// classifier's contract prescribes, so classifying the same outcome twice
/// yields identical results.
pub proof fn lemma_classification_deterministic<E>(
    a: Result<HttpResponse<E>, E>,
    b: Result<HttpResponse<E>, E>,
)
    requires
        a == b,
    ensures
        classification_succeeds(a) == classification_succeeds(b),
        classification_succeeds(a) ==> success_body(a) == success_body(b),
        !classification_succeeds(a) ==> failure_message(a) == failure_message(b),
        !classification_succeeds(a) ==> failure_cause(a) == failure_cause(b),
{
}

} // verus!
