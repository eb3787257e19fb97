use vstd::prelude::*;
use crate::errors::{Error, ErrorKind, Status};
use crate::json::{Field, NumberField, is_object, json_of, number_field, number_field_of, parse_json, text_field, text_field_of};

verus! {

/// Whether an HTTP code is a success (2xx).
pub open spec fn is_success(code: u16) -> bool {
    200 <= code && code <= 299
}

/// Whether an HTTP code is a success (2xx).
pub fn success(code: u16) -> (r: bool)
    ensures
        r == is_success(code),
{
    200 <= code && code <= 299
}

/// The error for a server's failure answer whose body decoded as `status`.
pub fn status_error(code: u16, status: Status) -> (r: Error)
    ensures
        r.spec_kind() == ErrorKind::Status(code, status),
{
    Error::new(ErrorKind::Status(code, status))
}

/// Whether read fields make a Status: the code absent or at most 65535,
/// `reason` and `message` absent or strings. Each field is given as `None`
/// where malformed and `Some(None)` where absent.
pub open spec fn status_fields_ok(
    code: Option<Option<u64>>,
    reason: Option<Option<Seq<char>>>,
    message: Option<Option<Seq<char>>>,
) -> bool {
    &&& code matches Some(c) && (c matches Some(n) ==> n <= 0xffff)
    &&& reason is Some
    &&& message is Some
}

/// The code, reason and message that read fields make; absent fields read
/// as zero or empty.
pub open spec fn status_of_fields(
    code: Option<Option<u64>>,
    reason: Option<Option<Seq<char>>>,
    message: Option<Option<Seq<char>>>,
) -> (u16, Seq<char>, Seq<char>) {
    (
        match code {
            Some(Some(n)) => n as u16,
            _ => 0,
        },
        match reason {
            Some(Some(t)) => t,
            _ => Seq::empty(),
        },
        match message {
            Some(Some(t)) => t,
            _ => Seq::empty(),
        },
    )
}

/// Assembles a Status from the fields read off its body, keeping the
/// server's code, reason and message unaltered.
pub fn status_from_fields(code: NumberField, reason: Field, message: Field) -> (r: Option<Status>)
    ensures
        r is Some == status_fields_ok(code@, reason@, message@),
        r matches Some(s) ==> s.view() == status_of_fields(code@, reason@, message@),
{
    let c: u16 = match code {
        NumberField::Absent => 0,
        NumberField::Number(n) => {
            if n <= 0xffff {
                n as u16
            } else {
                return None;
            }
        },
        NumberField::Malformed => return None,
    };
    let reason = match reason {
        Field::Absent => String::new(),
        Field::Text(t) => t,
        Field::Malformed => return None,
    };
    let message = match message {
        Field::Absent => String::new(),
        Field::Text(t) => t,
        Field::Malformed => return None,
    };
    Some(Status { code: c, reason, message })
}

/// The Status a body holds: a JSON object whose `code`, `reason` and
/// `message` make one.
pub open spec fn status_in(body: Seq<u8>) -> Option<(u16, Seq<char>, Seq<char>)> {
    match json_of(body) {
        Some(t) => {
            let code = number_field_of(t, "code"@);
            let reason = text_field_of(t, "reason"@);
            let message = text_field_of(t, "message"@);
            if t is Object && status_fields_ok(code, reason, message) {
                Some(status_of_fields(code, reason, message))
            } else {
                None
            }
        },
        None => None,
    }
}

/// Decodes a Status body; else describes what is wrong with it.
pub fn decode_status(body: &[u8]) -> (r: Result<Status, String>)
    ensures
        match status_in(body@) {
            Some(v) => r matches Ok(s) && s.view() == v,
            None => r is Err,
        },
{
    let v = parse_json(body)?;
    if !is_object(&v) {
        return Err("a Status body must be a JSON object".to_owned());
    }
    match status_from_fields(number_field(&v, "code"), text_field(&v, "reason"), text_field(&v, "message")) {
        Some(s) => Ok(s),
        None => Err("a Status body field has the wrong type".to_owned()),
    }
}

/// The error a non-success answer with HTTP code `code` and body `body`
/// gives: a Status error with that code and the body's Status, where the
/// body holds one; else a `Json` error.
pub open spec fn failure_for(code: u16, body: Seq<u8>, e: Error) -> bool {
    match status_in(body) {
        Some(v) => e.spec_kind() matches ErrorKind::Status(c, s) && c == code && s.view() == v,
        None => e.spec_kind() is Json,
    }
}

/// Turns a non-success answer into its error.
pub fn response_error(code: u16, body: &[u8]) -> (r: Error)
    ensures
        failure_for(code, body@, r),
{
    match decode_status(body) {
        Ok(s) => status_error(code, s),
        Err(cause) => Error::caused_by(ErrorKind::Json, cause),
    }
}

/// Checks an answer: a success yields its body, anything else the error
/// that its body describes.
pub fn check_response(code: u16, body: Vec<u8>) -> (r: Result<Vec<u8>, Error>)
    ensures
        is_success(code) ==> r == Ok::<Vec<u8>, Error>(body),
        !is_success(code) ==> (r matches Err(e) && failure_for(code, body@, e)),
{
    if success(code) {
        Ok(body)
    } else {
        Err(response_error(code, body.as_slice()))
    }
}

/// What an existence probe's answer means.
pub enum Presence {
    Absent,
    Present,
    Failed,
}

/// 404 means absent, a success means present, anything else is a failure.
pub open spec fn presence_of(code: u16) -> Presence {
    if code == 404 {
        Presence::Absent
    } else if is_success(code) {
        Presence::Present
    } else {
        Presence::Failed
    }
}

pub fn presence(code: u16) -> (r: Presence)
    ensures
        r == presence_of(code),
{
    if code == 404 {
        Presence::Absent
    } else if success(code) {
        Presence::Present
    } else {
        Presence::Failed
    }
}

/// The result of an existence probe: `false` on 404, `true` on a success,
/// else the error that the body describes, carrying the HTTP code.
pub fn exists_outcome(code: u16, body: &[u8]) -> (r: Result<bool, Error>)
    ensures
        code == 404 ==> r == Ok::<bool, Error>(false),
        is_success(code) ==> r == Ok::<bool, Error>(true),
        code != 404 && !is_success(code) ==> (r matches Err(e) && failure_for(code, body@, e)),
{
    match presence(code) {
        Presence::Absent => Ok(false),
        Presence::Present => Ok(true),
        Presence::Failed => Err(response_error(code, body)),
    }
}

} // verus!
