//! Responses of a device: the structured error, success and serial
//! responses, and the HTTP status line and body that carry them.
use vstd::prelude::*;
use vstd::string::StringExecFns;

use crate::collections::{has_key, key_index};
use crate::parameters::{ParameterValue, ParametersValues};

verus! {

/// The kinds of error a device reports.
#[derive(Debug, Clone, Copy, PartialEq, Eq, Structural)]
pub enum ErrorKind {
    /// The input data is not valid.
    InvalidData,
    /// The device failed internally.
    Internal,
}

/// A response describing an error that occurred while running an action:
/// its kind, its cause and, optionally, more information.
#[derive(Debug)]
pub struct ErrorResponse {
    /// The kind of error.
    pub error: ErrorKind,
    /// The description of the error.
    pub description: String,
    /// More information about the error.
    pub info: Option<String>,
}

impl ErrorResponse {
    /// Creates an [`ErrorResponse`] with a kind and a description.
    pub fn with_description(error: ErrorKind, description: &str) -> (response: Self)
        ensures
            response.error == error,
            response.description@ == description@,
            response.info is None,
    {
        ErrorResponse { error, description: String::from_str(description), info: None }
    }

    /// Creates an [`ErrorResponse`] with a kind, a description and more
    /// information about the error, given as the text of the error.
    pub fn with_description_error(error: ErrorKind, description: &str, info: &str) -> (response:
        Self)
        ensures
            response.error == error,
            response.description@ == description@,
            response.info matches Some(i) && i@ == info@,
    {
        ErrorResponse {
            error,
            description: String::from_str(description),
            info: Some(String::from_str(info)),
        }
    }

    /// Creates an [`ErrorResponse`] for invalid data.
    pub fn invalid_data(description: &str) -> (response: Self)
        ensures
            response.error == ErrorKind::InvalidData,
            response.description@ == description@,
            response.info is None,
    {
        Self::with_description(ErrorKind::InvalidData, description)
    }

    /// Creates an [`ErrorResponse`] for invalid data, with the text of the
    /// error that caused it.
    pub fn invalid_data_with_error(description: &str, info: &str) -> (response: Self)
        ensures
            response.error == ErrorKind::InvalidData,
            response.description@ == description@,
            response.info matches Some(i) && i@ == info@,
    {
        Self::with_description_error(ErrorKind::InvalidData, description, info)
    }

    /// Creates an [`ErrorResponse`] for an internal error.
    pub fn internal(description: &str) -> (response: Self)
        ensures
            response.error == ErrorKind::Internal,
            response.description@ == description@,
            response.info is None,
    {
        Self::with_description(ErrorKind::Internal, description)
    }

    /// Creates an [`ErrorResponse`] for an internal error, with the text of
    /// the error that caused it.
    pub fn internal_with_error(description: &str, info: &str) -> (response: Self)
        ensures
            response.error == ErrorKind::Internal,
            response.description@ == description@,
            response.info matches Some(i) && i@ == info@,
    {
        Self::with_description_error(ErrorKind::Internal, description, info)
    }
}

/// A response that notifies that an operation completed successfully.
#[derive(Debug, Clone, Copy, PartialEq, Eq, Structural)]
pub struct OkResponse;

impl OkResponse {
    /// Generates an [`OkResponse`].
    pub fn ok() -> (response: Self)
        ensures
            response == OkResponse,
    {
        OkResponse
    }
}

/// A response that carries serializable data.
#[derive(Debug)]
pub struct SerialResponse<T> {
    /// The data.
    pub data: T,
}

impl<T> SerialResponse<T> {
    /// Generates a [`SerialResponse`] carrying `data`.
    pub fn new(data: T) -> (response: Self)
        ensures
            response.data == data,
    {
        SerialResponse { data }
    }
}

/// The status line and content type of an HTTP response.
#[derive(Debug, Clone, Copy, PartialEq, Eq)]
pub struct Headers {
    /// The status code.
    pub status: u16,
    /// The reason phrase.
    pub message: &'static str,
    /// The `Content-Type` header, if any.
    pub content_type: Option<&'static str>,
}

impl Headers {
    /// `404 Not Found`, with no content type.
    pub fn not_found() -> (headers: Self)
        ensures
            headers.status == 404,
            headers.message@ == "Not Found"@,
            headers.content_type is None,
    {
        Headers { status: 404, message: "Not Found", content_type: None }
    }

    /// `405 Method Not Allowed`, with no content type.
    pub fn not_allowed() -> (headers: Self)
        ensures
            headers.status == 405,
            headers.message@ == "Method Not Allowed"@,
            headers.content_type is None,
    {
        Headers { status: 405, message: "Method Not Allowed", content_type: None }
    }

    /// `200 Ok`, with a JSON content type.
    pub fn json() -> (headers: Self)
        ensures
            headers.status == 200,
            headers.message@ == "Ok"@,
            headers.content_type matches Some(t) && t@ == "application/json"@,
    {
        Headers { status: 200, message: "Ok", content_type: Some("application/json") }
    }

    /// `500 Error`, with a JSON content type.
    pub fn json_error() -> (headers: Self)
        ensures
            headers.status == 500,
            headers.message@ == "Error"@,
            headers.content_type matches Some(t) && t@ == "application/json"@,
    {
        Headers { status: 500, message: "Error", content_type: Some("application/json") }
    }
}

/// A response body.
#[derive(Debug)]
pub struct Body(pub Vec<u8>);

impl Body {
    /// An empty body.
    pub fn empty() -> (body: Self)
        ensures
            body.0@ == Seq::<u8>::empty(),
    {
        Body(Vec::new())
    }

    /// A body holding a copy of the given bytes.
    pub fn static_ref(v: &[u8]) -> (body: Self)
        ensures
            body.0@ == v@,
    {
        let mut bytes: Vec<u8> = Vec::new();
        let mut i: usize = 0;
        while i < v.len()
            invariant
                i <= v@.len(),
                bytes@ == v@.subrange(0, i as int),
            decreases v.len() - i,
        {
            bytes.push(v[i]);
            proof {
                assert(v@.subrange(0, i + 1) == v@.subrange(0, i as int).push(v@[i as int]));
            }
            i = i + 1;
        }
        proof {
            assert(v@.subrange(0, v@.len() as int) == v@);
        }
        Body(bytes)
    }

    /// A body that owns the given bytes.
    pub fn owned(v: Vec<u8>) -> (body: Self)
        ensures
            body.0@ == v@,
    {
        Body(v)
    }
}

/// A server response: headers and body.
#[derive(Debug)]
pub struct Response {
    /// The headers.
    pub headers: Headers,
    /// The body.
    pub body: Body,
}

impl Response {
    /// Assembles a response.
    pub fn new(headers: Headers, body: Body) -> (response: Self)
        ensures
            response.headers == headers,
            response.body == body,
    {
        Response { headers, body }
    }

    /// The response for a path that names no route: `404`, empty body.
    pub fn not_found() -> (response: Self)
        ensures
            response.headers.status == 404,
            response.headers.content_type is None,
            response.body.0@ == Seq::<u8>::empty(),
    {
        Response::new(Headers::not_found(), Body::empty())
    }

    /// The response for a refused method: `405`, with the body
    /// `Method not allowed`.
    pub fn not_allowed() -> (response: Self)
        ensures
            response.headers.status == 405,
            response.headers.content_type is None,
            response.body.0@ == "Method not allowed"@.map_values(|c: char| c as u8),
    {
        let text: [u8; 18] = [
            0x4d, 0x65, 0x74, 0x68, 0x6f, 0x64, 0x20, 0x6e, 0x6f, 0x74, 0x20, 0x61, 0x6c, 0x6c,
            0x6f, 0x77, 0x65, 0x64,
        ];
        proof {
            reveal_strlit("Method not allowed");
            assert(text@ =~= "Method not allowed"@.map_values(|c: char| c as u8));
        }
        Response::new(Headers::not_allowed(), Body::static_ref(text.as_slice()))
    }

    /// Either response of a result: the success or the failure.
    pub fn from_result(result: Result<Response, Response>) -> (response: Self)
        ensures
            response == match result {
                Ok(r) => r,
                Err(r) => r,
            },
    {
        match result {
            Ok(value) => value,
            Err(err) => err,
        }
    }
}

/// An [`ErrorResponse`] for invalid data.
pub fn invalid_data(description: &str) -> (response: ErrorResponse)
    ensures
        response.error == ErrorKind::InvalidData,
        response.description@ == description@,
        response.info is None,
{
    ErrorResponse::invalid_data(description)
}

/// The description of a missing route parameter: the name in backquotes,
/// then ` not found.`.
pub open spec fn not_found_text(name: Seq<char>) -> Seq<char> {
    "`"@ + name + "` not found."@
}

/// The description of a route parameter of another kind: the name in
/// backquotes, then ` is not a `, the kind, and ` kind`.
pub open spec fn wrong_kind_text(name: Seq<char>, kind: Seq<char>) -> Seq<char> {
    "`"@ + name + "` is not a "@ + kind + " kind"@
}

/// The parameter values of a route as a route handler reads them: each by
/// name, with the kind the handler expects.
pub struct RouteParameters(pub ParametersValues);

/// The value stored under a name, if any.
pub open spec fn stored(values: ParametersValues, name: Seq<char>) -> Option<ParameterValue> {
    if has_key(values.entries(), name) {
        Some(values.entries()[key_index(values.entries(), name)].1)
    } else {
        None
    }
}

/// Whether a lookup failed as it must when the name is not stored.
pub open spec fn missing_error(name: Seq<char>, error: ErrorResponse) -> bool {
    error.error == ErrorKind::InvalidData && error.description@ == not_found_text(name) && error.info is None
}

/// Whether a lookup failed as it must when the stored value is of another
/// kind.
pub open spec fn kind_error(name: Seq<char>, kind: Seq<char>, error: ErrorResponse) -> bool {
    error.error == ErrorKind::InvalidData && error.description@ == wrong_kind_text(name, kind) && error.info is None
}

fn missing_parameter(name: &str) -> (error: ErrorResponse)
    ensures
        missing_error(name@, error),
{
    let mut text = String::from_str("`");
    text.append(name);
    text.append("` not found.");
    invalid_data(text.as_str())
}

fn wrong_kind(name: &str, kind: &str) -> (error: ErrorResponse)
    ensures
        kind_error(name@, kind@, error),
{
    let mut text = String::from_str("`");
    text.append(name);
    text.append("` is not a ");
    text.append(kind);
    text.append(" kind");
    invalid_data(text.as_str())
}

impl RouteParameters {
    /// Retrieves the `bool` value of a parameter.
    pub fn bool(&self, name: &str) -> (result: Result<bool, ErrorResponse>)
        ensures
            match stored(self.0, name@) {
                None => result matches Err(e) && missing_error(name@, e),
                Some(ParameterValue::Bool(v)) => result == Ok::<bool, ErrorResponse>(v),
                Some(_) => result matches Err(e) && kind_error(name@, "bool"@, e),
            },
    {
        match self.0.get(name) {
            None => Err(missing_parameter(name)),
            Some(ParameterValue::Bool(v)) => Ok(*v),
            Some(_) => Err(wrong_kind(name, "bool")),
        }
    }

    /// Retrieves the `u8` value of a parameter.
    pub fn u8(&self, name: &str) -> (result: Result<u8, ErrorResponse>)
        ensures
            match stored(self.0, name@) {
                None => result matches Err(e) && missing_error(name@, e),
                Some(ParameterValue::U8(v)) => result == Ok::<u8, ErrorResponse>(v),
                Some(_) => result matches Err(e) && kind_error(name@, "u8"@, e),
            },
    {
        match self.0.get(name) {
            None => Err(missing_parameter(name)),
            Some(ParameterValue::U8(v)) => Ok(*v),
            Some(_) => Err(wrong_kind(name, "u8")),
        }
    }

    /// Retrieves the `u16` value of a parameter.
    pub fn u16(&self, name: &str) -> (result: Result<u16, ErrorResponse>)
        ensures
            match stored(self.0, name@) {
                None => result matches Err(e) && missing_error(name@, e),
                Some(ParameterValue::U16(v)) => result == Ok::<u16, ErrorResponse>(v),
                Some(_) => result matches Err(e) && kind_error(name@, "u16"@, e),
            },
    {
        match self.0.get(name) {
            None => Err(missing_parameter(name)),
            Some(ParameterValue::U16(v)) => Ok(*v),
            Some(_) => Err(wrong_kind(name, "u16")),
        }
    }

    /// Retrieves the `u32` value of a parameter.
    pub fn u32(&self, name: &str) -> (result: Result<u32, ErrorResponse>)
        ensures
            match stored(self.0, name@) {
                None => result matches Err(e) && missing_error(name@, e),
                Some(ParameterValue::U32(v)) => result == Ok::<u32, ErrorResponse>(v),
                Some(_) => result matches Err(e) && kind_error(name@, "u32"@, e),
            },
    {
        match self.0.get(name) {
            None => Err(missing_parameter(name)),
            Some(ParameterValue::U32(v)) => Ok(*v),
            Some(_) => Err(wrong_kind(name, "u32")),
        }
    }

    /// Retrieves the `u64` value of a parameter.
    pub fn u64(&self, name: &str) -> (result: Result<u64, ErrorResponse>)
        ensures
            match stored(self.0, name@) {
                None => result matches Err(e) && missing_error(name@, e),
                Some(ParameterValue::U64(v)) => result == Ok::<u64, ErrorResponse>(v),
                Some(_) => result matches Err(e) && kind_error(name@, "u64"@, e),
            },
    {
        match self.0.get(name) {
            None => Err(missing_parameter(name)),
            Some(ParameterValue::U64(v)) => Ok(*v),
            Some(_) => Err(wrong_kind(name, "u64")),
        }
    }

    /// Retrieves the bit pattern of the `f32` value of a parameter.
    pub fn f32_bits(&self, name: &str) -> (result: Result<u32, ErrorResponse>)
        ensures
            match stored(self.0, name@) {
                None => result matches Err(e) && missing_error(name@, e),
                Some(ParameterValue::F32(v)) => result == Ok::<u32, ErrorResponse>(v),
                Some(_) => result matches Err(e) && kind_error(name@, "f32"@, e),
            },
    {
        match self.0.get(name) {
            None => Err(missing_parameter(name)),
            Some(ParameterValue::F32(v)) => Ok(*v),
            Some(_) => Err(wrong_kind(name, "f32")),
        }
    }

    /// Retrieves the bit pattern of the `f64` value of a parameter.
    pub fn f64_bits(&self, name: &str) -> (result: Result<u64, ErrorResponse>)
        ensures
            match stored(self.0, name@) {
                None => result matches Err(e) && missing_error(name@, e),
                Some(ParameterValue::F64(v)) => result == Ok::<u64, ErrorResponse>(v),
                Some(_) => result matches Err(e) && kind_error(name@, "f64"@, e),
            },
    {
        match self.0.get(name) {
            None => Err(missing_parameter(name)),
            Some(ParameterValue::F64(v)) => Ok(*v),
            Some(_) => Err(wrong_kind(name, "f64")),
        }
    }

    /// Retrieves the characters sequence of a parameter.
    pub fn chars_sequence(&self, name: &str) -> (result: Result<&str, ErrorResponse>)
        ensures
            match stored(self.0, name@) {
                None => result matches Err(e) && missing_error(name@, e),
                Some(ParameterValue::CharsSequence(v)) => result matches Ok(t) && t@ == v@,
                Some(_) => result matches Err(e) && e.error == ErrorKind::InvalidData
                    && e.description@ == "`"@ + name@ + "` is not a chars sequence"@ && e.info is None,
            },
    {
        match self.0.get(name) {
            None => Err(missing_parameter(name)),
            Some(ParameterValue::CharsSequence(v)) => Ok(v.as_str()),
            Some(_) => {
                let mut text = String::from_str("`");
                text.append(name);
                text.append("` is not a chars sequence");
                Err(invalid_data(text.as_str()))
            },
        }
    }
}

} // verus!
