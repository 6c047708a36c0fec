//! How a device server maps an HTTP request onto one of its routes, and how
//! it reads the route's input parameters from the path or the body.
//!
//! A path such as `/light/on/5` is split on `/`: the first segment is empty,
//! the second names the device's main route, the next ones name a route and
//! then carry its parameters.
use vstd::prelude::*;
use vstd::string::{StrSliceExecFns, StringExecFns};

use crate::parameters::{
    kind_id, value_id, ParameterId, ParameterKind, ParameterValue, ParametersData,
    ParametersValues,
};
use crate::collections::{has_key, key_index};
use crate::parse::{
    bool_error_message, bool_error_text, parse_bool_chars, parse_bool_text, parse_unsigned,
    parse_unsigned_chars, IntErrorKind,
};
use crate::text::{
    contains_chars, occurs_in, pieces, range_eq, split_terminator, split_terminator_ranges,
    str_eq, to_chars, SLASH,
};

verus! {

/// The largest request body, in bytes, that a device reads.
pub const MAXIMUM_REQUEST_SIZE: usize = 128;

/// The REST kind of a route.
#[derive(Debug, Clone, Copy, PartialEq, Eq, Structural)]
pub enum RestKind {
    /// `GET`.
    Get,
    /// `PUT`.
    Put,
    /// `POST`.
    Post,
    /// `DELETE`.
    Delete,
}

/// The method of an HTTP request, as far as routing tells methods apart.
#[derive(Debug, Clone, Copy, PartialEq, Eq, Structural)]
pub enum Method {
    /// `GET`.
    Get,
    /// `PUT`.
    Put,
    /// `POST`.
    Post,
    /// `DELETE`.
    Delete,
    /// Any other method.
    Other,
}

/// The HTTP method that serves a REST kind.
pub open spec fn method_of(kind: RestKind) -> Method {
    match kind {
        RestKind::Get => Method::Get,
        RestKind::Put => Method::Put,
        RestKind::Post => Method::Post,
        RestKind::Delete => Method::Delete,
    }
}

/// Returns the HTTP method that serves a REST kind.
pub fn method_map(kind: RestKind) -> (method: Method)
    ensures
        method == method_of(kind),
{
    match kind {
        RestKind::Get => Method::Get,
        RestKind::Put => Method::Put,
        RestKind::Post => Method::Post,
        RestKind::Delete => Method::Delete,
    }
}

/// Whether a request method is the one that serves a REST kind.
pub fn is_same_method(method: Method, kind: RestKind) -> (same: bool)
    ensures
        same == (method == method_of(kind)),
{
    method == method_map(kind)
}

/// Whether a request method is refused outright: true for every method but
/// `GET`, `PUT`, `POST` and `DELETE`.
pub fn is_method_allowed(method: Method) -> (refused: bool)
    ensures
        refused == (method == Method::Other),
{
    match method {
        Method::Get | Method::Post | Method::Put | Method::Delete => false,
        Method::Other => true,
    }
}

/// A route as the server holds it: its path, its REST kind and its input
/// parameters.
pub struct RouteConfig {
    /// The route path, such as `/on`.
    pub path: String,
    /// The REST kind of the route.
    pub rest_kind: RestKind,
    /// The input parameters of the route, in order.
    pub parameters: ParametersData,
}

/// The text of a path after its leading `/`.
pub open spec fn tail(s: Seq<char>) -> Seq<char> {
    s.subrange(1, s.len() as int)
}

/// Whether a text begins with an ASCII character, as every path does with
/// `/`; the text after it then starts on a character boundary.
pub open spec fn starts_ascii(s: Seq<char>) -> bool {
    s.len() >= 1 && (s[0] as u32) < 0x80
}

/// Whether the main route is read for a path: its segments must be at
/// least two, and the path must hold a separator.
pub open spec fn reads_main_route(path: Seq<char>) -> bool {
    let segments = split_terminator(path, SLASH);
    segments.len() >= 2 && segments[0] != path
}

/// Whether the path of every route that a request with the given segment
/// gets to look at begins with an ASCII character: the routes that serve
/// the method, up to the first one the segment names.
pub open spec fn paths_readable_until_named(routes: Seq<RouteConfig>, method: Method, segment: Seq<char>) -> bool {
    forall|j: int|
        0 <= j < routes.len() && method == method_of(routes[j].rest_kind) && (forall|i: int|
            0 <= i < j ==> !names_route(#[trigger] routes[i], method, segment)) ==> starts_ascii(
            #[trigger] routes[j].path@,
        )
}

/// Whether [`check_path`] can read every path it looks at for a request:
/// the main route once the path has a separator, and the paths of the routes
/// it compares with the third segment.
pub open spec fn simple_routable(main_route: Seq<char>, routes: Seq<RouteConfig>, method: Method, path: Seq<char>) -> bool {
    let segments = split_terminator(path, SLASH);
    &&& reads_main_route(path) ==> starts_ascii(main_route)
    &&& under_main_route(main_route, segments, path) && segments.len() >= 3
        ==> paths_readable_until_named(routes, method, segments[2])
}

/// Whether the segments of a path lead to the main route: there is a
/// separator, and the second segment is the main route without its `/`.
pub open spec fn under_main_route(main: Seq<char>, segments: Seq<Seq<char>>, path: Seq<char>) -> bool {
    segments.len() >= 2 && segments[0] != path && segments[1] == tail(main)
}

/// Whether a route serves a request method and is named by a segment.
pub open spec fn names_route(route: RouteConfig, method: Method, segment: Seq<char>) -> bool {
    method == method_of(route.rest_kind) && segment == tail(route.path@)
}

/// The characters of a text after its first one.
fn chars_after_first(s: &str) -> (chars: Vec<char>)
    requires
        s@.len() >= 1,
    ensures
        chars@ == tail(s@),
{
    let all = to_chars(s);
    let mut chars: Vec<char> = Vec::new();
    let mut i: usize = 1;
    while i < all.len()
        invariant
            1 <= i <= all@.len(),
            all@ == s@,
            chars@ == all@.subrange(1, i as int),
        decreases all.len() - i,
    {
        chars.push(all[i]);
        proof {
            assert(all@.subrange(1, i + 1) == all@.subrange(1, i as int).push(all@[i as int]));
        }
        i = i + 1;
    }
    chars
}

/// Finds the route that a request names, for a device that reads no
/// parameters from paths: the first route that serves the method and whose
/// path, without its `/`, is the third segment of the request path.
///
/// Returns the number of routes when the path does not lead to the main
/// route or names no route.
pub fn check_path(main_route: &str, routes: &[RouteConfig], method: Method, path: &str) -> (index:
    usize)
    requires
        simple_routable(main_route@, routes@, method, path@),
    ensures
        index <= routes@.len(),
        ({
            let segments = split_terminator(path@, SLASH);
            if under_main_route(main_route@, segments, path@) && segments.len() >= 3 {
                &&& index < routes@.len() ==> names_route(routes@[index as int], method, segments[2])
                &&& forall|j: int| 0 <= j < index ==> !names_route(routes@[j], method, segments[2])
            } else {
                index == routes@.len()
            }
        }),
{
    let not_found = routes.len();
    let chars = to_chars(path);
    let ranges = split_terminator_ranges(chars.as_slice(), SLASH);
    let ghost segments = split_terminator(path@, SLASH);
    proof {
        assert(pieces(chars@, ranges@) == segments);
    }
    if ranges.len() < 2 {
        return not_found;
    }
    let (a0, b0) = ranges[0];
    proof {
        assert(segments[0] == chars@.subrange(a0 as int, b0 as int));
    }
    if range_eq(chars.as_slice(), a0, b0, chars.as_slice()) {
        return not_found;
    }
    let main_tail = chars_after_first(main_route);
    let (a1, b1) = ranges[1];
    proof {
        assert(segments[1] == chars@.subrange(a1 as int, b1 as int));
    }
    if !range_eq(chars.as_slice(), a1, b1, main_tail.as_slice()) {
        return not_found;
    }
    if ranges.len() < 3 {
        return not_found;
    }
    let (a2, b2) = ranges[2];
    proof {
        assert(segments[2] == chars@.subrange(a2 as int, b2 as int));
    }
    let mut i: usize = 0;
    while i < routes.len()
        invariant
            i <= routes@.len(),
            not_found == routes@.len(),
            a2 <= b2 <= chars@.len(),
            segments == split_terminator(path@, SLASH),
            under_main_route(main_route@, segments, path@),
            segments.len() >= 3,
            segments[2] == chars@.subrange(a2 as int, b2 as int),
            paths_readable_until_named(routes@, method, segments[2]),
            forall|j: int| 0 <= j < i ==> !names_route(routes@[j], method, segments[2]),
        decreases routes.len() - i,
    {
        let route = &routes[i];
        if is_same_method(method, route.rest_kind) {
            proof {
                assert(starts_ascii(routes@[i as int].path@));
            }
            let route_tail = chars_after_first(route.path.as_str());
            if range_eq(chars.as_slice(), a2, b2, route_tail.as_slice()) {
                return i;
            }
        }
        i = i + 1;
    }
    not_found
}

} // verus!

verus! {

/// Why a request cannot be served by the route it names, or names none.
#[derive(Debug)]
pub enum RouteError {
    /// The path leads to no route.
    NotFound,
    /// The path ends before every parameter has a value; the names of the
    /// parameters left without one, in order.
    MissingParameters(Vec<String>),
    /// A path segment does not read as a value of its parameter's type.
    InvalidValue {
        /// The segment.
        value: String,
        /// The Rust type the segment was read as.
        carrier: &'static str,
        /// Why it could not be read.
        reason: &'static str,
    },
    /// The request has no `Content-Length` header.
    NoContentLength,
    /// The `Content-Length` header is not a number.
    InvalidContentLength(IntErrorKind),
    /// The body is larger than [`MAXIMUM_REQUEST_SIZE`].
    TooLarge,
    /// The request has no `Content-Type` header.
    NoContentType,
    /// The body is not declared as JSON.
    NotJson,
    /// The body could not be read; what the reader reported.
    UnreadableBody(String),
    /// The body is not a JSON map of parameter values; what the parser
    /// reported.
    InvalidJson(String),
    /// The body lacks a parameter of the route.
    ParameterNotFound(String),
    /// A body value does not have its parameter's type.
    WrongParameterId {
        /// The identifier of the value found.
        found: ParameterId,
        /// The identifier of the parameter.
        expected: ParameterId,
    },
}

/// What a failed request is answered with.
#[derive(Debug, Clone, Copy, PartialEq, Eq, Structural)]
pub enum ErrorClass {
    /// `404 Not Found`.
    NotFound,
    /// An error response for invalid data.
    InvalidData,
    /// An error response for an internal error.
    Internal,
}

impl RouteError {
    /// What the error is answered with.
    pub open spec fn spec_class(&self) -> ErrorClass {
        match self {
            RouteError::NotFound => ErrorClass::NotFound,
            RouteError::MissingParameters(_) | RouteError::NoContentLength
            | RouteError::NoContentType | RouteError::NotJson
            | RouteError::ParameterNotFound(_)
            | RouteError::WrongParameterId { .. } => ErrorClass::InvalidData,
            RouteError::InvalidValue { .. } | RouteError::InvalidContentLength(_)
            | RouteError::TooLarge | RouteError::UnreadableBody(_)
            | RouteError::InvalidJson(_) => ErrorClass::Internal,
        }
    }

    /// Returns what the error is answered with.
    pub fn class(&self) -> (class: ErrorClass)
        ensures
            class == self.spec_class(),
    {
        match self {
            RouteError::NotFound => ErrorClass::NotFound,
            RouteError::MissingParameters(_) | RouteError::NoContentLength
            | RouteError::NoContentType | RouteError::NotJson
            | RouteError::ParameterNotFound(_)
            | RouteError::WrongParameterId { .. } => ErrorClass::InvalidData,
            RouteError::InvalidValue { .. } | RouteError::InvalidContentLength(_)
            | RouteError::TooLarge | RouteError::UnreadableBody(_)
            | RouteError::InvalidJson(_) => ErrorClass::Internal,
        }
    }
}

/// A parameter value read from a path segment. Floating-point values are
/// handed on as their text, to be read where floating point is at hand.
#[derive(Debug)]
pub enum PathValue {
    /// A value read from the segment.
    Ready(ParameterValue),
    /// The text of a `f32` value.
    Float32Text(String),
    /// The text of a `f64` value.
    Float64Text(String),
}

/// A named parameter value read from a path segment.
#[derive(Debug)]
pub struct PathArgument {
    /// The parameter name.
    pub name: String,
    /// The value.
    pub value: PathValue,
}

/// Where the parameter values of a matched route come from.
#[derive(Debug)]
pub enum RouteArguments {
    /// The route has no parameters.
    NoParameters,
    /// The values were read from the path, one per parameter, in order.
    FromPath(Vec<PathArgument>),
    /// The values are to be read from the request body.
    FromBody,
}

/// The route that a request names, with its arguments.
#[derive(Debug)]
pub struct RouteTarget {
    /// The position of the route.
    pub index: usize,
    /// Where the parameter values come from.
    pub arguments: RouteArguments,
}

/// The views of a sequence of strings.
pub open spec fn string_views(v: Seq<String>) -> Seq<Seq<char>> {
    v.map_values(|s: String| s@)
}

/// The largest value of the unsigned type that carries a kind, for the
/// kinds read as unsigned integers.
pub open spec fn unsigned_limit(kind: ParameterKind) -> int {
    match kind {
        ParameterKind::U8 { .. } => 0xff,
        ParameterKind::U16 { .. } => 0xffff,
        ParameterKind::U32 { .. } => 0xffff_ffff,
        _ => 0xffff_ffff_ffff_ffff,
    }
}

/// Whether a kind is read as an unsigned integer.
pub open spec fn read_as_unsigned(kind: ParameterKind) -> bool {
    kind is U8 || kind is U16 || kind is U32 || kind is U64 || kind is RangeU64
}

/// Whether a segment reads as a value of a kind.
pub open spec fn readable(kind: ParameterKind, text: Seq<char>) -> bool {
    if kind is Bool {
        parse_bool_text(text) is Some
    } else if read_as_unsigned(kind) {
        parse_unsigned(text, unsigned_limit(kind)) is Ok
    } else {
        true
    }
}

/// The value that a segment reads as, for a kind.
pub open spec fn reads_as(kind: ParameterKind, text: Seq<char>, value: PathValue) -> bool {
    match kind {
        ParameterKind::Bool { .. } => parse_bool_text(text) matches Some(b) && value
            == PathValue::Ready(ParameterValue::Bool(b)),
        ParameterKind::U8 { .. } => parse_unsigned(text, 0xff) matches Ok(n) && value
            == PathValue::Ready(ParameterValue::U8(n as u8)),
        ParameterKind::U16 { .. } => parse_unsigned(text, 0xffff) matches Ok(n) && value
            == PathValue::Ready(ParameterValue::U16(n as u16)),
        ParameterKind::U32 { .. } => parse_unsigned(text, 0xffff_ffff) matches Ok(n) && value
            == PathValue::Ready(ParameterValue::U32(n as u32)),
        ParameterKind::U64 { .. } | ParameterKind::RangeU64 { .. } => parse_unsigned(
            text,
            0xffff_ffff_ffff_ffff,
        ) matches Ok(n) && value == PathValue::Ready(ParameterValue::U64(n as u64)),
        ParameterKind::F32 { .. } => value matches PathValue::Float32Text(t) && t@ == text,
        ParameterKind::F64 { .. } | ParameterKind::RangeF64 { .. } => value matches PathValue::Float64Text(t)
            && t@ == text,
        ParameterKind::CharsSequence { .. } => value matches PathValue::Ready(
            ParameterValue::CharsSequence(t),
        ) && t@ == text,
    }
}

/// Why a segment does not read as a value of a kind.
pub open spec fn unreadable_reason(kind: ParameterKind, text: Seq<char>) -> Seq<char> {
    if kind is Bool {
        bool_error_text()
    } else {
        match parse_unsigned(text, unsigned_limit(kind)) {
            Err(e) => e.text(),
            Ok(_) => Seq::empty(),
        }
    }
}

/// The error for a segment that does not read as a value of a kind.
pub open spec fn is_unreadable_error(kind: ParameterKind, text: Seq<char>, error: RouteError) -> bool {
    error matches RouteError::InvalidValue { value, carrier, reason } && value@ == text && carrier@
        == kind_id(kind).carrier_type() && reason@ == unreadable_reason(kind, text)
}

/// Reads a path segment as a value of a parameter kind.
pub fn parse_parameter_value(text: &str, kind: &ParameterKind) -> (result: Result<
    PathValue,
    RouteError,
>)
    ensures
        result is Ok <==> readable(*kind, text@),
        result matches Ok(v) ==> reads_as(*kind, text@, v),
        result matches Err(e) ==> is_unreadable_error(*kind, text@, e),
{
    let chars = to_chars(text);
    let limit: u64 = match kind {
        ParameterKind::Bool { .. } => {
            return match parse_bool_chars(chars.as_slice()) {
                Some(b) => Ok(PathValue::Ready(ParameterValue::Bool(b))),
                None => Err(
                    RouteError::InvalidValue {
                        value: String::from_str(text),
                        carrier: "bool",
                        reason: bool_error_message(),
                    },
                ),
            };
        },
        ParameterKind::U8 { .. } => 0xff,
        ParameterKind::U16 { .. } => 0xffff,
        ParameterKind::U32 { .. } => 0xffff_ffff,
        ParameterKind::U64 { .. } | ParameterKind::RangeU64 { .. } => 0xffff_ffff_ffff_ffff,
        ParameterKind::F32 { .. } => {
            return Ok(PathValue::Float32Text(String::from_str(text)));
        },
        ParameterKind::F64 { .. } | ParameterKind::RangeF64 { .. } => {
            return Ok(PathValue::Float64Text(String::from_str(text)));
        },
        ParameterKind::CharsSequence { .. } => {
            return Ok(PathValue::Ready(ParameterValue::CharsSequence(String::from_str(text))));
        },
    };
    let carrier = ParameterId::from_parameter_kind(kind).as_type();
    match parse_unsigned_chars(chars.as_slice(), limit) {
        Ok(n) => match kind {
            ParameterKind::U8 { .. } => Ok(PathValue::Ready(ParameterValue::U8(n as u8))),
            ParameterKind::U16 { .. } => Ok(PathValue::Ready(ParameterValue::U16(n as u16))),
            ParameterKind::U32 { .. } => Ok(PathValue::Ready(ParameterValue::U32(n as u32))),
            _ => Ok(PathValue::Ready(ParameterValue::U64(n))),
        },
        Err(e) => Err(
            RouteError::InvalidValue {
                value: String::from_str(text),
                carrier,
                reason: e.message(),
            },
        ),
    }
}

/// Whether the parameter at a position has a segment that reads as its
/// kind.
pub open spec fn argument_ok(
    params: Seq<(Seq<char>, ParameterKind)>,
    segments: Seq<Seq<char>>,
    i: int,
) -> bool {
    i < segments.len() && readable(params[i].1, segments[i])
}

/// Whether the arguments are the values of the segments, one per parameter,
/// in order.
pub open spec fn arguments_read(
    params: Seq<(Seq<char>, ParameterKind)>,
    segments: Seq<Seq<char>>,
    args: Seq<PathArgument>,
) -> bool {
    &&& args.len() == params.len()
    &&& forall|i: int|
        0 <= i < params.len() ==> {
            &&& #[trigger] args[i].name@ == params[i].0
            &&& i < segments.len()
            &&& reads_as(params[i].1, segments[i], args[i].value)
        }
}

/// Whether an error is the one for the first parameter whose segment is
/// missing or unreadable.
pub open spec fn arguments_fail(
    params: Seq<(Seq<char>, ParameterKind)>,
    segments: Seq<Seq<char>>,
    error: RouteError,
) -> bool {
    exists|i: int|
        0 <= i < params.len() && (forall|j: int| 0 <= j < i ==> argument_ok(params, segments, j))
            && !#[trigger] argument_ok(params, segments, i) && if i >= segments.len() {
            error matches RouteError::MissingParameters(names) && string_views(names@)
                == params.subrange(i, params.len() as int).map_values(
                |p: (Seq<char>, ParameterKind)| p.0,
            )
        } else {
            is_unreadable_error(params[i].1, segments[i], error)
        }
}

/// The names of the parameters from a position on.
fn names_from(parameters: &ParametersData, start: usize) -> (names: Vec<String>)
    requires
        start <= parameters.entries().len(),
    ensures
        string_views(names@) == parameters.entries().subrange(
            start as int,
            parameters.entries().len() as int,
        ).map_values(|p: (Seq<char>, ParameterKind)| p.0),
{
    let ghost params = parameters.entries();
    let mut names: Vec<String> = Vec::new();
    let mut i = start;
    let n = parameters.len();
    while i < n
        invariant
            start <= i <= n,
            n == params.len(),
            params == parameters.entries(),
            string_views(names@) == params.subrange(start as int, i as int).map_values(
                |p: (Seq<char>, ParameterKind)| p.0,
            ),
        decreases n - i,
    {
        match parameters.get_index(i) {
            Some((name, _)) => {
                let ghost before = names@;
                names.push(name.clone());
                proof {
                    assert(names@ == before.push(names@.last()));
                    assert(params.subrange(start as int, i + 1) == params.subrange(
                        start as int,
                        i as int,
                    ).push(params[i as int]));
                    assert(string_views(names@) =~= string_views(before).push(names@.last()@));
                }
            },
            None => {},
        }
        i = i + 1;
    }
    names
}

/// Reads the parameters of a route from the path segments that follow the
/// route's own: one segment per parameter, in order.
pub fn parse_get_parameters(parameters: &ParametersData, segments: &[String]) -> (result: Result<
    Vec<PathArgument>,
    RouteError,
>)
    ensures
        result is Ok <==> forall|i: int|
            0 <= i < parameters.entries().len() ==> #[trigger] argument_ok(
                parameters.entries(),
                string_views(segments@),
                i,
            ),
        result matches Ok(args) ==> arguments_read(
            parameters.entries(),
            string_views(segments@),
            args@,
        ),
        result matches Err(e) ==> arguments_fail(
            parameters.entries(),
            string_views(segments@),
            e,
        ),
{
    let ghost params = parameters.entries();
    let ghost segs = string_views(segments@);
    let n = parameters.len();
    let mut args: Vec<PathArgument> = Vec::new();
    let mut i: usize = 0;
    while i < n
        invariant
            i <= n,
            n == params.len(),
            params == parameters.entries(),
            segs == string_views(segments@),
            args@.len() == i,
            forall|j: int| 0 <= j < i ==> #[trigger] argument_ok(params, segs, j),
            forall|j: int|
                0 <= j < i ==> {
                    &&& #[trigger] args@[j].name@ == params[j].0
                    &&& j < segs.len()
                    &&& reads_as(params[j].1, segs[j], args@[j].value)
                },
        decreases n - i,
    {
        match parameters.get_index(i) {
            Some((name, kind)) => {
                if i >= segments.len() {
                    let names = names_from(parameters, i);
                    let error = RouteError::MissingParameters(names);
                    proof {
                        assert(!argument_ok(params, segs, i as int));
                    }
                    return Err(error);
                }
                let segment = &segments[i];
                proof {
                    assert(segs[i as int] == segment@);
                }
                match parse_parameter_value(segment.as_str(), kind) {
                    Ok(value) => {
                        args.push(PathArgument { name: name.clone(), value });
                        proof {
                            assert(argument_ok(params, segs, i as int));
                        }
                    },
                    Err(error) => {
                        proof {
                            assert(!argument_ok(params, segs, i as int));
                        }
                        return Err(error);
                    },
                }
            },
            None => {},
        }
        i = i + 1;
    }
    Ok(args)
}

} // verus!

verus! {

/// A path without one trailing `/`.
pub open spec fn strip_trailing_slash(path: Seq<char>) -> Seq<char> {
    if path.len() > 0 && path.last() == SLASH {
        path.drop_last()
    } else {
        path
    }
}

/// Whether a route may serve a request: it serves the method and its path,
/// without its `/`, occurs somewhere in the request path.
pub open spec fn candidate(route: RouteConfig, method: Method, path: Seq<char>) -> bool {
    method == method_of(route.rest_kind) && occurs_in(path, tail(route.path@))
}

/// Whether the route at `k` is the first candidate.
pub open spec fn first_candidate(routes: Seq<RouteConfig>, method: Method, path: Seq<char>, k: int) -> bool {
    0 <= k < routes.len() && candidate(routes[k], method, path) && forall|j: int|
        0 <= j < k ==> !candidate(#[trigger] routes[j], method, path)
}

/// Whether the path of every route that [`analyze_route`] looks at begins
/// with an ASCII character: the routes that serve the method, up to the
/// first candidate.
pub open spec fn paths_readable_until_candidate(routes: Seq<RouteConfig>, method: Method, path: Seq<char>) -> bool {
    forall|j: int|
        0 <= j < routes.len() && method == method_of(routes[j].rest_kind) && (forall|i: int|
            0 <= i < j ==> !candidate(#[trigger] routes[i], method, path)) ==> starts_ascii(
            #[trigger] routes[j].path@,
        )
}

/// Whether [`analyze_route`] can read every path it looks at for a request:
/// the main route once the path, without one trailing `/`, has a
/// separator, and the paths of the routes it considers.
pub open spec fn routable(main_route: Seq<char>, routes: Seq<RouteConfig>, method: Method, path: Seq<char>) -> bool {
    let stripped = strip_trailing_slash(path);
    let segments = split_terminator(stripped, SLASH);
    &&& reads_main_route(stripped) ==> starts_ascii(main_route)
    &&& under_main_route(main_route, segments, stripped) ==> paths_readable_until_candidate(routes, method, stripped)
}

/// What a request is answered with once the route at `k` is chosen, its
/// path segments `segments`: the route's own segments follow the main
/// route's; its parameters come from the segments after them for `GET`, from
/// the body otherwise.
pub open spec fn route_outcome(
    route: RouteConfig,
    k: int,
    method: Method,
    segments: Seq<Seq<char>>,
    result: Result<RouteTarget, RouteError>,
) -> bool {
    let own = split_terminator(tail(route.path@), SLASH).len();
    if 2 + own > segments.len() {
        result == Err::<RouteTarget, RouteError>(RouteError::NotFound)
    } else if route.parameters.entries().len() == 0 {
        result matches Ok(target) && target.index == k && target.arguments is NoParameters
    } else if method == Method::Get {
        let rest = segments.subrange(2 + own as int, segments.len() as int);
        match result {
            Ok(target) => target.index == k && (target.arguments matches RouteArguments::FromPath(
                args,
            ) && arguments_read(route.parameters.entries(), rest, args@)),
            Err(e) => arguments_fail(route.parameters.entries(), rest, e),
        }
    } else {
        result matches Ok(target) && target.index == k && target.arguments is FromBody
    }
}

/// What [`analyze_route`] answers for a request: `NotFound` unless the path,
/// without one trailing `/`, leads to the main route and some route is a
/// candidate; otherwise the outcome for the first candidate.
pub open spec fn analysis(
    main_route: Seq<char>,
    routes: Seq<RouteConfig>,
    method: Method,
    path: Seq<char>,
    result: Result<RouteTarget, RouteError>,
) -> bool {
    let stripped = strip_trailing_slash(path);
    let segments = split_terminator(stripped, SLASH);
    if !under_main_route(main_route, segments, stripped) {
        result == Err::<RouteTarget, RouteError>(RouteError::NotFound)
    } else if forall|j: int| 0 <= j < routes.len() ==> !#[trigger] candidate(routes[j], method, stripped) {
        result == Err::<RouteTarget, RouteError>(RouteError::NotFound)
    } else {
        forall|k: int| #[trigger] first_candidate(routes, method, stripped, k) ==> route_outcome(routes[k], k, method, segments, result)
    }
}

/// The segments of a path, as strings, from a position on.
fn segment_strings(path: &str, ranges: &[(usize, usize)], from: usize, Ghost(stripped): Ghost<Seq<char>>) -> (strings: Vec<String>)
    requires
        from <= ranges@.len(),
        stripped.len() <= path@.len(),
        stripped == path@.subrange(0, stripped.len() as int),
        crate::text::ranges_within(stripped, ranges@),
    ensures
        string_views(strings@) == pieces(stripped, ranges@).subrange(from as int, ranges@.len() as int),
{
    let mut strings: Vec<String> = Vec::new();
    let mut i = from;
    while i < ranges.len()
        invariant
            from <= i <= ranges@.len(),
            stripped.len() <= path@.len(),
            stripped == path@.subrange(0, stripped.len() as int),
            crate::text::ranges_within(stripped, ranges@),
            string_views(strings@) == pieces(stripped, ranges@).subrange(from as int, i as int),
        decreases ranges.len() - i,
    {
        let (a, b) = ranges[i];
        proof {
            assert(a <= b <= stripped.len());
        }
        let piece = path.substring_char(a, b);
        let ghost before = strings@;
        strings.push(String::from_str(piece));
        proof {
            assert(piece@ == stripped.subrange(a as int, b as int));
            assert(pieces(stripped, ranges@).subrange(from as int, i + 1) == pieces(stripped, ranges@).subrange(from as int, i as int).push(pieces(stripped, ranges@)[i as int]));
            assert(string_views(strings@) =~= string_views(before).push(piece@));
        }
        i = i + 1;
    }
    strings
}

/// Finds the route that a request names and reads its parameters from the
/// path, or tells that they come from the body.
///
/// The path, without one trailing `/`, must lead to the main route. The
/// route chosen is the first that serves the method and whose path, without
/// its `/`, occurs anywhere in the request path; its own segments are then
/// skipped, and for `GET` the next segments give the parameter values.
pub fn analyze_route(main_route: &str, routes: &[RouteConfig], method: Method, path: &str) -> (result: Result<RouteTarget, RouteError>)
    requires
        routable(main_route@, routes@, method, path@),
    ensures
        analysis(main_route@, routes@, method, path@, result),
{
    let all = to_chars(path);
    let mut chars = all;
    let n = chars.len();
    if n > 0 && chars[n - 1] == SLASH {
        chars.pop();
    }
    let ghost stripped = strip_trailing_slash(path@);
    proof {
        assert(chars@ == stripped);
        assert(stripped == path@.subrange(0, stripped.len() as int));
    }
    let ranges = split_terminator_ranges(chars.as_slice(), SLASH);
    let ghost segments = split_terminator(stripped, SLASH);
    proof {
        assert(pieces(chars@, ranges@) == segments);
    }
    if ranges.len() < 2 {
        return Err(RouteError::NotFound);
    }
    let (a0, b0) = ranges[0];
    proof {
        assert(segments[0] == chars@.subrange(a0 as int, b0 as int));
    }
    if range_eq(chars.as_slice(), a0, b0, chars.as_slice()) {
        return Err(RouteError::NotFound);
    }
    let main_tail = chars_after_first(main_route);
    let (a1, b1) = ranges[1];
    proof {
        assert(segments[1] == chars@.subrange(a1 as int, b1 as int));
    }
    if !range_eq(chars.as_slice(), a1, b1, main_tail.as_slice()) {
        return Err(RouteError::NotFound);
    }
    let mut i: usize = 0;
    while i < routes.len()
        invariant
            i <= routes@.len(),
            chars@ == stripped,
            stripped == strip_trailing_slash(path@),
            stripped == path@.subrange(0, stripped.len() as int),
            segments == split_terminator(stripped, SLASH),
            pieces(chars@, ranges@) == segments,
            crate::text::ranges_within(chars@, ranges@),
            under_main_route(main_route@, segments, stripped),
            paths_readable_until_candidate(routes@, method, stripped),
            forall|j: int| 0 <= j < i ==> !#[trigger] candidate(routes@[j], method, stripped),
        decreases routes.len() - i,
    {
        let route = &routes[i];
        if is_same_method(method, route.rest_kind) {
            proof {
                assert(starts_ascii(routes@[i as int].path@));
            }
            let route_tail = chars_after_first(route.path.as_str());
            if contains_chars(chars.as_slice(), route_tail.as_slice()) {
                proof {
                    assert(candidate(routes@[i as int], method, stripped));
                    assert(first_candidate(routes@, method, stripped, i as int));
                    assert forall|k: int| #[trigger] first_candidate(routes@, method, stripped, k) implies k == i by {
                        if k < i {
                            assert(!candidate(routes@[k], method, stripped));
                        }
                        if k > i {
                            assert(!candidate(routes@[i as int], method, stripped));
                        }
                    }
                }
                let own_ranges = split_terminator_ranges(route_tail.as_slice(), SLASH);
                let own = own_ranges.len();
                proof {
                    assert(pieces(route_tail@, own_ranges@).len() == own_ranges@.len());
                }
                if own > ranges.len() || 2 > ranges.len() - own {
                    return Err(RouteError::NotFound);
                }
                let cursor = 2 + own;
                if route.parameters.is_empty() {
                    return Ok(RouteTarget { index: i, arguments: RouteArguments::NoParameters });
                }
                match method {
                    Method::Get => {
                        let strings = segment_strings(path, ranges.as_slice(), cursor, Ghost(stripped));
                        proof {
                            assert(pieces(stripped, ranges@).subrange(cursor as int, ranges@.len() as int) == segments.subrange(cursor as int, segments.len() as int));
                        }
                        return match parse_get_parameters(&route.parameters, strings.as_slice()) {
                            Ok(args) => Ok(RouteTarget { index: i, arguments: RouteArguments::FromPath(args) }),
                            Err(e) => Err(e),
                        };
                    },
                    _ => {
                        return Ok(RouteTarget { index: i, arguments: RouteArguments::FromBody });
                    },
                }
            }
        }
        proof {
            assert(!candidate(routes@[i as int], method, stripped));
        }
        i = i + 1;
    }
    Err(RouteError::NotFound)
}

} // verus!

verus! {

/// Whether a body value is present for a parameter and has its identifier.
pub open spec fn body_value_ok(values: Seq<(Seq<char>, ParameterValue)>, param: (Seq<char>, ParameterKind)) -> bool {
    has_key(values, param.0) && value_id(values[key_index(values, param.0)].1) == kind_id(param.1)
}

/// Whether an error is the one for the first parameter whose body value is
/// missing or of another identifier.
pub open spec fn body_fail(
    params: Seq<(Seq<char>, ParameterKind)>,
    values: Seq<(Seq<char>, ParameterValue)>,
    error: RouteError,
) -> bool {
    exists|i: int|
        0 <= i < params.len() && (forall|j: int| 0 <= j < i ==> body_value_ok(values, params[j]))
            && !#[trigger] body_value_ok(values, params[i]) && if !has_key(values, params[i].0) {
            error matches RouteError::ParameterNotFound(name) && name@ == params[i].0
        } else {
            error == RouteError::WrongParameterId {
                found: value_id(values[key_index(values, params[i].0)].1),
                expected: kind_id(params[i].1),
            }
        }
}

/// Checks the values read from a request body against the parameters of the
/// route: each parameter, in order, must have a value of its identifier.
pub fn check_body_parameters(parameters: &ParametersData, values: &ParametersValues) -> (result: Result<(), RouteError>)
    ensures
        result is Ok <==> forall|i: int|
            0 <= i < parameters.entries().len() ==> #[trigger] body_value_ok(values.entries(), parameters.entries()[i]),
        result matches Err(e) ==> body_fail(parameters.entries(), values.entries(), e),
{
    let ghost params = parameters.entries();
    let n = parameters.len();
    let mut i: usize = 0;
    while i < n
        invariant
            i <= n,
            n == params.len(),
            params == parameters.entries(),
            forall|j: int| 0 <= j < i ==> #[trigger] body_value_ok(values.entries(), params[j]),
        decreases n - i,
    {
        match parameters.get_index(i) {
            Some((name, kind)) => {
                match values.get(name.as_str()) {
                    None => {
                        proof {
                            assert(!body_value_ok(values.entries(), params[i as int]));
                        }
                        return Err(RouteError::ParameterNotFound(name.clone()));
                    },
                    Some(value) => {
                        let found = ParameterId::from_parameter_value(value);
                        let expected = ParameterId::from_parameter_kind(kind);
                        if found != expected {
                            proof {
                                assert(!body_value_ok(values.entries(), params[i as int]));
                            }
                            return Err(RouteError::WrongParameterId { found, expected });
                        }
                    },
                }
            },
            None => {},
        }
        i = i + 1;
    }
    Ok(())
}

/// The content type of a JSON body.
pub open spec fn json_content_type() -> Seq<char> {
    "application/json"@
}

/// Checks the headers of a request whose parameters come in its body: the
/// body length must be given as a number no larger than
/// [`MAXIMUM_REQUEST_SIZE`], and the body must be declared as JSON. Returns
/// the body length.
pub fn check_body_headers(content_length: Option<&str>, content_type: Option<&str>) -> (result: Result<usize, RouteError>)
    ensures
        match content_length {
            None => result == Err::<usize, RouteError>(RouteError::NoContentLength),
            Some(length) => match parse_unsigned(length@, usize::MAX as int) {
                Err(e) => result == Err::<usize, RouteError>(RouteError::InvalidContentLength(e)),
                Ok(n) => if n > MAXIMUM_REQUEST_SIZE {
                    result == Err::<usize, RouteError>(RouteError::TooLarge)
                } else {
                    match content_type {
                        None => result == Err::<usize, RouteError>(RouteError::NoContentType),
                        Some(kind) => if kind@ != json_content_type() {
                            result == Err::<usize, RouteError>(RouteError::NotJson)
                        } else {
                            result == Ok::<usize, RouteError>(n as usize)
                        },
                    }
                },
            },
        },
        result matches Ok(len) ==> (len <= MAXIMUM_REQUEST_SIZE && (content_length matches Some(
            length,
        ) && parse_unsigned(length@, usize::MAX as int) == Ok::<int, IntErrorKind>(len as int))),
{
    let length = match content_length {
        None => {
            return Err(RouteError::NoContentLength);
        },
        Some(length) => length,
    };
    let chars = to_chars(length);
    let n = match parse_unsigned_chars(chars.as_slice(), usize::MAX as u64) {
        Err(e) => {
            return Err(RouteError::InvalidContentLength(e));
        },
        Ok(n) => n,
    };
    if n > MAXIMUM_REQUEST_SIZE as u64 {
        return Err(RouteError::TooLarge);
    }
    let kind = match content_type {
        None => {
            return Err(RouteError::NoContentType);
        },
        Some(kind) => kind,
    };
    if !str_eq(kind, "application/json") {
        return Err(RouteError::NotJson);
    }
    Ok(n as usize)
}

/// What a device server does with a request.
#[derive(Debug)]
pub enum RequestPlan {
    /// Answer with the description of the device.
    MainRoute,
    /// Answer that the method is not allowed.
    NotAllowed,
    /// Run the route, with its arguments.
    Serve(RouteTarget),
    /// Answer with an error.
    Fail(RouteError),
}

/// Decides what a device server that reads parameters does with a request:
/// the path `/` asks for the device description; a method other than `GET`,
/// `PUT`, `POST` and `DELETE` is not allowed; any other request goes through
/// [`analyze_route`].
pub fn plan_request(main_route: &str, routes: &[RouteConfig], method: Method, path: &str) -> (plan: RequestPlan)
    requires
        path@ != "/"@ && method != Method::Other ==> routable(main_route@, routes@, method, path@),
    ensures
        path@ == "/"@ ==> plan is MainRoute,
        path@ != "/"@ && method == Method::Other ==> plan is NotAllowed,
        path@ != "/"@ && method != Method::Other ==> match plan {
            RequestPlan::Serve(target) => analysis(main_route@, routes@, method, path@, Ok(target)),
            RequestPlan::Fail(error) => analysis(main_route@, routes@, method, path@, Err(error)),
            _ => false,
        },
{
    if str_eq(path, "/") {
        return RequestPlan::MainRoute;
    }
    if is_method_allowed(method) {
        return RequestPlan::NotAllowed;
    }
    match analyze_route(main_route, routes, method, path) {
        Ok(target) => RequestPlan::Serve(target),
        Err(error) => RequestPlan::Fail(error),
    }
}

/// What a device server that reads no parameters does with a request.
#[derive(Debug, Clone, Copy, PartialEq, Eq, Structural)]
pub enum SimplePlan {
    /// Answer with the description of the device.
    MainRoute,
    /// Answer that the method is not allowed.
    NotAllowed,
    /// Answer that no route is found.
    NotFound,
    /// Run the route at this position.
    Run(usize),
}

/// Decides what a device server that reads no parameters does with a
/// request: the path `/` asks for the device description; a method other
/// than `GET`, `PUT`, `POST` and `DELETE` is not allowed; otherwise
/// [`check_path`] finds the route, or none.
pub fn plan_simple_request(main_route: &str, routes: &[RouteConfig], method: Method, path: &str) -> (plan: SimplePlan)
    requires
        path@ != "/"@ && method != Method::Other ==> simple_routable(main_route@, routes@, method, path@),
    ensures
        path@ == "/"@ ==> plan == SimplePlan::MainRoute,
        path@ != "/"@ && method == Method::Other ==> plan == SimplePlan::NotAllowed,
        path@ != "/"@ && method != Method::Other ==> ({
            let segments = split_terminator(path@, SLASH);
            if under_main_route(main_route@, segments, path@) && segments.len() >= 3 && exists|j: int|
                0 <= j < routes@.len() && #[trigger] names_route(routes@[j], method, segments[2]) {
                plan matches SimplePlan::Run(index) && index < routes@.len() && names_route(routes@[index as int], method, segments[2])
                    && forall|j: int| 0 <= j < index ==> !names_route(routes@[j], method, segments[2])
            } else {
                plan == SimplePlan::NotFound
            }
        }),
{
    if str_eq(path, "/") {
        return SimplePlan::MainRoute;
    }
    if is_method_allowed(method) {
        return SimplePlan::NotAllowed;
    }
    let index = check_path(main_route, routes, method, path);
    if index == routes.len() {
        SimplePlan::NotFound
    } else {
        SimplePlan::Run(index)
    }
}

} // verus!
