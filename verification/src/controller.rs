//! The controller side: what describes a device, and the check of the
//! parameters a request is about to carry against those its route declares.
use vstd::prelude::*;
use vstd::string::StringExecFns;

use crate::collections::{has_key, key_index};
use crate::error::{Error, ErrorKind};
use crate::parameters::{kind_id, ParameterKind, ParameterValue, ParametersData, ParametersValues};
use crate::routing::{RestKind, RouteConfig};

verus! {

/// A device kind.
#[derive(Debug, Clone, Copy, PartialEq, Eq, Structural)]
pub enum DeviceKind {
    /// Unknown.
    Unknown,
    /// Light.
    Light,
    /// Camera.
    Camera,
}

impl DeviceKind {
    /// The name of the kind.
    pub open spec fn name(self) -> Seq<char> {
        match self {
            DeviceKind::Unknown => "Unknown"@,
            DeviceKind::Light => "Light"@,
            DeviceKind::Camera => "Camera"@,
        }
    }

    /// Returns the name of the kind, as `Display` shows it.
    pub fn description(self) -> (name: &'static str)
        ensures
            name@ == self.name(),
    {
        match self {
            DeviceKind::Unknown => "Unknown",
            DeviceKind::Light => "Light",
            DeviceKind::Camera => "Camera",
        }
    }
}

/// The environment a device firmware runs on: an operating system or a
/// hardware architecture.
#[derive(Debug, Clone, Copy, PartialEq, Eq, Structural)]
pub enum DeviceEnvironment {
    /// Operating system.
    Os,
    /// Esp32.
    Esp32,
}

/// Device description: all properties which describe a device.
#[derive(Debug)]
pub struct Description {
    /// Device kind.
    pub kind: DeviceKind,
    /// Device environment.
    pub environment: DeviceEnvironment,
    /// Device main route.
    pub main_route: String,
}

impl Description {
    /// Creates a [`Description`].
    pub fn new(kind: DeviceKind, environment: DeviceEnvironment, main_route: String) -> (description:
        Self)
        ensures
            description.kind == kind,
            description.environment == environment,
            description.main_route == main_route,
    {
        Description { kind, environment, main_route }
    }
}

/// Creates the error for a wrong request parameter.
pub fn parameter_error(message: &str) -> (error: Error)
    ensures
        error.spec_kind() == ErrorKind::WrongParameter,
        error.spec_description() == message@,
{
    Error::new(ErrorKind::WrongParameter, message)
}

/// Whether a value can be sent for a parameter of a kind: a value of the
/// kind's type, an `u64` for an `u64` range, a `f64` for a `f64` range.
pub open spec fn fits_kind(value: ParameterValue, kind: ParameterKind) -> bool {
    match (value, kind) {
        (ParameterValue::Bool(_), ParameterKind::Bool { .. }) => true,
        (ParameterValue::U8(_), ParameterKind::U8 { .. }) => true,
        (ParameterValue::U16(_), ParameterKind::U16 { .. }) => true,
        (ParameterValue::U32(_), ParameterKind::U32 { .. }) => true,
        (ParameterValue::U64(_), ParameterKind::U64 { .. }) => true,
        (ParameterValue::U64(_), ParameterKind::RangeU64 { .. }) => true,
        (ParameterValue::F32(_), ParameterKind::F32 { .. }) => true,
        (ParameterValue::F64(_), ParameterKind::F64 { .. }) => true,
        (ParameterValue::F64(_), ParameterKind::RangeF64 { .. }) => true,
        (ParameterValue::CharsSequence(_), ParameterKind::CharsSequence { .. }) => true,
        _ => false,
    }
}

/// Tells whether a value can be sent for a parameter of a kind.
pub fn compare_with_kind(value: &ParameterValue, kind: &ParameterKind) -> (fits: bool)
    ensures
        fits == fits_kind(*value, *kind),
{
    match (value, kind) {
        (ParameterValue::Bool(_), ParameterKind::Bool { .. }) => true,
        (ParameterValue::U8(_), ParameterKind::U8 { .. }) => true,
        (ParameterValue::U16(_), ParameterKind::U16 { .. }) => true,
        (ParameterValue::U32(_), ParameterKind::U32 { .. }) => true,
        (ParameterValue::U64(_), ParameterKind::U64 { .. }) => true,
        (ParameterValue::U64(_), ParameterKind::RangeU64 { .. }) => true,
        (ParameterValue::F32(_), ParameterKind::F32 { .. }) => true,
        (ParameterValue::F64(_), ParameterKind::F64 { .. }) => true,
        (ParameterValue::F64(_), ParameterKind::RangeF64 { .. }) => true,
        (ParameterValue::CharsSequence(_), ParameterKind::CharsSequence { .. }) => true,
        _ => false,
    }
}

/// The Rust type that carries the values of a kind, as a `&str`.
pub fn str_type(kind: &ParameterKind) -> (name: &'static str)
    ensures
        name@ == kind_id(*kind).carrier_type(),
{
    crate::parameters::ParameterId::from_parameter_kind(kind).as_type()
}

/// Whether a named value is declared and fits its declared kind.
pub open spec fn value_declared(
    declared: Seq<(Seq<char>, ParameterKind)>,
    entry: (Seq<char>, ParameterValue),
) -> bool {
    has_key(declared, entry.0) && fits_kind(entry.1, declared[key_index(declared, entry.0)].1)
}

/// The description of a value for an undeclared parameter.
pub open spec fn undeclared_text(name: Seq<char>) -> Seq<char> {
    "`"@ + name + "` does not exist"@
}

/// The description of a value of the wrong type.
pub open spec fn wrong_type_text(name: Seq<char>, carrier: Seq<char>) -> Seq<char> {
    "`"@ + name + "` must be of type `"@ + carrier + "`"@
}

/// Whether an error is the one for the first value, in order, that is not
/// declared or does not fit its declared kind.
pub open spec fn check_fail(
    declared: Seq<(Seq<char>, ParameterKind)>,
    values: Seq<(Seq<char>, ParameterValue)>,
    error: Error,
) -> bool {
    exists|i: int|
        0 <= i < values.len() && (forall|j: int| 0 <= j < i ==> value_declared(declared, values[j]))
            && !#[trigger] value_declared(declared, values[i]) && error.spec_kind()
            == ErrorKind::WrongParameter && if !has_key(declared, values[i].0) {
            error.spec_description() == undeclared_text(values[i].0)
        } else {
            error.spec_description() == wrong_type_text(
                values[i].0,
                kind_id(declared[key_index(declared, values[i].0)].1).carrier_type(),
            )
        }
}

/// Checks the values a request is about to carry, in order, against the
/// parameters its route declares: each value must be declared and fit the
/// declared kind.
pub fn check_parameters(values: &ParametersValues, parameters_data: &ParametersData) -> (result:
    Result<(), Error>)
    ensures
        result is Ok <==> forall|i: int|
            0 <= i < values.entries().len() ==> #[trigger] value_declared(
                parameters_data.entries(),
                values.entries()[i],
            ),
        result matches Err(e) ==> check_fail(parameters_data.entries(), values.entries(), e),
{
    let ghost declared = parameters_data.entries();
    let ghost entries = values.entries();
    let n = values.len();
    let mut i: usize = 0;
    while i < n
        invariant
            i <= n,
            n == entries.len(),
            entries == values.entries(),
            declared == parameters_data.entries(),
            forall|j: int| 0 <= j < i ==> #[trigger] value_declared(declared, entries[j]),
        decreases n - i,
    {
        match values.get_index(i) {
            Some((name, value)) => {
                match parameters_data.get(name.as_str()) {
                    None => {
                        let mut message = String::from_str("`");
                        message.append(name.as_str());
                        message.append("` does not exist");
                        proof {
                            assert(!value_declared(declared, entries[i as int]));
                        }
                        return Err(parameter_error(message.as_str()));
                    },
                    Some(kind) => {
                        if !compare_with_kind(value, kind) {
                            let mut message = String::from_str("`");
                            message.append(name.as_str());
                            message.append("` must be of type `");
                            message.append(str_type(kind));
                            message.append("`");
                            proof {
                                assert(!value_declared(declared, entries[i as int]));
                            }
                            return Err(parameter_error(message.as_str()));
                        }
                    },
                }
            },
            None => {},
        }
        i = i + 1;
    }
    Ok(())
}

/// The route path a server registers for a route: for a `GET` route with
/// parameters, the path followed by `/{name}` for each parameter, in
/// order; otherwise the path itself.
pub open spec fn get_route_text(path: Seq<char>, names: Seq<Seq<char>>) -> Seq<char>
    decreases names.len(),
{
    if names.len() == 0 {
        path
    } else {
        get_route_text(path, names.drop_last()) + "/{"@ + names.last() + "}"@
    }
}

/// Builds the route path of a `GET` route: the path followed by `/{name}`
/// for each parameter, in order.
pub fn build_get_route(route: &str, parameters: &ParametersData) -> (path: String)
    ensures
        path@ == get_route_text(
            route@,
            parameters.entries().map_values(|p: (Seq<char>, ParameterKind)| p.0),
        ),
{
    let ghost names = parameters.entries().map_values(|p: (Seq<char>, ParameterKind)| p.0);
    let mut path = String::from_str(route);
    let n = parameters.len();
    let mut i: usize = 0;
    while i < n
        invariant
            i <= n,
            n == names.len(),
            names == parameters.entries().map_values(|p: (Seq<char>, ParameterKind)| p.0),
            path@ == get_route_text(route@, names.subrange(0, i as int)),
        decreases n - i,
    {
        match parameters.get_index(i) {
            Some((name, _)) => {
                path.append("/{");
                path.append(name.as_str());
                path.append("}");
                proof {
                    let next = names.subrange(0, i + 1);
                    assert(next.drop_last() == names.subrange(0, i as int));
                    assert(next.last() == name@);
                }
            },
            None => {},
        }
        i = i + 1;
    }
    proof {
        assert(names.subrange(0, n as int) == names);
    }
    path
}

/// The path a device server registers for a route: a `GET` route with
/// parameters takes them as path segments, `/{name}` for each; any other
/// route is registered under its path.
pub fn server_route(route: &RouteConfig) -> (path: String)
    ensures
        path@ == if route.rest_kind == RestKind::Get && route.parameters.entries().len() > 0 {
            get_route_text(
                route.path@,
                route.parameters.entries().map_values(|p: (Seq<char>, ParameterKind)| p.0),
            )
        } else {
            route.path@
        },
{
    if route.rest_kind == RestKind::Get && !route.parameters.is_empty() {
        build_get_route(route.path.as_str(), &route.parameters)
    } else {
        route.path.clone()
    }
}

} // verus!
