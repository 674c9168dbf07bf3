//! The failures of one invocation. None is retried; each ends the
//! invocation and is handed to the caller as it is.

use vstd::prelude::*;
use crate::decode::DecodeError;
use crate::text::{decimal, decimal_string};

verus! {

/// Why an invocation did not produce a result.
#[derive(Debug, PartialEq)]
#[allow(inconsistent_fields)]
pub enum InvokeError {
    /// A parameter is not a well-formed document. `position` counts the
    /// parameters from one.
    MalformedInput { position: usize, text: String },
    /// The function name has no separator between interface and function.
    MalformedFunctionName,
    /// The component exports no interface of this name.
    InterfaceNotFound { name: String },
    /// The interface exports no function of this name.
    FunctionNotFound { interface: String, name: String },
    /// A parameter does not fit its declared type.
    BadParam { name: String, cause: DecodeError },
    /// The runtime failed while it ran the function.
    InvocationFailed { function_name: String, cause: String },
}

impl InvokeError {
    /// The message of this error.
    pub open spec fn message(&self) -> Seq<char> {
        match self {
            InvokeError::MalformedInput { position, text } => "Failed to parse JSON at position "@
                + decimal(*position as nat) + ": '"@ + text@ + "'"@,
            InvokeError::MalformedFunctionName => "must in form of 'interface#func'"@,
            InvokeError::InterfaceNotFound { name } => "miss interface: "@ + name@,
            InvokeError::FunctionNotFound { interface, name } => "miss func '"@ + name@
                + "' in interface '"@ + interface@ + "'"@,
            InvokeError::BadParam { name, cause } => "bad param "@ + name@ + ": "@
                + cause@.message(),
            InvokeError::InvocationFailed { function_name, cause } => "Failed to call function '"@
                + function_name@ + "': "@ + cause@,
        }
    }

    /// The message of this error, as text.
    pub fn to_string(&self) -> (text: String)
        ensures
            text@ == self.message(),
    {
        match self {
            InvokeError::MalformedInput { position, text } => String::from_str(
                "Failed to parse JSON at position ",
            ).concat(decimal_string(*position).as_str()).concat(": '").concat(
                text.as_str(),
            ).concat("'"),
            InvokeError::MalformedFunctionName => String::from_str(
                "must in form of 'interface#func'",
            ),
            InvokeError::InterfaceNotFound { name } => String::from_str("miss interface: ").concat(
                name.as_str(),
            ),
            InvokeError::FunctionNotFound { interface, name } => String::from_str(
                "miss func '",
            ).concat(name.as_str()).concat("' in interface '").concat(interface.as_str()).concat(
                "'",
            ),
            InvokeError::BadParam { name, cause } => String::from_str("bad param ").concat(
                name.as_str(),
            ).concat(": ").concat(cause.to_string().as_str()),
            InvokeError::InvocationFailed { function_name, cause } => String::from_str(
                "Failed to call function '",
            ).concat(function_name.as_str()).concat("': ").concat(cause.as_str()),
        }
    }
}

} // verus!
