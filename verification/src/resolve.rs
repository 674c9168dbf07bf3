//! The function resolver: the split of a qualified name into its interface
//! and function segments, and the two lookups that lead to the function.

use vstd::prelude::*;
use crate::error::InvokeError;

verus! {

/// The character between the interface segment and the function segment.
pub const SEPARATOR: char = '#';

/// A qualified function name, split at its first separator.
#[derive(Debug, PartialEq)]
pub struct FunctionName {
    pub interface: String,
    pub function: String,
}

/// The two segments of a qualified name: what stands before the first
/// separator and what stands after it. A name without a separator has none.
pub open spec fn split_name(name: Seq<char>) -> Option<(Seq<char>, Seq<char>)> {
    match name.index_of_first(SEPARATOR) {
        Some(i) => Some((name.subrange(0, i), name.subrange(i + 1, name.len() as int))),
        None => None,
    }
}

/// The segments of a name put together again around a separator are the
/// name, and the interface segment holds no separator; a name has no
/// segments exactly when it holds no separator.
pub proof fn split_name_rejoins(name: Seq<char>)
    ensures
        match split_name(name) {
            Some((interface, function)) => {
                &&& interface + seq![SEPARATOR] + function == name
                &&& !interface.contains(SEPARATOR)
            },
            None => !name.contains(SEPARATOR),
        },
{
    name.index_of_first_ensures(SEPARATOR);
    match name.index_of_first(SEPARATOR) {
        Some(i) => {
            let interface = name.subrange(0, i);
            let function = name.subrange(i + 1, name.len() as int);
            assert(interface + seq![SEPARATOR] + function =~= name);
            if interface.contains(SEPARATOR) {
                let j = choose|j: int| 0 <= j < interface.len() && interface[j] == SEPARATOR;
                assert(name[j] == SEPARATOR);
            }
        },
        None => {},
    }
}

/// The index of the first separator is the one index that holds a separator
/// with none before it.
proof fn first_separator_is(name: Seq<char>, i: int)
    requires
        0 <= i < name.len(),
        name[i] == SEPARATOR,
        forall|j: int| 0 <= j < i ==> name[j] != SEPARATOR,
    ensures
        name.index_of_first(SEPARATOR) == Some(i),
{
    name.index_of_first_ensures(SEPARATOR);
    assert(name.contains(SEPARATOR));
}

/// Splits a qualified function name at its first separator.
pub fn split_function_name(name: &str) -> (r: Result<FunctionName, InvokeError>)
    ensures
        match r {
            Ok(f) => split_name(name@) == Some((f.interface@, f.function@)),
            Err(e) => split_name(name@) is None && e == InvokeError::MalformedFunctionName,
        },
{
    let len: usize = name.unicode_len();
    let mut i: usize = 0;
    while i < len
        invariant
            len == name@.len(),
            0 <= i <= len,
            forall|j: int| 0 <= j < i ==> name@[j] != SEPARATOR,
        decreases len - i,
    {
        if name.get_char(i) == SEPARATOR {
            proof {
                first_separator_is(name@, i as int);
            }
            let interface = String::from_str(name.substring_char(0, i));
            let function = String::from_str(name.substring_char(i + 1, len));
            return Ok(FunctionName { interface, function });
        }
        i += 1;
    }
    proof {
        name@.index_of_first_ensures(SEPARATOR);
    }
    Err(InvokeError::MalformedFunctionName)
}

/// Where the resolution of a function stands: which lookup comes next, or
/// that both have found what they looked for.
#[derive(Debug, PartialEq)]
pub enum Resolution {
    /// The interface is to be looked up among the component's exports.
    SeekInterface { name: FunctionName },
    /// The function is to be looked up among the interface's exports.
    SeekFunction { name: FunctionName },
    /// Both lookups succeeded.
    Found { name: FunctionName },
}

/// Starts the resolution of a qualified name: the interface lookup comes
/// first, unless the name has no separator.
pub fn find_func(name: &str) -> (r: Result<Resolution, InvokeError>)
    ensures
        match r {
            Ok(Resolution::SeekInterface { name: f }) => split_name(name@) == Some(
                (f.interface@, f.function@),
            ),
            Ok(_) => false,
            Err(e) => split_name(name@) is None && e == InvokeError::MalformedFunctionName,
        },
{
    match split_function_name(name) {
        Ok(f) => Ok(Resolution::SeekInterface { name: f }),
        Err(e) => Err(e),
    }
}

impl Resolution {
    /// The segments of the name that is being resolved.
    pub open spec fn name(self) -> FunctionName {
        match self {
            Resolution::SeekInterface { name } => name,
            Resolution::SeekFunction { name } => name,
            Resolution::Found { name } => name,
        }
    }

    /// Takes the outcome of the pending lookup. A found interface leads to
    /// the function lookup, a found function ends the resolution, and a
    /// lookup that found nothing fails with the name that was looked for.
    /// One level of interfaces is searched, no more. A resolution that has
    /// ended stays as it is.
    pub fn advance(self, found: bool) -> (r: Result<Resolution, InvokeError>)
        ensures
            match r {
                Ok(Resolution::SeekFunction { name }) => found && self is SeekInterface && name
                    == self.name(),
                Ok(Resolution::Found { name }) => (self is Found || (found && self is SeekFunction))
                    && name == self.name(),
                Ok(Resolution::SeekInterface { .. }) => false,
                Err(InvokeError::InterfaceNotFound { name }) => !found && self is SeekInterface
                    && name == self.name().interface,
                Err(InvokeError::FunctionNotFound { interface, name }) => !found
                    && self is SeekFunction && interface == self.name().interface && name
                    == self.name().function,
                Err(_) => false,
            },
    {
        match self {
            Resolution::SeekInterface { name } => if found {
                Ok(Resolution::SeekFunction { name })
            } else {
                Err(InvokeError::InterfaceNotFound { name: name.interface })
            },
            Resolution::SeekFunction { name } => if found {
                Ok(Resolution::Found { name })
            } else {
                Err(InvokeError::FunctionNotFound { interface: name.interface, name: name.function })
            },
            Resolution::Found { name } => Ok(Resolution::Found { name }),
        }
    }
}

} // verus!
