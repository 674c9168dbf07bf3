//! The interface that every engine under comparison offers, and what the
//! harness computes around one run of an exported function.

use vstd::prelude::*;

verus! {

/// An error of an engine operation: a message, and the error that lies
/// under it when the message is a context laid over another failure.
#[derive(Debug, PartialEq)]
pub struct EngineError {
    pub message: String,
    pub cause: Option<Box<EngineError>>,
}

impl EngineError {
    /// An error with this message and nothing under it.
    pub fn msg(message: &str) -> (e: EngineError)
        ensures
            e.message@ == message@,
            e.cause is None,
    {
        EngineError { message: String::from_str(message), cause: None }
    }

    /// Lays a context over this error: the context becomes the message and
    /// this error the cause.
    pub fn context(self, message: String) -> (e: EngineError)
        ensures
            e.message == message,
            e.cause == Some(Box::new(self)),
    {
        EngineError { message, cause: Some(Box::new(self)) }
    }

    /// The message of this error, as text.
    pub fn to_string(&self) -> (text: String)
        ensures
            text@ == self.message@,
    {
        self.message.clone()
    }
}

/// What an engine offers: it is made from a configuration, loads a module
/// from bytes, runs an exported function of a module, and names its
/// version.
pub trait EngineApi: Sized {
    /// The configuration an engine is made from.
    type Config;

    /// A loaded module.
    type Module;

    /// Makes an engine from a configuration.
    fn new(c: &Self::Config) -> Result<Self, EngineError>;

    /// Loads a module from the bytes of a WebAssembly binary.
    fn load_module(&self, wasm_bytes: &[u8]) -> Result<Self::Module, EngineError>;

    /// Runs an exported function of a loaded module.
    fn execute(&self, module: &Self::Module, function_name: &str, args: &[u8]) -> Result<
        Vec<u8>,
        EngineError,
    >;

    /// The version of the engine.
    fn version(&self) -> &str;
}

/// How one run of an exported function without parameters and with a
/// 32-bit result ended in the runtime.
#[derive(Debug, PartialEq)]
pub enum RunOutcome {
    /// The module could not be instantiated.
    NotInstantiated { cause: EngineError },
    /// The module exports no function of that name and signature.
    NotFound { cause: EngineError },
    /// The function was called and failed.
    Failed { cause: EngineError },
    /// The function returned.
    Returned { value: i32 },
}

/// The four bytes of a 32-bit integer in two's complement, least
/// significant byte first.
pub open spec fn le_bytes(value: i32) -> Seq<u8> {
    let u: int = if value < 0 {
        value + 0x1_0000_0000
    } else {
        value as int
    };
    seq![
        (u % 0x100) as u8,
        ((u / 0x100) % 0x100) as u8,
        ((u / 0x1_0000) % 0x100) as u8,
        ((u / 0x100_0000) % 0x100) as u8,
    ]
}

/// Computes [`le_bytes`].
pub fn result_bytes(value: i32) -> (bytes: Vec<u8>)
    ensures
        bytes@ == le_bytes(value),
{
    let u: u64 = if value < 0 {
        (value as i64 + 0x1_0000_0000) as u64
    } else {
        value as u64
    };
    let mut bytes: Vec<u8> = Vec::new();
    bytes.push((u % 0x100) as u8);
    bytes.push(((u / 0x100) % 0x100) as u8);
    bytes.push(((u / 0x1_0000) % 0x100) as u8);
    bytes.push(((u / 0x100_0000) % 0x100) as u8);
    proof {
        assert(bytes@ =~= le_bytes(value));
    }
    bytes
}

/// The message laid over a failure to find the function.
pub open spec fn not_found_message(function_name: Seq<char>) -> Seq<char> {
    "无法找到 '"@ + function_name + "' 函数或签名不匹配"@
}

/// The message laid over a failure of the call.
pub open spec fn failed_message(function_name: Seq<char>) -> Seq<char> {
    "函数 '"@ + function_name + "' 调用失败"@
}

/// The result of a run: the bytes of the value that was returned, or the
/// failure under a context that says which step failed and, past
/// instantiation, for which function.
pub fn execute(function_name: &str, outcome: RunOutcome) -> (r: Result<Vec<u8>, EngineError>)
    ensures
        match outcome {
            RunOutcome::Returned { value } => r matches Ok(bytes) && bytes@ == le_bytes(value),
            RunOutcome::NotInstantiated { cause } => r matches Err(e) && e.message@
                == "无法实例化模块"@ && e.cause == Some(Box::new(cause)),
            RunOutcome::NotFound { cause } => r matches Err(e) && e.message@ == not_found_message(
                function_name@,
            ) && e.cause == Some(Box::new(cause)),
            RunOutcome::Failed { cause } => r matches Err(e) && e.message@ == failed_message(
                function_name@,
            ) && e.cause == Some(Box::new(cause)),
        },
{
    match outcome {
        RunOutcome::Returned { value } => Ok(result_bytes(value)),
        RunOutcome::NotInstantiated { cause } => Err(
            cause.context(String::from_str("无法实例化模块")),
        ),
        RunOutcome::NotFound { cause } => {
            let message = String::from_str("无法找到 '").concat(function_name).concat(
                "' 函数或签名不匹配",
            );
            Err(cause.context(message))
        },
        RunOutcome::Failed { cause } => {
            let message = String::from_str("函数 '").concat(function_name).concat("' 调用失败");
            Err(cause.context(message))
        },
    }
}

/// The version of the newer engine under comparison.
pub fn version() -> (v: &'static str)
    ensures
        v@ == "wasmtime-41.0"@,
{
    "wasmtime-41.0"
}

/// The version of the older engine under comparison.
pub fn version_v21() -> (v: &'static str)
    ensures
        v@ == "wasmtime-21.0"@,
{
    "wasmtime-21.0"
}

} // verus!
