//! A first check of the bytes of a WebAssembly binary.

use vstd::prelude::*;

verus! {

/// Why bytes are not taken for a WebAssembly binary.
#[derive(Clone, Copy, Debug, PartialEq, Eq, Structural)]
pub enum WasmFormatError {
    /// There are no bytes at all.
    Empty,
    /// The bytes do not begin with the magic number.
    InvalidMagic,
}

impl WasmFormatError {
    /// The message of this error.
    pub open spec fn message(self) -> Seq<char> {
        match self {
            WasmFormatError::Empty => "WASM 模块为空"@,
            WasmFormatError::InvalidMagic => "无效的 WASM 魔术数字"@,
        }
    }

    /// The message of this error, as text.
    pub fn to_string(&self) -> (text: String)
        ensures
            text@ == self.message(),
    {
        match self {
            WasmFormatError::Empty => String::from_str("WASM 模块为空"),
            WasmFormatError::InvalidMagic => String::from_str("无效的 WASM 魔术数字"),
        }
    }
}

/// The four bytes that open every WebAssembly binary: a zero byte and the
/// letters `asm`.
pub open spec fn wasm_magic() -> Seq<u8> {
    seq![0x00u8, 0x61u8, 0x73u8, 0x6Du8]
}

/// The bytes begin with the magic number.
pub open spec fn starts_with_magic(bytes: Seq<u8>) -> bool {
    bytes.len() >= 4 && bytes.subrange(0, 4) == wasm_magic()
}

/// Checks that the bytes are not empty and begin with the magic number.
pub fn validate_wasm(wasm_bytes: &[u8]) -> (r: Result<(), WasmFormatError>)
    ensures
        r == if wasm_bytes@.len() == 0 {
            Err::<(), WasmFormatError>(WasmFormatError::Empty)
        } else if !starts_with_magic(wasm_bytes@) {
            Err::<(), WasmFormatError>(WasmFormatError::InvalidMagic)
        } else {
            Ok::<(), WasmFormatError>(())
        },
{
    if wasm_bytes.len() == 0 {
        return Err(WasmFormatError::Empty);
    }
    if wasm_bytes.len() >= 4 && wasm_bytes[0] == 0x00 && wasm_bytes[1] == 0x61 && wasm_bytes[2]
        == 0x73 && wasm_bytes[3] == 0x6D {
        assert(wasm_bytes@.subrange(0, 4) =~= wasm_magic());
        Ok(())
    } else {
        proof {
            if wasm_bytes@.len() >= 4 {
                let head = wasm_bytes@.subrange(0, 4);
                assert(head[0] == wasm_bytes@[0] && head[1] == wasm_bytes@[1] && head[2]
                    == wasm_bytes@[2] && head[3] == wasm_bytes@[3]);
                assert(wasm_magic()[0] == 0x00 && wasm_magic()[1] == 0x61 && wasm_magic()[2]
                    == 0x73 && wasm_magic()[3] == 0x6D);
            }
        }
        Err(WasmFormatError::InvalidMagic)
    }
}

} // verus!
