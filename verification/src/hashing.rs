//! Password hashing with Argon2id.

use vstd::prelude::*;
use vstd::string::StringSliceAdditionalSpecFns;

verus! {

/// The length of a hash, in bytes.
pub const HASH_LEN: usize = 32;

/// The least salt, in bytes, that the algorithm takes.
pub const MIN_SALT_LEN: usize = 8;

/// Why a password was not hashed.
#[derive(Clone, Copy, Debug, PartialEq, Eq, Structural)]
pub enum HashError {
    /// The costs are not ones the algorithm can run with.
    InvalidParams,
    /// The hashing itself failed.
    HashFailed,
}

impl HashError {
    /// The message of this error.
    pub open spec fn message(self) -> Seq<char> {
        match self {
            HashError::InvalidParams => "Failed to create Argon2 parameters"@,
            HashError::HashFailed => "Failed to hash password"@,
        }
    }

    /// The message of this error, as text.
    pub fn to_string(&self) -> (text: String)
        ensures
            text@ == self.message(),
    {
        match self {
            HashError::InvalidParams => String::from_str("Failed to create Argon2 parameters"),
            HashError::HashFailed => String::from_str("Failed to hash password"),
        }
    }
}

/// The costs that the algorithm can run with: at least eight blocks of
/// memory and eight for each lane, at least one pass, and from one to
/// 16777215 lanes.
pub open spec fn valid_costs(m_cost: u32, t_cost: u32, p_cost: u32) -> bool {
    &&& m_cost >= 8
    &&& 1 <= p_cost <= 0xFF_FFFF
    &&& m_cost >= 8 * p_cost
    &&& t_cost >= 1
}

/// The Argon2id hash, version 0x13, of a password with a salt under the
/// given costs, `length` bytes long, without secret or associated data.
pub uninterp spec fn argon2id_hash(
    password: Seq<u8>,
    salt: Seq<u8>,
    m_cost: u32,
    t_cost: u32,
    p_cost: u32,
    length: nat,
) -> Seq<u8>;

/// Hashes with the `argon2` crate: `Params::new` takes the costs and leaves
/// the output length open, `Argon2::new` selects Argon2id in version 0x13,
/// and `hash_password_into` fills a buffer of `length` zero bytes. The
/// first call refuses exactly the costs that are not valid; the last
/// refuses a salt under eight bytes, and may fail for want of memory. A
/// hash that is returned depends on the arguments alone.
#[verifier::external_body]
fn argon2id_v13(
    password: &[u8],
    salt: &[u8],
    m_cost: u32,
    t_cost: u32,
    p_cost: u32,
    length: usize,
) -> (r: Result<Vec<u8>, HashError>)
    ensures
        (r matches Err(HashError::InvalidParams)) <==> !valid_costs(m_cost, t_cost, p_cost),
        r matches Ok(hash) ==> hash@ == argon2id_hash(
            password@,
            salt@,
            m_cost,
            t_cost,
            p_cost,
            length as nat,
        ) && hash@.len() == length,
        salt@.len() < MIN_SALT_LEN ==> r is Err,
{
    let params = argon2::Params::new(m_cost, t_cost, p_cost, None).map_err(
        |_| HashError::InvalidParams,
    )?;
    let mut hash = vec![0u8; length];
    argon2::Argon2::new(argon2::Algorithm::Argon2id, argon2::Version::V0x13, params)
        .hash_password_into(password, salt, &mut hash).map_err(|_| HashError::HashFailed)?;
    Ok(hash)
}

/// Reads the default costs of the `argon2` crate: `Params::DEFAULT_M_COST`,
/// `Params::DEFAULT_T_COST` and `Params::DEFAULT_P_COST`.
#[verifier::external_body]
fn default_costs() -> (costs: (u32, u32, u32))
    ensures
        costs == (19456u32, 2u32, 1u32),
{
    (
        argon2::Params::DEFAULT_M_COST,
        argon2::Params::DEFAULT_T_COST,
        argon2::Params::DEFAULT_P_COST,
    )
}

/// Hashes a password with a salt under the given memory cost (in KiB), time
/// cost and parallelism. The hash has 32 bytes.
///
/// Costs that are not valid are refused with `InvalidParams`, and no others
/// are; a salt shorter than eight bytes is refused. A hash that is returned
/// is the Argon2id hash of the arguments.
pub fn hash_with_params(password: &[u8], salt: &str, m_cost: u32, t_cost: u32, p_cost: u32) -> (r:
    Result<Vec<u8>, HashError>)
    ensures
        (r matches Err(HashError::InvalidParams)) <==> !valid_costs(m_cost, t_cost, p_cost),
        r matches Ok(hash) ==> hash@ == argon2id_hash(
            password@,
            salt.spec_bytes(),
            m_cost,
            t_cost,
            p_cost,
            HASH_LEN as nat,
        ) && hash@.len() == HASH_LEN,
        salt.spec_bytes().len() < MIN_SALT_LEN ==> r is Err,
{
    argon2id_v13(password, salt.as_bytes(), m_cost, t_cost, p_cost, HASH_LEN)
}

/// Hashes a password with a salt under the default costs: 19456 KiB of
/// memory, two passes, one lane.
pub fn hash(password: &[u8], salt: &str) -> (r: Result<Vec<u8>, HashError>)
    ensures
        !(r matches Err(HashError::InvalidParams)),
        r matches Ok(hash) ==> hash@ == argon2id_hash(
            password@,
            salt.spec_bytes(),
            19456,
            2,
            1,
            HASH_LEN as nat,
        ) && hash@.len() == HASH_LEN,
        salt.spec_bytes().len() < MIN_SALT_LEN ==> r is Err,
{
    let costs = default_costs();
    hash_with_params(password, salt, costs.0, costs.1, costs.2)
}

/// The greatest input that [`run`] takes.
pub const MAX_RUN_INPUT: i64 = 10;

/// The password that [`run`] hashes.
pub open spec fn run_password() -> Seq<u8> {
    vstd::utf8::encode_utf8("some random password"@)
}

/// The salt that [`run`] hashes with.
pub open spec fn run_salt() -> Seq<u8> {
    vstd::utf8::encode_utf8("some random salt"@)
}

/// The unsigned integer that the first `n` of the bytes spell, most
/// significant byte first.
pub open spec fn be_value(bytes: Seq<u8>, n: nat) -> nat
    decreases n,
{
    if n == 0 || n > bytes.len() {
        0
    } else {
        be_value(bytes, (n - 1) as nat) * 256 + bytes[n - 1] as nat
    }
}

/// The 64-bit signed integer whose two's complement the first eight bytes
/// spell, most significant byte first.
pub open spec fn be_signed(bytes: Seq<u8>) -> int {
    let u = be_value(bytes, 8);
    if u >= 0x8000_0000_0000_0000 {
        u - 0x1_0000_0000_0000_0000
    } else {
        u as int
    }
}

/// Reads the first eight bytes as a 64-bit signed integer, most
/// significant byte first.
pub fn leading_i64(bytes: &[u8]) -> (r: i64)
    requires
        bytes@.len() >= 8,
    ensures
        r == be_signed(bytes@),
{
    let b0: u64 = bytes[0] as u64;
    let b1: u64 = bytes[1] as u64;
    let b2: u64 = bytes[2] as u64;
    let b3: u64 = bytes[3] as u64;
    let b4: u64 = bytes[4] as u64;
    let b5: u64 = bytes[5] as u64;
    let b6: u64 = bytes[6] as u64;
    let acc: u64 = (((((b0 * 256 + b1) * 256 + b2) * 256 + b3) * 256 + b4) * 256 + b5) * 256 + b6;
    proof {
        reveal_with_fuel(be_value, 9);
    }
    let last: u64 = bytes[7] as u64;
    assert(be_value(bytes@, 8) == acc * 256 + last);
    if acc >= 0x80_0000_0000_0000 {
        let high: u64 = acc - 0x80_0000_0000_0000;
        let low: i64 = (high * 256 + last) as i64;
        low + i64::MIN
    } else {
        (acc * 256 + last) as i64
    }
}

/// Hashes a fixed password with a fixed salt under a memory cost of
/// `input` times 1024 KiB and the default time cost and parallelism, and
/// gives the first eight bytes of the hash as a signed integer, most
/// significant byte first.
pub fn run(input: i64) -> (r: Result<i64, HashError>)
    requires
        0 <= input <= MAX_RUN_INPUT,
    ensures
        (r matches Err(HashError::InvalidParams)) <==> input == 0,
        r matches Ok(value) ==> value == be_signed(
            argon2id_hash(
                run_password(),
                run_salt(),
                (input * 1024) as u32,
                2,
                1,
                HASH_LEN as nat,
            ),
        ),
{
    let m_cost: u32 = (input as u32) * 1024;
    let costs = default_costs();
    match hash_with_params(
        "some random password".as_bytes(),
        "some random salt",
        m_cost,
        costs.1,
        costs.2,
    ) {
        Ok(hash) => Ok(leading_i64(hash.as_slice())),
        Err(e) => Err(e),
    }
}

} // verus!
