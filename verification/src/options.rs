//! Options of one execution and how they are resolved against the
//! overrides that the process environment holds.

use vstd::prelude::*;

verus! {

/// The memory pool size that is used where nothing else is asked for:
/// 100 MiB.
pub const DEFAULT_LANCE_MEM_POOL_SIZE: u64 = 100 * 1024 * 1024;

/// What the caller asks of one execution.
#[derive(Debug, Clone, Copy, PartialEq, Eq, Structural)]
pub struct LanceExecutionOptions {
    /// Whether intermediate state may be spilled to disk.
    pub use_spilling: bool,
    /// The size of the memory pool in bytes.
    pub mem_pool_size: Option<u64>,
    /// The number of rows per batch.
    pub batch_size: Option<usize>,
    /// The number of partitions that the session plans for.
    pub target_partition: Option<usize>,
}

impl Default for LanceExecutionOptions {
    fn default() -> (options: Self)
        ensures
            options == (LanceExecutionOptions {
                use_spilling: false,
                mem_pool_size: None,
                batch_size: None,
                target_partition: None,
            }),
    {
        LanceExecutionOptions {
            use_spilling: false,
            mem_pool_size: None,
            batch_size: None,
            target_partition: None,
        }
    }
}

/// What the environment says about the memory pool size.
#[derive(Debug, Clone, Copy, PartialEq, Eq, Structural)]
pub enum EnvPoolSize {
    /// The variable is not set.
    Unset,
    /// The variable is set to something that is no byte count.
    Malformed,
    /// The variable holds this number of bytes.
    Bytes(u64),
}

/// The overrides that the environment holds, as read by the caller.
#[derive(Debug, Clone, Copy, PartialEq, Eq, Structural)]
pub struct EnvOverrides {
    /// The override of the default memory pool size.
    pub mem_pool_size: EnvPoolSize,
    /// Whether the signal that forbids spilling is present.
    pub bypass_spilling: bool,
}

/// Whether a character is one of the decimal digits `0` to `9`.
pub open spec fn is_decimal_digit(c: char) -> bool {
    '0' <= c <= '9'
}

/// The number that a text of decimal digits stands for.
pub open spec fn decimal_value(digits: Seq<char>) -> nat
    decreases digits.len(),
{
    if digits.len() == 0 {
        0
    } else {
        (decimal_value(digits.drop_last()) * 10 + (digits.last() as nat - '0' as nat)) as nat
    }
}

/// Whether a text consists of decimal digits only.
pub open spec fn all_decimal_digits(digits: Seq<char>) -> bool {
    forall|i: int| 0 <= i < digits.len() ==> is_decimal_digit(#[trigger] digits[i])
}

/// A text without the plus sign that it may start with.
pub open spec fn without_plus_sign(text: Seq<char>) -> Seq<char> {
    if text.len() > 0 && text[0] == '+' {
        text.drop_first()
    } else {
        text
    }
}

/// The number that a text is read as: the text is an optional plus sign and
/// then one or more decimal digits and nothing else, and the number fits a
/// `u64`. Every other text is read as no number.
pub open spec fn parsed_u64(text: Seq<char>) -> Option<u64> {
    let digits = without_plus_sign(text);
    if digits.len() > 0 && all_decimal_digits(digits) && decimal_value(digits) <= u64::MAX {
        Some(decimal_value(digits) as u64)
    } else {
        None
    }
}

/// `str::parse::<u64>`, with its error dropped. The standard library reads
/// an optional plus sign followed by decimal digits only, and fails on an
/// empty text, on any other character and on a number too large.
#[verifier::external_body]
fn parse_u64(text: &str) -> (value: Option<u64>)
    ensures
        value == parsed_u64(text@),
{
    text.parse::<u64>().ok()
}

/// What a value of the pool size variable means, given what was read from it
/// as a number.
pub open spec fn env_pool_size_of(value: Option<Option<u64>>) -> EnvPoolSize {
    match value {
        None => EnvPoolSize::Unset,
        Some(None) => EnvPoolSize::Malformed,
        Some(Some(bytes)) => EnvPoolSize::Bytes(bytes),
    }
}

/// Classifies what was read from the pool size variable as a number.
pub fn classify_env_pool_size(value: Option<Option<u64>>) -> (size: EnvPoolSize)
    ensures
        size == env_pool_size_of(value),
{
    match value {
        None => EnvPoolSize::Unset,
        Some(None) => EnvPoolSize::Malformed,
        Some(Some(bytes)) => EnvPoolSize::Bytes(bytes),
    }
}

/// Interprets the value of the pool size variable, `None` where it is not
/// set: a decimal byte count, or malformed.
pub fn read_env_pool_size(value: Option<&str>) -> (size: EnvPoolSize)
    ensures
        size == env_pool_size_of(
            match value {
                Some(text) => Some(parsed_u64(text@)),
                None => None,
            },
        ),
{
    match value {
        Some(text) => classify_env_pool_size(Some(parse_u64(text))),
        None => classify_env_pool_size(None),
    }
}

impl LanceExecutionOptions {
    /// The memory pool size in effect: the one asked for, else the one from
    /// the environment, else the default. A malformed override counts as
    /// none.
    pub open spec fn spec_mem_pool_size(self, env: EnvOverrides) -> u64 {
        match self.mem_pool_size {
            Some(bytes) => bytes,
            None => match env.mem_pool_size {
                EnvPoolSize::Bytes(bytes) => bytes,
                _ => DEFAULT_LANCE_MEM_POOL_SIZE,
            },
        }
    }

    /// Whether spilling is in effect: asked for, and not forbidden by the
    /// environment.
    pub open spec fn spec_use_spilling(self, env: EnvOverrides) -> bool {
        self.use_spilling && !env.bypass_spilling
    }

    /// The memory pool size in effect, in bytes.
    pub fn mem_pool_size(&self, env: &EnvOverrides) -> (bytes: u64)
        ensures
            bytes == self.spec_mem_pool_size(*env),
    {
        match self.mem_pool_size {
            Some(bytes) => bytes,
            None => match env.mem_pool_size {
                EnvPoolSize::Bytes(bytes) => bytes,
                _ => DEFAULT_LANCE_MEM_POOL_SIZE,
            },
        }
    }

    /// Whether spilling is in effect.
    pub fn use_spilling(&self, env: &EnvOverrides) -> (spill: bool)
        ensures
            spill == self.spec_use_spilling(*env),
    {
        if !self.use_spilling {
            return false;
        }
        !env.bypass_spilling
    }
}

} // verus!
