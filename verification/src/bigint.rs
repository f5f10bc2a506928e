//! Lossless BigInt carriers for 64-bit integers.
use vstd::prelude::*;
use vstd::string::StringExecFns;

verus! {

/// Why a JavaScript BigInt cannot be lowered to a 64-bit Rust integer.
#[derive(Clone, Copy, Debug, PartialEq, Eq, Structural)]
pub enum BigIntLossError {
    LossySigned,
    LossyUnsigned,
    NegativeUnsigned,
}

/// The message that the error renders to.
pub open spec fn bigint_loss_text(error: BigIntLossError) -> Seq<char> {
    match error {
        BigIntLossError::LossySigned => "BigInt is outside the lossless i64 range"@,
        BigIntLossError::LossyUnsigned => "BigInt is outside the lossless u64 range"@,
        BigIntLossError::NegativeUnsigned => "negative BigInt is not valid for u64"@,
    }
}

impl BigIntLossError {
    /// Renders the error message.
    pub fn to_string(&self) -> (text: String)
        ensures
            text@ == bigint_loss_text(*self),
    {
        match self {
            BigIntLossError::LossySigned => String::from_str(
                "BigInt is outside the lossless i64 range",
            ),
            BigIntLossError::LossyUnsigned => String::from_str(
                "BigInt is outside the lossless u64 range",
            ),
            BigIntLossError::NegativeUnsigned => String::from_str(
                "negative BigInt is not valid for u64",
            ),
        }
    }
}

/// Accepts the value read from a BigInt only when the read was lossless.
pub fn require_lossless_i64(value: i64, lossless: bool) -> (result: Result<i64, BigIntLossError>)
    ensures
        lossless ==> result == Ok::<i64, BigIntLossError>(value),
        !lossless ==> result == Err::<i64, BigIntLossError>(BigIntLossError::LossySigned),
{
    if lossless {
        Ok(value)
    } else {
        Err(BigIntLossError::LossySigned)
    }
}

/// Accepts the magnitude read from a BigInt only when the BigInt is
/// non-negative and the read was lossless; a negative sign is reported first.
pub fn require_lossless_u64(negative: bool, value: u64, lossless: bool) -> (result: Result<
    u64,
    BigIntLossError,
>)
    ensures
        negative ==> result == Err::<u64, BigIntLossError>(BigIntLossError::NegativeUnsigned),
        !negative && !lossless ==> result == Err::<u64, BigIntLossError>(
            BigIntLossError::LossyUnsigned,
        ),
        !negative && lossless ==> result == Ok::<u64, BigIntLossError>(value),
{
    if negative {
        Err(BigIntLossError::NegativeUnsigned)
    } else if !lossless {
        Err(BigIntLossError::LossyUnsigned)
    } else {
        Ok(value)
    }
}

/// Sign and little-endian 64-bit magnitude words of a BigInt.
#[derive(Clone, Debug, PartialEq, Eq)]
pub struct BigIntWords {
    pub negative: bool,
    pub words: Vec<u64>,
}

/// The magnitude of a signed integer.
pub open spec fn magnitude(value: int) -> int {
    if value < 0 {
        -value
    } else {
        value
    }
}

impl BigIntWords {
    /// The words of a signed 64-bit integer: its sign and its magnitude as
    /// one word.
    pub fn from_i64(value: i64) -> (words: Self)
        ensures
            words.negative == (value < 0),
            words.words@ == seq![magnitude(value as int) as u64],
    {
        let abs: u64 = if value < 0 {
            let below: i64 = -(value + 1);
            (below as u64) + 1
        } else {
            value as u64
        };
        let mut out: Vec<u64> = Vec::new();
        out.push(abs);
        BigIntWords { negative: value < 0, words: out }
    }

    /// The words of an unsigned 64-bit integer: never negative, one word.
    pub fn from_u64(value: u64) -> (words: Self)
        ensures
            !words.negative,
            words.words@ == seq![value],
    {
        let mut out: Vec<u64> = Vec::new();
        out.push(value);
        BigIntWords { negative: false, words: out }
    }
}

impl From<i64> for BigIntWords {
    /// The words of a signed 64-bit integer, as `from_i64` gives them.
    fn from(value: i64) -> (words: Self)
        ensures
            words.negative == (value < 0),
            words.words@ == seq![magnitude(value as int) as u64],
    {
        BigIntWords::from_i64(value)
    }
}

/// A `Vec` cannot be written as a spec value, so the conversion is not
/// described through `from_spec`; its own `ensures` states the result.
impl vstd::std_specs::convert::FromSpecImpl<i64> for BigIntWords {
    open spec fn obeys_from_spec() -> bool {
        false
    }

    open spec fn from_spec(value: i64) -> Self {
        vstd::pervasive::arbitrary()
    }
}

impl From<u64> for BigIntWords {
    /// The words of an unsigned 64-bit integer, as `from_u64` gives them.
    fn from(value: u64) -> (words: Self)
        ensures
            !words.negative,
            words.words@ == seq![value],
    {
        BigIntWords::from_u64(value)
    }
}

/// As for `i64`: the result is stated by `from`'s own `ensures`.
impl vstd::std_specs::convert::FromSpecImpl<u64> for BigIntWords {
    open spec fn obeys_from_spec() -> bool {
        false
    }

    open spec fn from_spec(value: u64) -> Self {
        vstd::pervasive::arbitrary()
    }
}

} // verus!
