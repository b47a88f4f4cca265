use vstd::prelude::*;

verus! {

/// `n` is `2^k` for some `k >= 0`.
pub open spec fn is_pow2(n: nat) -> bool
    decreases n,
{
    if n == 0 {
        false
    } else if n == 1 {
        true
    } else {
        n % 2 == 0 && is_pow2(n / 2)
    }
}

/// `ceil(len / block)`: the segments of `block` samples that cover `len`.
pub open spec fn segments_for(len: nat, block: nat) -> nat
    recommends
        block > 0,
{
    if len % block == 0 {
        len / block
    } else {
        len / block + 1
    }
}

pub fn is_power_of_two(n: usize) -> (r: bool)
    ensures
        r == is_pow2(n as nat),
{
    if n == 0 {
        return false;
    }
    let mut m: usize = n;
    while m > 1 && m % 2 == 0
        invariant
            m >= 1,
            is_pow2(m as nat) == is_pow2(n as nat),
        decreases m,
    {
        m = m / 2;
    }
    m == 1
}

pub fn segment_count(len: usize, block_size: usize) -> (r: usize)
    requires
        block_size >= 1,
    ensures
        r == segments_for(len as nat, block_size as nat),
{
    if len % block_size == 0 {
        len / block_size
    } else {
        proof {
            if block_size == 1 {
                assert(len % 1 == 0);
            }
            vstd::arithmetic::div_mod::lemma_div_is_ordered_by_denominator(len as int, 2, block_size as int);
        }
        len / block_size + 1
    }
}

/// Why a convolver cannot be built as asked.
#[derive(Clone, Copy, Debug, PartialEq, Eq, Structural)]
pub enum ConfigError {
    /// The block size is not a positive power of two.
    BlockSizeNotPowerOfTwo,
    /// The longest response allowed is zero samples long.
    NoResponseRoom,
    /// The initial response is longer than the longest allowed.
    ResponseTooLong,
    /// A crossfade length or scale factor of zero.
    ZeroSteps,
}

/// Checks a construction request: block size, response length against its
/// maximum, and a crossfade length or scale factor of at least one. On
/// success returns the segment count of a response of the maximal length.
pub fn check_config(block_size: usize, response_len: usize, max_response_length: usize, steps: usize) -> (r: Result<usize, ConfigError>)
    ensures
        r == if !is_pow2(block_size as nat) {
            Err::<usize, ConfigError>(ConfigError::BlockSizeNotPowerOfTwo)
        } else if max_response_length == 0 {
            Err(ConfigError::NoResponseRoom)
        } else if response_len > max_response_length {
            Err(ConfigError::ResponseTooLong)
        } else if steps == 0 {
            Err(ConfigError::ZeroSteps)
        } else {
            Ok(segments_for(max_response_length as nat, block_size as nat) as usize)
        },
        r is Ok ==> r->Ok_0 >= 1,
{
    if !is_power_of_two(block_size) {
        return Err(ConfigError::BlockSizeNotPowerOfTwo);
    }
    if max_response_length == 0 {
        return Err(ConfigError::NoResponseRoom);
    }
    if response_len > max_response_length {
        return Err(ConfigError::ResponseTooLong);
    }
    if steps == 0 {
        return Err(ConfigError::ZeroSteps);
    }
    proof {
        vstd::arithmetic::div_mod::lemma_fundamental_div_mod(max_response_length as int, block_size as int);
        if max_response_length % block_size == 0 && max_response_length / block_size == 0 {
            assert(block_size * (max_response_length / block_size) == 0) by (nonlinear_arith)
                requires
                    max_response_length / block_size == 0,
            ;
        }
    }
    Ok(segment_count(max_response_length, block_size))
}

} // verus!
