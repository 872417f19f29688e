//! Pure tuning computations for the acquisition hardware: nearest-supported
//! sample-rate selection, the register decomposition of a frequency word, and
//! the bounds-checked decoding of raw sample bytes.

use vstd::prelude::*;

verus! {

use vstd::arithmetic::div_mod::lemma_fundamental_div_mod;

/// The sample rates, in Hz, that the transceiver can be configured for,
/// by table index.
pub open spec fn spec_rate(i: int) -> int {
    if i == 0 {
        4000000
    } else if i == 1 {
        2000000
    } else if i == 2 {
        1333333
    } else if i == 3 {
        1000000
    } else if i == 4 {
        800000
    } else if i == 5 {
        666666
    } else if i == 6 {
        500000
    } else {
        400000
    }
}

/// The register value selecting the sample rate at the same table index.
pub open spec fn spec_rate_reg(i: int) -> int {
    if i == 0 {
        0x1
    } else if i == 1 {
        0x2
    } else if i == 2 {
        0x3
    } else if i == 3 {
        0x4
    } else if i == 4 {
        0x5
    } else if i == 5 {
        0x6
    } else if i == 6 {
        0x8
    } else {
        0xA
    }
}

/// Absolute error between a requested rate and table entry `i`.
pub open spec fn spec_rate_err(requested: int, i: int) -> int {
    if requested >= spec_rate(i) {
        requested - spec_rate(i)
    } else {
        spec_rate(i) - requested
    }
}

/// The signed 16-bit value encoded little-endian by a byte pair.
pub open spec fn spec_i16_from_le(lo: u8, hi: u8) -> int {
    if lo + 256 * hi < 32768 {
        lo + 256 * hi
    } else {
        lo + 256 * hi - 65536
    }
}

/// One entry of the supported-rate table: (rate in Hz, register value).
fn rate_entry(i: usize) -> (entry: (u32, u16))
    requires
        i < 8,
    ensures
        entry.0 == spec_rate(i as int),
        entry.1 == spec_rate_reg(i as int),
{
    match i {
        0 => (4000000, 0x1),
        1 => (2000000, 0x2),
        2 => (1333333, 0x3),
        3 => (1000000, 0x4),
        4 => (800000, 0x5),
        5 => (666666, 0x6),
        6 => (500000, 0x8),
        _ => (400000, 0xA),
    }
}

/// Select the supported sample rate nearest to `requested` by absolute
/// error, taking the earliest table entry on a tie, and return it with its
/// register value.
pub fn select_samplerate(requested: u32) -> (choice: (u32, u16))
    ensures
        exists|i: int|
            {
                &&& 0 <= i < 8
                &&& choice.0 == spec_rate(i)
                &&& choice.1 == spec_rate_reg(i)
                &&& forall|j: int|
                    0 <= j < 8 ==> spec_rate_err(requested as int, i) <= spec_rate_err(
                        requested as int,
                        j,
                    )
                &&& forall|j: int|
                    0 <= j < i ==> spec_rate_err(requested as int, j) > spec_rate_err(
                        requested as int,
                        i,
                    )
            },
{
    let mut best: usize = 0;
    let mut lowest: u64 = u64::MAX;
    let mut i: usize = 0;
    while i < 8
        invariant
            i <= 8,
            i == 0 ==> lowest == u64::MAX,
            i > 0 ==> {
                &&& best < i
                &&& lowest == spec_rate_err(requested as int, best as int)
                &&& forall|j: int|
                    0 <= j < i ==> lowest <= spec_rate_err(requested as int, j)
                &&& forall|j: int|
                    0 <= j < best ==> spec_rate_err(requested as int, j) > lowest
            },
        decreases 8 - i,
    {
        let (rate, _reg) = rate_entry(i);
        let err: u64 = if requested as u64 >= rate as u64 {
            requested as u64 - rate as u64
        } else {
            rate as u64 - requested as u64
        };
        if err < lowest {
            best = i;
            lowest = err;
        }
        i = i + 1;
    }
    rate_entry(best)
}

/// The three control-register writes, as (register word, index word) pairs in
/// issue order, that tune the transceiver to the channel-frequency word
/// `ccf0`: its low byte, its high byte, then the commit write.
pub fn frequency_registers(ccf0: u16) -> (writes: Vec<(u16, u16)>)
    ensures
        writes@.len() == 3,
        writes@[0] == (((ccf0 & 0xff) as u16), 0x205u16),
        writes@[1] == ((((ccf0 >> 8) & 0xff) as u16), 0x206u16),
        writes@[2] == (0x0u16, 0x208u16),
{
    let low: u16 = ccf0 & 0xff;
    let high: u16 = (ccf0 >> 8) & 0xff;
    let mut writes: Vec<(u16, u16)> = Vec::new();
    writes.push((low, 0x205));
    writes.push((high, 0x206));
    writes.push((0x0, 0x208));
    writes
}

/// Decode a raw little-endian byte buffer into the signed 16-bit samples it
/// carries: an explicit, bounds-checked conversion in place of reinterpreting
/// the buffer's memory.
pub fn decode_i16le(bytes: &[u8]) -> (samples: Vec<i16>)
    requires
        bytes@.len() % 2 == 0,
    ensures
        samples@.len() == bytes@.len() / 2,
        forall|k: int|
            0 <= k < samples@.len() ==> samples@[k] == spec_i16_from_le(
                bytes@[2 * k],
                bytes@[2 * k + 1],
            ),
{
    let len: usize = bytes.len();
    let half: usize = len / 2;
    proof {
        assert(len == 2 * half) by {
            lemma_fundamental_div_mod(len as int, 2);
        };
    }
    let mut samples: Vec<i16> = Vec::new();
    let mut k: usize = 0;
    while k < half
        invariant
            k <= half,
            len == bytes@.len(),
            len == 2 * half,
            samples@.len() == k,
            forall|j: int|
                0 <= j < k ==> samples@[j] == spec_i16_from_le(bytes@[2 * j], bytes@[2 * j + 1]),
        decreases half - k,
    {
        let lo = bytes[2 * k];
        let hi = bytes[2 * k + 1];
        let wide: i32 = lo as i32 + 256 * (hi as i32);
        let value: i16 = if wide < 32768 {
            wide as i16
        } else {
            (wide - 65536) as i16
        };
        samples.push(value);
        k = k + 1;
    }
    samples
}

} // verus!

