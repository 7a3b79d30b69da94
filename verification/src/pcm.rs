//! Conversion between the recorder's fixed-point samples and 16-bit PCM.
//!
//! A captured sample is carried as a signed count of millionths of full
//! scale: `SAMPLE_UNIT` units stand for a full-scale sample of one, so the
//! nominal range is `-SAMPLE_UNIT ..= SAMPLE_UNIT`.  Encoding scales a
//! sample by `PCM_MAX`, rounds to the nearest integer, and clamps the
//! result into the 16-bit range; it never wraps.

use vstd::prelude::*;

verus! {

/// Number of fixed-point units in a full-scale sample.
pub const SAMPLE_UNIT: i64 = 1_000_000;

/// Largest 16-bit PCM value; also the encoding scale factor.
pub const PCM_MAX: i64 = 32767;

/// Smallest 16-bit PCM value.
pub const PCM_MIN: i64 = -32768;

/// `n / d` rounded to the nearest integer, halves away from zero.
pub open spec fn round_div(n: int, d: int) -> int
    recommends
        d > 0,
{
    if n >= 0 {
        (n + d / 2) / d
    } else {
        -((-n + d / 2) / d)
    }
}

/// A sample scaled into PCM units, before clamping.
pub open spec fn scale_to_pcm(q: int) -> int {
    round_div(q * PCM_MAX, SAMPLE_UNIT as int)
}

/// What encoding a fixed-point sample yields: scaled, rounded, clamped.
pub open spec fn encode_sample_spec(q: int) -> int {
    let r = scale_to_pcm(q);
    if r > PCM_MAX {
        PCM_MAX as int
    } else if r < PCM_MIN {
        PCM_MIN as int
    } else {
        r
    }
}

/// What decoding a PCM value yields: scaled back into fixed-point units.
pub open spec fn decode_sample_spec(p: int) -> int {
    round_div(p * SAMPLE_UNIT, PCM_MAX as int)
}

/// Encode one fixed-point sample as a 16-bit PCM value.
pub fn encode_sample(q: i64) -> (p: i16)
    ensures
        p as int == encode_sample_spec(q as int),
{
    let qc: i64 = if q > 2 * SAMPLE_UNIT {
        2 * SAMPLE_UNIT
    } else if q < -2 * SAMPLE_UNIT {
        -2 * SAMPLE_UNIT
    } else {
        q
    };
    proof {
        lemma_clamped_sample_same_code(q as int, qc as int);
    }
    let scaled: i64 = if qc >= 0 {
        (qc * PCM_MAX + SAMPLE_UNIT / 2) / SAMPLE_UNIT
    } else {
        -((-qc * PCM_MAX + SAMPLE_UNIT / 2) / SAMPLE_UNIT)
    };
    assert(scaled == scale_to_pcm(qc as int)) by {
        assert(qc * PCM_MAX == (qc as int) * (PCM_MAX as int)) by (nonlinear_arith);
    };
    if scaled > PCM_MAX {
        PCM_MAX as i16
    } else if scaled < PCM_MIN {
        PCM_MIN as i16
    } else {
        scaled as i16
    }
}

/// Decode one 16-bit PCM value back into fixed-point sample units.
pub fn decode_sample(p: i16) -> (q: i64)
    ensures
        q as int == decode_sample_spec(p as int),
{
    let pw: i64 = p as i64;
    if pw >= 0 {
        (pw * SAMPLE_UNIT + PCM_MAX / 2) / PCM_MAX
    } else {
        -((-pw * SAMPLE_UNIT + PCM_MAX / 2) / PCM_MAX)
    }
}

/// Law: encoding a nominal-range sample and decoding the result recovers
/// the sample to within one quantization step, `SAMPLE_UNIT / PCM_MAX`
/// fixed-point units rounded up.
pub proof fn lemma_pcm_round_trip(q: int)
    requires
        -SAMPLE_UNIT <= q <= SAMPLE_UNIT,
    ensures
        -(SAMPLE_UNIT / PCM_MAX + 1) <= decode_sample_spec(encode_sample_spec(q)) - q <= SAMPLE_UNIT
            / PCM_MAX + 1,
{
    let u = SAMPLE_UNIT as int;
    let e = scale_to_pcm(q);
    lemma_round_div_mono(q * PCM_MAX, u * PCM_MAX, u);
    lemma_round_div_mono(-u * PCM_MAX, q * PCM_MAX, u);
    assert(round_div(u * PCM_MAX, u) == PCM_MAX);
    assert(round_div(-u * PCM_MAX, u) == -PCM_MAX);
    assert(encode_sample_spec(q) == e);
    lemma_round_div_err(q * PCM_MAX, u);
    let d = decode_sample_spec(e);
    lemma_round_div_err(e * u, PCM_MAX as int);
    assert(-(u / 2) <= e * u - q * PCM_MAX <= u / 2);
    assert(-(PCM_MAX / 2) <= d * PCM_MAX - e * u <= PCM_MAX / 2);
    assert(-(u / 2 + PCM_MAX / 2) <= d * PCM_MAX - q * PCM_MAX <= u / 2 + PCM_MAX / 2);
}

/// Law: out-of-range samples are clamped to the 16-bit extremes and the
/// encoded value never leaves the 16-bit range, so overflow never wraps.
pub proof fn lemma_encode_clamps(q: int)
    ensures
        PCM_MIN <= encode_sample_spec(q) <= PCM_MAX,
        q >= SAMPLE_UNIT ==> encode_sample_spec(q) == PCM_MAX,
        q <= -2 * SAMPLE_UNIT ==> encode_sample_spec(q) == PCM_MIN,
{
    let u = SAMPLE_UNIT as int;
    if q >= u {
        lemma_round_div_mono(u * PCM_MAX, q * PCM_MAX, u);
        assert(round_div(u * PCM_MAX, u) == PCM_MAX);
    }
    if q <= -2 * u {
        lemma_round_div_mono(q * PCM_MAX, -2 * u * PCM_MAX, u);
        assert(round_div(-2 * u * PCM_MAX, u) == -2 * PCM_MAX);
    }
}

/// Rounding division errs by at most half the divisor.
proof fn lemma_round_div_err(n: int, d: int)
    requires
        d > 0,
    ensures
        -(d / 2) <= round_div(n, d) * d - n <= d / 2,
{
    if n >= 0 {
        let h = d / 2;
        let r = (n + h) / d;
        vstd::arithmetic::div_mod::lemma_fundamental_div_mod(n + h, d);
        assert(r * d - n == h - ((n + h) % d));
        vstd::arithmetic::div_mod::lemma_mod_bound(n + h, d);
    } else {
        let m = -n;
        let h = d / 2;
        let r = (m + h) / d;
        vstd::arithmetic::div_mod::lemma_fundamental_div_mod(m + h, d);
        assert(r * d - m == h - ((m + h) % d));
        vstd::arithmetic::div_mod::lemma_mod_bound(m + h, d);
        assert((-r) * d == -(r * d)) by (nonlinear_arith);
        assert(round_div(n, d) == -r);
        assert(round_div(n, d) * d - n == -(r * d - m));
    }
}

/// Rounding division is monotone in the numerator.
proof fn lemma_round_div_mono(a: int, b: int, d: int)
    requires
        d > 0,
        a <= b,
    ensures
        round_div(a, d) <= round_div(b, d),
{
    let h = d / 2;
    if a >= 0 {
        vstd::arithmetic::div_mod::lemma_div_is_ordered(a + h, b + h, d);
    } else if b < 0 {
        vstd::arithmetic::div_mod::lemma_div_is_ordered(-b + h, -a + h, d);
    } else {
        vstd::arithmetic::div_mod::lemma_div_pos_is_pos(b + h, d);
        vstd::arithmetic::div_mod::lemma_div_pos_is_pos(-a + h, d);
    }
}

/// Clamping a sample to twice full scale leaves its PCM code unchanged:
/// everything at or beyond that magnitude already encodes to an extreme.
proof fn lemma_clamped_sample_same_code(q: int, qc: int)
    requires
        qc == if q > 2 * SAMPLE_UNIT {
            2 * (SAMPLE_UNIT as int)
        } else if q < -2 * SAMPLE_UNIT {
            -2 * (SAMPLE_UNIT as int)
        } else {
            q
        },
    ensures
        encode_sample_spec(q) == encode_sample_spec(qc),
{
    let u = SAMPLE_UNIT as int;
    if q > 2 * u {
        assert(q * PCM_MAX >= 2 * u * PCM_MAX) by (nonlinear_arith)
            requires
                q > 2 * u,
                u > 0,
        ;
        lemma_round_div_mono(2 * u * PCM_MAX, q * PCM_MAX, u);
        assert(round_div(2 * u * PCM_MAX, u) == 2 * PCM_MAX);
        assert(scale_to_pcm(q) >= 2 * PCM_MAX);
        assert(scale_to_pcm(qc) == 2 * PCM_MAX);
    } else if q < -2 * u {
        assert(q * PCM_MAX <= -2 * u * PCM_MAX) by (nonlinear_arith)
            requires
                q < -2 * u,
                u > 0,
        ;
        lemma_round_div_mono(q * PCM_MAX, -2 * u * PCM_MAX, u);
        assert(round_div(-2 * u * PCM_MAX, u) == -2 * PCM_MAX);
        assert(scale_to_pcm(q) <= -2 * PCM_MAX);
        assert(scale_to_pcm(qc) == -2 * PCM_MAX);
    }
}

} // verus!
