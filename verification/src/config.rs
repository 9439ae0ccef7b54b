//! Configuration of the controller: the static control target (a sending
//! rate or a congestion window, exactly one of the two) and the report
//! cadence (per acknowledgment, or on a fixed interval).

use vstd::prelude::*;
use vstd::string::StringSliceAdditionalSpecFns;

verus! {

/// The static control target: a sending rate in bytes per second, or a
/// congestion window in bytes. Exactly one of the two is active, which the
/// sum type enforces by construction.
#[derive(Clone, Copy, Debug, PartialEq, Eq, Structural)]
pub enum CcpExampleConfigEnum {
    Rate(u32),
    Cwnd(u32),
}

/// Per-algorithm configuration: the target and the report cadence.
/// `perack` selects a report on every acknowledgment; otherwise reports come
/// on a fixed interval.
#[derive(Clone, Copy, Debug, PartialEq, Eq, Structural)]
pub struct CcpExampleConfig {
    pub set: CcpExampleConfigEnum,
    pub perack: bool,
}

/// Why a configuration was rejected.
#[derive(Clone, Copy, Debug, PartialEq, Eq, Structural)]
pub enum ConfigError {
    /// Neither a rate nor a window was given.
    MissingTarget,
    /// Both a rate and a window were given.
    ConflictingTargets,
    /// The numeric argument is not a decimal number that fits in 32 bits.
    InvalidNumber,
}

/// An ASCII decimal digit.
pub open spec fn is_dec_digit(b: u8) -> bool {
    48 <= b <= 57
}

/// Every byte of the sequence is an ASCII decimal digit.
pub open spec fn all_dec_digits(s: Seq<u8>) -> bool {
    forall|i: int| 0 <= i < s.len() ==> is_dec_digit(#[trigger] s[i])
}

/// The value of a sequence of ASCII decimal digits, most significant first.
pub open spec fn dec_value(s: Seq<u8>) -> int
    decreases s.len(),
{
    if s.len() == 0 {
        0
    } else {
        dec_value(s.drop_last()) * 10 + (s.last() - 48)
    }
}

/// The digits of a numeric argument: an optional leading `+` is skipped.
pub open spec fn digits_after_sign(s: Seq<u8>) -> Seq<u8> {
    if s.len() > 0 && s[0] == 43 {
        s.drop_first()
    } else {
        s
    }
}

/// The byte sequence is a well-formed decimal `u32`: after an optional
/// leading `+`, at least one digit, only digits, and a value within range.
pub open spec fn parses_to_u32(s: Seq<u8>) -> bool {
    let d = digits_after_sign(s);
    d.len() > 0 && all_dec_digits(d) && dec_value(d) <= u32::MAX
}

proof fn lemma_dec_value_nonneg(s: Seq<u8>)
    requires
        all_dec_digits(s),
    ensures
        dec_value(s) >= 0,
    decreases s.len(),
{
    if s.len() > 0 {
        assert(all_dec_digits(s.drop_last())) by {
            assert(forall|i: int|
                0 <= i < s.drop_last().len() ==> s.drop_last()[i] == #[trigger] s[i]);
        }
        lemma_dec_value_nonneg(s.drop_last());
        assert(is_dec_digit(s.last()));
    }
}

proof fn lemma_dec_value_prefix_le(s: Seq<u8>, k: int)
    requires
        all_dec_digits(s),
        0 <= k <= s.len(),
    ensures
        dec_value(s.subrange(0, k)) <= dec_value(s),
    decreases s.len() - k,
{
    if k < s.len() {
        let p = s.subrange(0, k);
        let q = s.subrange(0, k + 1);
        assert(q.drop_last() =~= p);
        assert(all_dec_digits(p)) by {
            assert(forall|i: int| 0 <= i < p.len() ==> p[i] == #[trigger] s[i]);
        }
        lemma_dec_value_nonneg(p);
        assert(is_dec_digit(q.last()));
        assert(dec_value(q) == dec_value(p) * 10 + (q.last() - 48));
        assert(dec_value(p) <= dec_value(q));
        lemma_dec_value_prefix_le(s, k + 1);
    } else {
        assert(s.subrange(0, k) =~= s);
    }
}

/// Parses an unsigned 32-bit decimal number, as a numeric command-line
/// argument is read: an optional leading `+`, then one or more decimal
/// digits. Returns `None` on an empty string, a stray character, or a value
/// above `u32::MAX`.
pub fn parse_u32_decimal(s: &[u8]) -> (r: Option<u32>)
    ensures
        r is Some <==> parses_to_u32(s@),
        r matches Some(v) ==> v == dec_value(digits_after_sign(s@)),
{
    let n = s.len();
    let start: usize = if n > 0 && s[0] == 43 {
        1
    } else {
        0
    };
    let ghost d = digits_after_sign(s@);
    proof {
        if start == 1 {
            assert(d =~= s@.subrange(1, n as int));
        } else {
            assert(d =~= s@.subrange(0, n as int));
        }
    }
    if start == n {
        assert(d.len() == 0);
        return None;
    }
    let mut acc: u32 = 0;
    let mut i: usize = start;
    while i < n
        invariant
            start <= i <= n,
            n == s@.len(),
            start < n,
            d == s@.subrange(start as int, n as int),
            d == digits_after_sign(s@),
            all_dec_digits(s@.subrange(start as int, i as int)),
            acc == dec_value(s@.subrange(start as int, i as int)),
        decreases n - i,
    {
        let b = s[i];
        let ghost prefix = s@.subrange(start as int, i as int);
        let ghost prefix1 = s@.subrange(start as int, i as int + 1);
        proof {
            assert(prefix1.drop_last() =~= prefix);
            assert(prefix =~= d.subrange(0, i - start));
            assert(prefix1 =~= d.subrange(0, i - start + 1));
        }
        if b < 48 || b > 57 {
            assert(!parses_to_u32(s@)) by {
                if all_dec_digits(d) {
                    assert(is_dec_digit(d[i - start]));
                }
            }
            return None;
        }
        let dv = (b - 48) as u32;
        if acc > (u32::MAX - dv) / 10 {
            // The accumulated digits already overflow 32 bits: no suffix can
            // bring the value back into range.
            assert(acc * 10 + dv > u32::MAX);
            assert(!parses_to_u32(s@)) by {
                if all_dec_digits(d) && dec_value(d) <= u32::MAX {
                    lemma_dec_value_prefix_le(d, i - start + 1);
                    assert(dec_value(prefix1) == acc * 10 + dv);
                }
            }
            return None;
        }
        assert(acc * 10 + dv <= u32::MAX);
        acc = acc * 10 + dv;
        i = i + 1;
    }
    proof {
        assert(s@.subrange(start as int, n as int) =~= d);
    }
    Some(acc)
}

/// Builds the configuration from the raw command-line choices: at most one
/// of `rate` and `cwnd` as decimal strings, and the cadence flag. Exactly
/// one target must be given and must parse; otherwise the configuration is
/// rejected with the reason.
pub fn make_args(rate: Option<&str>, cwnd: Option<&str>, perack: bool) -> (r: Result<
    CcpExampleConfig,
    ConfigError,
>)
    ensures
        r is Ok <==> ((rate is Some && cwnd is None && parses_to_u32(rate.unwrap().spec_bytes()))
            || (cwnd is Some && rate is None && parses_to_u32(cwnd.unwrap().spec_bytes()))),
        r is Ok ==> r.unwrap().perack == perack,
        r is Ok && rate is Some ==> r.unwrap().set == CcpExampleConfigEnum::Rate(
            dec_value(digits_after_sign(rate.unwrap().spec_bytes())) as u32,
        ),
        r is Ok && cwnd is Some ==> r.unwrap().set == CcpExampleConfigEnum::Cwnd(
            dec_value(digits_after_sign(cwnd.unwrap().spec_bytes())) as u32,
        ),
        r == Err::<CcpExampleConfig, ConfigError>(ConfigError::MissingTarget) <==> (rate is None
            && cwnd is None),
        r == Err::<CcpExampleConfig, ConfigError>(ConfigError::ConflictingTargets) <==> (rate
            is Some && cwnd is Some),
{
    match (rate, cwnd) {
        (Some(_), Some(_)) => Err(ConfigError::ConflictingTargets),
        (None, None) => Err(ConfigError::MissingTarget),
        (Some(rs), None) => match parse_u32_decimal(rs.as_bytes()) {
            Some(v) => Ok(CcpExampleConfig { set: CcpExampleConfigEnum::Rate(v), perack }),
            None => Err(ConfigError::InvalidNumber),
        },
        (None, Some(cs)) => match parse_u32_decimal(cs.as_bytes()) {
            Some(v) => Ok(CcpExampleConfig { set: CcpExampleConfigEnum::Cwnd(v), perack }),
            None => Err(ConfigError::InvalidNumber),
        },
    }
}

} // verus!
