//! The persisted configuration: a single mode index, stored as its
//! decimal representation in a small text file.
//!
//! The library owns the format — parsing and rendering the decimal text —
//! and proves that the two are inverses. Reading and writing the file
//! itself happens outside.

use vstd::prelude::*;

verus! {

/// The configuration: the index of the mode to start in.
#[derive(Clone, Copy, Debug, PartialEq, Eq, Structural)]
pub struct Config {
    pub last_mode: usize,
}

/// An ASCII decimal digit.
pub open spec fn spec_is_digit(b: u8) -> bool {
    48 <= b <= 57
}

/// A non-empty run of decimal digits.
pub open spec fn spec_is_decimal(s: Seq<u8>) -> bool {
    s.len() > 0 && forall|i: int| 0 <= i < s.len() ==> spec_is_digit(#[trigger] s[i])
}

/// The number a run of digits denotes, most significant first.
pub open spec fn spec_decimal_value(s: Seq<u8>) -> nat
    decreases s.len(),
{
    if s.len() == 0 {
        0
    } else {
        (spec_decimal_value(s.drop_last()) * 10 + (s.last() - 48)) as nat
    }
}

/// The decimal representation of a number: no sign, no leading zeros
/// (except for zero itself).
pub open spec fn spec_decimal_repr(n: nat) -> Seq<u8>
    decreases n,
{
    if n < 10 {
        seq![(48 + n) as u8]
    } else {
        spec_decimal_repr(n / 10).push((48 + n % 10) as u8)
    }
}

/// The representation of any number is a non-empty run of digits.
pub proof fn lemma_decimal_repr_is_decimal(n: nat)
    ensures
        spec_is_decimal(spec_decimal_repr(n)),
    decreases n,
{
    if n >= 10 {
        lemma_decimal_repr_is_decimal(n / 10);
        assert forall|i: int| 0 <= i < spec_decimal_repr(n).len() implies spec_is_digit(
            #[trigger] spec_decimal_repr(n)[i],
        ) by {
            if i < spec_decimal_repr(n / 10).len() {
                assert(spec_decimal_repr(n)[i] == spec_decimal_repr(n / 10)[i]);
            }
        }
    }
}

/// Reading back the representation of `n` yields `n`.
pub proof fn lemma_decimal_round_trip(n: nat)
    ensures
        spec_decimal_value(spec_decimal_repr(n)) == n,
    decreases n,
{
    if n < 10 {
        reveal_with_fuel(spec_decimal_value, 3);
        assert(spec_decimal_repr(n).drop_last() =~= Seq::<u8>::empty());
    } else {
        lemma_decimal_round_trip(n / 10);
        assert(spec_decimal_repr(n).drop_last() =~= spec_decimal_repr(n / 10));
    }
}

/// A run of digits is worth at least any of its prefixes: appending
/// digits never shrinks the value.
proof fn lemma_decimal_value_extend_ge(s: Seq<u8>, i: int)
    requires
        0 <= i <= s.len(),
        forall|j: int| 0 <= j < s.len() ==> spec_is_digit(#[trigger] s[j]),
    ensures
        spec_decimal_value(s) >= spec_decimal_value(s.take(i)),
    decreases s.len() - i,
{
    if i < s.len() {
        lemma_decimal_value_extend_ge(s, i + 1);
        let p = s.take(i);
        let q = s.take(i + 1);
        assert(q.drop_last() =~= p);
        assert(spec_decimal_value(q) == spec_decimal_value(p) * 10 + (s[i] - 48));
        assert(spec_decimal_value(p) * 10 >= spec_decimal_value(p)) by (nonlinear_arith)
            requires
                spec_decimal_value(p) >= 0,
        ;
    } else {
        assert(s.take(i) =~= s);
    }
}

impl Config {
    /// Parses the config file's contents: the decimal representation of
    /// the stored mode index. Returns `Some` exactly on a non-empty run
    /// of digits whose value fits in `usize`.
    pub fn parse(content: &[u8]) -> (r: Option<Config>)
        ensures
            match r {
                Some(c) => spec_is_decimal(content@) && spec_decimal_value(content@)
                    == c.last_mode as nat,
                None => !(spec_is_decimal(content@) && spec_decimal_value(content@)
                    <= usize::MAX as nat),
            },
    {
        if content.len() == 0 {
            return None;
        }
        let mut acc: usize = 0;
        let mut i: usize = 0;
        while i < content.len()
            invariant
                0 < content@.len(),
                i <= content@.len(),
                forall|j: int| 0 <= j < i ==> spec_is_digit(#[trigger] content@[j]),
                acc as nat == spec_decimal_value(content@.take(i as int)),
            decreases content@.len() - i,
        {
            let b = content[i];
            if b < 48 || b > 57 {
                return None;
            }
            let d = (b - 48) as usize;
            if acc > (usize::MAX - d) / 10 {
                // The digits read so far already overflow `usize`; the
                // whole run can only be worth more.
                proof {
                    let p = content@.take(i as int);
                    let q = content@.take(i + 1 as int);
                    assert(q.drop_last() =~= p);
                    assert(q.last() == b);
                    assert(spec_decimal_value(q) == acc * 10 + d);
                    assert(acc * 10 + d > usize::MAX) by (nonlinear_arith)
                        requires
                            acc > (usize::MAX - d) / 10,
                            0 <= d <= 9,
                            acc >= 0,
                    ;
                    if spec_is_decimal(content@) {
                        lemma_decimal_value_extend_ge(content@, i + 1);
                    }
                }
                return None;
            }
            proof {
                let p = content@.take(i as int);
                let q = content@.take(i + 1 as int);
                assert(q.drop_last() =~= p);
                assert(q.last() == b);
                assert(acc * 10 + d <= usize::MAX) by (nonlinear_arith)
                    requires
                        acc <= (usize::MAX - d) / 10,
                        0 <= d <= 9,
                        acc >= 0,
                ;
            }
            acc = acc * 10 + d;
            i = i + 1;
        }
        proof {
            assert(content@.take(content@.len() as int) =~= content@);
        }
        Some(Config { last_mode: acc })
    }

    /// Renders the stored mode index as its decimal representation, the
    /// exact bytes to write back to the config file.
    pub fn serialize(&self) -> (r: Vec<u8>)
        ensures
            r@ == spec_decimal_repr(self.last_mode as nat),
    {
        let mut out: Vec<u8> = Vec::new();
        push_decimal(self.last_mode, &mut out);
        out
    }
}

/// Appends the decimal representation of `n` to `out`.
fn push_decimal(n: usize, out: &mut Vec<u8>)
    ensures
        final(out)@ == old(out)@ + spec_decimal_repr(n as nat),
    decreases n,
{
    if n < 10 {
        out.push(48 + n as u8);
        proof {
            assert(out@ =~= old(out)@ + spec_decimal_repr(n as nat));
        }
    } else {
        push_decimal(n / 10, out);
        out.push(48 + (n % 10) as u8);
        proof {
            assert(out@ =~= old(out)@ + spec_decimal_repr(n as nat));
        }
    }
}

/// The persisted mode index round-trips: parsing what `serialize` wrote
/// for any configuration yields that configuration back.
pub proof fn lemma_config_round_trip(c: Config)
    ensures
        spec_is_decimal(spec_decimal_repr(c.last_mode as nat)),
        spec_decimal_value(spec_decimal_repr(c.last_mode as nat)) == c.last_mode as nat,
{
    lemma_decimal_repr_is_decimal(c.last_mode as nat);
    lemma_decimal_round_trip(c.last_mode as nat);
}

} // verus!
