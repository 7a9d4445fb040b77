use vstd::prelude::*;
use vstd::string::StrSliceExecFns;

use crate::dates::{dval, is_digit};
use crate::errors::ChartError;

verus! {

/// The number a digit string denotes, reading left to right and passing
/// over separator characters.
pub open spec fn num_value(s: Seq<char>) -> int
    decreases s.len(),
{
    if s.len() == 0 {
        0
    } else {
        let p = num_value(s.drop_last());
        if is_digit(s.last()) {
            p * 10 + dval(s.last())
        } else {
            p
        }
    }
}

/// Acceptable stream-count text: it starts with a digit and holds only
/// digits and comma separators, so a separator may stand between digits,
/// repeated, or at the end, but never at the front.
pub open spec fn streams_text_valid(s: Seq<char>) -> bool {
    &&& s.len() > 0
    &&& is_digit(s[0])
    &&& forall|i: int| 0 <= i < s.len() ==> is_digit(#[trigger] s[i]) || s[i] == ','
}

/// Acceptable rank text: one or more digits and nothing else.
pub open spec fn rank_text_valid(s: Seq<char>) -> bool {
    &&& s.len() > 0
    &&& forall|i: int| 0 <= i < s.len() ==> is_digit(#[trigger] s[i])
}

/// The denoted number is never negative.
pub proof fn lemma_num_value_nonneg(s: Seq<char>)
    ensures
        num_value(s) >= 0,
    decreases s.len(),
{
    if s.len() > 0 {
        lemma_num_value_nonneg(s.drop_last());
    }
}

/// Reading further characters never shrinks the denoted number.
pub proof fn lemma_num_value_prefix_le(s: Seq<char>, j: int)
    requires
        0 <= j <= s.len(),
    ensures
        num_value(s.take(j)) <= num_value(s),
    decreases s.len() - j,
{
    if j == s.len() {
        assert(s.take(j) =~= s);
    } else {
        let t = s.take(j + 1);
        assert(t.drop_last() =~= s.take(j));
        lemma_num_value_nonneg(s.take(j));
        lemma_num_value_prefix_le(s, j + 1);
    }
}

/// Parses an integer written with optional comma digit separators, as a
/// stream count is. Fails on text outside that convention and on a value
/// too large to hold.
pub fn parse_int(num: &str) -> (r: Result<i64, ChartError>)
    ensures
        r matches Ok(v) ==> streams_text_valid(num@) && num_value(num@) <= i64::MAX && v
            == num_value(num@) && v >= 0,
        r is Err ==> r == Err::<i64, ChartError>(ChartError::RecordParseError),
        streams_text_valid(num@) && num_value(num@) <= i64::MAX ==> r is Ok,
{
    let n = num.unicode_len();
    if n == 0 {
        return Err(ChartError::RecordParseError);
    }
    let mut acc: i64 = 0;
    let mut i: usize = 0;
    while i < n
        invariant
            0 < n == num@.len(),
            i <= n,
            i > 0 ==> is_digit(num@[0]),
            forall|j: int| 0 <= j < i ==> is_digit(#[trigger] num@[j]) || num@[j] == ',',
            acc == num_value(num@.take(i as int)),
            0 <= acc,
        decreases n - i,
    {
        let c = num.get_char(i);
        let u = c as u32;
        proof {
            assert(num@.take(i + 1).drop_last() =~= num@.take(i as int));
        }
        if 48 <= u && u <= 57 {
            let d = (u - 48) as i64;
            if acc > (i64::MAX - d) / 10 {
                proof {
                    assert(acc * 10 + d > i64::MAX) by (nonlinear_arith)
                        requires
                            acc > (i64::MAX - d) / 10,
                            0 <= d <= 9,
                            acc >= 0,
                    ;
                    lemma_num_value_prefix_le(num@, i + 1);
                }
                return Err(ChartError::RecordParseError);
            }
            proof {
                assert(acc * 10 + d <= i64::MAX) by (nonlinear_arith)
                    requires
                        acc <= (i64::MAX - d) / 10,
                        0 <= d <= 9,
                        acc >= 0,
                ;
            }
            acc = acc * 10 + d;
        } else if c == ',' {
            if i == 0 {
                return Err(ChartError::RecordParseError);
            }
        } else {
            return Err(ChartError::RecordParseError);
        }
        i = i + 1;
    }
    proof {
        assert(num@.take(n as int) =~= num@);
    }
    Ok(acc)
}

/// Parses a rank field: plain digits, small enough to hold.
pub fn parse_rank(num: &str) -> (r: Result<i16, ChartError>)
    ensures
        r matches Ok(v) ==> rank_text_valid(num@) && num_value(num@) <= i16::MAX && v
            == num_value(num@) && v >= 0,
        r is Err ==> r == Err::<i16, ChartError>(ChartError::RecordParseError),
        rank_text_valid(num@) && num_value(num@) <= i16::MAX ==> r is Ok,
{
    let n = num.unicode_len();
    if n == 0 {
        return Err(ChartError::RecordParseError);
    }
    let mut acc: i16 = 0;
    let mut i: usize = 0;
    while i < n
        invariant
            0 < n == num@.len(),
            i <= n,
            forall|j: int| 0 <= j < i ==> is_digit(#[trigger] num@[j]),
            acc == num_value(num@.take(i as int)),
            0 <= acc,
        decreases n - i,
    {
        let c = num.get_char(i);
        let u = c as u32;
        proof {
            assert(num@.take(i + 1).drop_last() =~= num@.take(i as int));
        }
        if !(48 <= u && u <= 57) {
            return Err(ChartError::RecordParseError);
        }
        let d = (u - 48) as i16;
        if acc > (i16::MAX - d) / 10 {
            proof {
                assert(acc * 10 + d > i16::MAX) by (nonlinear_arith)
                    requires
                        acc > (i16::MAX - d) / 10,
                        0 <= d <= 9,
                        acc >= 0,
                ;
                lemma_num_value_prefix_le(num@, i + 1);
            }
            return Err(ChartError::RecordParseError);
        }
        proof {
            assert(acc * 10 + d <= i16::MAX) by (nonlinear_arith)
                requires
                    acc <= (i16::MAX - d) / 10,
                    0 <= d <= 9,
                    acc >= 0,
            ;
        }
        acc = acc * 10 + d;
        i = i + 1;
    }
    proof {
        assert(num@.take(n as int) =~= num@);
    }
    Ok(acc)
}

} // verus!
