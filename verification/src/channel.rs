//! Channels as a tick sees them, and the outpoints that name them.

use vstd::prelude::*;
use vstd::string::*;
use crate::error::BalancerError;

verus! {

/// What one tick knows of a channel: its funding outpoint, written
/// `<txid>:<index>`, the part of the capacity that is on our side, and the
/// capacity itself, both as the node reports them.
#[derive(Debug, Clone)]
pub struct ChannelSnapshot {
    pub channel_point: String,
    pub local_balance: i64,
    pub capacity: i64,
}

/// A funding outpoint taken apart.
#[derive(Debug, Clone)]
pub struct ChannelPoint {
    pub funding_txid: String,
    pub output_index: u32,
}

/// `s` holds a colon at `k` and nowhere else.
pub open spec fn splits_at(s: Seq<char>, k: int) -> bool {
    &&& 0 <= k < s.len()
    &&& s[k] == ':'
    &&& forall|j: int| 0 <= j < s.len() && j != k ==> s[j] != ':'
}

/// `s` holds exactly one colon.
pub open spec fn has_one_colon(s: Seq<char>) -> bool {
    exists|k: int| splits_at(s, k)
}

/// Where the one colon of `s` stands.
pub open spec fn separator(s: Seq<char>) -> int {
    choose|k: int| splits_at(s, k)
}

/// What stands before the colon.
pub open spec fn txid_part(s: Seq<char>) -> Seq<char> {
    s.subrange(0, separator(s))
}

/// What stands behind the colon.
pub open spec fn index_part(s: Seq<char>) -> Seq<char> {
    s.subrange(separator(s) + 1, s.len() as int)
}

pub open spec fn is_digit(c: char) -> bool {
    '0' <= c <= '9'
}

/// The number that a run of decimal digits writes.
pub open spec fn digits_value(s: Seq<char>) -> int
    decreases s.len(),
{
    if s.len() == 0 {
        0
    } else {
        digits_value(s.drop_last()) * 10 + (s.last() as int - '0' as int)
    }
}

/// An output index without the plus sign that may lead it.
pub open spec fn unsigned_part(s: Seq<char>) -> Seq<char> {
    if s.len() > 0 && s[0] == '+' {
        s.subrange(1, s.len() as int)
    } else {
        s
    }
}

/// `s` writes an output index: decimal digits, at least one, after at most
/// one leading plus sign, and no more than 32 bits can hold.
pub open spec fn is_output_index(s: Seq<char>) -> bool {
    let digits = unsigned_part(s);
    &&& digits.len() > 0
    &&& forall|i: int| 0 <= i < digits.len() ==> is_digit(#[trigger] digits[i])
    &&& digits_value(digits) <= u32::MAX
}

/// The index that `s` writes.
pub open spec fn output_index_value(s: Seq<char>) -> int {
    digits_value(unsigned_part(s))
}

/// `s` names a channel: two fields with one colon between them, the second
/// an output index.
pub open spec fn is_channel_point(s: Seq<char>) -> bool {
    has_one_colon(s) && is_output_index(index_part(s))
}

/// A string has at most one place at which it splits.
pub proof fn lemma_separator_unique(s: Seq<char>, k: int)
    requires
        splits_at(s, k),
    ensures
        has_one_colon(s),
        separator(s) == k,
{
    let chosen = separator(s);
    assert(splits_at(s, chosen));
    if chosen != k {
        assert(s[chosen] != ':');
    }
}

/// Two colons are one too many.
pub proof fn lemma_two_colons(s: Seq<char>, a: int, b: int)
    requires
        0 <= a < b < s.len(),
        s[a] == ':',
        s[b] == ':',
    ensures
        !has_one_colon(s),
{
    if has_one_colon(s) {
        let k = separator(s);
        assert(splits_at(s, k));
        if k == a {
            assert(s[b] != ':');
        } else {
            assert(s[a] != ':');
        }
    }
}

/// Reading on through further digits never lowers the number read so far.
pub proof fn lemma_digits_value_grows(s: Seq<char>, n: int)
    requires
        0 <= n <= s.len(),
        forall|i: int| 0 <= i < s.len() ==> is_digit(#[trigger] s[i]),
    ensures
        0 <= digits_value(s.subrange(0, n)) <= digits_value(s),
    decreases s.len() - n,
{
    if n == s.len() {
        assert(s.subrange(0, n) =~= s);
        lemma_digits_value_nonnegative(s);
    } else {
        lemma_digits_value_grows(s, n + 1);
        let longer = s.subrange(0, n + 1);
        assert(longer.drop_last() =~= s.subrange(0, n));
        assert(is_digit(s[n]));
        assert(longer.last() == s[n]);
        lemma_digits_value_nonnegative(s.subrange(0, n));
    }
}

proof fn lemma_digits_value_nonnegative(s: Seq<char>)
    requires
        forall|i: int| 0 <= i < s.len() ==> is_digit(#[trigger] s[i]),
    ensures
        digits_value(s) >= 0,
    decreases s.len(),
{
    if s.len() > 0 {
        lemma_digits_value_nonnegative(s.drop_last());
        assert(is_digit(s[s.len() - 1]));
    }
}

/// Reads the output index that follows the colon at `sep`.
fn parse_output_index(point: &str, sep: usize, len: usize) -> (r: Option<u32>)
    requires
        len == point@.len(),
        sep < len,
    ensures
        r is Some <==> is_output_index(point@.subrange(sep + 1, len as int)),
        r is Some ==> r->0 == output_index_value(point@.subrange(sep + 1, len as int)),
{
    let ghost field = point@.subrange(sep + 1, len as int);
    let mut start: usize = sep + 1;
    if start < len && point.get_char(start) == '+' {
        start = start + 1;
    }
    let ghost digits = point@.subrange(start as int, len as int);
    assert(digits =~= unsigned_part(field));
    if start == len {
        return None;
    }
    let mut value: u64 = 0;
    let mut i: usize = start;
    while i < len
        invariant
            start <= i <= len,
            len == point@.len(),
            sep < start < len,
            digits == point@.subrange(start as int, len as int),
            digits == unsigned_part(point@.subrange(sep + 1, len as int)),
            forall|j: int| 0 <= j < i - start ==> is_digit(#[trigger] digits[j]),
            value == digits_value(digits.subrange(0, i - start)),
            value <= u32::MAX,
        decreases len - i,
    {
        let c: char = point.get_char(i);
        assert(c == digits[i - start]);
        if c < '0' || c > '9' {
            return None;
        }
        let digit: u64 = (c as u64) - ('0' as u64);
        let next: u64 = value * 10 + digit;
        proof {
            let longer = digits.subrange(0, i - start + 1);
            assert(longer.drop_last() =~= digits.subrange(0, i - start));
            assert(longer.last() == c);
            assert(next == digits_value(longer));
            if next > u32::MAX {
                if forall|j: int| 0 <= j < digits.len() ==> is_digit(#[trigger] digits[j]) {
                    lemma_digits_value_grows(digits, i - start + 1);
                }
            }
        }
        if next > 0xffff_ffff {
            return None;
        }
        value = next;
        i = i + 1;
    }
    assert(digits.subrange(0, i - start) =~= digits);
    Some(value as u32)
}

/// Takes a channel point apart into the funding transaction's id and the
/// output index.
///
/// The point must consist of exactly two fields with a colon between them,
/// and the second must be an output index; anything else is refused as
/// malformed. The id is handed on as it stands, whatever it holds.
pub fn parse_channel_point(point: &str) -> (r: Result<ChannelPoint, BalancerError>)
    ensures
        is_channel_point(point@) <==> r is Ok,
        r is Err ==> r->Err_0 == BalancerError::MalformedChannelPoint,
        r is Ok ==> r->Ok_0.funding_txid@ == txid_part(point@),
        r is Ok ==> r->Ok_0.output_index == output_index_value(index_part(point@)),
{
    let len: usize = point.unicode_len();
    let mut sep: usize = len;
    let mut extra: bool = false;
    let ghost mut second: int = 0;
    let mut i: usize = 0;
    while i < len
        invariant
            i <= len,
            len == point@.len(),
            sep == len || sep < i,
            sep < len ==> point@[sep as int] == ':',
            forall|j: int| 0 <= j < i && j < sep ==> point@[j] != ':',
            !extra ==> forall|j: int| sep < j < i ==> point@[j] != ':',
            extra ==> sep < second < i && point@[second] == ':',
        decreases len - i,
    {
        let c: char = point.get_char(i);
        if c == ':' {
            if sep == len {
                sep = i;
            } else if !extra {
                extra = true;
                proof {
                    second = i as int;
                }
            }
        }
        i = i + 1;
    }
    if sep == len {
        assert(!has_one_colon(point@)) by {
            if has_one_colon(point@) {
                assert(splits_at(point@, separator(point@)));
            }
        }
        return Err(BalancerError::MalformedChannelPoint);
    }
    if extra {
        proof {
            lemma_two_colons(point@, sep as int, second);
        }
        return Err(BalancerError::MalformedChannelPoint);
    }
    proof {
        lemma_separator_unique(point@, sep as int);
    }
    match parse_output_index(point, sep, len) {
        None => Err(BalancerError::MalformedChannelPoint),
        Some(output_index) => {
            let funding_txid: String = String::from_str(point.substring_char(0, sep));
            Ok(ChannelPoint { funding_txid, output_index })
        },
    }
}

} // verus!
