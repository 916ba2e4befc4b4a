//! Endpoint descriptors and their validating parsers.
//!
//! An endpoint is either a TCP `host:port` pair or a VSOCK `cid:port` pair.
//! A descriptor is only ever built by one of the parsers here, so a value of
//! [`Endpoint`] always carries fields that were validated against the text
//! they came from. Parsing is pure: it never touches the network.

use vstd::prelude::*;

verus! {

/// A validated address: either a TCP `host:port` pair or a VSOCK
/// `context_id:port` pair. Immutable once constructed.
#[allow(inconsistent_fields)]
pub enum Endpoint {
    Tcp { host: String, port: u16 },
    Vsock { cid: u32, port: u32 },
}

/// Why an address text was rejected.
#[derive(Clone, Copy, Debug, PartialEq, Eq, Structural)]
pub enum AddressError {
    /// The text has no `:` separator, or nothing before it.
    InvalidFormat,
    /// The part after the separator is not a number in range for a port.
    InvalidPort,
    /// The part before the separator is not a number in range for a
    /// VSOCK context id.
    InvalidCid,
}

/// A decimal digit.
pub open spec fn is_dec_digit(c: char) -> bool {
    '0' <= c && c <= '9'
}

/// Numeric value of a decimal digit.
pub open spec fn digit_value(c: char) -> int {
    c as int - '0' as int
}

pub open spec fn all_dec_digits(s: Seq<char>) -> bool {
    forall|i: int| 0 <= i < s.len() ==> is_dec_digit(s[i])
}

/// Value of a string of decimal digits, most significant first.
pub open spec fn dec_value(s: Seq<char>) -> int
    decreases s.len(),
{
    if s.len() == 0 {
        0
    } else {
        dec_value(s.drop_last()) * 10 + digit_value(s.last())
    }
}

/// A non-empty, all-digit string.
pub open spec fn is_numeric(s: Seq<char>) -> bool {
    s.len() > 0 && all_dec_digits(s)
}

/// The first `:` of `s` stands at index `i`.
pub open spec fn colon_at(s: Seq<char>, i: int) -> bool {
    &&& 0 <= i < s.len()
    &&& s[i] == ':'
    &&& forall|j: int| 0 <= j < i ==> s[j] != ':'
}

pub open spec fn has_colon(s: Seq<char>) -> bool {
    exists|i: int| colon_at(s, i)
}

pub open spec fn first_colon(s: Seq<char>) -> int {
    choose|i: int| colon_at(s, i)
}

/// Everything before the first `:`.
pub open spec fn head_part(s: Seq<char>) -> Seq<char> {
    s.subrange(0, first_colon(s))
}

/// Everything after the first `:`.
pub open spec fn tail_part(s: Seq<char>) -> Seq<char> {
    s.subrange(first_colon(s) + 1, s.len() as int)
}

proof fn lemma_colon_at_unique(s: Seq<char>, i: int, j: int)
    requires
        colon_at(s, i),
        colon_at(s, j),
    ensures
        i == j,
{
    assert(s[i] == ':');
    assert(s[j] == ':');
}

proof fn lemma_dec_value_nonneg(s: Seq<char>)
    requires
        all_dec_digits(s),
    ensures
        dec_value(s) >= 0,
    decreases s.len(),
{
    if s.len() > 0 {
        assert(all_dec_digits(s.drop_last()));
        lemma_dec_value_nonneg(s.drop_last());
    }
}

/// Reading further digits never shrinks the value already read.
proof fn lemma_dec_value_prefix_le(s: Seq<char>, i: int)
    requires
        all_dec_digits(s),
        0 <= i <= s.len(),
    ensures
        dec_value(s.subrange(0, i)) <= dec_value(s),
    decreases s.len() - i,
{
    if i == s.len() {
        assert(s.subrange(0, i) =~= s);
    } else {
        assert(all_dec_digits(s.subrange(0, i)));
        lemma_dec_value_nonneg(s.subrange(0, i));
        assert(s.subrange(0, i + 1).drop_last() =~= s.subrange(0, i));
        assert(dec_value(s.subrange(0, i + 1)) == dec_value(s.subrange(0, i)) * 10
            + digit_value(s[i]));
        lemma_dec_value_prefix_le(s, i + 1);
    }
}

/// Reads the decimal number standing in `text` between the character
/// positions `start` and `end`, refusing anything that is not a plain
/// digit string whose value fits under `max`.
fn parse_decimal(text: &str, start: usize, end: usize, max: u64) -> (r: Option<u64>)
    requires
        start <= end <= text@.len(),
        max <= u32::MAX as u64,
    ensures
        ({
            let s = text@.subrange(start as int, end as int);
            match r {
                Some(v) => is_numeric(s) && dec_value(s) == v as int && v <= max,
                None => !(is_numeric(s) && dec_value(s) <= max as int),
            }
        }),
{
    let ghost s = text@.subrange(start as int, end as int);
    if start == end {
        return None;
    }
    let mut val: u64 = 0;
    let mut i: usize = start;
    while i < end
        invariant
            start <= i <= end <= text@.len(),
            s == text@.subrange(start as int, end as int),
            all_dec_digits(text@.subrange(start as int, i as int)),
            val as int == dec_value(text@.subrange(start as int, i as int)),
            val <= max,
            max <= u32::MAX as u64,
        decreases end - i,
    {
        let c = text.get_char(i);
        if c < '0' || c > '9' {
            proof {
                assert(s[i - start] == text@[i as int]);
                assert(!is_dec_digit(s[i - start]));
            }
            return None;
        }
        let d: u64 = (c as u32 - '0' as u32) as u64;
        let ghost prefix = text@.subrange(start as int, i as int);
        val = val * 10 + d;
        i += 1;
        proof {
            assert(text@.subrange(start as int, i as int).drop_last() =~= prefix);
            assert(text@.subrange(start as int, i as int).last() == text@[i - 1]);
        }
        if val > max {
            proof {
                if all_dec_digits(s) {
                    assert(text@.subrange(start as int, i as int)
                        =~= s.subrange(0, i - start));
                    lemma_dec_value_prefix_le(s, i - start);
                }
            }
            return None;
        }
    }
    proof {
        assert(text@.subrange(start as int, i as int) =~= s);
    }
    Some(val)
}

/// Finds the first `:` of `text`, if any.
fn find_colon(text: &str) -> (r: Option<usize>)
    ensures
        match r {
            Some(i) => colon_at(text@, i as int),
            None => !has_colon(text@),
        },
{
    let n = text.unicode_len();
    let mut i: usize = 0;
    while i < n
        invariant
            i <= n,
            n == text@.len(),
            forall|j: int| 0 <= j < i ==> text@[j] != ':',
        decreases n - i,
    {
        if text.get_char(i) == ':' {
            return Some(i);
        }
        i += 1;
    }
    None
}

/// A well-formed TCP address text: `host:port` with a non-empty host
/// before the first `:` and a decimal port no larger than 65535 after it.
pub open spec fn wf_tcp_text(s: Seq<char>) -> bool {
    &&& has_colon(s)
    &&& head_part(s).len() > 0
    &&& is_numeric(tail_part(s))
    &&& dec_value(tail_part(s)) <= u16::MAX as int
}

/// The error a malformed TCP address text is rejected with.
pub open spec fn tcp_error(s: Seq<char>) -> AddressError {
    if !has_colon(s) || head_part(s).len() == 0 {
        AddressError::InvalidFormat
    } else {
        AddressError::InvalidPort
    }
}

/// `e` is the TCP endpoint that a well-formed text `s` describes.
pub open spec fn is_tcp_of(e: Endpoint, s: Seq<char>) -> bool {
    match e {
        Endpoint::Tcp { host, port } => host@ == head_part(s) && port as int == dec_value(
            tail_part(s),
        ),
        Endpoint::Vsock { .. } => false,
    }
}

/// A well-formed VSOCK address text: `cid:port`, both decimal numbers
/// that fit in 32 bits, split at the first `:`.
pub open spec fn wf_vsock_text(s: Seq<char>) -> bool {
    &&& has_colon(s)
    &&& is_numeric(head_part(s))
    &&& dec_value(head_part(s)) <= u32::MAX as int
    &&& is_numeric(tail_part(s))
    &&& dec_value(tail_part(s)) <= u32::MAX as int
}

/// The error a malformed VSOCK address text is rejected with.
pub open spec fn vsock_error(s: Seq<char>) -> AddressError {
    if !has_colon(s) {
        AddressError::InvalidFormat
    } else if !(is_numeric(head_part(s)) && dec_value(head_part(s)) <= u32::MAX as int) {
        AddressError::InvalidCid
    } else {
        AddressError::InvalidPort
    }
}

/// `e` is the VSOCK endpoint that a well-formed text `s` describes.
pub open spec fn is_vsock_of(e: Endpoint, s: Seq<char>) -> bool {
    match e {
        Endpoint::Tcp { .. } => false,
        Endpoint::Vsock { cid, port } => cid as int == dec_value(head_part(s)) && port as int
            == dec_value(tail_part(s)),
    }
}

impl Endpoint {
    /// Parses a TCP `host:port` text. Succeeds exactly on well-formed
    /// texts and then yields the exact host and port; everything else is
    /// rejected with the error `tcp_error` names, and nothing is ever
    /// read or written besides the text.
    pub fn parse_tcp(text: &str) -> (r: Result<Endpoint, AddressError>)
        ensures
            wf_tcp_text(text@) ==> (r matches Ok(e) && is_tcp_of(e, text@)),
            !wf_tcp_text(text@) ==> r == Err::<Endpoint, AddressError>(tcp_error(text@)),
    {
        let n = text.unicode_len();
        match find_colon(text) {
            None => Err(AddressError::InvalidFormat),
            Some(i) => {
                proof {
                    lemma_colon_at_unique(text@, i as int, first_colon(text@));
                }
                if i == 0 {
                    return Err(AddressError::InvalidFormat);
                }
                match parse_decimal(text, i + 1, n, 65535) {
                    None => Err(AddressError::InvalidPort),
                    Some(v) => {
                        let host = text.substring_char(0, i).to_owned();
                        Ok(Endpoint::Tcp { host, port: v as u16 })
                    },
                }
            },
        }
    }

    /// Parses a VSOCK `cid:port` text. Succeeds exactly on well-formed
    /// texts and then yields the exact context id and port; everything
    /// else is rejected with the error `vsock_error` names.
    pub fn parse_vsock(text: &str) -> (r: Result<Endpoint, AddressError>)
        ensures
            wf_vsock_text(text@) ==> (r matches Ok(e) && is_vsock_of(e, text@)),
            !wf_vsock_text(text@) ==> r == Err::<Endpoint, AddressError>(vsock_error(text@)),
    {
        let n = text.unicode_len();
        match find_colon(text) {
            None => Err(AddressError::InvalidFormat),
            Some(i) => {
                proof {
                    lemma_colon_at_unique(text@, i as int, first_colon(text@));
                }
                match parse_decimal(text, 0, i, u32::MAX as u64) {
                    None => Err(AddressError::InvalidCid),
                    Some(cid) => match parse_decimal(text, i + 1, n, u32::MAX as u64) {
                        None => Err(AddressError::InvalidPort),
                        Some(port) => Ok(
                            Endpoint::Vsock { cid: cid as u32, port: port as u32 },
                        ),
                    },
                }
            },
        }
    }
}

} // verus!
