//! Validation of the upstream `host:port` target.

use vstd::prelude::*;
use vstd::string::*;

verus! {

/// Why an upstream target was refused.
#[derive(Clone, Copy, Debug, PartialEq, Eq, Structural)]
pub enum TargetError {
    /// It does not hold exactly one `:`.
    Format,
    /// The host before the `:` is empty.
    EmptyHost,
    /// The port after the `:` is no 16-bit unsigned integer.
    InvalidPort,
}

impl TargetError {
    /// A message that says what is wrong.
    pub fn message(&self) -> (r: String)
        ensures
            r@ == target_error_message(*self),
    {
        match self {
            TargetError::Format => String::from_str("Upstream target must be in format host:port"),
            TargetError::EmptyHost => String::from_str("Host part cannot be empty"),
            TargetError::InvalidPort => String::from_str("Invalid port number"),
        }
    }
}

/// The message of each error.
pub open spec fn target_error_message(e: TargetError) -> Seq<char> {
    match e {
        TargetError::Format => "Upstream target must be in format host:port"@,
        TargetError::EmptyHost => "Host part cannot be empty"@,
        TargetError::InvalidPort => "Invalid port number"@,
    }
}

/// An ASCII decimal digit.
pub open spec fn is_digit(c: char) -> bool {
    '0' <= c && c <= '9'
}

/// The value of a string of decimal digits.
pub open spec fn digits_value(s: Seq<char>) -> nat
    decreases s.len(),
{
    if s.len() == 0 {
        0
    } else {
        digits_value(s.drop_last()) * 10 + ((s.last() as u32 - '0' as u32) as nat)
    }
}

/// The digits of a number in text: without its optional leading `+`.
pub open spec fn unsigned_digits(s: Seq<char>) -> Seq<char> {
    if s.len() > 0 && s[0] == '+' { s.drop_first() } else { s }
}

/// `s` is the text of a 16-bit unsigned integer: an optional `+`, then one or more
/// decimal digits whose value is at most 65535.
pub open spec fn is_port(s: Seq<char>) -> bool {
    let d = unsigned_digits(s);
    &&& d.len() > 0
    &&& forall|i: int| 0 <= i < d.len() ==> is_digit(#[trigger] d[i])
    &&& digits_value(d) <= 65535
}

/// `i` is the place of the only `:` in `s`.
pub open spec fn sole_colon(s: Seq<char>, i: int) -> bool {
    &&& 0 <= i < s.len()
    &&& s[i] == ':'
    &&& forall|j: int| 0 <= j < s.len() && j != i ==> #[trigger] s[j] != ':'
}

/// What is wrong with target `s`, if anything.
pub open spec fn target_error(s: Seq<char>) -> Option<TargetError> {
    if !(exists|i: int| sole_colon(s, i)) {
        Some(TargetError::Format)
    } else {
        let i = choose|i: int| sole_colon(s, i);
        if i == 0 {
            Some(TargetError::EmptyHost)
        } else if !is_port(s.subrange(i + 1, s.len() as int)) {
            Some(TargetError::InvalidPort)
        } else {
            None
        }
    }
}

proof fn lemma_digits_value_grows(s: Seq<char>, k: int)
    requires
        0 <= k <= s.len(),
        forall|i: int| 0 <= i < s.len() ==> is_digit(#[trigger] s[i]),
    ensures
        digits_value(s.subrange(0, k)) <= digits_value(s),
    decreases s.len() - k,
{
    if k < s.len() {
        lemma_digits_value_grows(s, k + 1);
        assert(s.subrange(0, k + 1).drop_last() =~= s.subrange(0, k));
    } else {
        assert(s.subrange(0, k) =~= s);
    }
}

/// Whether `s` is the text of a 16-bit unsigned integer, as std reads one.
pub fn parse_port(s: &str) -> (r: Option<u16>)
    ensures
        r is Some <==> is_port(s@),
        r matches Some(p) ==> p as nat == digits_value(unsigned_digits(s@)),
{
    let n = s.unicode_len();
    let start: usize = if n > 0 && s.get_char(0) == '+' { 1 } else { 0 };
    let ghost d = unsigned_digits(s@);
    assert(d =~= s@.subrange(start as int, n as int));
    if start >= n {
        return None;
    }
    let mut value: u32 = 0;
    let mut i: usize = start;
    while i < n
        invariant
            start <= i <= n,
            n == s@.len(),
            d == s@.subrange(start as int, n as int),
            d == unsigned_digits(s@),
            forall|j: int| 0 <= j < i - start ==> is_digit(#[trigger] d[j]),
            value as nat == digits_value(d.subrange(0, i - start)),
            value <= 65535,
        decreases n - i,
    {
        let c = s.get_char(i);
        if !('0' <= c && c <= '9') {
            assert(d[i - start] == c);
            assert(!is_digit(d[i - start]));
            assert(!is_port(s@)) by {
                assert(unsigned_digits(s@)[i - start] == c);
            }
            return None;
        }
        let digit = (c as u32) - ('0' as u32);
        assert(d.subrange(0, i - start + 1).drop_last() =~= d.subrange(0, i - start));
        let next = value * 10 + digit;
        assert(next as nat == digits_value(d.subrange(0, i - start + 1)));
        i += 1;
        if next > 65535 {
            proof {
                if is_port(s@) {
                    assert(forall|j: int| 0 <= j < d.len() ==> is_digit(#[trigger] d[j]));
                    lemma_digits_value_grows(d, i - start);
                }
            }
            return None;
        }
        value = next;
    }
    assert(d.subrange(0, n - start) =~= d);
    Some(value as u16)
}

/// Checks that `target` is `host:port`: exactly one `:`, a non-empty host, and a
/// port that is a 16-bit unsigned integer. Returns the target unchanged.
pub fn parse_upstream_target(target: &str) -> (r: Result<String, TargetError>)
    ensures
        r is Ok <==> target_error(target@) is None,
        r matches Ok(t) ==> t@ == target@,
        r matches Err(e) ==> target_error(target@) == Some(e),
{
    let n = target.unicode_len();
    let mut colon: Option<usize> = None;
    let mut i: usize = 0;
    while i < n
        invariant
            i <= n,
            n == target@.len(),
            colon is None ==> forall|j: int| 0 <= j < i ==> #[trigger] target@[j] != ':',
            colon matches Some(c) ==> c < i && target@[c as int] == ':'
                && forall|j: int| 0 <= j < i && j != c ==> #[trigger] target@[j] != ':',
        decreases n - i,
    {
        if target.get_char(i) == ':' {
            if let Some(c) = colon {
                assert(!(exists|k: int| sole_colon(target@, k))) by {
                    assert forall|k: int| !sole_colon(target@, k) by {
                        if sole_colon(target@, k) {
                            if k == c as int {
                                assert(target@[i as int] == ':');
                            } else {
                                assert(target@[c as int] == ':');
                            }
                        }
                    }
                }
                return Err(TargetError::Format);
            }
            colon = Some(i);
        }
        i += 1;
    }
    match colon {
        None => {
            assert(!(exists|k: int| sole_colon(target@, k)));
            Err(TargetError::Format)
        },
        Some(c) => {
            assert(sole_colon(target@, c as int));
            let ghost k = choose|k: int| sole_colon(target@, k);
            assert(k == c as int) by {
                if k != c as int {
                    assert(target@[c as int] == ':');
                }
            }
            if c == 0 {
                return Err(TargetError::EmptyHost);
            }
            let port = target.substring_char(c + 1, n);
            if parse_port(port).is_none() {
                return Err(TargetError::InvalidPort);
            }
            Ok(target.to_string())
        },
    }
}

} // verus!
