//! Small verified helpers for building and comparing text.

use vstd::prelude::*;
use crate::error::StdResult;
use vstd::string::StringExecFns;
use vstd::string::StringSliceAdditionalSpecFns;
use vstd::string::StrSliceExecFns;

verus! {

/// `String::push` appends one character.
pub assume_specification[ String::push ](s: &mut String, c: char)
    ensures
        final(s)@ == old(s)@.push(c),
;

/// Decimal digits of a natural number as characters, most significant first.
pub open spec fn decimal_chars(n: nat) -> Seq<char>
    decreases n,
{
    if n < 10 {
        seq![((0x30 + n) as u8) as char]
    } else {
        decimal_chars(n / 10).push(((0x30 + n % 10) as u8) as char)
    }
}

/// Appends the decimal digits of `n` to `s`.
pub fn push_decimal(s: &mut String, n: u64)
    ensures
        final(s)@ == old(s)@ + decimal_chars(n as nat),
    decreases n,
{
    if n >= 10 {
        push_decimal(s, n / 10);
    }
    let d: u8 = (n % 10) as u8;
    s.push((0x30 + d) as char);
    assert(s@ =~= old(s)@ + decimal_chars(n as nat));
}

/// Whether two strings hold the same text.
pub fn str_eq(a: &str, b: &str) -> (r: bool)
    ensures
        r == (a@ == b@),
{
    let x = a.as_bytes();
    let y = b.as_bytes();
    proof {
        vstd::utf8::encode_utf8_decode_utf8(a@);
        vstd::utf8::encode_utf8_decode_utf8(b@);
    }
    if x.len() != y.len() {
        return false;
    }
    let mut i: usize = 0;
    while i < x.len()
        invariant
            i <= x.len(),
            x.len() == y.len(),
            x@ == a.spec_bytes(),
            y@ == b.spec_bytes(),
            forall|j: int| 0 <= j < i ==> x@[j] == y@[j],
        decreases x.len() - i,
    {
        if x[i] != y[i] {
            return false;
        }
        i = i + 1;
    }
    assert(x@ =~= y@);
    true
}

/// The position of the first `c` in `s`, counted in characters.
pub open spec fn first_index(s: Seq<char>, c: char) -> Option<int>
    decreases s.len(),
{
    if s.len() == 0 {
        None
    } else if s[0] == c {
        Some(0)
    } else {
        match first_index(s.drop_first(), c) {
            Some(i) => Some(i + 1),
            None => None,
        }
    }
}

/// `first_index` finds the first occurrence, and misses none.
pub proof fn lemma_first_index(s: Seq<char>, c: char)
    ensures
        match first_index(s, c) {
            Some(i) => 0 <= i < s.len() && s[i] == c && forall|j: int| 0 <= j < i ==> s[j] != c,
            None => forall|j: int| 0 <= j < s.len() ==> s[j] != c,
        },
    decreases s.len(),
{
    if s.len() > 0 && s[0] != c {
        lemma_first_index(s.drop_first(), c);
        match first_index(s.drop_first(), c) {
            Some(i) => {
                assert forall|j: int| 0 <= j < i + 1 implies s[j] != c by {
                    if j > 0 {
                        assert(s.drop_first()[j - 1] == s[j]);
                    }
                }
            },
            None => {
                assert forall|j: int| 0 <= j < s.len() implies s[j] != c by {
                    if j > 0 {
                        assert(s.drop_first()[j - 1] == s[j]);
                    }
                }
            },
        }
    }
}

/// A position with `c` before which there is no `c` is the first.
pub proof fn lemma_first_index_is(s: Seq<char>, c: char, i: int)
    requires
        0 <= i < s.len(),
        s[i] == c,
        forall|j: int| 0 <= j < i ==> s[j] != c,
    ensures
        first_index(s, c) == Some(i),
{
    lemma_first_index(s, c);
}

/// No position with `c` means no first one.
pub proof fn lemma_first_index_none(s: Seq<char>, c: char)
    requires
        forall|j: int| 0 <= j < s.len() ==> s[j] != c,
    ensures
        first_index(s, c) is None,
{
    lemma_first_index(s, c);
}

/// Finds the first `c` in `s`.
pub fn find_char(s: &str, c: char) -> (r: Option<usize>)
    ensures
        match r {
            Some(i) => first_index(s@, c) == Some(i as int),
            None => first_index(s@, c) is None,
        },
{
    let n = s.unicode_len();
    let mut i: usize = 0;
    for x in it: s.chars()
        invariant
            i == it.index(),
            it.seq() == s@,
            n == s@.len(),
            forall|j: int| 0 <= j < i ==> s@[j] != c,
    {
        if x == c {
            proof {
                lemma_first_index_is(s@, c, i as int);
            }
            return Some(i);
        }
        i = i + 1;
    }
    proof {
        lemma_first_index_none(s@, c);
    }
    None
}

/// Why a text is no number.
#[derive(Debug, Clone, Copy, PartialEq, Eq, Structural)]
pub enum IntErrorKind {
    Empty,
    InvalidDigit,
    PosOverflow,
}

impl IntErrorKind {
    /// What is wrong, in words.
    pub open spec fn text(self) -> Seq<char> {
        match self {
            IntErrorKind::Empty => "cannot parse integer from empty string"@,
            IntErrorKind::InvalidDigit => "invalid digit found in string"@,
            IntErrorKind::PosOverflow => "number too large to fit in target type"@,
        }
    }

    pub fn as_str(&self) -> (r: &'static str)
        ensures
            r@ == self.text(),
    {
        match self {
            IntErrorKind::Empty => "cannot parse integer from empty string",
            IntErrorKind::InvalidDigit => "invalid digit found in string",
            IntErrorKind::PosOverflow => "number too large to fit in target type",
        }
    }
}

pub open spec fn is_digit(c: char) -> bool {
    '0' <= c <= '9'
}

/// Reads decimal digits from left to right on top of `acc`; the first
/// character that is no digit, or the first digit that leads beyond
/// `u64::MAX`, ends the reading.
pub open spec fn scan_digits(s: Seq<char>, acc: nat) -> StdResult<u64, IntErrorKind>
    decreases s.len(),
{
    if s.len() == 0 {
        Ok(acc as u64)
    } else if !is_digit(s[0]) {
        Err(IntErrorKind::InvalidDigit)
    } else if acc * 10 + (s[0] as nat - '0' as nat) > u64::MAX {
        Err(IntErrorKind::PosOverflow)
    } else {
        scan_digits(s.drop_first(), (acc * 10 + (s[0] as nat - '0' as nat)) as nat)
    }
}

/// The number that a text stands for: decimal digits, after one `+` or none.
pub open spec fn u64_of(s: Seq<char>) -> StdResult<u64, IntErrorKind> {
    if s.len() == 0 {
        Err(IntErrorKind::Empty)
    } else {
        let d = if s[0] == '+' {
            s.drop_first()
        } else {
            s
        };
        if d.len() == 0 {
            Err(IntErrorKind::InvalidDigit)
        } else {
            scan_digits(d, 0)
        }
    }
}

/// Reads a `u64` in decimal.
pub fn parse_u64(s: &str) -> (r: StdResult<u64, IntErrorKind>)
    ensures
        r == u64_of(s@),
{
    let n = s.unicode_len();
    if n == 0 {
        return Err(IntErrorKind::Empty);
    }
    let signed = s.get_char(0) == '+';
    if signed && n == 1 {
        assert(s@.drop_first().len() == 0);
        return Err(IntErrorKind::InvalidDigit);
    }
    let ghost d = if signed {
        s@.drop_first()
    } else {
        s@
    };
    let mut acc: u64 = 0;
    let mut i: usize = 0;
    assert(s@.subrange(0, s@.len() as int) =~= s@);
    for c in it: s.chars()
        invariant
            i == it.index(),
            it.seq() == s@,
            n == s@.len(),
            n > 0,
            signed == (s@[0] == '+'),
            d == if signed {
                s@.drop_first()
            } else {
                s@
            },
            d.len() > 0,
            i == 0 ==> acc == 0,
            i > 0 || !signed ==> scan_digits(d, 0) == scan_digits(
                s@.subrange(i as int, s@.len() as int),
                acc as nat,
            ),
    {
        if i == 0 && signed {
            assert(s@.subrange(1, s@.len() as int) =~= d);
        } else {
            let ghost rest = s@.subrange(i as int, s@.len() as int);
            assert(rest[0] == c);
            assert(rest.drop_first() =~= s@.subrange(i + 1, s@.len() as int));
            if !(c >= '0' && c <= '9') {
                return Err(IntErrorKind::InvalidDigit);
            }
            let v: u64 = (c as u32 - '0' as u32) as u64;
            if acc > (u64::MAX - v) / 10 {
                return Err(IntErrorKind::PosOverflow);
            }
            acc = acc * 10 + v;
        }
        i = i + 1;
    }
    assert(s@.subrange(s@.len() as int, s@.len() as int) =~= Seq::<char>::empty());
    Ok(acc)
}

/// What `String::from_utf8_lossy` makes of a byte string.
pub uninterp spec fn utf8_lossy(bytes: Seq<u8>) -> Seq<char>;

/// Calls `String::from_utf8_lossy`, which reads the bytes as UTF-8 and puts
/// U+FFFD in the place of what is no UTF-8. The contract names the outcome
/// `utf8_lossy` and adds that valid UTF-8 is read as the text it encodes.
#[verifier::external_body]
pub(crate) fn lossy_text(bytes: &[u8]) -> (r: String)
    ensures
        r@ == utf8_lossy(bytes@),
        vstd::utf8::valid_utf8(bytes@) ==> r@ == vstd::utf8::decode_utf8(bytes@),
{
    String::from_utf8_lossy(bytes).into_owned()
}

/// A fresh `String` with the text of `s`.
pub fn owned(s: &str) -> (r: String)
    ensures
        r@ == s@,
{
    String::from_str(s)
}

} // verus!
