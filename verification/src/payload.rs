//! What an unused-import diagnostic carries for its fix: `<bool>,<offset>`,
//! whether the import is qualified and where its clause starts.

use crate::text::{
    chars_of, decimal_digits, lemma_decimal_digits_are_digits, lemma_split_at_last_separator,
    lemma_split_without_separator, same_text, split, split_text,
};
use crate::views::lemma_deep_view_index;
use vstd::prelude::*;

verus! {

/// Why a payload could not be read.
#[derive(Clone, Copy, Debug, PartialEq, Eq, Structural)]
pub enum PayloadError {
    /// It does not have two fields.
    NotATuple,
    /// Its second field is no offset.
    NotAUsize,
    /// Its first field is neither `true` nor `false`.
    NotABool,
}

impl PayloadError {
    /// The error in words.
    pub open spec fn spec_message(self) -> Seq<char> {
        match self {
            PayloadError::NotATuple => "malformed unused_imports arguments: not a 2-tuple"@,
            PayloadError::NotAUsize => "malformed unused_imports argument: not a usize"@,
            PayloadError::NotABool => "malformed unused_imports argument: not a bool"@,
        }
    }

    /// The error in words.
    pub fn message(&self) -> (r: String)
        ensures
            r@ == self.spec_message(),
    {
        match self {
            PayloadError::NotATuple => "malformed unused_imports arguments: not a 2-tuple".to_owned(),
            PayloadError::NotAUsize => "malformed unused_imports argument: not a usize".to_owned(),
            PayloadError::NotABool => "malformed unused_imports argument: not a bool".to_owned(),
        }
    }
}

/// Whether a character is one of the ten digits.
pub open spec fn is_digit(c: char) -> bool {
    '0' <= c <= '9'
}

/// Whether a text is made of digits only.
pub open spec fn all_digits(s: Seq<char>) -> bool {
    forall|i: int| 0 <= i < s.len() ==> is_digit(#[trigger] s[i])
}

/// The number that the digits write in base ten.
pub open spec fn decimal(digits: Seq<char>) -> nat
    decreases digits.len(),
{
    if digits.len() == 0 {
        0
    } else {
        (decimal(digits.drop_last()) * 10 + (digits.last() as u32 - '0' as u32)) as nat
    }
}

/// The digits of an offset: the field without the `+` it may begin with.
pub open spec fn offset_digits(field: Seq<char>) -> Seq<char> {
    if field.len() > 0 && field[0] == '+' {
        field.skip(1)
    } else {
        field
    }
}

/// The offset a field writes: one digit or more, after a `+` or not,
/// and no more than a `usize` holds.
pub open spec fn parse_offset(field: Seq<char>) -> Option<usize> {
    let digits = offset_digits(field);
    if digits.len() > 0 && all_digits(digits) && decimal(digits) <= usize::MAX {
        Some(decimal(digits) as usize)
    } else {
        None
    }
}

/// The truth value a field writes.
pub open spec fn parse_flag(field: Seq<char>) -> Option<bool> {
    if field == "true"@ {
        Some(true)
    } else if field == "false"@ {
        Some(false)
    } else {
        None
    }
}

/// What a payload says: whether the import is qualified, and where it
/// starts. The offset is looked at before the flag.
pub open spec fn decode(payload: Seq<char>) -> Result<(bool, usize), PayloadError> {
    let fields = split(payload, ',');
    if fields.len() != 2 {
        Err(PayloadError::NotATuple)
    } else {
        match parse_offset(fields[1]) {
            None => Err(PayloadError::NotAUsize),
            Some(start) => match parse_flag(fields[0]) {
                None => Err(PayloadError::NotABool),
                Some(is_qualified) => Ok((is_qualified, start)),
            },
        }
    }
}

/// Digits written before others make a number no larger than all of them.
proof fn lemma_decimal_grows(digits: Seq<char>, n: int)
    requires
        0 <= n <= digits.len(),
        all_digits(digits),
    ensures
        decimal(digits.take(n)) <= decimal(digits),
    decreases digits.len(),
{
    if n == digits.len() {
        assert(digits.take(n) =~= digits);
    } else {
        let shorter = digits.drop_last();
        assert(is_digit(digits[digits.len() - 1]));
        assert forall|i: int| 0 <= i < shorter.len() implies is_digit(#[trigger] shorter[i]) by {
            assert(shorter[i] == digits[i]);
        }
        lemma_decimal_grows(shorter, n);
        assert(shorter.take(n) =~= digits.take(n));
    }
}

/// Reads an offset.
pub fn read_offset(field: &str) -> (r: Option<usize>)
    ensures
        r == parse_offset(field@),
{
    let v = chars_of(field);
    let from: usize = if v.len() > 0 && v[0] == '+' {
        1
    } else {
        0
    };
    let ghost digits = offset_digits(field@);
    assert(digits =~= v@.skip(from as int));
    if from == v.len() {
        return None;
    }
    let mut value: usize = 0;
    let mut i: usize = from;
    assert(digits.take(0) =~= Seq::<char>::empty());
    while i < v.len()
        invariant
            from <= i <= v.len(),
            digits == v@.skip(from as int),
            digits == offset_digits(field@),
            all_digits(digits.take(i - from)),
            value == decimal(digits.take(i - from)),
        decreases v.len() - i,
    {
        let c = v[i];
        let ghost next = digits.take(i + 1 - from);
        proof {
            assert(next.drop_last() =~= digits.take(i - from));
            assert(next.last() == c);
        }
        if !(c >= '0' && c <= '9') {
            assert(!is_digit(digits[i - from]));
            return None;
        }
        assert forall|j: int| 0 <= j < next.len() implies is_digit(#[trigger] next[j]) by {
            if j < next.len() - 1 {
                assert(next[j] == digits.take(i - from)[j]);
            }
        }
        let d: usize = (c as u32 - '0' as u32) as usize;
        let grown = match value.checked_mul(10) {
            Some(tens) => tens.checked_add(d),
            None => None,
        };
        match grown {
            Some(g) => {
                value = g;
            },
            None => {
                proof {
                    assert(decimal(next) > usize::MAX);
                    if all_digits(digits) {
                        lemma_decimal_grows(digits, i + 1 - from);
                    }
                }
                return None;
            },
        }
        i += 1;
    }
    assert(digits.take(i - from) =~= digits);
    Some(value)
}

/// Reads a truth value.
pub fn read_flag(field: &str) -> (r: Option<bool>)
    ensures
        r == parse_flag(field@),
{
    if same_text(field, "true") {
        Some(true)
    } else if same_text(field, "false") {
        Some(false)
    } else {
        None
    }
}

/// Reads one payload.
pub fn read_payload(payload: &str) -> (r: Result<(bool, usize), PayloadError>)
    ensures
        r == decode(payload@),
{
    let fields = split_text(payload, ',');
    if fields.len() != 2 {
        return Err(PayloadError::NotATuple);
    }
    proof {
        lemma_deep_view_index(fields, 0);
        lemma_deep_view_index(fields, 1);
    }
    match read_offset(fields[1].as_str()) {
        None => Err(PayloadError::NotAUsize),
        Some(start) => match read_flag(fields[0].as_str()) {
            None => Err(PayloadError::NotABool),
            Some(is_qualified) => Ok((is_qualified, start)),
        },
    }
}

/// How a truth value is written.
pub open spec fn flag_text(flag: bool) -> Seq<char> {
    if flag {
        "true"@
    } else {
        "false"@
    }
}

/// The payload that says whether an import is qualified and where it
/// starts, as the compiler writes it.
pub open spec fn encode(is_qualified: bool, start: usize) -> Seq<char> {
    flag_text(is_qualified) + seq![','] + decimal_digits(start as nat)
}

/// A number written in base ten is read as that number.
pub proof fn lemma_decimal_reads_back(n: nat)
    ensures
        decimal(decimal_digits(n)) == n,
    decreases n,
{
    if n >= 10 {
        lemma_decimal_reads_back(n / 10);
        assert(decimal_digits(n).drop_last() =~= decimal_digits(n / 10));
    } else {
        assert(decimal_digits(n).drop_last() =~= Seq::<char>::empty());
        assert(decimal(Seq::<char>::empty()) == 0);
    }
}

/// What the compiler writes is read as what it meant: for every flag and
/// every offset, the payload made of them is read back as that flag and
/// that offset.
pub proof fn lemma_payload_reads_back(is_qualified: bool, start: usize)
    ensures
        decode(encode(is_qualified, start)) == Ok::<(bool, usize), PayloadError>(
            (is_qualified, start),
        ),
{
    let flag = flag_text(is_qualified);
    let digits = decimal_digits(start as nat);
    reveal_strlit("true");
    reveal_strlit("false");
    lemma_decimal_digits_are_digits(start as nat);
    lemma_decimal_reads_back(start as nat);
    assert(!flag.contains(',')) by {
        if flag.contains(',') {
            let i = choose|i: int| 0 <= i < flag.len() && flag[i] == ',';
            assert(flag.len() <= 5);
        }
    }
    assert(!digits.contains(',')) by {
        if digits.contains(',') {
            let i = choose|i: int| 0 <= i < digits.len() && digits[i] == ',';
            assert('0' <= digits[i] <= '9');
        }
    }
    lemma_split_without_separator(flag, ',');
    lemma_split_at_last_separator(flag, ',', digits);
    let fields = split(encode(is_qualified, start), ',');
    assert(fields =~= seq![flag, digits]);
    assert(offset_digits(digits) == digits) by {
        assert('0' <= digits[0] <= '9');
    }
    assert(all_digits(digits));
    assert(parse_offset(fields[1]) == Some(start));
    assert("true"@.len() == 4 && "false"@.len() == 5);
    assert(parse_flag(fields[0]) == Some(is_qualified));
}

} // verus!
