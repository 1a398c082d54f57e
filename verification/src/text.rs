//! Text helpers: decimal rendering, null-terminated UTF-16 buffers, and lossy
//! UTF-16 decoding.

use vstd::prelude::*;

verus! {

/// The text that lossy UTF-16 decoding gives for a sequence of code units:
/// each well-formed unit or surrogate pair becomes its character, and each
/// unpaired surrogate becomes U+FFFD.
pub uninterp spec fn utf16_lossy(units: Seq<u16>) -> Seq<char>;

/// Calls `String::from_utf16_lossy`. The contract only names the decoded text:
/// it is the function's result on exactly these code units.
#[verifier::external_body]
pub(crate) fn decode_utf16_lossy(units: &[u16]) -> (text: String)
    ensures
        text@ == utf16_lossy(units@),
{
    String::from_utf16_lossy(units)
}

/// The character that stands for a single decimal digit.
pub open spec fn digit_char(d: int) -> char {
    if d == 0 {
        '0'
    } else if d == 1 {
        '1'
    } else if d == 2 {
        '2'
    } else if d == 3 {
        '3'
    } else if d == 4 {
        '4'
    } else if d == 5 {
        '5'
    } else if d == 6 {
        '6'
    } else if d == 7 {
        '7'
    } else if d == 8 {
        '8'
    } else {
        '9'
    }
}

/// Whether `c` is one of the ten ASCII decimal digits.
pub open spec fn is_decimal_digit(c: char) -> bool {
    exists|d: int| 0 <= d < 10 && c == #[trigger] digit_char(d)
}

/// The decimal notation of `n`, most significant digit first, without
/// leading zeros (zero itself is written "0").
pub open spec fn decimal(n: nat) -> Seq<char>
    decreases n,
{
    if n < 10 {
        seq![digit_char(n as int)]
    } else {
        decimal(n / 10).push(digit_char((n % 10) as int))
    }
}

/// Decimal notation is never empty and holds only decimal digits.
pub proof fn lemma_decimal_is_digits(n: nat)
    ensures
        decimal(n).len() >= 1,
        forall|i: int| 0 <= i < decimal(n).len() ==> is_decimal_digit(#[trigger] decimal(n)[i]),
    decreases n,
{
    if n < 10 {
        assert(decimal(n)[0] == digit_char(n as int));
    } else {
        lemma_decimal_is_digits(n / 10);
        let head = decimal(n / 10);
        let last = digit_char((n % 10) as int);
        assert forall|i: int| 0 <= i < decimal(n).len() implies is_decimal_digit(
            #[trigger] decimal(n)[i],
        ) by {
            if i < head.len() {
                assert(decimal(n)[i] == head[i]);
            } else {
                assert(decimal(n)[i] == last);
            }
        }
    }
}

fn digit_text(d: u32) -> (text: &'static str)
    requires
        d < 10,
    ensures
        text@ == seq![digit_char(d as int)],
{
    proof {
        reveal_strlit("0");
        reveal_strlit("1");
        reveal_strlit("2");
        reveal_strlit("3");
        reveal_strlit("4");
        reveal_strlit("5");
        reveal_strlit("6");
        reveal_strlit("7");
        reveal_strlit("8");
        reveal_strlit("9");
    }
    let text: &'static str = if d == 0 {
        "0"
    } else if d == 1 {
        "1"
    } else if d == 2 {
        "2"
    } else if d == 3 {
        "3"
    } else if d == 4 {
        "4"
    } else if d == 5 {
        "5"
    } else if d == 6 {
        "6"
    } else if d == 7 {
        "7"
    } else if d == 8 {
        "8"
    } else {
        "9"
    };
    assert(text@ =~= seq![digit_char(d as int)]);
    text
}

/// Appends the decimal notation of `n` to `text`.
pub fn push_decimal(text: &mut String, n: u32)
    ensures
        final(text)@ == old(text)@ + decimal(n as nat),
    decreases n,
{
    if n >= 10 {
        push_decimal(text, n / 10);
    }
    text.append(digit_text(n % 10));
}

/// Whether `at` is the position of the first zero code unit of `units`.
pub open spec fn is_first_null(units: Seq<u16>, at: int) -> bool {
    &&& 0 <= at < units.len()
    &&& units[at] == 0
    &&& forall|j: int| 0 <= j < at ==> units[j] != 0
}

/// Whether `units` holds no zero code unit at all.
pub open spec fn has_no_null(units: Seq<u16>) -> bool {
    forall|j: int| 0 <= j < units.len() ==> units[j] != 0
}

/// The length of the text that `units` holds when read as a null-terminated
/// buffer: the position of the first zero code unit, or the whole length
/// where there is none.
pub open spec fn terminated_len(units: Seq<u16>) -> int
    decreases units.len(),
{
    if units.len() == 0 || units[0] == 0 {
        0
    } else {
        1 + terminated_len(units.drop_first())
    }
}

/// The code units of a buffer up to its first zero unit, or all of them where
/// it holds none.
pub open spec fn terminated_units(units: Seq<u16>) -> Seq<u16> {
    units.take(terminated_len(units))
}

/// `terminated_len` is the first zero's position, or the length without one.
pub proof fn lemma_terminated_len(units: Seq<u16>)
    ensures
        0 <= terminated_len(units) <= units.len(),
        forall|j: int| 0 <= j < terminated_len(units) ==> units[j] != 0,
        terminated_len(units) < units.len() ==> units[terminated_len(units)] == 0,
    decreases units.len(),
{
    if units.len() == 0 || units[0] == 0 {
    } else {
        let rest = units.drop_first();
        lemma_terminated_len(rest);
        assert forall|j: int| 0 <= j < terminated_len(units) implies units[j] != 0 by {
            if j > 0 {
                assert(units[j] == rest[j - 1]);
            }
        }
        if terminated_len(units) < units.len() {
            assert(units[terminated_len(units)] == rest[terminated_len(rest)]);
        }
    }
}

/// Finds the first zero code unit of a buffer.
pub fn find_null(units: &Vec<u16>) -> (found: Option<usize>)
    ensures
        match found {
            Some(at) => is_first_null(units@, at as int) && at == terminated_len(units@),
            None => has_no_null(units@) && terminated_len(units@) == units@.len(),
        },
{
    let mut i: usize = 0;
    while i < units.len()
        invariant
            0 <= i <= units.len(),
            forall|j: int| 0 <= j < i ==> units@[j] != 0,
        decreases units.len() - i,
    {
        if units[i] == 0 {
            proof {
                lemma_terminated_len(units@);
            }
            return Some(i);
        }
        i += 1;
    }
    proof {
        lemma_terminated_len(units@);
    }
    None
}

/// Lossily decodes the first `len` code units of a buffer.
pub fn decode_prefix(units: &Vec<u16>, len: usize) -> (text: String)
    requires
        len <= units@.len(),
    ensures
        text@ == utf16_lossy(units@.take(len as int)),
{
    let head: &[u16] = vstd::slice::slice_subrange(units.as_slice(), 0, len);
    assert(head@ == units@.take(len as int));
    decode_utf16_lossy(head)
}

} // verus!
