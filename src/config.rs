use vstd::prelude::*;
use crate::errors::ValidationError;

verus! {

/// Whether `c` is an ASCII decimal digit.
pub open spec fn is_digit(c: char) -> bool {
    48 <= c as u32 <= 57
}

/// Value of a sequence of decimal digits.
pub open spec fn digits_value(s: Seq<char>) -> nat
    decreases s.len(),
{
    if s.len() == 0 {
        0
    } else {
        digits_value(s.drop_last()) * 10 + (s.last() as u32 - 48) as nat
    }
}

/// The digits of an unsigned integer literal: an optional leading `+` is
/// dropped.
pub open spec fn unsigned_body(s: Seq<char>) -> Seq<char> {
    if s.len() > 0 && s[0] == '+' {
        s.drop_first()
    } else {
        s
    }
}

/// The value of `s` read as an unsigned decimal integer, if it is one.
pub open spec fn unsigned_value(s: Seq<char>) -> Option<nat> {
    let b = unsigned_body(s);
    if b.len() > 0 && forall|i: int| 0 <= i < b.len() ==> is_digit(#[trigger] b[i]) {
        Some(digits_value(b))
    } else {
        None
    }
}

/// Reads `s` as an unsigned decimal integer no greater than `max`.
fn parse_unsigned(s: &str, max: u64) -> (r: Option<u64>)
    requires
        max >= 9,
    ensures
        r == (match unsigned_value(s@) {
            Some(v) => if v <= max { Some(v as u64) } else { None::<u64> },
            None => None::<u64>,
        }),
{
    let len = s.unicode_len();
    let mut i: usize = 0;
    if len > 0 && s.get_char(0) == '+' {
        i = 1;
    }
    let ghost body = unsigned_body(s@);
    let ghost first = i as int;
    assert(body =~= s@.subrange(first, len as int));
    if i == len {
        return None;
    }
    let mut value: u64 = 0;
    while i < len
        invariant
            len == s@.len(),
            0 <= first <= i <= len,
            body == s@.subrange(first, len as int),
            body == unsigned_body(s@),
            forall|j: int| first <= j < i ==> is_digit(#[trigger] s@[j]),
            value == digits_value(s@.subrange(first, i as int)),
            value <= max,
            max >= 9,
        decreases len - i,
    {
        let c = s.get_char(i);
        assert(s@.subrange(first, i + 1).drop_last() =~= s@.subrange(first, i as int));
        let code = c as u32;
        if code < 48 || code > 57 {
            assert(body[i - first] == c);
            assert(!is_digit(body[i - first]));
            return None;
        }
        let d = (code - 48) as u64;
        if value > (max - d) / 10 {
            proof {
                assert(value * 10 + d > max) by (nonlinear_arith)
                    requires
                        value > (max - d) / 10,
                        d <= 9,
                        max >= 9,
                ;
                if forall|j: int| 0 <= j < body.len() ==> is_digit(#[trigger] body[j]) {
                    lemma_digits_value_grows(body, i - first + 1);
                    assert(body.take(i - first + 1) =~= s@.subrange(first, i + 1));
                }
            }
            return None;
        }
        assert(value * 10 + d <= max) by (nonlinear_arith)
            requires
                value <= (max - d) / 10,
                d <= 9,
                max >= 9,
        ;
        value = value * 10 + d;
        i = i + 1;
    }
    assert(s@.subrange(first, len as int) =~= body);
    Some(value)
}

proof fn lemma_digits_value_grows(s: Seq<char>, n: int)
    requires
        0 <= n <= s.len(),
        forall|i: int| 0 <= i < s.len() ==> is_digit(#[trigger] s[i]),
    ensures
        digits_value(s.take(n)) <= digits_value(s),
    decreases s.len(),
{
    if n < s.len() {
        let init = s.drop_last();
        assert(init.take(n) =~= s.take(n));
        lemma_digits_value_grows(init, n);
    } else {
        assert(s.take(n) =~= s);
    }
}

/// Reads the margin argument: a non-negative pixel count.
pub fn parse_margin(s: &str) -> (r: Result<u32, ValidationError>)
    ensures
        r == (match unsigned_value(s@) {
            Some(v) => if v <= u32::MAX { Ok(v as u32) } else { Err(ValidationError::BadMargin) },
            None => Err::<u32, ValidationError>(ValidationError::BadMargin),
        }),
{
    match parse_unsigned(s, u32::MAX as u64) {
        Some(v) => Ok(v as u32),
        None => Err(ValidationError::BadMargin),
    }
}

/// Reads the parts argument: a number of sub-booklets, at least 1.
pub fn parse_parts(s: &str) -> (r: Result<usize, ValidationError>)
    ensures
        r == (match unsigned_value(s@) {
            Some(v) => if 1 <= v <= usize::MAX { Ok(v as usize) } else { Err(ValidationError::BadParts) },
            None => Err::<usize, ValidationError>(ValidationError::BadParts),
        }),
{
    match parse_unsigned(s, usize::MAX as u64) {
        Some(v) => if v >= 1 { Ok(v as usize) } else { Err(ValidationError::BadParts) },
        None => Err(ValidationError::BadParts),
    }
}

/// The validated numeric settings of a run.
#[derive(Clone, Copy, Debug, PartialEq, Eq, Structural)]
pub struct RunConfig {
    pub margin: u32,
    pub parts: usize,
}

impl RunConfig {
    /// Well-formed settings: at least one part.
    pub open spec fn wf(self) -> bool {
        self.parts >= 1
    }

    /// Builds the settings from the margin and parts arguments, or lists
    /// every argument that is invalid, margin first.
    pub fn parse(margin: &str, parts: &str) -> (r: Result<RunConfig, Vec<ValidationError>>)
        ensures
            r matches Ok(c) ==> c.wf() && Ok::<u32, ValidationError>(c.margin) == parse_margin_spec(
                margin@,
            ) && Ok::<usize, ValidationError>(c.parts) == parse_parts_spec(parts@),
            r is Ok <==> parse_margin_spec(margin@) is Ok && parse_parts_spec(parts@) is Ok,
            r matches Err(es) ==> es@ == (if parse_margin_spec(margin@) is Err {
                seq![ValidationError::BadMargin]
            } else {
                Seq::empty()
            }) + (if parse_parts_spec(parts@) is Err {
                seq![ValidationError::BadParts]
            } else {
                Seq::empty()
            }),
    {
        let m = parse_margin(margin);
        let p = parse_parts(parts);
        match (m, p) {
            (Ok(margin), Ok(parts)) => Ok(RunConfig { margin, parts }),
            (m, p) => {
                let mut errs: Vec<ValidationError> = Vec::new();
                if m.is_err() {
                    errs.push(ValidationError::BadMargin);
                }
                if p.is_err() {
                    errs.push(ValidationError::BadParts);
                }
                assert(errs@ =~= (if parse_margin_spec(margin@) is Err {
                    seq![ValidationError::BadMargin]
                } else {
                    Seq::empty()
                }) + (if parse_parts_spec(parts@) is Err {
                    seq![ValidationError::BadParts]
                } else {
                    Seq::empty()
                }));
                Err(errs)
            },
        }
    }
}

/// What `parse_margin` returns on the text `s`.
pub open spec fn parse_margin_spec(s: Seq<char>) -> Result<u32, ValidationError> {
    match unsigned_value(s) {
        Some(v) => if v <= u32::MAX { Ok(v as u32) } else { Err(ValidationError::BadMargin) },
        None => Err(ValidationError::BadMargin),
    }
}

/// What `parse_parts` returns on the text `s`.
pub open spec fn parse_parts_spec(s: Seq<char>) -> Result<usize, ValidationError> {
    match unsigned_value(s) {
        Some(v) => if 1 <= v <= usize::MAX { Ok(v as usize) } else { Err(ValidationError::BadParts) },
        None => Err(ValidationError::BadParts),
    }
}

} // verus!
