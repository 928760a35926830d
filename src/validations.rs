//! A form field together with the validation failures found in it so far.

use vstd::prelude::*;
use vstd::string::StrSliceExecFns;
use vstd::string::StringExecFns;

verus! {

/// A specific, user-facing reason why a field failed validation.
#[derive(Debug, Clone, Copy, PartialEq, Eq, Structural)]
pub enum FieldError {
    Required,
    MinLength(usize),
    InvalidEmail,
}

/// The decimal digit that stands for `d`, for `d < 10`.
pub open spec fn digit_char(d: nat) -> char {
    seq!['0', '1', '2', '3', '4', '5', '6', '7', '8', '9'][d as int]
}

/// The decimal notation of `n`, without leading zeros.
pub open spec fn decimal(n: nat) -> Seq<char>
    decreases n,
{
    if n < 10 {
        seq![digit_char(n)]
    } else {
        decimal(n / 10) + seq![digit_char(n % 10)]
    }
}

/// The message shown to the user for `e`.
pub open spec fn message_of(e: FieldError) -> Seq<char> {
    match e {
        FieldError::Required => "This field is required."@,
        FieldError::MinLength(min) => "This field must be at least "@ + decimal(min as nat)
            + " characters."@,
        FieldError::InvalidEmail => "This field doesn't look like an email address."@,
    }
}

/// Relies on the `Display` impl of `usize` (through `ToString`): it writes the
/// number in decimal, without leading zeros.
#[verifier::external_body]
fn decimal_text(n: usize) -> (r: String)
    ensures
        r@ == decimal(n as nat),
{
    n.to_string()
}

impl FieldError {
    /// The human-readable message for this error.
    pub fn message(&self) -> (r: String)
        ensures
            r@ == message_of(*self),
    {
        match self {
            FieldError::Required => String::from_str("This field is required."),
            FieldError::MinLength(min) => {
                let mut m = String::from_str("This field must be at least ");
                let digits = decimal_text(*min);
                m.append(digits.as_str());
                m.append(" characters.");
                m
            },
            FieldError::InvalidEmail => String::from_str(
                "This field doesn't look like an email address.",
            ),
        }
    }
}

/// One piece of optional user input and every failure found in it, in the
/// order in which the checks ran.
#[derive(Debug, Clone, PartialEq, Eq)]
pub struct Field<T> {
    pub input: Option<T>,
    pub errors: Vec<FieldError>,
}

/// Whether `c` has the Unicode `White_Space` property.
pub open spec fn is_white_space(c: char) -> bool {
    let u = c as u32;
    ||| 0x09 <= u <= 0x0D
    ||| u == 0x20
    ||| u == 0x85
    ||| u == 0xA0
    ||| u == 0x1680
    ||| 0x2000 <= u <= 0x200A
    ||| u == 0x2028
    ||| u == 0x2029
    ||| u == 0x202F
    ||| u == 0x205F
    ||| u == 0x3000
}

/// `s` without its leading white space.
pub open spec fn trim_start(s: Seq<char>) -> Seq<char>
    decreases s.len(),
{
    if s.len() > 0 && is_white_space(s[0]) {
        trim_start(s.drop_first())
    } else {
        s
    }
}

/// `s` without its trailing white space.
pub open spec fn trim_end(s: Seq<char>) -> Seq<char>
    decreases s.len(),
{
    if s.len() > 0 && is_white_space(s.last()) {
        trim_end(s.drop_last())
    } else {
        s
    }
}

/// `s` without its leading and trailing white space.
pub open spec fn trimmed(s: Seq<char>) -> Seq<char> {
    trim_end(trim_start(s))
}

/// `s` splits on `@` into exactly two parts, neither of them empty.
pub open spec fn is_email_shaped(s: Seq<char>) -> bool {
    exists|i: int|
        0 < i < s.len() - 1 && #[trigger] s[i] == '@' && !s.take(i).contains('@') && !s.skip(
            i + 1,
        ).contains('@')
}

/// The error that a minimum-length check records for `input`, if any.
pub open spec fn min_length_errors(input: Option<Seq<char>>, min: usize) -> Seq<FieldError> {
    match input {
        Some(s) => if s.len() < min {
            seq![FieldError::MinLength(min)]
        } else {
            seq![]
        },
        None => seq![],
    }
}

/// The error that an email-shape check records for `input`, if any.
pub open spec fn email_errors(input: Option<Seq<char>>) -> Seq<FieldError> {
    match input {
        Some(s) => if is_email_shaped(s) {
            seq![]
        } else {
            seq![FieldError::InvalidEmail]
        },
        None => seq![],
    }
}

/// What trimming makes of `input`.
pub open spec fn trimmed_input(input: Option<Seq<char>>) -> Option<Seq<char>> {
    match input {
        Some(s) => Some(trimmed(s)),
        None => None,
    }
}

/// Dropping leading white space never lengthens a text.
proof fn lemma_trim_start_len(s: Seq<char>)
    ensures
        trim_start(s).len() <= s.len(),
    decreases s.len(),
{
    if s.len() > 0 && is_white_space(s[0]) {
        lemma_trim_start_len(s.drop_first());
    }
}

/// Dropping trailing white space never lengthens a text.
proof fn lemma_trim_end_len(s: Seq<char>)
    ensures
        trim_end(s).len() <= s.len(),
    decreases s.len(),
{
    if s.len() > 0 && is_white_space(s.last()) {
        lemma_trim_end_len(s.drop_last());
    }
}

/// Trimming before a length check changes its outcome for every text with leading
/// or trailing white space: the trimmed text is strictly shorter, so with the
/// untrimmed length as the minimum the untrimmed text passes and the trimmed one
/// fails.
pub proof fn lemma_trim_before_length_check(s: Seq<char>)
    requires
        s.len() > 0,
        s.len() <= usize::MAX,
        is_white_space(s[0]) || is_white_space(s.last()),
    ensures
        trimmed(s).len() < s.len(),
        min_length_errors(Some(s), s.len() as usize) == Seq::<FieldError>::empty(),
        min_length_errors(trimmed_input(Some(s)), s.len() as usize) == seq![
            FieldError::MinLength(s.len() as usize),
        ],
{
    if is_white_space(s[0]) {
        lemma_trim_start_len(s.drop_first());
        lemma_trim_end_len(trim_start(s));
    } else {
        lemma_trim_end_len(s.drop_last());
    }
}

/// Relies on `str::trim`: it strips the leading and trailing characters that have
/// the Unicode `White_Space` property, and keeps the rest.
#[verifier::external_body]
fn trim_white_space(s: &str) -> (r: &str)
    ensures
        r@ == trimmed(s@),
{
    s.trim()
}

/// The errors that a presence check records for `input`.
pub open spec fn required_errors<T>(input: Option<T>) -> Seq<FieldError> {
    if input is Some {
        seq![]
    } else {
        seq![FieldError::Required]
    }
}

impl<T> Field<T> {
    /// Builds a field from raw input; absent input is recorded as `Required`.
    pub fn required(input: Option<T>) -> (r: Self)
        ensures
            r.input == input,
            r.errors@ == required_errors(input),
    {
        let errors = if input.is_some() {
            Vec::new()
        } else {
            vec![FieldError::Required]
        };
        Field { input, errors }
    }
}

/// Whether `s` splits on `@` into exactly two non-empty parts.
fn email_shaped(s: &str) -> (r: bool)
    ensures
        r == is_email_shaped(s@),
{
    broadcast use vstd::string::axiom_spec_iter;

    let len = s.unicode_len();
    let mut first: Option<usize> = None;
    let mut repeated = false;
    let mut k: usize = 0;
    for c in it: s.chars()
        invariant
            it.seq() == s@,
            len == s@.len(),
            k == it.index(),
            first is None ==> !s@.take(k as int).contains('@'),
            first matches Some(p) ==> p < k && s@[p as int] == '@' && !s@.take(p as int).contains(
                '@',
            ),
            first matches Some(p) ==> (repeated <==> s@.subrange(p + 1, k as int).contains('@')),
            first is None ==> !repeated,
    {
        if c == '@' {
            match first {
                Some(_) => {
                    repeated = true;
                },
                None => {
                    first = Some(k);
                },
            }
        }
        proof {
            assert(s@.take(k + 1) == s@.take(k as int).push(s@[k as int]));
            if let Some(p) = first {
                if p < k {
                    let before = s@.subrange(p + 1, k as int);
                    let after = s@.subrange(p + 1, k + 1);
                    assert(after == before.push(s@[k as int]));
                    if c == '@' {
                        assert(after[after.len() - 1] == '@');
                    } else if before.contains('@') {
                        let j = choose|j: int| 0 <= j < before.len() && #[trigger] before[j] == '@';
                        assert(after[j] == '@');
                    } else {
                        assert forall|j: int| 0 <= j < after.len() implies #[trigger] after[j] != '@' by {
                            if j < before.len() {
                                assert(after[j] == before[j]);
                            }
                        }
                    }
                } else {
                    assert(s@.subrange(p + 1, k + 1) == Seq::<char>::empty());
                }
            }
        }
        k = k + 1;
    }
    proof {
        assert(s@.take(len as int) == s@);
    }
    match first {
        Some(p) => {
            let r = !repeated && p > 0 && p + 1 < len;
            proof {
                assert(s@.subrange(p + 1, len as int) == s@.skip(p + 1));
                if r {
                    assert(s@[p as int] == '@');
                } else if is_email_shaped(s@) {
                    let i = choose|i: int|
                        0 < i < s@.len() - 1 && #[trigger] s@[i] == '@' && !s@.take(i).contains('@')
                            && !s@.skip(i + 1).contains('@');
                    if i < p {
                        assert(s@.take(p as int)[i] == '@');
                    } else if i > p {
                        assert(s@.take(i)[p as int] == '@');
                    } else if repeated {
                        let j = choose|j: int| 0 <= j < s@.skip(p + 1).len() && #[trigger] s@.skip(p + 1)[j] == '@';
                        assert(s@.skip(i + 1)[j] == '@');
                    }
                }
            }
            r
        },
        None => {
            proof {
                if is_email_shaped(s@) {
                    let i = choose|i: int|
                        0 < i < s@.len() - 1 && #[trigger] s@[i] == '@' && !s@.take(i).contains('@')
                            && !s@.skip(i + 1).contains('@');
                    assert(s@[i] == '@');
                }
            }
            false
        },
    }
}

impl Field<String> {
    /// The input's characters, if present.
    pub open spec fn text(&self) -> Option<Seq<char>> {
        self.input.deep_view()
    }

    /// Records `MinLength(min)` when the input is present and has fewer than `min`
    /// characters. The input is kept as it is.
    pub fn min_length(self, min: usize) -> (r: Self)
        ensures
            r.text() == self.text(),
            r.errors@ == self.errors@ + min_length_errors(self.text(), min),
    {
        let mut errors = self.errors;
        let too_short = match &self.input {
            Some(s) => s.as_str().unicode_len() < min,
            None => false,
        };
        if too_short {
            errors.push(FieldError::MinLength(min));
        }
        Field { input: self.input, errors }
    }

    /// Records `InvalidEmail` when the input is present and does not split on `@`
    /// into exactly two non-empty parts.
    pub fn email(self) -> (r: Self)
        ensures
            r.text() == self.text(),
            r.errors@ == self.errors@ + email_errors(self.text()),
    {
        let mut errors = self.errors;
        let shaped = match &self.input {
            Some(s) => email_shaped(s.as_str()),
            None => true,
        };
        if !shaped {
            errors.push(FieldError::InvalidEmail);
        }
        Field { input: self.input, errors }
    }

    /// Strips leading and trailing white space from the input, if present.
    pub fn trim(self) -> (r: Self)
        ensures
            r.text() == trimmed_input(self.text()),
            r.errors@ == self.errors@,
    {
        let input = match &self.input {
            Some(s) => Some(String::from_str(trim_white_space(s.as_str()))),
            None => None,
        };
        Field { input, errors: self.errors }
    }
}

} // verus!
