//! Length rules on request fields.  A string's length is its number of
//! characters; a list's length is its number of elements.
use vstd::prelude::*;

verus! {

/// A field whose value breaks its length rule.
#[derive(Debug, Clone, PartialEq)]
pub struct FieldViolation {
    /// The field's name.
    pub field: String,
    /// The message configured for the rule, if any.
    pub message: Option<String>,
}

/// The mathematical form of a [`FieldViolation`].
pub struct Violation {
    pub field: Seq<char>,
    pub message: Option<Seq<char>>,
}

impl View for FieldViolation {
    type V = Violation;

    open spec fn view(&self) -> Violation {
        Violation {
            field: self.field@,
            message: match self.message {
                Some(m) => Some(m@),
                None => None,
            },
        }
    }
}

/// The violations in `v`, as mathematical values.
pub open spec fn violations_of(v: Seq<FieldViolation>) -> Seq<Violation> {
    v.map_values(|x: FieldViolation| x@)
}

/// A length within the inclusive bounds `min..=max`.
pub open spec fn length_ok(len: nat, min: nat, max: nat) -> bool {
    min <= len && len <= max
}

/// The violation reported for a value of length `len`, if any.
pub open spec fn length_rule(
    field: Seq<char>,
    len: nat,
    min: nat,
    max: nat,
    message: Option<Seq<char>>,
) -> Seq<Violation> {
    if length_ok(len, min, max) {
        Seq::empty()
    } else {
        seq![Violation { field, message }]
    }
}

/// The violation reported for an optional text, if any; an absent value
/// passes.
pub open spec fn opt_length_rule(
    field: Seq<char>,
    value: Option<Seq<char>>,
    min: nat,
    max: nat,
    message: Option<Seq<char>>,
) -> Seq<Violation> {
    match value {
        Some(v) => length_rule(field, v.len(), min, max, message),
        None => Seq::empty(),
    }
}

fn opt_str_to_string(m: Option<&str>) -> (r: Option<String>)
    ensures
        match (m, r) {
            (Some(a), Some(b)) => a@ == b@,
            (None, None) => true,
            _ => false,
        },
{
    match m {
        Some(s) => Some(String::from_str(s)),
        None => None,
    }
}

/// Appends to `out` the violation of a length rule by a value of length
/// `len`, if any.
pub fn check_length(
    out: &mut Vec<FieldViolation>,
    field: &str,
    len: usize,
    min: usize,
    max: usize,
    message: Option<&str>,
)
    ensures
        violations_of(final(out)@) == violations_of(old(out)@) + length_rule(
            field@,
            len as nat,
            min as nat,
            max as nat,
            match message {
                Some(m) => Some(m@),
                None => None,
            },
        ),
{
    let ghost before = out@;
    if min <= len && len <= max {
        assert(violations_of(out@) =~= violations_of(before) + Seq::<Violation>::empty());
    } else {
        let v = FieldViolation { field: String::from_str(field), message: opt_str_to_string(message) };
        out.push(v);
        assert(violations_of(out@) =~= violations_of(before) + seq![v@]);
    }
}

/// Appends to `out` the violation of a length rule by a text, if any.
pub fn check_text_length(
    out: &mut Vec<FieldViolation>,
    field: &str,
    value: &str,
    min: usize,
    max: usize,
    message: Option<&str>,
)
    ensures
        violations_of(final(out)@) == violations_of(old(out)@) + length_rule(
            field@,
            value@.len(),
            min as nat,
            max as nat,
            match message {
                Some(m) => Some(m@),
                None => None,
            },
        ),
{
    let n: usize = value.unicode_len();
    check_length(out, field, n, min, max, message);
}

/// Appends to `out` the violation of a length rule by an optional text, if
/// any.
pub fn check_opt_text_length(
    out: &mut Vec<FieldViolation>,
    field: &str,
    value: &Option<String>,
    min: usize,
    max: usize,
    message: Option<&str>,
)
    ensures
        violations_of(final(out)@) == violations_of(old(out)@) + opt_length_rule(
            field@,
            match value {
                Some(v) => Some(v@),
                None => None,
            },
            min as nat,
            max as nat,
            match message {
                Some(m) => Some(m@),
                None => None,
            },
        ),
{
    match value {
        Some(v) => check_text_length(out, field, v.as_str(), min, max, message),
        None => {
            assert(violations_of(out@) =~= violations_of(out@) + Seq::<Violation>::empty());
        },
    }
}

/// `Ok` when `out` holds no violation, else the violations.
pub fn into_result(out: Vec<FieldViolation>) -> (r: Result<(), Vec<FieldViolation>>)
    ensures
        match r {
            Ok(()) => out@.len() == 0,
            Err(v) => v@ == out@ && out@.len() > 0,
        },
{
    if out.len() == 0 {
        Ok(())
    } else {
        Err(out)
    }
}

} // verus!
