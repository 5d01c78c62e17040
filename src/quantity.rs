//! The check on the number of objects typed at the prompt.
use vstd::prelude::*;
use vstd::string::*;

verus! {

/// What an object quantity typed at the prompt must match: one to six digits.
pub const QUANTITY_PATTERN: &'static str = "^\\d{1,6}$";

/// The hint shown for a quantity that does not match.
pub const QUANTITY_HINT: &'static str = "Invalid quantity specified. Please use a value from 1 - 999999";

/// Whether the regular expression `pattern` matches somewhere in `text`.
pub uninterp spec fn regex_accepts(pattern: Seq<char>, text: Seq<char>) -> bool;

/// Relies on regex::Regex::new, which compiles `pattern` or reports it
/// malformed, and on regex::Regex::is_match, whose answer depends on the
/// compiled pattern and the text alone.
#[verifier::external_body]
fn pattern_matches(pattern: &str, text: &str) -> (r: Option<bool>)
    ensures
        r matches Some(m) ==> m == regex_accepts(pattern@, text@),
{
    match regex::Regex::new(pattern) {
        Ok(re) => Some(re.is_match(text)),
        Err(_) => None,
    }
}

/// The verdict on a typed quantity.
#[derive(Debug, PartialEq, Eq)]
pub enum Validation {
    Valid,
    /// Refused, with the hint to show.
    Invalid(String),
}

/// The check could not run: the quantity pattern did not compile.
#[derive(Debug, Clone, Copy, PartialEq, Eq)]
pub enum QuantityError {
    PatternRejected,
}

/// `v` is the verdict owed to an input that matched the quantity pattern
/// (`matched`) or did not: accepted, or refused with the hint.
pub open spec fn is_verdict(v: Validation, matched: bool) -> bool {
    if matched {
        v is Valid
    } else {
        v matches Validation::Invalid(m) && m@ == QUANTITY_HINT@
    }
}

/// The verdict for an input, given whether it matched the quantity pattern.
pub fn quantity_verdict(matched: bool) -> (v: Validation)
    ensures
        is_verdict(v, matched),
{
    if matched {
        Validation::Valid
    } else {
        Validation::Invalid(String::from_str(QUANTITY_HINT))
    }
}

/// Checks a typed object quantity against the quantity pattern.
pub fn validate_number(input: &str) -> (r: Result<Validation, QuantityError>)
    ensures
        r matches Ok(v) ==> is_verdict(v, regex_accepts(QUANTITY_PATTERN@, input@)),
        r is Err ==> r == Err::<Validation, QuantityError>(QuantityError::PatternRejected),
{
    match pattern_matches(QUANTITY_PATTERN, input) {
        Some(m) => Ok(quantity_verdict(m)),
        None => Err(QuantityError::PatternRejected),
    }
}

} // verus!
