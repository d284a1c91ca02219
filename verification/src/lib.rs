//! Validation of project names: candidate identifiers that must be usable as
//! DNS host-name labels and filesystem names.
//!
//! A candidate is accepted exactly when it is a non-empty string of fewer than
//! 64 characters, made only of ASCII lowercase letters, digits and dashes,
//! neither starting nor ending with a dash, not one of a small set of reserved
//! platform words, and not flagged by a content-moderation pass.

use vstd::prelude::*;
use vstd::std_specs::cmp::PartialEqSpec;

verus! {

/// A character allowed in a project name: an ASCII lowercase letter,
/// an ASCII digit, or a dash.
pub open spec fn valid_char(c: char) -> bool {
    ||| 'a' <= c && c <= 'z'
    ||| '0' <= c && c <= '9'
    ||| c == '-'
}

fn is_valid_char(c: char) -> (r: bool)
    ensures
        r == valid_char(c),
{
    ('a' <= c && c <= 'z') || ('0' <= c && c <= '9') || c == '-'
}

/// The reserved platform words: names that must never become user
/// identifiers, whatever their syntax, to avoid collisions with
/// system-significant subdomains and routes.
pub open spec fn reserved(s: Seq<char>) -> bool {
    ||| s == "shuttleapp"@
    ||| s == "shuttle"@
    ||| s == "console"@
    ||| s == "unstable"@
    ||| s == "staging"@
}

fn str_eq(a: &str, b: &str) -> (r: bool)
    ensures
        r == (a@ == b@),
{
    let na = a.unicode_len();
    let nb = b.unicode_len();
    if na != nb {
        return false;
    }
    let mut i: usize = 0;
    while i < na
        invariant
            i <= na,
            na == a@.len(),
            na == b@.len(),
            forall|j: int| 0 <= j < i ==> a@[j] == b@[j],
        decreases na - i,
    {
        if a.get_char(i) != b.get_char(i) {
            return false;
        }
        i += 1;
    }
    proof {
        assert(a@ =~= b@);
    }
    true
}

fn is_reserved(name: &str) -> (r: bool)
    ensures
        r == reserved(name@),
{
    str_eq(name, "shuttleapp") || str_eq(name, "shuttle") || str_eq(name, "console")
        || str_eq(name, "unstable") || str_eq(name, "staging")
}

/// Whether the content-moderation pass flags the text at moderate or higher
/// severity in some category. The classification is a fixed function of the
/// characters of the text; it is computed by `analyze_moderate_or_higher`.
pub uninterp spec fn flagged_moderate_or_higher(s: Seq<char>) -> bool;

/// Relies on rustrict's `Censor::analyze`, with rustrict's built-in,
/// compile-time word lists, so the classification depends on the input
/// characters alone; `Type::is(Type::MODERATE_OR_HIGHER)` holds exactly when
/// some category scored moderate or severe.
#[verifier::external_body]
fn analyze_moderate_or_higher(name: &str) -> (r: bool)
    ensures
        r == flagged_moderate_or_higher(name@),
{
    let mut censor = rustrict::Censor::from_str(name);
    censor.analyze().is(rustrict::Type::MODERATE_OR_HIGHER)
}

/// The whole validation policy but the content-moderation pass: non-empty,
/// shorter than 64 characters, only lowercase alphanumerics and dashes,
/// neither starting nor ending with a dash, and not a reserved word.
pub open spec fn well_formed(s: Seq<char>) -> bool {
    &&& 1 <= s.len() < 64
    &&& s[0] != '-'
    &&& s[s.len() - 1] != '-'
    &&& !reserved(s)
    &&& forall|i: int| 0 <= i < s.len() ==> valid_char(s[i])
}

/// The validation policy in full: a candidate passes exactly when it is
/// well formed and the content-moderation pass does not flag it.
pub open spec fn spec_is_valid(s: Seq<char>) -> bool {
    well_formed(s) && !flagged_moderate_or_higher(s)
}

/// A validated project name: an opaque wrapper whose string is guaranteed to
/// satisfy `spec_is_valid` for the lifetime of the value.
#[derive(Clone, Debug)]
pub struct ProjectName {
    name: String,
}

impl View for ProjectName {
    type V = Seq<char>;

    closed spec fn view(&self) -> Seq<char> {
        self.name@
    }
}

/// The rejection of a candidate project name. It carries no payload: which
/// rule failed is deliberately not disclosed, so that the result cannot be
/// used as a probing oracle for the moderation thresholds.
#[derive(Clone, Copy, Debug, PartialEq, Eq, Structural)]
pub struct InvalidProjectName;

impl ProjectName {
    /// Every value of this type satisfies the validation predicate.
    pub open spec fn wf(&self) -> bool {
        spec_is_valid(self@)
    }

    /// Decides the validation policy: the checks are run in an order that
    /// keeps the expensive moderation pass last, but the result is their
    /// plain conjunction.
    pub fn is_valid(name: &str) -> (r: bool)
        ensures
            r == spec_is_valid(name@),
    {
        let n = name.unicode_len();
        if n == 0 || n >= 64 {
            return false;
        }
        if name.get_char(0) == '-' || name.get_char(n - 1) == '-' {
            return false;
        }
        let mut i: usize = 0;
        while i < n
            invariant
                i <= n,
                n == name@.len(),
                forall|j: int| 0 <= j < i ==> valid_char(name@[j]),
            decreases n - i,
        {
            if !is_valid_char(name.get_char(i)) {
                return false;
            }
            i += 1;
        }
        if is_reserved(name) {
            return false;
        }
        !analyze_moderate_or_higher(name)
    }

    /// Validates a candidate and wraps it unchanged; rejection returns the
    /// one error value. Success is owed exactly on the candidates that
    /// `spec_is_valid` accepts, failure exactly on the rest.
    pub fn new(name: &str) -> (r: Result<ProjectName, InvalidProjectName>)
        ensures
            r is Ok <==> spec_is_valid(name@),
            r matches Ok(p) ==> p@ == name@ && p.wf(),
    {
        if Self::is_valid(name) {
            Ok(ProjectName { name: name.to_owned() })
        } else {
            Err(InvalidProjectName)
        }
    }

    /// The text form of the name: exactly the string that was validated,
    /// with no escaping or rewriting. Serialization renders this string and
    /// deserialization re-validates it.
    pub fn as_str(&self) -> (r: &str)
        ensures
            r@ == self@,
    {
        self.name.as_str()
    }
}

impl PartialEq for ProjectName {
    fn eq(&self, other: &ProjectName) -> (r: bool) {
        self.name.eq(&other.name)
    }
}

impl vstd::std_specs::cmp::PartialEqSpecImpl for ProjectName {
    open spec fn obeys_eq_spec() -> bool {
        true
    }

    open spec fn eq_spec(&self, other: &ProjectName) -> bool {
        self@ == other@
    }
}

impl core::str::FromStr for ProjectName {
    type Err = InvalidProjectName;

    fn from_str(s: &str) -> Result<ProjectName, InvalidProjectName> {
        ProjectName::new(s)
    }
}

/// The fixed, user-visible rejection text: it enumerates every rule of the
/// policy and is never parameterized with the rule that failed.
pub open spec fn rejection_text() -> Seq<char> {
    "Invalid project name. Project names must:\n    1. only contain lowercase alphanumeric characters or dashes `-`.\n    2. not start or end with a dash.\n    3. not be empty.\n    4. be shorter than 64 characters.\n    5. not contain any profanities.\n    6. not be a reserved word."@
}

impl InvalidProjectName {
    /// Renders the rejection for a user: always the same static text,
    /// whatever rule the candidate broke.
    pub fn message(&self) -> (r: String)
        ensures
            r@ == rejection_text(),
    {
        "Invalid project name. Project names must:\n    1. only contain lowercase alphanumeric characters or dashes `-`.\n    2. not start or end with a dash.\n    3. not be empty.\n    4. be shorter than 64 characters.\n    5. not contain any profanities.\n    6. not be a reserved word.".to_owned()
    }
}

/// An accepted candidate round-trips to an equal value: identifiers built
/// from the same string carry it unchanged and compare equal, since
/// equality is byte-wise over the underlying string.
pub proof fn lemma_round_trip_equal(p: ProjectName, q: ProjectName)
    requires
        p@ == q@,
    ensures
        p.eq_spec(&q),
{
}

/// No identifier ever carries a rejected string: every value of the type
/// satisfies the validation predicate, so a string that fails it cannot be
/// observed through any `ProjectName`.
pub proof fn lemma_no_value_from_rejected(p: ProjectName, s: Seq<char>)
    requires
        p.wf(),
        !spec_is_valid(s),
    ensures
        p@ != s,
{
}

/// A validated identifier cannot become invalid by being serialized and
/// parsed again: its text form is exactly the string it was built from, and
/// that string still satisfies the validation predicate, so re-validating
/// what `as_str` renders always succeeds, with an equal value.
pub proof fn lemma_serialized_revalidates(p: ProjectName)
    requires
        p.wf(),
    ensures
        spec_is_valid(p@),
{
}

} // verus!
