//! Request validation: the faults found in a request, field by field.

use crate::error::{AppError, ErrorKind};
use crate::utils::url_parse;
use vstd::prelude::*;
use vstd::std_specs::convert::FromSpecImpl;
use vstd::string::*;

verus! {

/// One fault: the field it was found in and what is wrong with it.
#[derive(Debug)]
pub struct FieldError {
    pub field: String,
    pub message: String,
}

/// The model of a [`FieldError`]: field name and message.
pub type FieldErrorView = (Seq<char>, Seq<char>);

impl View for FieldError {
    type V = FieldErrorView;

    open spec fn view(&self) -> FieldErrorView {
        (self.field@, self.message@)
    }
}

/// The faults found in one request, in the order the rules were checked.
#[derive(Debug)]
pub struct ValidationErrors {
    errors: Vec<FieldError>,
}

impl View for ValidationErrors {
    type V = Seq<FieldErrorView>;

    closed spec fn view(&self) -> Seq<FieldErrorView> {
        Seq::new(self.errors@.len(), |i: int| self.errors@[i]@)
    }
}

/// The text of a list of faults: one line `field: message` per fault, the
/// lines separated by a newline.
pub open spec fn faults_text(faults: Seq<FieldErrorView>) -> Seq<char>
    decreases faults.len(),
{
    if faults.len() == 0 {
        Seq::empty()
    } else if faults.len() == 1 {
        faults[0].0 + ": "@ + faults[0].1
    } else {
        faults_text(faults.drop_last()) + seq!['\n'] + faults.last().0 + ": "@ + faults.last().1
    }
}

impl ValidationErrors {
    /// No faults.
    pub fn new() -> (v: Self)
        ensures
            v@ == Seq::<FieldErrorView>::empty(),
    {
        let v = ValidationErrors { errors: Vec::new() };
        assert(v@ =~= Seq::<FieldErrorView>::empty());
        v
    }

    /// Records one more fault.
    pub fn add(&mut self, field: &str, message: &str)
        ensures
            final(self)@ == old(self)@.push((field@, message@)),
    {
        self.errors.push(FieldError { field: field.to_string(), message: message.to_string() });
        assert(final(self)@ =~= old(self)@.push((field@, message@)));
    }

    /// Whether no fault was found.
    pub fn is_empty(&self) -> (r: bool)
        ensures
            r == (self@.len() == 0),
    {
        self.errors.len() == 0
    }

    /// Number of faults found.
    pub fn len(&self) -> (n: usize)
        ensures
            n == self@.len(),
    {
        self.errors.len()
    }

    /// The field and message of the fault at `index`.
    pub fn get(&self, index: usize) -> (r: Option<&FieldError>)
        ensures
            match r {
                Some(e) => index < self@.len() && e@ == self@[index as int],
                None => index >= self@.len(),
            },
    {
        if index < self.errors.len() {
            Some(&self.errors[index])
        } else {
            None
        }
    }

    /// The faults as text, one line per fault.
    pub fn message(&self) -> (m: String)
        ensures
            m@ == faults_text(self@),
    {
        let mut out = String::new();
        let mut i: usize = 0;
        while i < self.errors.len()
            invariant
                i <= self.errors.len(),
                out@ == faults_text(self@.take(i as int)),
            decreases self.errors.len() - i,
        {
            let ghost before = self@.take(i as int);
            let ghost after = self@.take(i + 1);
            assert(after.drop_last() =~= before);
            assert(after.last() == self.errors@[i as int]@);
            if i > 0 {
                out.push('\n');
            }
            out.append(self.errors[i].field.as_str());
            out.append(": ");
            out.append(self.errors[i].message.as_str());
            assert(out@ =~= faults_text(after));
            i += 1;
        }
        assert(self@.take(i as int) =~= self@);
        out
    }

    /// `Ok` when no fault was found, otherwise the faults.
    pub fn into_result(self) -> (r: std::result::Result<(), ValidationErrors>)
        ensures
            r is Ok <==> self@.len() == 0,
            r is Err ==> r->Err_0@ == self@,
    {
        if self.is_empty() {
            Ok(())
        } else {
            Err(self)
        }
    }
}

impl From<ValidationErrors> for AppError {
    /// A `Validation` failure whose detail is the text of the faults.
    fn from(errors: ValidationErrors) -> (e: Self)
        ensures
            e@.kind == ErrorKind::Validation,
            e@.detail == faults_text(errors@),
    {
        AppError::Validation(errors.message())
    }
}

impl FromSpecImpl<ValidationErrors> for AppError {
    /// The conversion allocates its text; its contract is stated on `from`.
    open spec fn obeys_from_spec() -> bool {
        false
    }

    open spec fn from_spec(errors: ValidationErrors) -> Self {
        arbitrary()
    }
}

/// What can be checked field by field.
pub trait Validate {
    /// The faults of this value, in the order of its rules.
    spec fn faults(&self) -> Seq<FieldErrorView>;

    /// Checks this value: `Ok` when it has no fault, otherwise exactly its
    /// faults.
    fn validate(&self) -> (r: std::result::Result<(), ValidationErrors>)
        ensures
            r is Ok <==> self.faults().len() == 0,
            r is Err ==> r->Err_0@ == self.faults(),
    ;
}

/// Number of characters in `s`, as the length rules count them.
pub fn char_count(s: &str) -> (n: usize)
    ensures
        n == s@.len(),
{
    s.unicode_len()
}

/// Whether the `validator` crate takes a text for a URL: it does exactly
/// when the `url` crate can parse it.
pub open spec fn url_shaped(s: Seq<char>) -> bool {
    url_parse(s) is Some
}

/// Asks `validator::validate_url`. Trusted: as the crate's source shows, the
/// answer is whether `url::Url::parse` accepts the text.
#[verifier::external_body]
pub(crate) fn looks_like_url(s: &str) -> (r: bool)
    ensures
        r == url_shaped(s@),
{
    validator::validate_url(s)
}

/// Whether the `validator` crate takes a text for an e-mail address.
pub uninterp spec fn email_shaped(s: Seq<char>) -> bool;

/// Asks `validator::validate_email`. Trusted: the answer is a function of
/// the text alone, named [`email_shaped`].
#[verifier::external_body]
pub(crate) fn looks_like_email(s: &str) -> (r: bool)
    ensures
        r == email_shaped(s@),
{
    validator::validate_email(s)
}

} // verus!
