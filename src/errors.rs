//! Failures of settings, kept until a builder is finished, and the error
//! that reports them.
use vstd::prelude::*;

use crate::curl_api::{code_description, curl_description, error_code};

verus! {

/// The report of failed settings: the description of each result code,
/// in the order the failures happened, each followed by a line break.
pub open spec fn report(codes: Seq<u32>) -> Seq<char>
    decreases codes.len(),
{
    if codes.len() == 0 {
        Seq::empty()
    } else {
        report(codes.drop_last()) + curl_description(codes.last()) + seq!['\n']
    }
}

/// One more failure was kept: `after` is `before` with one result code added.
pub open spec fn one_failure_kept(before: Seq<u32>, after: Seq<u32>) -> bool {
    exists|c: u32| after == #[trigger] before.push(c)
}

/// A setting left the kept failures as they were, or added one.
pub open spec fn setting_kept(before: Seq<u32>, after: Seq<u32>) -> bool {
    after == before || one_failure_kept(before, after)
}

/// An error of building: the text of every failure that was kept.
#[derive(Debug)]
pub struct BuildError {
    message: String,
}

/// The result of finishing a builder.
pub type BuildResult<T> = Result<T, BuildError>;

impl BuildError {
    /// The text this error carries.
    pub closed spec fn text(&self) -> Seq<char> {
        self.message@
    }

    /// The text this error carries.
    pub fn message(&self) -> (r: &str)
        ensures
            r@ == self.text(),
    {
        self.message.as_str()
    }
}

impl From<String> for BuildError {
    fn from(message: String) -> (r: BuildError)
        ensures
            r.text() == message@,
    {
        BuildError { message }
    }
}

impl vstd::std_specs::convert::FromSpecImpl<String> for BuildError {
    open spec fn obeys_from_spec() -> bool {
        true
    }

    closed spec fn from_spec(message: String) -> BuildError {
        BuildError { message }
    }
}

/// The result codes of the settings that failed, oldest first.
pub(crate) struct Failures {
    codes: Vec<u32>,
}

impl View for Failures {
    type V = Seq<u32>;

    closed spec fn view(&self) -> Seq<u32> {
        self.codes@
    }
}

impl Failures {
    pub(crate) fn new() -> (r: Failures)
        ensures
            r@ == Seq::<u32>::empty(),
    {
        Failures { codes: Vec::new() }
    }

    /// Keeps the failure of a setting, if it failed.
    pub(crate) fn note(&mut self, outcome: Result<(), curl::Error>)
        ensures
            outcome is Ok ==> final(self)@ == old(self)@,
            outcome is Err ==> one_failure_kept(old(self)@, final(self)@),
    {
        if let Err(e) = outcome {
            let code = error_code(&e);
            self.codes.push(code);
            assert(self@ == old(self)@.push(code));
        }
    }

    pub(crate) fn is_empty(&self) -> (r: bool)
        ensures
            r == (self@.len() == 0),
    {
        self.codes.len() == 0
    }

    /// The error that reports every kept failure, one line each.
    pub(crate) fn to_error(&self) -> (r: BuildError)
        ensures
            r.text() == report(self@),
    {
        let mut text = String::new();
        let mut i: usize = 0;
        while i < self.codes.len()
            invariant
                i <= self@.len(),
                text@ == report(self@.take(i as int)),
            decreases self@.len() - i,
        {
            let description = code_description(self.codes[i]);
            text.append(description.as_str());
            text.append("\n");
            proof {
                reveal_strlit("\n");
                assert(self@.take(i + 1).drop_last() =~= self@.take(i as int));
            }
            i = i + 1;
        }
        assert(self@.take(self@.len() as int) =~= self@);
        BuildError::from(text)
    }
}

} // verus!
