//! The code under which a course is shared.
use vstd::prelude::*;

verus! {

/// The characters of a text in upper case, as [`str::to_uppercase`] gives
/// them.
pub uninterp spec fn uppercase_of(text: Seq<char>) -> Seq<char>;

/// Calls [`str::to_uppercase`]: the result holds the characters of `text` in
/// upper case.
#[verifier::external_body]
fn to_uppercase(text: &str) -> (upper: String)
    ensures
        upper@ == uppercase_of(text@),
{
    text.to_uppercase()
}

/// The code under which a course is shared, in upper case.
#[derive(Debug)]
pub struct CourseCode(String);

impl View for CourseCode {
    type V = Seq<char>;

    closed spec fn view(&self) -> Seq<char> {
        self.0@
    }
}

impl CourseCode {
    /// The code that `code` names, whatever the case of its letters.
    pub fn new(code: String) -> (course_code: CourseCode)
        ensures
            course_code@ == uppercase_of(code@),
    {
        CourseCode::from_uppercase(to_uppercase(code.as_str()))
    }

    /// The code with the given characters, which are taken as they are.
    pub fn from_uppercase(code: String) -> (course_code: CourseCode)
        ensures
            course_code@ == code@,
    {
        CourseCode(code)
    }

    /// The characters of the code.
    pub fn as_str(&self) -> (code: &str)
        ensures
            code@ == self@,
    {
        self.0.as_str()
    }

    /// A copy of the characters of the code.
    pub fn to_string(&self) -> (code: String)
        ensures
            code@ == self@,
    {
        self.0.clone()
    }
}

impl Clone for CourseCode {
    fn clone(&self) -> (copy: CourseCode)
        ensures
            copy@ == self@,
    {
        CourseCode(self.0.clone())
    }
}

} // verus!
