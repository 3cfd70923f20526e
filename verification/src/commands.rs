//! What the commands of the desktop application hand back to the front end.

use crate::error::{AppError, AppErrorView};
use crate::json::{with_text, JsonValue, JsonView, ObjectBuilder};
use vstd::prelude::*;
use vstd::string::*;

verus! {

/// How a probe of the service ended, in a form that always reaches the front end.
#[derive(Debug, Clone)]
pub struct TestConnectionResult {
    pub success: bool,
    /// Why the probe could not be made, where it could not.
    pub error: Option<String>,
}

/// A [`TestConnectionResult`] over sequences of characters.
pub struct TestConnectionResultView {
    pub success: bool,
    pub error: Option<Seq<char>>,
}

impl View for TestConnectionResult {
    type V = TestConnectionResultView;

    open spec fn view(&self) -> TestConnectionResultView {
        TestConnectionResultView { success: self.success, error: self.error.deep_view() }
    }
}

impl TestConnectionResultView {
    /// The report as a JSON object. An absent error is left out.
    pub open spec fn document(self) -> JsonView {
        JsonView::Object(
            with_text(seq![("success"@, JsonView::Bool(self.success))], "error"@, self.error),
        )
    }
}

impl TestConnectionResult {
    /// The report as a JSON object.
    pub fn to_json(&self) -> (doc: JsonValue)
        ensures
            doc@ == self@.document(),
    {
        let mut members = ObjectBuilder::new();
        members.boolean("success", self.success);
        assert(members.members() =~= seq![("success"@, JsonView::Bool(self.success))]);
        members.optional_text("error", &self.error);
        members.build()
    }
}

/// The report on a probe. A probe that was answered reports what the answer said and no
/// error; one that failed reports no success and the text of the error.
pub open spec fn connection_report(probe: Result<bool, AppErrorView>) -> TestConnectionResultView {
    match probe {
        Ok(success) => TestConnectionResultView { success, error: None },
        Err(e) => TestConnectionResultView { success: false, error: Some(e.text()) },
    }
}

/// Reports on a probe of the service. The command itself never fails: a failure of the
/// probe is part of the report.
pub fn test_api_connection(probe: Result<bool, AppError>) -> (report: TestConnectionResult)
    ensures
        report@ == connection_report(crate::error::outcome(probe)),
{
    match probe {
        Ok(success) => TestConnectionResult { success, error: None },
        Err(e) => TestConnectionResult { success: false, error: Some(e.to_string()) },
    }
}

/// The result of a command as the front end gets it: the error as its text.
pub fn reported<T>(result: Result<T, AppError>) -> (shown: Result<T, String>)
    ensures
        match shown {
            Ok(value) => result == Ok::<T, AppError>(value),
            Err(text) => result is Err && text@ == result->Err_0@.text(),
        },
{
    match result {
        Ok(value) => Ok(value),
        Err(e) => Err(e.to_string()),
    }
}

} // verus!
