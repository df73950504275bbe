//! Errors carried inside execution results, and the log lines that report them.

use crate::document::SourceLocation;
use crate::path::rendered_path;
use crate::path::render_path;
use crate::path::PathSegment;
use crate::path::SegmentView;
use vstd::prelude::*;
use vstd::string::StringExecFns;

verus! {

/// An error of one operation. An empty path means that the error belongs to the
/// operation as a whole; a path that is present names the failing field from
/// the response root.
#[derive(Debug, PartialEq, Eq)]
pub struct ServerError {
    pub message: String,
    pub path: Vec<PathSegment>,
    pub locations: Vec<SourceLocation>,
}

/// The mathematical value of a [`ServerError`].
pub struct ServerErrorView {
    pub message: Seq<char>,
    pub path: Seq<SegmentView>,
    pub locations: Seq<SourceLocation>,
}

impl DeepView for ServerError {
    type V = ServerErrorView;

    open spec fn deep_view(&self) -> ServerErrorView {
        ServerErrorView {
            message: self.message@,
            path: self.path.deep_view(),
            locations: self.locations@,
        }
    }
}

/// The log line of an error: with its dotted path where it has one, else with
/// the message only.
pub open spec fn rendered_error(error: ServerErrorView) -> Seq<char> {
    if error.path.len() > 0 {
        "[Error] path="@ + rendered_path(error.path) + " message="@ + error.message
    } else {
        "[Error] message="@ + error.message
    }
}

/// The log lines of a list of errors, one line each, in order.
pub open spec fn rendered_errors(errors: Seq<ServerErrorView>) -> Seq<Seq<char>> {
    errors.map_values(|error: ServerErrorView| rendered_error(error))
}

impl ServerError {
    /// An error of the whole operation: no path.
    pub fn top_level(message: String, locations: Vec<SourceLocation>) -> (error: ServerError)
        ensures
            error.deep_view() == (ServerErrorView {
                message: message@,
                path: Seq::empty(),
                locations: locations@,
            }),
    {
        let error = ServerError { message, path: Vec::new(), locations };
        assert(error.path.deep_view() =~= Seq::empty());
        error
    }

    /// The log line of this error.
    pub fn render(&self) -> (line: String)
        ensures
            line@ == rendered_error(self.deep_view()),
    {
        if self.path.len() > 0 {
            let mut line = String::from_str("[Error] path=");
            let path = render_path(&self.path);
            line.append(path.as_str());
            line.append(" message=");
            line.append(self.message.as_str());
            line
        } else {
            let mut line = String::from_str("[Error] message=");
            line.append(self.message.as_str());
            line
        }
    }
}

/// Appends one line to a log.
pub fn emit(log: &mut Vec<String>, line: String)
    ensures
        final(log).deep_view() == old(log).deep_view().push(line@),
{
    log.push(line);
    assert(log.deep_view() =~= old(log).deep_view().push(line@));
}

/// Appends the log line of each error to the log, in order.
pub fn report_errors(errors: &Vec<ServerError>, log: &mut Vec<String>)
    ensures
        final(log).deep_view() == old(log).deep_view() + rendered_errors(errors.deep_view()),
{
    let mut i: usize = 0;
    while i < errors.len()
        invariant
            i <= errors.len(),
            log.deep_view() == old(log).deep_view() + rendered_errors(errors.deep_view().take(i as int)),
        decreases errors.len() - i,
    {
        let line = errors[i].render();
        emit(log, line);
        assert(errors.deep_view().take(i + 1) =~= errors.deep_view().take(i as int).push(
            errors[i as int].deep_view(),
        ));
        assert(log.deep_view() =~= old(log).deep_view() + rendered_errors(
            errors.deep_view().take(i + 1),
        ));
        i += 1;
    }
    assert(errors.deep_view().take(i as int) =~= errors.deep_view());
}

} // verus!
