//! What can end a run, and the line that reports it.

use vstd::prelude::*;
use vstd::string::StringExecFns;

verus! {

/// One of the two remote lists.
#[derive(Clone, Copy, Debug, PartialEq, Eq, Structural)]
pub enum List {
    Schemes,
    Templates,
}

/// The word that names a list in a report.
pub open spec fn list_word(list: List) -> Seq<char> {
    match list {
        List::Schemes => "schemes"@,
        List::Templates => "templates"@,
    }
}

/// A condition that ends the run. None is recovered from.
#[derive(Debug)]
pub enum Failure {
    /// The configuration file could not be opened.
    OpeningConfiguration { cause: String },
    /// The configuration file is no configuration document.
    ParsingConfiguration { cause: String },
    /// The command line holds more than a scheme and a repository.
    TooManyArguments,
    /// No response came for the request for a list.
    Retrieving { list: List, cause: String },
    /// The response for a list reports no success; `body` is what it
    /// carried.
    Refused { list: List, status: u16, body: String },
    /// The body of a response could not be read.
    ReadingBody { list: List, cause: String },
    /// The body of a response is no list.
    ParsingList { list: List, cause: String },
}

/// A `Failure` with its texts as sequences of characters.
pub enum FailureView {
    OpeningConfiguration { cause: Seq<char> },
    ParsingConfiguration { cause: Seq<char> },
    TooManyArguments,
    Retrieving { list: List, cause: Seq<char> },
    Refused { list: List, status: u16, body: Seq<char> },
    ReadingBody { list: List, cause: Seq<char> },
    ParsingList { list: List, cause: Seq<char> },
}

impl View for Failure {
    type V = FailureView;

    open spec fn view(&self) -> FailureView {
        match self {
            Failure::OpeningConfiguration { cause } => FailureView::OpeningConfiguration {
                cause: cause@,
            },
            Failure::ParsingConfiguration { cause } => FailureView::ParsingConfiguration {
                cause: cause@,
            },
            Failure::TooManyArguments => FailureView::TooManyArguments,
            Failure::Retrieving { list, cause } => FailureView::Retrieving {
                list: *list,
                cause: cause@,
            },
            Failure::Refused { list, status, body } => FailureView::Refused {
                list: *list,
                status: *status,
                body: body@,
            },
            Failure::ReadingBody { list, cause } => FailureView::ReadingBody {
                list: *list,
                cause: cause@,
            },
            Failure::ParsingList { list, cause } => FailureView::ParsingList {
                list: *list,
                cause: cause@,
            },
        }
    }
}

/// The phase in which a failure arose, as the report names it. A
/// refused request counts as retrieval.
pub open spec fn phase(failure: FailureView) -> Seq<char> {
    match failure {
        FailureView::OpeningConfiguration { .. } => "opening configuration file"@,
        FailureView::ParsingConfiguration { .. } => "parsing configuration file"@,
        FailureView::TooManyArguments => "too many arguments"@,
        FailureView::Retrieving { list, .. } => "retrieving "@ + list_word(list) + " list"@,
        FailureView::Refused { list, .. } => "retrieving "@ + list_word(list) + " list"@,
        FailureView::ReadingBody { .. } => "reading response body"@,
        FailureView::ParsingList { list, .. } => "parsing "@ + list_word(list) + " list"@,
    }
}

/// What lay under a failure, if anything did. Under a refused request
/// lies the body of the response.
pub open spec fn cause(failure: FailureView) -> Option<Seq<char>> {
    match failure {
        FailureView::OpeningConfiguration { cause } => Some(cause),
        FailureView::ParsingConfiguration { cause } => Some(cause),
        FailureView::TooManyArguments => None,
        FailureView::Retrieving { cause, .. } => Some(cause),
        FailureView::Refused { body, .. } => Some(body),
        FailureView::ReadingBody { cause, .. } => Some(cause),
        FailureView::ParsingList { cause, .. } => Some(cause),
    }
}

/// The line that reports a failure: the phase, then a colon and the
/// cause where there is one.
pub open spec fn report(failure: FailureView) -> Seq<char> {
    match cause(failure) {
        Some(c) => phase(failure) + ": "@ + c,
        None => phase(failure),
    }
}

/// The exit code of a run that ended in a failure.
pub const FAILURE_EXIT_CODE: i32 = 1;

fn list_phase(verb: &str, list: List) -> (res: String)
    ensures
        res@ == verb@ + list_word(list) + " list"@,
{
    let mut res = String::from_str(verb);
    match list {
        List::Schemes => res.append("schemes"),
        List::Templates => res.append("templates"),
    }
    res.append(" list");
    res
}

impl Failure {
    /// The phase in which the failure arose.
    pub fn phase(&self) -> (res: String)
        ensures
            res@ == phase(self@),
    {
        match self {
            Failure::OpeningConfiguration { .. } => String::from_str("opening configuration file"),
            Failure::ParsingConfiguration { .. } => String::from_str("parsing configuration file"),
            Failure::TooManyArguments => String::from_str("too many arguments"),
            Failure::Retrieving { list, .. } => list_phase("retrieving ", *list),
            Failure::Refused { list, .. } => list_phase("retrieving ", *list),
            Failure::ReadingBody { .. } => String::from_str("reading response body"),
            Failure::ParsingList { list, .. } => list_phase("parsing ", *list),
        }
    }

    /// The line that reports the failure.
    pub fn message(&self) -> (res: String)
        ensures
            res@ == report(self@),
    {
        let mut res = self.phase();
        match self {
            Failure::TooManyArguments => {},
            Failure::OpeningConfiguration { cause }
            | Failure::ParsingConfiguration { cause }
            | Failure::Retrieving { cause, .. }
            | Failure::ReadingBody { cause, .. }
            | Failure::ParsingList { cause, .. } => {
                res.append(": ");
                res.append(cause.as_str());
            },
            Failure::Refused { body, .. } => {
                res.append(": ");
                res.append(body.as_str());
            },
        }
        res
    }

    /// The exit code of a run that ended in this failure: never zero.
    pub fn exit_code(&self) -> (res: i32)
        ensures
            res == FAILURE_EXIT_CODE,
            res != 0,
    {
        FAILURE_EXIT_CODE
    }
}

} // verus!
