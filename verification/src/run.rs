//! The course of a run: which outside step comes next, and what its
//! outcome leads to. The caller performs the steps and reports back.

use vstd::prelude::*;
use vstd::string::StringExecFns;

use crate::config::resolved_config;
use crate::config::texts;
use crate::config::with_arguments;
use crate::config::Config;
use crate::config::ConfigDocument;
use crate::config::ConfigDocumentView;
use crate::config::ConfigView;
use crate::failure::report;
use crate::failure::Failure;
use crate::failure::FailureView;
use crate::failure::List;
use crate::failure::FAILURE_EXIT_CODE;
use crate::list::read_response;
use crate::list::response_outcome;
use crate::list::yaml_string_map;
use crate::table::Table;

verus! {

/// Where the configuration file lies.
pub open spec fn configuration_path() -> Seq<char> {
    "/home/elwinar/.config/b16m/config.yaml"@
}

/// How the attempt to read the configuration file ended.
#[derive(Debug)]
pub enum Reading {
    /// The file could not be opened.
    Unopened { cause: String },
    /// The file was opened and holds no configuration document.
    Malformed { cause: String },
    /// The file holds this document.
    Read { document: ConfigDocument },
}

/// A `Reading` by the views of what it holds.
pub enum ReadingView {
    Unopened { cause: Seq<char> },
    Malformed { cause: Seq<char> },
    Read { document: ConfigDocumentView },
}

impl View for Reading {
    type V = ReadingView;

    open spec fn view(&self) -> ReadingView {
        match self {
            Reading::Unopened { cause } => ReadingView::Unopened { cause: cause@ },
            Reading::Malformed { cause } => ReadingView::Malformed { cause: cause@ },
            Reading::Read { document } => ReadingView::Read { document: document@ },
        }
    }
}

/// How a request for a list ended.
#[derive(Debug)]
pub enum Reply {
    /// No response came.
    Unreachable { cause: String },
    /// A response came and its body could not be read.
    Unreadable { cause: String },
    /// A response came, with this status and this body.
    Received { status: u16, body: String },
}

/// A `Reply` by the views of what it holds.
pub enum ReplyView {
    Unreachable { cause: Seq<char> },
    Unreadable { cause: Seq<char> },
    Received { status: u16, body: Seq<char> },
}

impl View for Reply {
    type V = ReplyView;

    open spec fn view(&self) -> ReplyView {
        match self {
            Reply::Unreachable { cause } => ReplyView::Unreachable { cause: cause@ },
            Reply::Unreadable { cause } => ReplyView::Unreadable { cause: cause@ },
            Reply::Received { status, body } => ReplyView::Received {
                status: *status,
                body: body@,
            },
        }
    }
}

/// The outcome of an outside step.
#[derive(Debug)]
pub enum Event {
    Configuration(Reading),
    Response(Reply),
}

/// An `Event` by the views of what it holds.
pub enum EventView {
    Configuration(ReadingView),
    Response(ReplyView),
}

impl View for Event {
    type V = EventView;

    open spec fn view(&self) -> EventView {
        match self {
            Event::Configuration(reading) => EventView::Configuration(reading@),
            Event::Response(reply) => EventView::Response(reply@),
        }
    }
}

/// The outside step that a state waits for.
#[derive(Debug)]
pub enum Action {
    /// Read the configuration file at `path`.
    ReadConfiguration { path: String },
    /// Request the list at `url`.
    Fetch { list: List, url: String },
    /// Leave with success.
    Finish,
    /// Report `message` and leave with `code`.
    Abort { message: String, code: i32 },
}

/// An `Action` by the views of what it holds.
pub enum ActionView {
    ReadConfiguration { path: Seq<char> },
    Fetch { list: List, url: Seq<char> },
    Finish,
    Abort { message: Seq<char>, code: i32 },
}

impl View for Action {
    type V = ActionView;

    open spec fn view(&self) -> ActionView {
        match self {
            Action::ReadConfiguration { path } => ActionView::ReadConfiguration { path: path@ },
            Action::Fetch { list, url } => ActionView::Fetch { list: *list, url: url@ },
            Action::Finish => ActionView::Finish,
            Action::Abort { message, code } => ActionView::Abort {
                message: message@,
                code: *code,
            },
        }
    }
}

/// How far a run has come.
#[derive(Debug)]
pub enum State {
    /// Started with this command line; the configuration is not read yet.
    Loading { command_line: Vec<String> },
    /// The configuration stands; the list of schemes is awaited.
    FetchingSchemes { config: Config },
    /// The list of schemes is here; the list of templates is awaited.
    FetchingTemplates { config: Config, schemes: Table<String> },
    /// Both lists are here.
    Done { config: Config, schemes: Table<String>, templates: Table<String> },
    /// The run has failed.
    Failed { failure: Failure },
}

/// A `State` by the views of what it holds.
pub enum StateView {
    Loading { command_line: Seq<Seq<char>> },
    FetchingSchemes { config: ConfigView },
    FetchingTemplates { config: ConfigView, schemes: Map<Seq<char>, Seq<char>> },
    Done {
        config: ConfigView,
        schemes: Map<Seq<char>, Seq<char>>,
        templates: Map<Seq<char>, Seq<char>>,
    },
    Failed { failure: FailureView },
}

impl View for State {
    type V = StateView;

    open spec fn view(&self) -> StateView {
        match self {
            State::Loading { command_line } => StateView::Loading {
                command_line: texts(command_line@),
            },
            State::FetchingSchemes { config } => StateView::FetchingSchemes { config: config@ },
            State::FetchingTemplates { config, schemes } => StateView::FetchingTemplates {
                config: config@,
                schemes: schemes@,
            },
            State::Done { config, schemes, templates } => StateView::Done {
                config: config@,
                schemes: schemes@,
                templates: templates@,
            },
            State::Failed { failure } => StateView::Failed { failure: failure@ },
        }
    }
}

/// The step that a state waits for. A failed run reports its failure
/// and leaves with a code that is not zero.
pub open spec fn awaited(state: StateView) -> ActionView {
    match state {
        StateView::Loading { .. } => ActionView::ReadConfiguration { path: configuration_path() },
        StateView::FetchingSchemes { config } => ActionView::Fetch {
            list: List::Schemes,
            url: config.schemes_list_url,
        },
        StateView::FetchingTemplates { config, .. } => ActionView::Fetch {
            list: List::Templates,
            url: config.templates_list_url,
        },
        StateView::Done { .. } => ActionView::Finish,
        StateView::Failed { failure } => ActionView::Abort {
            message: report(failure),
            code: FAILURE_EXIT_CODE,
        },
    }
}

/// The state after the configuration file was read, or was not. The
/// document is resolved first and the command line laid over it then.
pub open spec fn loaded(command_line: Seq<Seq<char>>, reading: ReadingView) -> StateView {
    match reading {
        ReadingView::Unopened { cause } => StateView::Failed {
            failure: FailureView::OpeningConfiguration { cause },
        },
        ReadingView::Malformed { cause } => StateView::Failed {
            failure: FailureView::ParsingConfiguration { cause },
        },
        ReadingView::Read { document } => match with_arguments(
            resolved_config(document),
            command_line,
        ) {
            Some(config) => StateView::FetchingSchemes { config },
            None => StateView::Failed { failure: FailureView::TooManyArguments },
        },
    }
}

/// Whether `res` is what a reply to the request for a list amounts to.
/// A body is read as a list only in a response whose status reports
/// success.
pub open spec fn answered(
    list: List,
    reply: ReplyView,
    res: Result<Map<Seq<char>, Seq<char>>, FailureView>,
) -> bool {
    match reply {
        ReplyView::Unreachable { cause } => res == Err::<Map<Seq<char>, Seq<char>>, FailureView>(
            FailureView::Retrieving { list, cause },
        ),
        ReplyView::Unreadable { cause } => res == Err::<Map<Seq<char>, Seq<char>>, FailureView>(
            FailureView::ReadingBody { list, cause },
        ),
        ReplyView::Received { status, body } => response_outcome(
            list,
            status,
            body,
            yaml_string_map(body),
            res,
        ),
    }
}

/// Whether `after` follows `before` on `event`. The outcome of the
/// awaited step moves the run on; any other event leaves it where it is.
pub open spec fn advances(before: StateView, event: EventView, after: StateView) -> bool {
    match (before, event) {
        (StateView::Loading { command_line }, EventView::Configuration(reading)) => after
            == loaded(command_line, reading),
        (StateView::FetchingSchemes { config }, EventView::Response(reply)) => match after {
            StateView::FetchingTemplates { config: kept, schemes } => kept == config && answered(
                List::Schemes,
                reply,
                Ok(schemes),
            ),
            StateView::Failed { failure } => answered(List::Schemes, reply, Err(failure)),
            _ => false,
        },
        (StateView::FetchingTemplates { config, schemes }, EventView::Response(reply)) => match after {
            StateView::Done { config: kept, schemes: held, templates } => kept == config && held
                == schemes && answered(List::Templates, reply, Ok(templates)),
            StateView::Failed { failure } => answered(List::Templates, reply, Err(failure)),
            _ => false,
        },
        _ => after == before,
    }
}

fn take_reply(list: List, reply: Reply) -> (res: Result<Table<String>, Failure>)
    ensures
        answered(list, reply@, crate::list::outcome_view(res)),
{
    match reply {
        Reply::Unreachable { cause } => Err(Failure::Retrieving { list, cause }),
        Reply::Unreadable { cause } => Err(Failure::ReadingBody { list, cause }),
        Reply::Received { status, body } => read_response(list, status, body),
    }
}

impl State {
    /// The state in which a run starts.
    pub fn start(command_line: Vec<String>) -> (res: State)
        ensures
            res@ == (StateView::Loading { command_line: texts(command_line@) }),
    {
        State::Loading { command_line }
    }

    /// The step that the state waits for.
    pub fn action(&self) -> (res: Action)
        ensures
            res@ == awaited(self@),
    {
        match self {
            State::Loading { .. } => Action::ReadConfiguration {
                path: String::from_str("/home/elwinar/.config/b16m/config.yaml"),
            },
            State::FetchingSchemes { config } => Action::Fetch {
                list: List::Schemes,
                url: config.schemes_list_url.clone(),
            },
            State::FetchingTemplates { config, .. } => Action::Fetch {
                list: List::Templates,
                url: config.templates_list_url.clone(),
            },
            State::Done { .. } => Action::Finish,
            State::Failed { failure } => Action::Abort {
                message: failure.message(),
                code: failure.exit_code(),
            },
        }
    }

    /// The state that follows on an event.
    pub fn advance(self, event: Event) -> (res: State)
        ensures
            advances(self@, event@, res@),
    {
        match (self, event) {
            (State::Loading { command_line }, Event::Configuration(reading)) => match reading {
                Reading::Unopened { cause } => State::Failed {
                    failure: Failure::OpeningConfiguration { cause },
                },
                Reading::Malformed { cause } => State::Failed {
                    failure: Failure::ParsingConfiguration { cause },
                },
                Reading::Read { document } => {
                    match Config::from_document(&document).apply_arguments(&command_line) {
                        Ok(config) => State::FetchingSchemes { config },
                        Err(failure) => State::Failed { failure },
                    }
                },
            },
            (State::FetchingSchemes { config }, Event::Response(reply)) => {
                match take_reply(List::Schemes, reply) {
                    Ok(schemes) => State::FetchingTemplates { config, schemes },
                    Err(failure) => State::Failed { failure },
                }
            },
            (State::FetchingTemplates { config, schemes }, Event::Response(reply)) => {
                match take_reply(List::Templates, reply) {
                    Ok(templates) => State::Done { config, schemes, templates },
                    Err(failure) => State::Failed { failure },
                }
            },
            (state, _) => state,
        }
    }
}

/// A list is requested only once the configuration stands: in no other
/// state is a request the awaited step.
pub proof fn requests_need_a_configuration(state: StateView)
    ensures
        awaited(state) is Fetch <==> (state is FetchingSchemes || state is FetchingTemplates),
        state matches StateView::FetchingSchemes { config } ==> awaited(state) == (
        ActionView::Fetch { list: List::Schemes, url: config.schemes_list_url }),
        state matches StateView::FetchingTemplates { config, .. } ==> awaited(state) == (
        ActionView::Fetch { list: List::Templates, url: config.templates_list_url }),
{
}

/// A failed run stays failed whatever is reported to it, and what it
/// waits for is to report its failure and to leave with a code that is
/// not zero.
pub proof fn failure_is_final(failure: FailureView, event: EventView, after: StateView)
    requires
        advances(StateView::Failed { failure }, event, after),
    ensures
        after == (StateView::Failed { failure }),
        awaited(after) == (ActionView::Abort { message: report(failure), code: 1 }),
{
}

/// A command line with more than two arguments ends the run once the
/// configuration file is read, or is not: no list is requested.
pub proof fn too_many_arguments_end_the_run(
    command_line: Seq<Seq<char>>,
    reading: ReadingView,
    after: StateView,
)
    requires
        command_line.len() > 3,
        advances(StateView::Loading { command_line }, EventView::Configuration(reading), after),
    ensures
        after is Failed,
        reading is Read ==> after == (StateView::Failed {
            failure: FailureView::TooManyArguments,
        }),
        awaited(after) matches ActionView::Abort { code, .. } && code != 0,
{
}

/// A configuration file that cannot be opened ends the run before any
/// list is requested, and the report names the phase.
pub proof fn unopened_configuration_ends_the_run(
    command_line: Seq<Seq<char>>,
    cause: Seq<char>,
    after: StateView,
)
    requires
        advances(
            StateView::Loading { command_line },
            EventView::Configuration(ReadingView::Unopened { cause }),
            after,
        ),
    ensures
        after == (StateView::Failed { failure: FailureView::OpeningConfiguration { cause } }),
        awaited(after) == (ActionView::Abort {
            message: "opening configuration file"@ + ": "@ + cause,
            code: 1,
        }),
        awaited(StateView::Loading { command_line }) is ReadConfiguration,
{
}

/// A response whose status reports no success ends the run, whatever
/// its body holds: the body is not read as a list.
pub proof fn refused_response_ends_the_run(
    before: StateView,
    status: u16,
    body: Seq<char>,
    after: StateView,
)
    requires
        before is FetchingSchemes || before is FetchingTemplates,
        !crate::list::is_success(status),
        advances(before, EventView::Response(ReplyView::Received { status, body }), after),
    ensures
        before is FetchingSchemes ==> after == (StateView::Failed {
            failure: FailureView::Refused { list: List::Schemes, status, body },
        }),
        before is FetchingTemplates ==> after == (StateView::Failed {
            failure: FailureView::Refused { list: List::Templates, status, body },
        }),
        awaited(after) matches ActionView::Abort { code, .. } && code != 0,
{
}

/// A response whose status reports success and whose body is a list
/// moves the run on with exactly that list.
pub proof fn list_is_taken_as_it_stands(
    before: StateView,
    status: u16,
    body: Seq<char>,
    after: StateView,
)
    requires
        crate::list::is_success(status),
        yaml_string_map(body) is Some,
        advances(before, EventView::Response(ReplyView::Received { status, body }), after),
    ensures
        before matches StateView::FetchingSchemes { config } ==> after == (
        StateView::FetchingTemplates { config, schemes: yaml_string_map(body)->0 }),
        before matches StateView::FetchingTemplates { config, schemes } ==> after == (
        StateView::Done { config, schemes, templates: yaml_string_map(body)->0 }),
{
}

} // verus!
