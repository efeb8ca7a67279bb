use vstd::prelude::*;

verus! {

/// One declared input slot of a command definition.
#[derive(Debug)]
pub struct Parameter {
    pub name: String,
    pub param_type: String,
    pub description: String,
    pub required: bool,
    pub default: Option<String>,
}

/// Mathematical model of a [`Parameter`].
pub ghost struct ParameterView {
    pub name: Seq<char>,
    pub param_type: Seq<char>,
    pub description: Seq<char>,
    pub required: bool,
    pub default: Option<Seq<char>>,
}

impl View for Parameter {
    type V = ParameterView;

    open spec fn view(&self) -> ParameterView {
        ParameterView {
            name: self.name@,
            param_type: self.param_type@,
            description: self.description@,
            required: self.required,
            default: self.default.deep_view(),
        }
    }
}

/// One declarative tool definition, loaded from a YAML file.
#[derive(Debug)]
pub struct Command {
    pub name: String,
    pub version: String,
    pub description: String,
    pub parameters: Vec<Parameter>,
    pub prompt: String,
}

/// Mathematical model of a [`Command`].
pub ghost struct CommandView {
    pub name: Seq<char>,
    pub version: Seq<char>,
    pub description: Seq<char>,
    pub parameters: Seq<ParameterView>,
    pub prompt: Seq<char>,
}

impl View for Command {
    type V = CommandView;

    open spec fn view(&self) -> CommandView {
        CommandView {
            name: self.name@,
            version: self.version@,
            description: self.description@,
            parameters: self.parameters@.map_values(|p: Parameter| p@),
            prompt: self.prompt@,
        }
    }
}

/// Why a command document was rejected at load time.
#[derive(Debug)]
pub enum LoadError {
    /// The text is not a well-formed YAML document.
    Syntax,
    /// A mandatory field is missing or has the wrong shape.
    Schema,
    /// The document declares an empty command name.
    EmptyName,
}

/// The `id` member of a request: a JSON scalar, echoed verbatim into the
/// response, keeping its JSON type.
#[derive(Debug)]
pub enum RequestId {
    Num(i64),
    Bool(bool),
    Str(String),
    Null,
}

/// Mathematical model of a [`RequestId`].
pub ghost enum RequestIdView {
    Num(int),
    Bool(bool),
    Str(Seq<char>),
    Null,
}

impl View for RequestId {
    type V = RequestIdView;

    open spec fn view(&self) -> RequestIdView {
        match self {
            RequestId::Num(n) => RequestIdView::Num(*n as int),
            RequestId::Bool(b) => RequestIdView::Bool(*b),
            RequestId::Str(s) => RequestIdView::Str(s@),
            RequestId::Null => RequestIdView::Null,
        }
    }
}

/// The `params` member of a `tools/call` request, reduced to the single
/// field the dispatcher reads: `params.name`, when it is a string.
#[derive(Debug)]
pub struct CallParams {
    pub name: Option<String>,
}

/// Mathematical model of [`CallParams`].
pub ghost struct CallParamsView {
    pub name: Option<Seq<char>>,
}

impl View for CallParams {
    type V = CallParamsView;

    open spec fn view(&self) -> CallParamsView {
        CallParamsView { name: self.name.deep_view() }
    }
}

/// One decoded request frame.
#[derive(Debug)]
pub struct Request {
    pub id: RequestId,
    pub method: String,
    pub params: Option<CallParams>,
}

/// Mathematical model of a [`Request`].
pub ghost struct RequestView {
    pub id: RequestIdView,
    pub method: Seq<char>,
    pub params: Option<CallParamsView>,
}

impl View for Request {
    type V = RequestView;

    open spec fn view(&self) -> RequestView {
        RequestView {
            id: self.id@,
            method: self.method@,
            params: match self.params {
                Some(p) => Some(p@),
                None => None,
            },
        }
    }
}

/// The varying part of one tool descriptor in a `tools/list` result.
#[derive(Debug)]
pub struct Tool {
    pub name: String,
    pub description: String,
}

/// Mathematical model of a [`Tool`].
pub ghost struct ToolView {
    pub name: Seq<char>,
    pub description: Seq<char>,
}

impl View for Tool {
    type V = ToolView;

    open spec fn view(&self) -> ToolView {
        ToolView { name: self.name@, description: self.description@ }
    }
}

/// The `error` member of an error response.
#[derive(Debug)]
pub struct ErrorInfo {
    pub code: i64,
    pub message: String,
}

/// Mathematical model of an [`ErrorInfo`].
pub ghost struct ErrorInfoView {
    pub code: int,
    pub message: Seq<char>,
}

impl View for ErrorInfo {
    type V = ErrorInfoView;

    open spec fn view(&self) -> ErrorInfoView {
        ErrorInfoView { code: self.code as int, message: self.message@ }
    }
}

/// What a handler produced: exactly one of a result value or an error.
#[derive(Debug)]
pub enum Outcome {
    /// The fixed `initialize` capabilities object.
    Init,
    /// The `tools/list` catalog.
    ToolList(Vec<Tool>),
    /// The `tools/call` text content: the prompt template, verbatim.
    CallText(String),
    /// A handler-level error.
    Failure(ErrorInfo),
}

/// Mathematical model of an [`Outcome`].
pub ghost enum OutcomeView {
    Init,
    ToolList(Seq<ToolView>),
    CallText(Seq<char>),
    Failure(ErrorInfoView),
}

impl View for Outcome {
    type V = OutcomeView;

    open spec fn view(&self) -> OutcomeView {
        match self {
            Outcome::Init => OutcomeView::Init,
            Outcome::ToolList(ts) => OutcomeView::ToolList(ts@.map_values(|t: Tool| t@)),
            Outcome::CallText(s) => OutcomeView::CallText(s@),
            Outcome::Failure(e) => OutcomeView::Failure(e@),
        }
    }
}

/// One response frame: the echoed id and the handler's outcome.
#[derive(Debug)]
pub struct Response {
    pub id: RequestId,
    pub outcome: Outcome,
}

/// Mathematical model of a [`Response`].
pub ghost struct ResponseView {
    pub id: RequestIdView,
    pub outcome: OutcomeView,
}

impl View for Response {
    type V = ResponseView;

    open spec fn view(&self) -> ResponseView {
        ResponseView { id: self.id@, outcome: self.outcome@ }
    }
}

} // verus!
