use vstd::prelude::*;
use vstd::string::StringExecFns;
use crate::encode::{enc_response, encode_response};
use crate::jsonval::{parse_request, spec_line_request};
use crate::registry::{lookup, distinct_names, CommandRegistry};
use crate::strutil::str_eq;
use crate::types::{CallParams, CallParamsView, CommandView, ErrorInfo, ErrorInfoView, Outcome,
    OutcomeView, Request, RequestId, RequestView, Response, ResponseView, Tool, ToolView};

verus! {

/// The MCP-visible descriptor of one command.
pub open spec fn tool_of(c: CommandView) -> ToolView {
    ToolView { name: c.name, description: c.description }
}

/// The `params` member of a request, as the dispatcher models it.
pub open spec fn params_view(p: Option<CallParams>) -> Option<CallParamsView> {
    match p {
        Some(x) => Some(x@),
        None => None,
    }
}

/// What `tools/call` produces: the named command's prompt template,
/// verbatim, or the error naming what was missing or unknown.
pub open spec fn spec_call(cmds: Seq<CommandView>, params: Option<CallParamsView>) -> OutcomeView {
    match params {
        None => OutcomeView::Failure(
            ErrorInfoView { code: -32603, message: "Missing params"@ },
        ),
        Some(p) => match p.name {
            None => OutcomeView::Failure(
                ErrorInfoView { code: -32603, message: "Missing tool name"@ },
            ),
            Some(n) => match lookup(cmds, n) {
                None => OutcomeView::Failure(
                    ErrorInfoView { code: -32603, message: "Unknown tool: "@ + n },
                ),
                Some(c) => OutcomeView::CallText(c.prompt),
            },
        },
    }
}

/// The method-dispatch table: the method string selects the handler; an
/// unknown method is a handler-level error.
pub open spec fn spec_dispatch(cmds: Seq<CommandView>, req: RequestView) -> OutcomeView {
    if req.method == "initialize"@ {
        OutcomeView::Init
    } else if req.method == "tools/list"@ {
        OutcomeView::ToolList(cmds.map_values(|c: CommandView| tool_of(c)))
    } else if req.method == "tools/call"@ {
        spec_call(cmds, req.params)
    } else {
        OutcomeView::Failure(
            ErrorInfoView { code: -32603, message: "Unknown method: "@ + req.method },
        )
    }
}

/// The whole response to one request: the dispatched outcome under the
/// request's own id, echoed with its JSON type.
pub open spec fn spec_handle(cmds: Seq<CommandView>, req: RequestView) -> ResponseView {
    ResponseView { id: req.id, outcome: spec_dispatch(cmds, req) }
}

/// A request whose method is known and whose parameters are valid for it.
pub open spec fn valid_request(cmds: Seq<CommandView>, req: RequestView) -> bool {
    ||| req.method == "initialize"@
    ||| req.method == "tools/list"@
    ||| {
        &&& req.method == "tools/call"@
        &&& req.params matches Some(p)
        &&& p.name matches Some(n)
        &&& lookup(cmds, n) is Some
    }
}

/// Law: for every well-formed request with a known method and valid
/// parameters, the response carries a result and no error, and its id equals
/// the request's id, with the same JSON type and value.
pub proof fn lemma_valid_request_ok(cmds: Seq<CommandView>, req: RequestView)
    requires
        valid_request(cmds, req),
    ensures
        !(spec_handle(cmds, req).outcome is Failure),
        spec_handle(cmds, req).id == req.id,
{
}

/// Law: for every request with an unknown method or a handler-level
/// failure, the response carries an error with code -32603 and no result,
/// and its id equals the request's id.
pub proof fn lemma_invalid_request_error(cmds: Seq<CommandView>, req: RequestView)
    requires
        !valid_request(cmds, req),
    ensures
        spec_handle(cmds, req).outcome matches OutcomeView::Failure(e) && e.code == -32603,
        spec_handle(cmds, req).id == req.id,
{
}

fn duplicate_id(id: &RequestId) -> (r: RequestId)
    ensures
        r@ == id@,
{
    match id {
        RequestId::Num(n) => RequestId::Num(*n),
        RequestId::Bool(b) => RequestId::Bool(*b),
        RequestId::Str(s) => RequestId::Str(s.clone()),
        RequestId::Null => RequestId::Null,
    }
}

/// The stdio server's dispatching core: the registry, read-only for the
/// server's lifetime, and the handlers over it.
pub struct McpServer {
    registry: CommandRegistry,
}

impl View for McpServer {
    type V = Seq<CommandView>;

    closed spec fn view(&self) -> Seq<CommandView> {
        self.registry@
    }
}

impl McpServer {
    /// The server's invariant, inherited from the registry: distinct names.
    pub open spec fn wf(&self) -> bool {
        distinct_names(self@)
    }

    /// Wraps a populated registry.
    pub fn new(registry: CommandRegistry) -> (r: Self)
        ensures
            r@ == registry@,
    {
        McpServer { registry }
    }

    fn handle_initialize(&self) -> (o: Outcome)
        ensures
            o@ == OutcomeView::Init,
    {
        Outcome::Init
    }

    fn handle_tools_list(&self) -> (o: Outcome)
        ensures
            o@ == OutcomeView::ToolList(self@.map_values(|c: CommandView| tool_of(c))),
    {
        let cmds = self.registry.list();
        let n = cmds.len();
        let mut tools: Vec<Tool> = Vec::new();
        let mut i: usize = 0;
        while i < n
            invariant
                i <= n,
                n == cmds@.len(),
                n == self@.len(),
                forall|k: int| 0 <= k < n ==> cmds@[k]@ == self@[k],
                tools@.len() == i,
                forall|k: int| 0 <= k < i ==> tools@[k]@ == tool_of(self@[k]),
            decreases n - i,
        {
            let c = cmds[i];
            tools.push(Tool { name: c.name.clone(), description: c.description.clone() });
            i += 1;
        }
        let o = Outcome::ToolList(tools);
        proof {
            assert(tools@.map_values(|t: Tool| t@) =~= self@.map_values(
                |c: CommandView| tool_of(c),
            ));
        }
        o
    }

    fn handle_tools_call(&self, params: &Option<CallParams>) -> (o: Outcome)
        ensures
            o@ == spec_call(self@, params_view(*params)),
    {
        match params {
            None => Outcome::Failure(
                ErrorInfo { code: -32603, message: String::from_str("Missing params") },
            ),
            Some(p) => match &p.name {
                None => Outcome::Failure(
                    ErrorInfo { code: -32603, message: String::from_str("Missing tool name") },
                ),
                Some(n) => match self.registry.get(n.as_str()) {
                    None => {
                        let mut m = String::from_str("Unknown tool: ");
                        m.append(n.as_str());
                        Outcome::Failure(ErrorInfo { code: -32603, message: m })
                    },
                    Some(c) => Outcome::CallText(c.prompt.clone()),
                },
            },
        }
    }

    /// Dispatches one decoded request and builds its response.
    pub fn handle_request(&self, request: &Request) -> (r: Response)
        ensures
            r@ == spec_handle(self@, request@),
    {
        let outcome = if str_eq(request.method.as_str(), "initialize") {
            self.handle_initialize()
        } else if str_eq(request.method.as_str(), "tools/list") {
            self.handle_tools_list()
        } else if str_eq(request.method.as_str(), "tools/call") {
            self.handle_tools_call(&request.params)
        } else {
            let mut m = String::from_str("Unknown method: ");
            m.append(request.method.as_str());
            Outcome::Failure(ErrorInfo { code: -32603, message: m })
        };
        Response { id: duplicate_id(&request.id), outcome }
    }

    /// Handles one input line. A line that carries a request frame is
    /// answered with the exact encoding of the response to that request; any
    /// other line — not JSON, or not a request envelope — is silently
    /// dropped, yielding no output.
    pub fn handle_line(&self, line: &str) -> (r: Option<String>)
        ensures
            (match spec_line_request(line@) {
                None => r is None,
                Some(rq) => r matches Some(out) && out@ == enc_response(
                    spec_handle(self@, rq),
                ),
            }),
    {
        match parse_request(line) {
            Some(req) => {
                let resp = self.handle_request(&req);
                let out = encode_response(&resp);
                Some(out)
            },
            None => None,
        }
    }

    /// Law: requests are served strictly in arrival order. The batch form
    /// makes the FIFO guarantee explicit: the response at each position
    /// answers the request at that same position.
    pub fn serve(&self, requests: &Vec<Request>) -> (out: Vec<Response>)
        ensures
            out@.len() == requests@.len(),
            forall|i: int|
                0 <= i < requests@.len() ==> out@[i]@ == spec_handle(self@, requests@[i]@),
    {
        let n = requests.len();
        let mut out: Vec<Response> = Vec::new();
        let mut i: usize = 0;
        while i < n
            invariant
                i <= n,
                n == requests@.len(),
                out@.len() == i,
                forall|k: int| 0 <= k < i ==> out@[k]@ == spec_handle(self@, requests@[k]@),
            decreases n - i,
        {
            let r = self.handle_request(&requests[i]);
            out.push(r);
            i += 1;
        }
        out
    }
}

} // verus!
