//! The IPC client: which endpoint a client talks to, and the request that each
//! control operation sends.

use vstd::prelude::*;

verus! {

/// The endpoint that the service listens on unless told otherwise.
pub const SERVICE_PLACEHOLDER: &'static str = "nyanpasu_ipc";

pub const STATUS_ENDPOINT: &'static str = "/status";
pub const CORE_START_ENDPOINT: &'static str = "/core/start";
pub const CORE_STOP_ENDPOINT: &'static str = "/core/stop";
pub const CORE_RESTART_ENDPOINT: &'static str = "/core/restart";
pub const LOGS_INSPECT_ENDPOINT: &'static str = "/logs/inspect";
pub const LOGS_RETRIEVE_ENDPOINT: &'static str = "/logs/retrieve";

/// Content type of a request that carries a body.
pub const JSON_CONTENT_TYPE: &'static str = "application/json";

/// Where a client keeps its endpoint name: borrowed from the caller, or owned.
#[derive(Debug)]
pub enum Placeholder<'a> {
    Borrowed(&'a str),
    Owned(String),
}

/// A handle on one service instance, named by its endpoint.
#[derive(Debug)]
pub struct Client<'a> {
    pub placeholder: Placeholder<'a>,
}

impl<'a> View for Client<'a> {
    type V = Seq<char>;

    /// The endpoint name, whichever way it is stored.
    open spec fn view(&self) -> Seq<char> {
        match self.placeholder {
            Placeholder::Borrowed(s) => s@,
            Placeholder::Owned(s) => s@,
        }
    }
}


/// The two request methods that the service's routes use.
#[derive(PartialEq, Eq, Structural, Clone, Copy, Debug)]
pub enum Method {
    Get,
    Post,
}

/// The six control operations, one route each.
#[derive(PartialEq, Eq, Structural, Clone, Copy, Debug)]
pub enum Operation {
    Status,
    CoreStart,
    CoreStop,
    CoreRestart,
    LogsInspect,
    LogsRetrieve,
}

impl Operation {
    /// The route's path.
    pub open spec fn spec_path(self) -> Seq<char> {
        match self {
            Operation::Status => STATUS_ENDPOINT@,
            Operation::CoreStart => CORE_START_ENDPOINT@,
            Operation::CoreStop => CORE_STOP_ENDPOINT@,
            Operation::CoreRestart => CORE_RESTART_ENDPOINT@,
            Operation::LogsInspect => LOGS_INSPECT_ENDPOINT@,
            Operation::LogsRetrieve => LOGS_RETRIEVE_ENDPOINT@,
        }
    }

    /// Reads go by GET, commands by POST.
    pub open spec fn spec_method(self) -> Method {
        match self {
            Operation::Status | Operation::LogsInspect | Operation::LogsRetrieve => Method::Get,
            _ => Method::Post,
        }
    }

    /// Only starting the core takes parameters.
    pub open spec fn carries_body(self) -> bool {
        self == Operation::CoreStart
    }

    /// The operations whose success reply must hold a payload.
    pub open spec fn expects_data(self) -> bool {
        self.spec_method() == Method::Get
    }

    pub fn path(&self) -> (r: &'static str)
        ensures
            r@ == self.spec_path(),
    {
        match self {
            Operation::Status => STATUS_ENDPOINT,
            Operation::CoreStart => CORE_START_ENDPOINT,
            Operation::CoreStop => CORE_STOP_ENDPOINT,
            Operation::CoreRestart => CORE_RESTART_ENDPOINT,
            Operation::LogsInspect => LOGS_INSPECT_ENDPOINT,
            Operation::LogsRetrieve => LOGS_RETRIEVE_ENDPOINT,
        }
    }

    pub fn method(&self) -> (r: Method)
        ensures
            r == self.spec_method(),
    {
        match self {
            Operation::Status | Operation::LogsInspect | Operation::LogsRetrieve => Method::Get,
            _ => Method::Post,
        }
    }
}

/// One call, ready for the transport: the endpoint to reach, the route, and
/// the body with its content type where the operation carries one.
#[derive(Debug)]
pub struct Request<'c> {
    pub placeholder: &'c str,
    pub operation: Operation,
    pub method: Method,
    pub path: &'static str,
    pub content_type: Option<&'static str>,
    pub body: Option<String>,
}

impl<'c> Request<'c> {
    /// The request for `op` sent to `endpoint`, with `body` attached as JSON
    /// when there is one.
    pub open spec fn is_call(
        self,
        endpoint: Seq<char>,
        op: Operation,
        body: Option<Seq<char>>,
    ) -> bool {
        &&& self.placeholder@ == endpoint
        &&& self.operation == op
        &&& self.method == op.spec_method()
        &&& self.path@ == op.spec_path()
        &&& match body {
            Some(b) => {
                &&& self.body is Some
                &&& self.body->0@ == b
                &&& self.content_type is Some
                &&& self.content_type->0@ == JSON_CONTENT_TYPE@
            },
            None => self.body is None && self.content_type is None,
        }
    }
}

impl<'a> Client<'a> {
    /// A client for the service behind `placeholder`, borrowing the name.
    pub fn new(placeholder: &'a str) -> (r: Self)
        ensures
            r.placeholder == Placeholder::Borrowed(placeholder),
            r@ == placeholder@,
    {
        Client { placeholder: Placeholder::Borrowed(placeholder) }
    }

    /// A client that owns its endpoint name.
    pub fn from_owned(placeholder: String) -> (r: Self)
        ensures
            r.placeholder == Placeholder::Owned(placeholder),
            r@ == placeholder@,
    {
        Client { placeholder: Placeholder::Owned(placeholder) }
    }

    /// The client of the service at its well-known endpoint. Every call
    /// names the same endpoint.
    pub fn service_default() -> (r: Client<'static>)
        ensures
            r@ == SERVICE_PLACEHOLDER@,
    {
        Client::new(SERVICE_PLACEHOLDER)
    }

    pub fn placeholder(&self) -> (r: &str)
        ensures
            r@ == self@,
    {
        match &self.placeholder {
            Placeholder::Borrowed(s) => s,
            Placeholder::Owned(s) => s.as_str(),
        }
    }

    fn call(&self, op: Operation, body: Option<String>) -> (r: Request<'_>)
        requires
            body is Some <==> op.carries_body(),
        ensures
            r.is_call(
                self@,
                op,
                match body {
                    Some(b) => Some(b@),
                    None => None,
                },
            ),
    {
        let content_type = match body {
            Some(_) => Some(JSON_CONTENT_TYPE),
            None => None,
        };
        Request {
            placeholder: self.placeholder(),
            operation: op,
            method: op.method(),
            path: op.path(),
            content_type,
            body,
        }
    }

    /// The request that asks for the service's status.
    pub fn status(&self) -> (r: Request<'_>)
        ensures
            r.is_call(self@, Operation::Status, None),
    {
        self.call(Operation::Status, None)
    }

    /// The request that starts the core; `payload` is the start parameters
    /// encoded as JSON, and it is sent as it is.
    pub fn start_core(&self, payload: String) -> (r: Request<'_>)
        ensures
            r.is_call(self@, Operation::CoreStart, Some(payload@)),
    {
        self.call(Operation::CoreStart, Some(payload))
    }

    /// The request that stops the core.
    pub fn stop_core(&self) -> (r: Request<'_>)
        ensures
            r.is_call(self@, Operation::CoreStop, None),
    {
        self.call(Operation::CoreStop, None)
    }

    /// The request that restarts the core.
    pub fn restart_core(&self) -> (r: Request<'_>)
        ensures
            r.is_call(self@, Operation::CoreRestart, None),
    {
        self.call(Operation::CoreRestart, None)
    }

    /// The request for the live log snapshot.
    pub fn inspect_logs(&self) -> (r: Request<'_>)
        ensures
            r.is_call(self@, Operation::LogsInspect, None),
    {
        self.call(Operation::LogsInspect, None)
    }

    /// The request for the persisted log history.
    pub fn retrieve_logs(&self) -> (r: Request<'_>)
        ensures
            r.is_call(self@, Operation::LogsRetrieve, None),
    {
        self.call(Operation::LogsRetrieve, None)
    }
}

} // verus!

verus! {

/// Two clients that `service_default` handed out name the same endpoint.
pub proof fn lemma_service_default_is_stable(first: Client<'static>, second: Client<'static>)
    requires
        call_ensures(Client::service_default, (), first),
        call_ensures(Client::service_default, (), second),
    ensures
        first@ == second@,
{
}

} // verus!
