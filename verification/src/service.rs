//! The request-facing side of the registry: every entry point first puts
//! the caller through the access filter and then decides the reply.
//!
//! Writing the registry document is the caller's work. [`get_port_handler`]
//! takes the write as a function and runs a whole lookup under the
//! exclusive borrow of the registry. [`begin_get_port`] and
//! [`finish_get_port`] are its two halves, for a caller that does the
//! write in between by itself and keeps the registry to itself meanwhile.

use vstd::prelude::*;
use vstd::string::*;
use crate::access::{is_trusted, IpAddress, LocalNetworkOnly};
use crate::error::{error_text, RegistryError, RegistryErrorView};
use crate::registry::{
    document_map, document_names_distinct, report_ip, stage_service_ip, Registry, RegistryView,
    ServiceInfo, StagedUpdate,
};
use crate::status::StatusReport;
use crate::text::{decimal, decimal_text, json_string, json_string_text};

verus! {

/// Seconds between the reply to a stop request and the end of the process.
pub const SHUTDOWN_GRACE_SECS: u64 = 1;

/// What the service answers.
#[derive(Debug, PartialEq, Eq)]
pub enum Reply {
    /// The lookup succeeded and the reported address is stored: the port.
    Port(u16),
    /// The current status report.
    Status(StatusReport),
    /// The stop request is accepted.
    Stopping,
    /// The request failed.
    Failure(RegistryError),
}

/// The mathematical value of a [`Reply`].
pub ghost enum ReplyView {
    Port(u16),
    Status(StatusReport),
    Stopping,
    Failure(RegistryErrorView),
}

impl View for Reply {
    type V = ReplyView;

    open spec fn view(&self) -> ReplyView {
        match self {
            Reply::Port(port) => ReplyView::Port(*port),
            Reply::Status(report) => ReplyView::Status(*report),
            Reply::Stopping => ReplyView::Stopping,
            Reply::Failure(e) => ReplyView::Failure(e@),
        }
    }
}

/// The HTTP status that goes with a reply: 200 for success, 404 for an
/// unknown name, 500 for a storage failure, 403 for an untrusted caller.
pub open spec fn reply_status_code(reply: ReplyView) -> u16 {
    match reply {
        ReplyView::Failure(RegistryErrorView::NotFound(_)) => 404,
        ReplyView::Failure(RegistryErrorView::Persistence(_)) => 500,
        ReplyView::Failure(RegistryErrorView::AccessDenied) => 403,
        _ => 200,
    }
}

/// The body of a successful reply around the text of its data.
pub open spec fn success_body_text(data: Seq<char>) -> Seq<char> {
    "{\"success\":true,\"data\":"@ + data + "}"@
}

/// The body of a failed reply around its message, the message being
/// written as a JSON string literal.
pub open spec fn failure_body_text(message_literal: Seq<char>) -> Seq<char> {
    "{\"success\":false,\"error\":"@ + message_literal + "}"@
}

/// A status report as a JSON object.
pub open spec fn status_object_text(report: StatusReport) -> Seq<char> {
    "{\"uptime\":"@ + decimal_text(report.uptime as nat) + ",\"cpu\":"@ + decimal_text(
        report.cpu as nat,
    ) + ",\"ram\":"@ + decimal_text(report.ram as nat) + ",\"disk\":"@ + decimal_text(
        report.disk as nat,
    ) + "}"@
}

/// The JSON body of a reply: a success flag, and with it the data of a
/// success or the message of a failure.
pub open spec fn reply_body_text(reply: ReplyView) -> Seq<char> {
    match reply {
        ReplyView::Port(port) => success_body_text(decimal_text(port as nat)),
        ReplyView::Status(report) => success_body_text(status_object_text(report)),
        ReplyView::Stopping => success_body_text("null"@),
        ReplyView::Failure(e) => failure_body_text(json_string_text(error_text(e))),
    }
}

/// The body of a successful reply with the data `data`, which is JSON text.
pub fn success_body(data: &str) -> (body: String)
    ensures
        body@ == success_body_text(data@),
{
    let mut body = String::from_str("{\"success\":true,\"data\":");
    body.append(data);
    body.append("}");
    body
}

/// The body of a failed reply whose message, written as a JSON string
/// literal, is `message_literal`.
pub fn failure_body(message_literal: &str) -> (body: String)
    ensures
        body@ == failure_body_text(message_literal@),
{
    let mut body = String::from_str("{\"success\":false,\"error\":");
    body.append(message_literal);
    body.append("}");
    body
}

/// Writes a status report as a JSON object.
pub fn status_object(report: &StatusReport) -> (object: String)
    ensures
        object@ == status_object_text(*report),
{
    let mut object = String::from_str("{\"uptime\":");
    object.append(decimal(report.uptime).as_str());
    object.append(",\"cpu\":");
    object.append(decimal(report.cpu).as_str());
    object.append(",\"ram\":");
    object.append(decimal(report.ram).as_str());
    object.append(",\"disk\":");
    object.append(decimal(report.disk).as_str());
    object.append("}");
    object
}

impl Reply {
    /// The JSON body of the reply. A success always has one. The message
    /// of a failure is written out by the JSON serializer; where that
    /// reports an error there is no body.
    pub fn body(&self) -> (body: Option<String>)
        ensures
            body matches Some(text) ==> text@ == reply_body_text(self@),
            !(self@ is Failure) ==> body is Some,
    {
        match self {
            Reply::Port(port) => Some(success_body(decimal(*port as u64).as_str())),
            Reply::Status(report) => Some(success_body(status_object(report).as_str())),
            Reply::Stopping => Some(success_body("null")),
            Reply::Failure(e) => match json_string(e.message().as_str()) {
                Some(literal) => Some(failure_body(literal.as_str())),
                None => None,
            },
        }
    }

    /// The value of the reply's success flag.
    pub fn success(&self) -> (flag: bool)
        ensures
            flag == !(self@ is Failure),
    {
        match self {
            Reply::Failure(_) => false,
            _ => true,
        }
    }

    /// The HTTP status that goes with the reply.
    pub fn status_code(&self) -> (code: u16)
        ensures
            code == reply_status_code(self@),
    {
        match self {
            Reply::Failure(RegistryError::NotFound(_)) => 404,
            Reply::Failure(RegistryError::Persistence(_)) => 500,
            Reply::Failure(RegistryError::AccessDenied) => 403,
            _ => 200,
        }
    }
}

/// Where a lookup stands after its first step.
pub enum GetPortStep {
    /// The request is answered; nothing is to be written.
    Done(Reply),
    /// The name is registered. The caller writes the document of the
    /// update and hands the outcome to [`finish_get_port`].
    Persist(StagedUpdate),
}

/// What the first step of a lookup comes to, on the values of its inputs.
pub ghost enum GetPortStepView {
    /// The request is answered with this reply.
    Done(ReplyView),
    /// This registry is to be written, and the port is this one.
    Persist(RegistryView, u16),
}

impl View for GetPortStep {
    type V = GetPortStepView;

    open spec fn view(&self) -> GetPortStepView {
        match self {
            GetPortStep::Done(reply) => GetPortStepView::Done(reply@),
            GetPortStep::Persist(update) => GetPortStepView::Persist(update@, update.spec_port()),
        }
    }
}

/// The first step of a lookup, as a function of the caller's address, the
/// registry, the name asked for and the address reported.
pub open spec fn get_port_step(
    peer: Option<IpAddress>,
    registry: RegistryView,
    service_name: Seq<char>,
    ip: Seq<char>,
) -> GetPortStepView {
    if !is_trusted(peer) {
        GetPortStepView::Done(ReplyView::Failure(RegistryErrorView::AccessDenied))
    } else if !registry.contains_key(service_name) {
        GetPortStepView::Done(ReplyView::Failure(RegistryErrorView::NotFound(service_name)))
    } else {
        GetPortStepView::Persist(
            report_ip(registry, service_name, ip),
            registry[service_name].port,
        )
    }
}

/// An untrusted caller is refused whatever it asks for and whatever the
/// registry holds: the answer is `AccessDenied`, it carries nothing read
/// from the registry, and no update is staged.
pub proof fn lemma_untrusted_caller_is_refused(
    peer: Option<IpAddress>,
    registry: RegistryView,
    service_name: Seq<char>,
    ip: Seq<char>,
)
    requires
        !is_trusted(peer),
    ensures
        get_port_step(peer, registry, service_name, ip) == GetPortStepView::Done(
            ReplyView::Failure(RegistryErrorView::AccessDenied),
        ),
{
}

/// Lookup-and-report, first half. An untrusted caller is refused with
/// `AccessDenied` before the registry is looked at. An unknown name is
/// answered with `NotFound` and nothing is staged. For a registered name
/// the report of `ip` is staged and the port is held back until the write
/// has been tried. The registry is not changed.
pub fn begin_get_port(
    peer: Option<IpAddress>,
    registry: &Registry,
    service_name: &str,
    ip: &str,
) -> (step: GetPortStep)
    ensures
        step@ == get_port_step(peer, registry@, service_name@, ip@),
{
    let filter = LocalNetworkOnly;
    match filter.check(peer) {
        Err(denied) => GetPortStep::Done(Reply::Failure(denied)),
        Ok(_) => match stage_service_ip(registry, service_name, ip) {
            Err(missing) => GetPortStep::Done(Reply::Failure(missing)),
            Ok(update) => GetPortStep::Persist(update),
        },
    }
}

/// Lookup-and-report, second half: `written` is the outcome of writing the
/// document of `update`. After a successful write the update is committed
/// and the reply is the port. After a failed write the registry stays as
/// it was and the reply is a `Persistence` failure with the write's message.
pub fn finish_get_port(registry: &mut Registry, update: StagedUpdate, written: Result<(), String>) -> (reply:
    Reply)
    ensures
        written is Ok ==> reply@ == ReplyView::Port(update.spec_port()) && final(registry)@
            == update@,
        written matches Err(detail) ==> reply@ == ReplyView::Failure(
            RegistryErrorView::Persistence(detail@),
        ) && *final(registry) == *old(registry),
{
    let port = update.port();
    match registry.commit(update, written) {
        Ok(_) => Reply::Port(port),
        Err(e) => Reply::Failure(e),
    }
}

/// How a lookup ends once the staged document has been handed to the
/// writer: after a successful write the registry is the staged one and the
/// reply is the port; after a failed write the registry is untouched and
/// the reply is a `Persistence` failure with the writer's message.
pub open spec fn get_port_settled(
    before: Registry,
    after: Registry,
    staged: RegistryView,
    port: u16,
    written: Result<(), String>,
    reply: ReplyView,
) -> bool {
    match written {
        Ok(_) => reply == ReplyView::Port(port) && after@ == staged,
        Err(detail) => reply == ReplyView::Failure(RegistryErrorView::Persistence(detail@))
            && after == before,
    }
}

/// Lookup-and-report as one transaction: the caller is put through the
/// access filter, the name is resolved, the reported address is written
/// through `write` and committed, and only then is the port given out.
///
/// Where [`get_port_step`] answers at once (an untrusted caller, an
/// unknown name) that answer is the reply and the registry is untouched.
/// Otherwise `write` is called once, on a document that denotes the
/// staged registry and holds no name twice, and the lookup ends as
/// [`get_port_settled`] says.
pub fn get_port_handler<F>(
    peer: Option<IpAddress>,
    registry: &mut Registry,
    service_name: &str,
    ip: &str,
    write: F,
) -> (reply: Reply) where F: FnOnce(Vec<(String, ServiceInfo)>) -> Result<(), String>
    requires
        forall|doc: Vec<(String, ServiceInfo)>| write.requires((doc,)),
    ensures
        get_port_step(peer, old(registry)@, service_name@, ip@) matches GetPortStepView::Done(
            answer,
        ) ==> reply@ == answer && *final(registry) == *old(registry),
        get_port_step(peer, old(registry)@, service_name@, ip@) matches GetPortStepView::Persist(
            update,
            port,
        ) ==> exists|doc: Vec<(String, ServiceInfo)>, written: Result<(), String>|
            #[trigger] write.ensures((doc,), written) && document_names_distinct(doc@)
                && document_map(doc@) == update && get_port_settled(
                *old(registry),
                *final(registry),
                update,
                port,
                written,
                reply@,
            ),
{
    match begin_get_port(peer, registry, service_name, ip) {
        GetPortStep::Done(reply) => reply,
        GetPortStep::Persist(update) => {
            let doc = update.document();
            let ghost handed = doc;
            let written = write(doc);
            let ghost outcome = written;
            let reply = finish_get_port(registry, update, written);
            assert(write.ensures((handed,), outcome));
            reply
        },
    }
}

/// Status query: a trusted caller gets the report, any other caller
/// `AccessDenied`.
pub fn status_handler(peer: Option<IpAddress>, report: StatusReport) -> (reply: Reply)
    ensures
        is_trusted(peer) ==> reply@ == ReplyView::Status(report),
        !is_trusted(peer) ==> reply@ == ReplyView::Failure(RegistryErrorView::AccessDenied),
{
    let filter = LocalNetworkOnly;
    match filter.check(peer) {
        Ok(_) => Reply::Status(report),
        Err(denied) => Reply::Failure(denied),
    }
}

/// Stop request: for a trusted caller the reply is `Stopping` and the
/// process is to end [`SHUTDOWN_GRACE_SECS`] seconds after the reply has
/// been sent; any other caller gets `AccessDenied` and nothing is scheduled.
pub fn stop_handler(peer: Option<IpAddress>) -> (plan: (Reply, Option<u64>))
    ensures
        is_trusted(peer) ==> plan.0@ == ReplyView::Stopping && plan.1 == Some(SHUTDOWN_GRACE_SECS),
        !is_trusted(peer) ==> plan.0@ == ReplyView::Failure(RegistryErrorView::AccessDenied)
            && plan.1 is None,
{
    let filter = LocalNetworkOnly;
    match filter.check(peer) {
        Ok(_) => (Reply::Stopping, Some(SHUTDOWN_GRACE_SECS)),
        Err(denied) => (Reply::Failure(denied), None),
    }
}

} // verus!
