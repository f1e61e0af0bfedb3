//! Routing of requests that web content sends over the message channel.
//!
//! A request is answered in one of three ways. A request under the
//! resource prefix is answered with a file from the sandbox. A request to
//! the invoke endpoint is recorded under a fresh correlation token and
//! passed to the host, which answers it later through `resolve_invoke`.
//! Every other request is refused at once.

use crate::pending::PendingCallTable;
use crate::resource::{bytes_of, get_res_response, res_response, ResourceRequest};
use crate::response::{text_response, Response, ResponseView};
use crate::sandbox::{is_separator, lemma_leading_separator, resolve, resolved};
use crate::text::{same_text, starts_with, strip_prefix, text_of_owned};
use crate::tokens::{
    draw_token, kind_bits, random_kind, read_token, token_of_text, token_text, write_token,
};
use vstd::prelude::*;

verus! {

/// A request as it arrives: method, full address, the host and path of
/// the address, headers and body. The host is empty where the address has
/// none.
#[derive(Debug)]
pub struct IpcRequest {
    pub method: String,
    pub uri: String,
    pub host: String,
    pub path: String,
    pub headers: Vec<(String, String)>,
    pub body: Vec<u8>,
}

/// Where a request is routed.
#[derive(Clone, Copy, Debug, PartialEq, Eq, Structural)]
pub enum Route {
    /// The host is not the one that requests must name.
    UnknownHost,
    /// The path begins with the resource prefix.
    Resource,
    /// The path is the invoke endpoint.
    Invoke,
    /// The path is neither.
    UnknownPath,
}

/// The host that requests must name.
pub open spec fn known_host() -> Seq<char> {
    "localhost"@
}

/// The prefix of the paths that ask for a resource.
pub open spec fn resource_prefix() -> Seq<char> {
    "/plugin:res"@
}

/// The path of the invoke endpoint.
pub open spec fn invoke_path() -> Seq<char> {
    "/plugin:invoke"@
}

/// The route of a request, decided by host and path in this order.
pub open spec fn route_of(host: Seq<char>, path: Seq<char>) -> Route {
    if host != known_host() {
        Route::UnknownHost
    } else if resource_prefix().is_prefix_of(path) {
        Route::Resource
    } else if path == invoke_path() {
        Route::Invoke
    } else {
        Route::UnknownPath
    }
}

/// Decides the route of a request.
pub fn classify(host: &str, path: &str) -> (route: Route)
    ensures
        route == route_of(host@, path@),
{
    if !same_text(host, "localhost") {
        Route::UnknownHost
    } else if starts_with(path, "/plugin:res") {
        Route::Resource
    } else if same_text(path, "/plugin:invoke") {
        Route::Invoke
    } else {
        Route::UnknownPath
    }
}

/// The refusal of a request whose host is unknown.
pub open spec fn unknown_host_response() -> ResponseView {
    text_response(403, "Forbidden: Unknown host"@)
}

/// The refusal of a request whose path is unknown. It carries the same
/// status as the refusal of an unknown host.
pub open spec fn unknown_path_response() -> ResponseView {
    text_response(403, "Not Found: Unknown path"@)
}

/// The virtual path that a resource request names: what follows the
/// resource prefix in its path. The prefix is taken off once; a path that
/// repeats it names a directory of that name under the root.
pub open spec fn ipc_location(path: Seq<char>) -> Seq<char> {
    if resource_prefix().is_prefix_of(path) {
        path.skip(resource_prefix().len() as int)
    } else {
        path
    }
}

/// What the caller is to do for a request. `S` is the type of the sink
/// through which a request is answered.
pub enum IpcAction<S> {
    /// Answer the request with this response.
    Respond { sink: S, response: Response },
    /// Read the file at `path` inside the sandbox (nothing, where `path`
    /// is `None`) and answer with `resolve_ipc_res` of what was read.
    ReadResource { sink: S, request: IpcRequest, path: Option<String> },
    /// The request is recorded under `token`: pass token and request to
    /// the host. `displaced` is the sink of an earlier request that was
    /// recorded under the same token and can no longer be answered.
    Invoke { token: String, request: IpcRequest, displaced: Option<S> },
}

/// Why a response could not be delivered.
#[derive(Clone, Copy, Debug, PartialEq, Eq, Structural)]
pub enum ResolveError {
    /// The text is not a token.
    MalformedToken,
    /// No request is recorded under the token.
    UnknownToken,
}

/// The path inside the sandbox of the file that a resource request asks
/// for, or `None` where it points outside the sandbox.
pub fn ipc_resource_path(request: &IpcRequest) -> (path: Option<String>)
    ensures
        text_of_owned(path) == resolved(ipc_location(request.path@)),
{
    let location = strip_prefix(request.path.as_str(), "/plugin:res");
    resolve(location.as_str())
}

/// Answers a resource request. `content` is what the caller read at
/// `ipc_resource_path(request)`: the file's bytes, or `None` where the
/// file does not exist or could not be opened. The answer is always a 200
/// or a 404.
pub fn resolve_ipc_res(request: &IpcRequest, content: Option<Vec<u8>>) -> (response: Response)
    ensures
        response@ == res_response(ipc_location(request.path@), bytes_of(content)),
        response.status == 200 || response.status == 404,
        response.status == 200 <==> resolved(ipc_location(request.path@)) is Some
            && content is Some,
{
    let location = strip_prefix(request.path.as_str(), "/plugin:res");
    let asked = ResourceRequest { scheme: "res".to_owned(), host: String::new(), path: location };
    assert(asked.location() =~= ipc_location(request.path@));
    get_res_response(&asked, content)
}

/// Records an invocation under the token `id` and tells the caller to
/// pass it to the host. The token is written in its text form.
pub fn begin_invoke<S>(
    table: &mut PendingCallTable<S>,
    id: u128,
    request: IpcRequest,
    sink: S,
) -> (action: IpcAction<S>)
    ensures
        final(table)@ == old(table)@.insert(id, sink),
        action matches IpcAction::Invoke { token, request: passed, displaced } && {
            &&& token@ == token_text(id)
            &&& token_of_text(token@) == Some(id)
            &&& passed == request
            &&& displaced == if old(table)@.contains_key(id) {
                Some(old(table)@[id])
            } else {
                None
            }
        },
{
    let displaced = table.insert(id, sink);
    IpcAction::Invoke { token: write_token(id), request, displaced }
}

/// Routes one request. `sink` is where its answer goes.
///
/// A request for an unknown host or path is refused with status 403. A
/// resource request is handed back with the path to read. An invocation is
/// recorded in `table` under a token drawn at random and is not answered
/// here: the host answers it through `resolve_invoke`.
pub fn get_ipc_response<S>(table: &mut PendingCallTable<S>, request: IpcRequest, sink: S) -> (action:
    IpcAction<S>)
    ensures
        match route_of(request.host@, request.path@) {
            Route::UnknownHost => {
                &&& final(table)@ == old(table)@
                &&& action matches IpcAction::Respond { sink: given, response }
                &&& given == sink
                &&& response@ == unknown_host_response()
            },
            Route::UnknownPath => {
                &&& final(table)@ == old(table)@
                &&& action matches IpcAction::Respond { sink: given, response }
                &&& given == sink
                &&& response@ == unknown_path_response()
            },
            Route::Resource => {
                &&& final(table)@ == old(table)@
                &&& action matches IpcAction::ReadResource { sink: given, request: passed, path }
                &&& given == sink
                &&& passed == request
                &&& text_of_owned(path) == resolved(ipc_location(request.path@))
            },
            Route::Invoke => {
                &&& action matches IpcAction::Invoke { token, request: passed, displaced }
                &&& passed == request
                &&& token_of_text(token@) matches Some(id)
                &&& token@ == token_text(id)
                &&& kind_bits(id) == random_kind()
                &&& final(table)@ == old(table)@.insert(id, sink)
                &&& displaced == if old(table)@.contains_key(id) {
                    Some(old(table)@[id])
                } else {
                    None
                }
            },
        },
{
    match classify(request.host.as_str(), request.path.as_str()) {
        Route::UnknownHost => IpcAction::Respond {
            sink,
            response: Response::text(403, "Forbidden: Unknown host"),
        },
        Route::UnknownPath => IpcAction::Respond {
            sink,
            response: Response::text(403, "Not Found: Unknown path"),
        },
        Route::Resource => {
            let path = ipc_resource_path(&request);
            IpcAction::ReadResource { sink, request, path }
        },
        Route::Invoke => {
            let id = draw_token();
            begin_invoke(table, id, request, sink)
        },
    }
}

/// Delivers the host's response to an invocation: removes the entry
/// recorded under `token` and hands out its sink, into which the caller
/// writes the response. A text that is no token, and a token under which
/// nothing is recorded, are errors that leave the table as it is.
pub fn resolve_invoke<S>(table: &mut PendingCallTable<S>, token: &str) -> (sink: Result<
    S,
    ResolveError,
>)
    ensures
        sink == resolution(old(table)@, token@),
        final(table)@ == after_resolution(old(table)@, token@),
        sink is Err ==> final(table)@ == old(table)@,
{
    match read_token(token) {
        None => Err(ResolveError::MalformedToken),
        Some(id) => match table.take(id) {
            Some(found) => Ok(found),
            None => {
                assert(old(table)@.remove(id) =~= old(table)@);
                Err(ResolveError::UnknownToken)
            },
        },
    }
}

/// What `resolve_invoke` hands out for a token text and a table.
pub open spec fn resolution<S>(table: Map<u128, S>, token: Seq<char>) -> Result<S, ResolveError> {
    match token_of_text(token) {
        None => Err(ResolveError::MalformedToken),
        Some(id) => if table.contains_key(id) {
            Ok(table[id])
        } else {
            Err(ResolveError::UnknownToken)
        },
    }
}

/// The table that `resolve_invoke` leaves for a token text and a table.
pub open spec fn after_resolution<S>(table: Map<u128, S>, token: Seq<char>) -> Map<u128, S> {
    match token_of_text(token) {
        Some(id) => table.remove(id),
        None => table,
    }
}

/// An invocation and its response meet. Where an invocation is recorded
/// under a token that was free, and the host later answers with a text
/// that spells that token, the answer reaches the sink of that
/// invocation, and the table is again what it was before the invocation.
pub proof fn lemma_response_reaches_its_caller<S>(
    table: Map<u128, S>,
    id: u128,
    sink: S,
    token: Seq<char>,
)
    ensures
        token_of_text(token) == Some(id) ==> resolution(table.insert(id, sink), token) == Ok::<
            S,
            ResolveError,
        >(sink),
        token_of_text(token) == Some(id) && !table.contains_key(id) ==> after_resolution(
            table.insert(id, sink),
            token,
        ) == table,
{
    if !table.contains_key(id) {
        assert(table.insert(id, sink).remove(id) =~= table);
    }
}

/// A response changes nothing but the entry of its own token: every
/// other invocation stays recorded with its sink, and an answer to a
/// token that is not recorded, or a text that is no token, changes
/// nothing at all.
pub proof fn lemma_response_leaves_others<S>(table: Map<u128, S>, token: Seq<char>, other: u128)
    ensures
        token_of_text(token) != Some(other) ==> (after_resolution(table, token).contains_key(other)
            == table.contains_key(other)),
        token_of_text(token) != Some(other) && table.contains_key(other) ==> after_resolution(
            table,
            token,
        )[other] == table[other],
        resolution(table, token) is Err ==> after_resolution(table, token) == table,
{
    if let Some(id) = token_of_text(token) {
        if !table.contains_key(id) {
            assert(table.remove(id) =~= table);
        }
    }
}

/// The message channel and the resource protocol serve the same files.
/// A request whose path is the resource prefix followed by `rest` is
/// answered exactly as the resource protocol answers for `rest`. Where a
/// separator stands between the prefix and a path, the request reads the
/// file that the resource protocol reads for that path. Status and content
/// type are then always the same, and for a path inside the root the
/// whole answer is.
pub proof fn lemma_prefixed_request_matches_resource(
    rest: Seq<char>,
    separator: char,
    path: Seq<char>,
    content: Option<Seq<u8>>,
)
    requires
        is_separator(separator),
    ensures
        ipc_location(resource_prefix() + rest) == rest,
        res_response(ipc_location(resource_prefix() + rest), content) == res_response(rest, content),
        resolved(ipc_location(resource_prefix() + (seq![separator] + path))) == resolved(path),
        resolved(path) is Some ==> res_response(
            ipc_location(resource_prefix() + (seq![separator] + path)),
            content,
        ) == res_response(path, content),
        res_response(
            ipc_location(resource_prefix() + (seq![separator] + path)),
            content,
        ).status == res_response(path, content).status,
        res_response(
            ipc_location(resource_prefix() + (seq![separator] + path)),
            content,
        ).content_type == res_response(path, content).content_type,
{
    let prefix = resource_prefix();
    assert forall|tail: Seq<char>| ipc_location(prefix + tail) == tail by {
        assert((prefix + tail).subrange(0, prefix.len() as int) =~= prefix);
        assert((prefix + tail).skip(prefix.len() as int) =~= tail);
    }
    lemma_leading_separator(separator, path);
}

} // verus!
