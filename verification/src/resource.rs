//! The resource protocol: a request for `res://<host><path>` is answered
//! with the file of that name inside the sandbox, or with a 404.
//!
//! Reading the file is left to the caller. It asks `resource_path` where
//! to look, reads, and hands what it found to `get_res_response`.

use crate::mime::{content_type, content_type_of};
use crate::response::{text_response, Response, ResponseView};
use crate::sandbox::{is_separator, no_separator, resolve, resolved, root};
use crate::text::{chars_of, string_of, text_of_owned};
use vstd::prelude::*;
use vstd::string::StringExecFns;

verus! {

/// A request of the resource protocol. The host of the address is part of
/// the file's location: it is written in front of the path. It is empty
/// where the address has none.
#[derive(Debug)]
pub struct ResourceRequest {
    pub scheme: String,
    pub host: String,
    pub path: String,
}

impl ResourceRequest {
    /// The virtual path that the request names: host, then path.
    pub open spec fn location(&self) -> Seq<char> {
        self.host@ + self.path@
    }
}

/// The position of the dot that begins the extension of the last name of
/// `path`, or -1: scanning from the end, the first dot met before any
/// separator.
pub open spec fn last_dot(path: Seq<char>) -> int
    decreases path.len(),
{
    if path.len() == 0 || is_separator(path.last()) {
        -1
    } else if path.last() == '.' {
        path.len() - 1
    } else {
        last_dot(path.drop_last())
    }
}

/// The extension of the last name of `path`: what follows its last dot.
/// Empty where the name has no dot, or only the one it begins with.
pub open spec fn extension_of(path: Seq<char>) -> Seq<char> {
    let dot = last_dot(path);
    if dot <= 0 || is_separator(path[dot - 1]) {
        Seq::empty()
    } else {
        path.subrange(dot + 1, path.len() as int)
    }
}

/// The extension of the last name of a path.
pub fn extension(path: &str) -> (ext: String)
    ensures
        ext@ == extension_of(path@),
{
    let chars = chars_of(path);
    let mut end: usize = chars.len();
    let mut dot: Option<usize> = None;
    assert(chars@.take(end as int) =~= chars@);
    while end > 0
        invariant_except_break
            dot is None,
            last_dot(chars@) == last_dot(chars@.take(end as int)),
        invariant
            end <= chars.len(),
        ensures
            match dot {
                Some(d) => d < chars.len() && last_dot(chars@) == d,
                None => last_dot(chars@) == -1,
            },
        decreases end,
    {
        let c = chars[end - 1];
        proof {
            assert(chars@.take(end as int).last() == c);
            assert(chars@.take(end as int).drop_last() =~= chars@.take(end - 1));
        }
        if c == '/' || c == '\\' {
            break ;
        }
        if c == '.' {
            dot = Some(end - 1);
            break ;
        }
        end -= 1;
    }
    let mut ext: Vec<char> = Vec::new();
    match dot {
        Some(d) => {
            if d > 0 && chars[d - 1] != '/' && chars[d - 1] != '\\' {
                let mut i: usize = d + 1;
                while i < chars.len()
                    invariant
                        d < i <= chars.len(),
                        ext@ == chars@.subrange(d + 1, i as int),
                    decreases chars.len() - i,
                {
                    ext.push(chars[i]);
                    assert(chars@.subrange(d + 1, i + 1) =~= chars@.subrange(d + 1, i as int).push(
                        chars@[i as int],
                    ));
                    i += 1;
                }
            }
        },
        None => {},
    }
    string_of(&ext)
}

/// What a missing file is reported with.
pub open spec fn not_found_message(location: Seq<char>) -> Seq<char> {
    "Could not find file at \""@ + location + "\""@
}

/// The answer to a request, given the content of the file at its resolved
/// path (`None` where there is no such file or it cannot be opened).
///
/// A file that was found is served with status 200 under the content type
/// of its extension. Everything else is a 404 in plain text that names the
/// location asked for: a missing file, and equally a location outside the
/// sandbox, whatever content the caller may have supplied for it.
pub open spec fn res_response(location: Seq<char>, content: Option<Seq<u8>>) -> ResponseView {
    match (resolved(location), content) {
        (Some(path), Some(bytes)) => ResponseView {
            status: 200,
            content_type: content_type_of(extension_of(path)),
            body: bytes,
        },
        (Some(path), None) => text_response(404, not_found_message(path)),
        (None, _) => text_response(404, not_found_message(root() + location)),
    }
}

/// The bytes of a file, where there is one.
pub open spec fn bytes_of(content: Option<Vec<u8>>) -> Option<Seq<u8>> {
    match content {
        Some(bytes) => Some(bytes@),
        None => None,
    }
}

/// The path inside the sandbox at which the requested file is to be
/// looked for, or `None` where the request points outside the sandbox and
/// nothing is to be read.
pub fn resource_path(request: &ResourceRequest) -> (path: Option<String>)
    ensures
        text_of_owned(path) == resolved(request.location()),
{
    let location = request.host.clone().concat(request.path.as_str());
    resolve(location.as_str())
}

/// The text of the 404 for a location.
fn not_found(location: &str) -> (response: Response)
    ensures
        response@ == text_response(404, not_found_message(location@)),
{
    let mut message = "Could not find file at \"".to_owned();
    message.append(location);
    message.append("\"");
    Response::text(404, message.as_str())
}

/// Answers a request of the resource protocol. `content` is what the
/// caller read at `resource_path(request)`: the file's bytes, or `None`
/// where the file does not exist or could not be opened.
pub fn get_res_response(request: &ResourceRequest, content: Option<Vec<u8>>) -> (response:
    Response)
    ensures
        response@ == res_response(request.location(), bytes_of(content)),
        response.status == 200 || response.status == 404,
        response.status == 200 <==> resolved(request.location()) is Some && content is Some,
{
    let location = request.host.clone().concat(request.path.as_str());
    match resolve(location.as_str()) {
        Some(path) => match content {
            Some(bytes) => {
                let ext = extension(path.as_str());
                Response {
                    status: 200,
                    content_type: content_type(ext.as_str()).to_owned(),
                    body: bytes,
                }
            },
            None => not_found(path.as_str()),
        },
        None => {
            let asked = "res://".to_owned().concat(location.as_str());
            not_found(asked.as_str())
        },
    }
}

/// The extension of a path is that of its last name alone: the names of
/// the directories in front of it, with any dots in them, play no part.
pub proof fn lemma_extension_of_last_name(directory: Seq<char>, name: Seq<char>)
    requires
        no_separator(name),
    ensures
        extension_of(directory.push('/') + name) == extension_of(name),
{
    let path = directory.push('/') + name;
    let offset = directory.len() + 1;
    lemma_last_dot_of_last_name(directory, name);
    let dot = last_dot(name);
    if dot > 0 {
        assert(path[offset + dot - 1] == name[dot - 1]);
        assert(path.subrange(offset + dot + 1, path.len() as int) =~= name.subrange(
            dot + 1,
            name.len() as int,
        ));
    } else if dot == 0 {
        assert(path[offset - 1] == '/');
    }
}

/// The last dot of a path lies in its last name, or nowhere.
proof fn lemma_last_dot_of_last_name(directory: Seq<char>, name: Seq<char>)
    requires
        no_separator(name),
    ensures
        -1 <= last_dot(name) < name.len(),
        last_dot(name) >= 0 ==> name[last_dot(name)] == '.',
        last_dot(directory.push('/') + name) == if last_dot(name) >= 0 {
            directory.len() + 1 + last_dot(name)
        } else {
            -1
        },
    decreases name.len(),
{
    let path = directory.push('/') + name;
    if name.len() == 0 {
        assert(path =~= directory.push('/'));
    } else {
        assert(path.last() == name.last());
        assert(!is_separator(name.last()));
        assert(path.drop_last() =~= directory.push('/') + name.drop_last());
        lemma_last_dot_of_last_name(directory, name.drop_last());
    }
}

} // verus!
