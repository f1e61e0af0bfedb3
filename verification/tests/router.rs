use godot_wry::pending::PendingCallTable;
use godot_wry::router::{
    begin_invoke, classify, get_ipc_response, ipc_resource_path, resolve_invoke, resolve_ipc_res,
    IpcAction, IpcRequest, ResolveError, Route,
};
use godot_wry::resource::{get_res_response, resource_path, ResourceRequest};
use godot_wry::text::{chars_of, same_text, starts_with, strip_prefix};

fn ipc(host: &str, path: &str, body: &[u8]) -> IpcRequest {
    IpcRequest {
        method: "POST".to_string(),
        uri: format!("ipc://{}{}", host, path),
        host: host.to_string(),
        path: path.to_string(),
        headers: vec![("content-type".to_string(), "application/json".to_string())],
        body: body.to_vec(),
    }
}

#[test]
fn invoke_is_recorded_and_resolved_once() {
    let mut table: PendingCallTable<&'static str> = PendingCallTable::new();
    let action = get_ipc_response(&mut table, ipc("localhost", "/plugin:invoke", b"{\"foo\":\"bar\"}"), "caller");
    let token = match action {
        IpcAction::Invoke { token, request, displaced } => {
            assert_eq!(request.method, "POST");
            assert_eq!(request.uri, "ipc://localhost/plugin:invoke");
            assert_eq!(request.headers, vec![("content-type".to_string(), "application/json".to_string())]);
            assert_eq!(request.body, b"{\"foo\":\"bar\"}".to_vec());
            assert_eq!(displaced, None);
            token
        }
        _ => panic!("not an invocation"),
    };
    assert_eq!(table.len(), 1);
    assert_eq!(token.len(), 36);
    assert_eq!(token.as_bytes()[14], b'4');
    assert_eq!(resolve_invoke(&mut table, &token), Ok("caller"));
    assert_eq!(table.len(), 0);
    assert_eq!(resolve_invoke(&mut table, &token), Err(ResolveError::UnknownToken));
    assert_eq!(table.len(), 0);
}

#[test]
fn resolving_an_unknown_token_is_an_error_and_changes_nothing() {
    let mut table: PendingCallTable<u32> = PendingCallTable::new();
    assert_eq!(table.insert(7, 70), None);
    assert_eq!(
        resolve_invoke(&mut table, "00000000-0000-0000-0000-000000000008"),
        Err(ResolveError::UnknownToken)
    );
    assert_eq!(resolve_invoke(&mut table, "not a token"), Err(ResolveError::MalformedToken));
    assert_eq!(resolve_invoke(&mut table, ""), Err(ResolveError::MalformedToken));
    assert_eq!(table.len(), 1);
    assert!(table.is_pending(7));
    assert_eq!(resolve_invoke(&mut table, "00000000-0000-0000-0000-000000000007"), Ok(70));
    assert_eq!(table.len(), 0);
}

#[test]
fn many_invocations_get_distinct_tokens() {
    let mut table: PendingCallTable<usize> = PendingCallTable::new();
    let mut tokens: Vec<String> = Vec::new();
    for i in 0..64usize {
        match get_ipc_response(&mut table, ipc("localhost", "/plugin:invoke", b""), i) {
            IpcAction::Invoke { token, displaced, .. } => {
                assert_eq!(displaced, None);
                assert!(!tokens.contains(&token));
                tokens.push(token);
            }
            _ => panic!("not an invocation"),
        }
    }
    assert_eq!(table.len(), 64);
    assert_eq!(resolve_invoke(&mut table, &tokens[10]), Ok(10));
    assert_eq!(table.len(), 63);
    for (i, token) in tokens.iter().enumerate() {
        if i != 10 {
            assert_eq!(resolve_invoke(&mut table, token), Ok(i));
        }
    }
    assert_eq!(table.len(), 0);
}

#[test]
fn begin_invoke_writes_the_token_in_hyphenated_form() {
    let mut table: PendingCallTable<u8> = PendingCallTable::new();
    let id: u128 = 0x550e8400_e29b_41d4_a716_446655440000;
    match begin_invoke(&mut table, id, ipc("localhost", "/plugin:invoke", b"x"), 1) {
        IpcAction::Invoke { token, displaced, .. } => {
            assert_eq!(token, "550e8400-e29b-41d4-a716-446655440000");
            assert_eq!(displaced, None);
        }
        _ => panic!("not an invocation"),
    }
    assert!(table.is_pending(id));
    match begin_invoke(&mut table, id, ipc("localhost", "/plugin:invoke", b"y"), 2) {
        IpcAction::Invoke { displaced, .. } => assert_eq!(displaced, Some(1)),
        _ => panic!("not an invocation"),
    }
    assert_eq!(table.len(), 1);
    assert_eq!(resolve_invoke(&mut table, "550E8400E29B41D4A716446655440000"), Ok(2));
}

#[test]
fn unknown_host_is_forbidden() {
    let mut table: PendingCallTable<u8> = PendingCallTable::new();
    match get_ipc_response(&mut table, ipc("example.com", "/plugin:invoke", b""), 9) {
        IpcAction::Respond { sink, response } => {
            assert_eq!(sink, 9);
            assert_eq!(response.status, 403);
            assert_eq!(response.content_type, "text/plain");
            assert_eq!(response.body, b"Forbidden: Unknown host".to_vec());
        }
        _ => panic!("not refused"),
    }
    match get_ipc_response(&mut table, ipc("", "/plugin:res/x.png", b""), 3) {
        IpcAction::Respond { response, .. } => assert_eq!(response.status, 403),
        _ => panic!("not refused"),
    }
    assert_eq!(table.len(), 0);
}

#[test]
fn unknown_path_is_refused_with_the_same_status() {
    let mut table: PendingCallTable<u8> = PendingCallTable::new();
    match get_ipc_response(&mut table, ipc("localhost", "/elsewhere", b""), 4) {
        IpcAction::Respond { sink, response } => {
            assert_eq!(sink, 4);
            assert_eq!(response.status, 403);
            assert_eq!(response.content_type, "text/plain");
            assert_eq!(response.body, b"Not Found: Unknown path".to_vec());
        }
        _ => panic!("not refused"),
    }
    assert_eq!(table.len(), 0);
}

#[test]
fn resource_request_is_handed_back_with_its_path() {
    let mut table: PendingCallTable<u8> = PendingCallTable::new();
    match get_ipc_response(&mut table, ipc("localhost", "/plugin:res/ui/index.html", b""), 5) {
        IpcAction::ReadResource { sink, request, path } => {
            assert_eq!(sink, 5);
            assert_eq!(path, Some("res://ui/index.html".to_string()));
            let found = resolve_ipc_res(&request, Some(b"<html>".to_vec()));
            assert_eq!(found.status, 200);
            assert_eq!(found.content_type, "text/html");
            assert_eq!(found.body, b"<html>".to_vec());
            let missing = resolve_ipc_res(&request, None);
            assert_eq!(missing.status, 404);
            assert_eq!(missing.content_type, "text/plain");
            assert_eq!(missing.body, b"Could not find file at \"res://ui/index.html\"".to_vec());
        }
        _ => panic!("not a resource request"),
    }
    assert_eq!(table.len(), 0);
}

#[test]
fn resource_request_cannot_leave_the_root() {
    let request = ipc("localhost", "/plugin:res/../../etc/shadow", b"");
    assert_eq!(ipc_resource_path(&request), None);
    let response = resolve_ipc_res(&request, Some(b"secret".to_vec()));
    assert_eq!(response.status, 404);
    assert_eq!(response.body, b"Could not find file at \"res:///../../etc/shadow\"".to_vec());
}

#[test]
fn resource_prefix_is_stripped_once() {
    assert_eq!(ipc_resource_path(&ipc("localhost", "/plugin:res", b"")), Some("res://".to_string()));
    assert_eq!(ipc_resource_path(&ipc("localhost", "/plugin:res/a.css", b"")), Some("res://a.css".to_string()));
    assert_eq!(ipc_resource_path(&ipc("localhost", "/plugin:res///a.css", b"")), Some("res://a.css".to_string()));
    assert_eq!(
        ipc_resource_path(&ipc("localhost", "/plugin:res/plugin:res/a.css", b"")),
        Some("res://plugin:res/a.css".to_string())
    );
    assert_eq!(
        ipc_resource_path(&ipc("localhost", "/plugin:res/plugin:res", b"")),
        Some("res://plugin:res".to_string())
    );
    assert_eq!(ipc_resource_path(&ipc("localhost", "/plugin:resource/a", b"")), Some("res://ource/a".to_string()));
}

#[test]
fn repeated_prefix_names_a_directory_under_the_root() {
    let request = ipc("localhost", "/plugin:res/plugin:res/a.txt", b"");
    let path = ipc_resource_path(&request).unwrap();
    assert_eq!(path, "res://plugin:res/a.txt");
    let read = |path: &str| match path {
        "res://plugin:res/a.txt" => Some(b"in".to_vec()),
        "res://a.txt" => Some(b"out".to_vec()),
        _ => None,
    };
    let response = resolve_ipc_res(&request, read(&path));
    assert_eq!(response.status, 200);
    assert_eq!(response.content_type, "text/plain");
    assert_eq!(response.body, b"in".to_vec());
}

#[test]
fn prefixed_request_is_answered_as_the_resource_protocol_answers() {
    for relative in ["plugin:res/a.txt", "ui/index.html", "a/./b/../c.png", "missing", "x/../y.json"] {
        for content in [Some(b"data".to_vec()), None] {
            let prefixed = ipc("localhost", &format!("/plugin:res/{}", relative), b"");
            let direct = ResourceRequest {
                scheme: "res".to_string(),
                host: String::new(),
                path: relative.to_string(),
            };
            assert_eq!(ipc_resource_path(&prefixed), resource_path(&direct));
            let over_channel = resolve_ipc_res(&prefixed, content.clone());
            let over_protocol = get_res_response(&direct, content.clone());
            assert_eq!(over_channel.status, over_protocol.status);
            assert_eq!(over_channel.content_type, over_protocol.content_type);
            assert_eq!(over_channel.body, over_protocol.body);
        }
    }
}

#[test]
fn routes_in_order() {
    assert_eq!(classify("localhost", "/plugin:invoke"), Route::Invoke);
    assert_eq!(classify("localhost", "/plugin:res"), Route::Resource);
    assert_eq!(classify("localhost", "/plugin:res/a/b.png"), Route::Resource);
    assert_eq!(classify("localhost", "/plugin:resolve"), Route::Resource);
    assert_eq!(classify("localhost", "/plugin:invoke/"), Route::UnknownPath);
    assert_eq!(classify("localhost", "/plugin:re"), Route::UnknownPath);
    assert_eq!(classify("localhost", ""), Route::UnknownPath);
    assert_eq!(classify("LOCALHOST", "/plugin:invoke"), Route::UnknownHost);
    assert_eq!(classify("", "/plugin:invoke"), Route::UnknownHost);
    assert_eq!(classify("localhost.", "/plugin:res"), Route::UnknownHost);
}

#[test]
fn pending_table_insert_and_take() {
    let mut table: PendingCallTable<String> = PendingCallTable::new();
    assert_eq!(table.len(), 0);
    assert!(!table.is_pending(1));
    assert_eq!(table.insert(1, "one".to_string()), None);
    assert_eq!(table.insert(2, "two".to_string()), None);
    assert_eq!(table.len(), 2);
    assert_eq!(table.insert(1, "uno".to_string()), Some("one".to_string()));
    assert_eq!(table.len(), 2);
    assert_eq!(table.take(3), None);
    assert_eq!(table.len(), 2);
    assert_eq!(table.take(1), Some("uno".to_string()));
    assert!(!table.is_pending(1));
    assert!(table.is_pending(2));
    assert_eq!(table.take(1), None);
    assert_eq!(table.take(2), Some("two".to_string()));
    assert_eq!(table.len(), 0);
}

#[test]
fn text_helpers() {
    assert!(same_text("abc", "abc"));
    assert!(!same_text("abc", "abd"));
    assert!(!same_text("abc", "ab"));
    assert!(same_text("", ""));
    assert!(same_text("h\u{e9}llo", "h\u{e9}llo"));
    assert!(!same_text("h\u{e9}llo", "hello"));
    assert_eq!(chars_of("a\u{1f600}b"), vec!['a', '\u{1f600}', 'b']);
    assert_eq!(chars_of(""), Vec::<char>::new());
    assert!(starts_with("/plugin:res/x", "/plugin:res"));
    assert!(starts_with("abc", ""));
    assert!(starts_with("", ""));
    assert!(!starts_with("ab", "abc"));
    assert!(!starts_with("xabc", "abc"));
    assert_eq!(strip_prefix("///a/b", "/"), "//a/b");
    assert_eq!(strip_prefix("ababab", "ab"), "abab");
    assert_eq!(strip_prefix("ab", "ab"), "");
    assert_eq!(strip_prefix("abc", ""), "abc");
    assert_eq!(strip_prefix("abc", "x"), "abc");
    assert_eq!(strip_prefix("a", "ab"), "a");
    assert_eq!(strip_prefix("", "x"), "");
    assert_eq!(strip_prefix("\u{e9}t\u{e9}", "\u{e9}"), "t\u{e9}");
}
