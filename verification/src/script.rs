//! The script that delivers a message from the host to web content.

use crate::text::{chars_of, string_of};
use vstd::prelude::*;
use vstd::string::StringExecFns;

verus! {

/// What the script is made of in front of the message.
pub open spec fn script_head() -> Seq<char> {
    "document.dispatchEvent(new CustomEvent('message', { detail: '"@
}

/// What the script is made of behind the message.
pub open spec fn script_tail() -> Seq<char> {
    "' }))"@
}

/// The message with a backslash in front of each single quote, so that it
/// can stand between single quotes.
pub open spec fn quoted(message: Seq<char>) -> Seq<char>
    decreases message.len(),
{
    if message.len() == 0 {
        Seq::empty()
    } else if message.last() == '\'' {
        quoted(message.drop_last()) + seq!['\\', '\'']
    } else {
        quoted(message.drop_last()).push(message.last())
    }
}

/// The script that raises a `message` event in the document, with the
/// message as its detail.
pub open spec fn script_of(message: Seq<char>) -> Seq<char> {
    script_head() + quoted(message) + script_tail()
}

/// Writes the script that delivers `message` to web content.
pub fn message_script(message: &str) -> (script: String)
    ensures
        script@ == script_of(message@),
{
    let chars = chars_of(message);
    let mut escaped: Vec<char> = Vec::new();
    let mut i: usize = 0;
    assert(chars@.take(0) =~= Seq::<char>::empty());
    while i < chars.len()
        invariant
            i <= chars.len(),
            escaped@ == quoted(chars@.take(i as int)),
        decreases chars.len() - i,
    {
        let c = chars[i];
        proof {
            assert(chars@.take(i + 1).drop_last() =~= chars@.take(i as int));
            assert(chars@.take(i + 1).last() == c);
        }
        let ghost before = escaped@;
        if c == '\'' {
            escaped.push('\\');
            escaped.push('\'');
            assert(escaped@ =~= before + seq!['\\', '\'']);
        } else {
            escaped.push(c);
        }
        i += 1;
    }
    assert(chars@.take(chars.len() as int) =~= chars@);
    let body = string_of(&escaped);
    let mut script = "document.dispatchEvent(new CustomEvent('message', { detail: '".to_owned();
    script.append(body.as_str());
    script.append("' }))");
    script
}

/// A message without single quotes stands in the script as it is.
pub proof fn lemma_quoted_plain(message: Seq<char>)
    requires
        !message.contains('\''),
    ensures
        quoted(message) == message,
    decreases message.len(),
{
    if message.len() > 0 {
        assert(message[message.len() - 1] != '\'');
        assert forall|i: int| 0 <= i < message.drop_last().len() implies message.drop_last()[i]
            != '\'' by {
            assert(message[i] == message.drop_last()[i]);
        }
        lemma_quoted_plain(message.drop_last());
        assert(message.drop_last().push(message.last()) =~= message);
    }
}

/// In the quoted message every single quote has a backslash directly in
/// front of it.
pub proof fn lemma_quoted_guards_quotes(message: Seq<char>)
    ensures
        forall|i: int|
            0 <= i < quoted(message).len() && #[trigger] quoted(message)[i] == '\'' ==> i > 0
                && quoted(message)[i - 1] == '\\',
    decreases message.len(),
{
    if message.len() > 0 {
        lemma_quoted_guards_quotes(message.drop_last());
        let whole = quoted(message);
        let head = quoted(message.drop_last());
        assert forall|i: int| 0 <= i < whole.len() && #[trigger] whole[i] == '\'' implies i > 0
            && whole[i - 1] == '\\' by {
            if i < head.len() {
                assert(whole[i] == head[i]);
                assert(whole[i - 1] == head[i - 1]);
            }
        }
    }
}

} // verus!
