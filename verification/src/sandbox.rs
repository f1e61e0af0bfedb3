//! Resolution of virtual paths inside the sandbox root.
//!
//! A virtual path is a run of names separated by `/`. A backslash
//! separates names as well, because the host's file layer reads it as a
//! separator. Empty names and `.` stand for the directory reached so far
//! and `..` for its parent. The root
//! has no parent: a path that asks for it has left the sandbox and resolves
//! to nothing, whatever follows. What is left after resolution is a list of
//! plain names, which is written behind the root prefix.

use crate::text::{chars_of, string_of, text_of_owned};
use vstd::prelude::*;

verus! {

/// The prefix of every path inside the sandbox.
pub open spec fn root() -> Seq<char> {
    "res://"@
}

/// Whether a character separates the names of a path: `/`, and `\` too.
pub open spec fn is_separator(c: char) -> bool {
    c == '/' || c == '\\'
}

/// The names of a path: the pieces between its separators. A path
/// without separator is one name; a trailing separator leaves an empty
/// name at the end.
pub open spec fn split_path(path: Seq<char>) -> Seq<Seq<char>>
    decreases path.len(),
{
    if path.len() == 0 {
        seq![Seq::<char>::empty()]
    } else {
        let before = split_path(path.drop_last());
        if is_separator(path.last()) {
            before.push(Seq::<char>::empty())
        } else {
            before.drop_last().push(before.last().push(path.last()))
        }
    }
}

/// A name that stays in the directory reached so far: empty, or `.`.
pub open spec fn is_current(name: Seq<char>) -> bool {
    name.len() == 0 || name == seq!['.']
}

/// The name of the parent directory, `..`.
pub open spec fn is_parent(name: Seq<char>) -> bool {
    name == seq!['.', '.']
}

/// A name of a file or directory: neither empty, `.` nor `..`, and free of
/// separators.
pub open spec fn is_plain(name: Seq<char>) -> bool {
    !is_current(name) && !is_parent(name) && no_separator(name)
}

/// No character of the name is a separator.
pub open spec fn no_separator(name: Seq<char>) -> bool {
    forall|k: int| 0 <= k < name.len() ==> !is_separator(#[trigger] name[k])
}

/// Every name is plain.
pub open spec fn all_plain(names: Seq<Seq<char>>) -> bool {
    forall|i: int| 0 <= i < names.len() ==> is_plain(#[trigger] names[i])
}

/// One step of a walk from the directory `at`, given as the plain names
/// that lead to it from the root, or `None` once the walk has left the
/// sandbox.
pub open spec fn step(at: Option<Seq<Seq<char>>>, name: Seq<char>) -> Option<Seq<Seq<char>>> {
    match at {
        None => None,
        Some(names) => if is_current(name) {
            Some(names)
        } else if is_parent(name) {
            if names.len() == 0 {
                None
            } else {
                Some(names.drop_last())
            }
        } else {
            Some(names.push(name))
        },
    }
}

/// Where a walk along `names` from the root ends.
pub open spec fn walk(names: Seq<Seq<char>>) -> Option<Seq<Seq<char>>>
    decreases names.len(),
{
    if names.len() == 0 {
        Some(Seq::empty())
    } else {
        step(walk(names.drop_last()), names.last())
    }
}

/// The names written as one relative path.
pub open spec fn join(names: Seq<Seq<char>>) -> Seq<char>
    decreases names.len(),
{
    if names.len() == 0 {
        Seq::empty()
    } else if names.len() == 1 {
        names[0]
    } else {
        join(names.drop_last()) + seq!['/'] + names.last()
    }
}

/// The path inside the sandbox that a virtual path resolves to, or `None`
/// where it would leave the sandbox.
pub open spec fn resolved(path: Seq<char>) -> Option<Seq<char>> {
    match walk(split_path(path)) {
        Some(names) => Some(root() + join(names)),
        None => None,
    }
}

/// The characters of each name.
pub open spec fn names_of(stack: Seq<Vec<char>>) -> Seq<Seq<char>> {
    Seq::new(stack.len(), |i: int| stack[i]@)
}

/// Takes one step of the walk on the executable stack of names.
fn take_step(stack: &mut Vec<Vec<char>>, inside: &mut bool, name: Vec<char>)
    ensures
        step(
            if *old(inside) {
                Some(names_of(old(stack)@))
            } else {
                None
            },
            name@,
        ) == if *final(inside) {
            Some(names_of(final(stack)@))
        } else {
            None::<Seq<Seq<char>>>
        },
{
    if !*inside {
        return ;
    }
    let ghost before = names_of(stack@);
    if name.len() == 0 || (name.len() == 1 && name[0] == '.') {
        assert(name.len() == 1 ==> name@ =~= seq!['.']);
    } else if name.len() == 2 && name[0] == '.' && name[1] == '.' {
        assert(name@ =~= seq!['.', '.']);
        if stack.len() == 0 {
            *inside = false;
        } else {
            stack.pop();
            assert(names_of(stack@) =~= before.drop_last());
        }
    } else {
        let ghost pushed = name@;
        stack.push(name);
        assert(names_of(stack@) =~= before.push(pushed));
    }
}

/// Writes the names as one path behind the root prefix.
fn write_path(stack: &Vec<Vec<char>>) -> (path: Vec<char>)
    ensures
        path@ == root() + join(names_of(stack@)),
{
    let mut path = chars_of("res://");
    let ghost names = names_of(stack@);
    let mut k: usize = 0;
    while k < stack.len()
        invariant
            k <= stack.len(),
            names == names_of(stack@),
            path@ == root() + join(names.take(k as int)),
        decreases stack.len() - k,
    {
        let ghost head = path@;
        if k > 0 {
            path.push('/');
        }
        let name = &stack[k];
        let mut j: usize = 0;
        while j < name.len()
            invariant
                j <= name.len(),
                path@ == (if k > 0 {
                    head.push('/')
                } else {
                    head
                }) + name@.take(j as int),
            decreases name.len() - j,
        {
            path.push(name[j]);
            assert(name@.take(j + 1) =~= name@.take(j as int).push(name@[j as int]));
            j += 1;
        }
        proof {
            assert(name@.take(name.len() as int) =~= name@);
            let upto = names.take(k + 1);
            assert(upto.drop_last() =~= names.take(k as int));
            assert(upto.last() == name@);
            assert(path@ =~= root() + join(upto));
        }
        k += 1;
    }
    assert(names.take(stack.len() as int) =~= names);
    path
}

/// Resolves a virtual path inside the sandbox. The result is `None`
/// exactly when the path would leave the sandbox.
pub fn resolve(path: &str) -> (inside: Option<String>)
    ensures
        text_of_owned(inside) == resolved(path@),
{
    let chars = chars_of(path);
    let mut stack: Vec<Vec<char>> = Vec::new();
    let mut still_inside = true;
    let mut current: Vec<char> = Vec::new();
    let ghost mut done: Seq<Seq<char>> = Seq::empty();
    let mut i: usize = 0;
    assert(chars@.take(0) =~= Seq::<char>::empty());
    assert(split_path(chars@.take(0)) =~= done.push(current@));
    assert(names_of(stack@) =~= Seq::<Seq<char>>::empty());
    while i < chars.len()
        invariant
            i <= chars.len(),
            split_path(chars@.take(i as int)) == done.push(current@),
            walk(done) == if still_inside {
                Some(names_of(stack@))
            } else {
                None::<Seq<Seq<char>>>
            },
        decreases chars.len() - i,
    {
        let c = chars[i];
        proof {
            assert(chars@.take(i + 1).drop_last() =~= chars@.take(i as int));
            assert(chars@.take(i + 1).last() == c);
        }
        if c == '/' || c == '\\' {
            proof {
                let closed = done.push(current@);
                assert(closed.drop_last() =~= done);
                done = closed;
            }
            take_step(&mut stack, &mut still_inside, current);
            current = Vec::new();
        } else {
            let ghost name = current@;
            current.push(c);
            assert(done.push(name).drop_last().push(done.push(name).last().push(c)) =~= done.push(
                current@,
            ));
        }
        i += 1;
    }
    proof {
        assert(chars@.take(chars.len() as int) =~= chars@);
        let closed = done.push(current@);
        assert(closed.drop_last() =~= done);
    }
    take_step(&mut stack, &mut still_inside, current);
    if still_inside {
        let written = write_path(&stack);
        Some(string_of(&written))
    } else {
        None
    }
}

/// A path always has at least one name, and no name holds a separator.
pub proof fn lemma_split_names(path: Seq<char>)
    ensures
        split_path(path).len() >= 1,
        forall|i: int| 0 <= i < split_path(path).len() ==> no_separator(#[trigger] split_path(path)[i]),
    decreases path.len(),
{
    if path.len() > 0 {
        lemma_split_names(path.drop_last());
        let before = split_path(path.drop_last());
        assert(no_separator(before.last()));
    }
}

/// Writing a separator behind a path opens a new, empty name.
proof fn lemma_split_separator(path: Seq<char>, separator: char)
    requires
        is_separator(separator),
    ensures
        split_path(path.push(separator)) == split_path(path).push(Seq::<char>::empty()),
{
    assert(path.push(separator).drop_last() =~= path);
}

/// Writing a name without separator behind a path extends its last name.
proof fn lemma_split_append(path: Seq<char>, name: Seq<char>)
    requires
        no_separator(name),
    ensures
        split_path(path + name) == split_path(path).drop_last().push(split_path(path).last() + name),
    decreases name.len(),
{
    lemma_split_names(path);
    if name.len() == 0 {
        assert(path + name =~= path);
        assert(split_path(path).last() + name =~= split_path(path).last());
        assert(split_path(path).drop_last().push(split_path(path).last()) =~= split_path(path));
    } else {
        let shorter = name.drop_last();
        assert(no_separator(shorter));
        lemma_split_append(path, shorter);
        assert((path + name).drop_last() =~= path + shorter);
        assert((path + name).last() == name.last());
        let before = split_path(path + shorter);
        assert(before.last().push(name.last()) =~= split_path(path).last() + name);
        assert(before.drop_last() =~= split_path(path).drop_last());
    }
}

/// A relative path written from plain names splits into those names again.
pub proof fn lemma_split_join(names: Seq<Seq<char>>)
    requires
        names.len() > 0,
        all_plain(names),
    ensures
        split_path(join(names)) == names,
    decreases names.len(),
{
    let empty = Seq::<char>::empty();
    assert(is_plain(names.last()));
    if names.len() == 1 {
        lemma_split_append(empty, names[0]);
        assert(empty + names[0] =~= names[0]);
        assert(split_path(empty) =~= seq![empty]);
        assert(seq![empty].drop_last().push(empty + names[0]) =~= names);
    } else {
        let head = names.drop_last();
        assert(all_plain(head)) by {
            assert forall|i: int| 0 <= i < head.len() implies is_plain(#[trigger] head[i]) by {
                assert(head[i] == names[i]);
            }
        }
        lemma_split_join(head);
        lemma_split_separator(join(head), '/');
        assert(join(head) + seq!['/'] =~= join(head).push('/'));
        lemma_split_append(join(head).push('/'), names.last());
        assert(head.push(empty).drop_last().push(empty + names.last()) =~= names);
    }
}

/// A walk along plain names never leaves the sandbox and ends at exactly
/// those names.
pub proof fn lemma_walk_plain(names: Seq<Seq<char>>)
    requires
        all_plain(names),
    ensures
        walk(names) == Some(names),
    decreases names.len(),
{
    if names.len() == 0 {
        assert(names =~= Seq::<Seq<char>>::empty());
    } else {
        let head = names.drop_last();
        assert(all_plain(head)) by {
            assert forall|i: int| 0 <= i < head.len() implies is_plain(#[trigger] head[i]) by {
                assert(head[i] == names[i]);
            }
        }
        lemma_walk_plain(head);
        assert(is_plain(names.last()));
        assert(head.push(names.last()) =~= names);
    }
}

/// Wherever a walk ends inside the sandbox, it ends at plain names.
pub proof fn lemma_walk_ends_plain(names: Seq<Seq<char>>)
    requires
        forall|i: int| 0 <= i < names.len() ==> no_separator(#[trigger] names[i]),
    ensures
        walk(names) matches Some(reached) ==> all_plain(reached),
    decreases names.len(),
{
    if names.len() > 0 {
        let head = names.drop_last();
        assert forall|i: int| 0 <= i < head.len() implies no_separator(#[trigger] head[i]) by {
            assert(head[i] == names[i]);
        }
        lemma_walk_ends_plain(head);
        assert(no_separator(names.last()));
        if let Some(at) = walk(head) {
            if let Some(reached) = walk(names) {
                assert forall|i: int| 0 <= i < reached.len() implies is_plain(
                    #[trigger] reached[i],
                ) by {
                    if i < at.len() {
                        assert(is_plain(at[i]));
                    }
                }
            }
        }
    }
}

/// The sandbox holds. Whatever the virtual path, resolution either fails
/// or yields the root prefix followed by plain names: no name of the
/// result is `..`, so reading the result can never step above the root.
/// Resolving the relative part of a result gives the same result again.
pub proof fn lemma_resolved_stays_inside(path: Seq<char>)
    ensures
        match walk(split_path(path)) {
            Some(names) => {
                &&& resolved(path) == Some(root() + join(names))
                &&& all_plain(names)
                &&& names.len() > 0 ==> split_path(join(names)) == names
                &&& names.len() > 0 ==> resolved(join(names)) == resolved(path)
            },
            None => resolved(path) is None,
        },
{
    lemma_split_names(path);
    lemma_walk_ends_plain(split_path(path));
    if let Some(names) = walk(split_path(path)) {
        if names.len() > 0 {
            lemma_split_join(names);
            lemma_walk_plain(names);
        }
    }
}

/// The names of two paths written with a separator between them are the
/// names of the first followed by the names of the second.
pub proof fn lemma_split_concat(path: Seq<char>, separator: char, rest: Seq<char>)
    requires
        is_separator(separator),
    ensures
        split_path(path + seq![separator] + rest) == split_path(path) + split_path(rest),
    decreases rest.len(),
{
    let longer = path + seq![separator] + rest;
    let empty = Seq::<char>::empty();
    if rest.len() == 0 {
        assert(longer =~= path.push(separator));
        lemma_split_separator(path, separator);
        assert(split_path(path).push(empty) =~= split_path(path) + split_path(rest));
    } else {
        let shorter = path + seq![separator] + rest.drop_last();
        lemma_split_concat(path, separator, rest.drop_last());
        lemma_split_names(rest.drop_last());
        assert(longer.drop_last() =~= shorter);
        assert(longer.last() == rest.last());
        let head = split_path(path);
        let tail = split_path(rest.drop_last());
        if is_separator(rest.last()) {
            assert((head + tail).push(empty) =~= head + tail.push(empty));
        } else {
            assert((head + tail).last() == tail.last());
            assert((head + tail).drop_last().push(tail.last().push(rest.last())) =~= head
                + tail.drop_last().push(tail.last().push(rest.last())));
        }
    }
}

/// Once a walk has left the sandbox, no further names bring it back.
pub proof fn lemma_walk_escape_is_final(names: Seq<Seq<char>>, more: Seq<Seq<char>>)
    requires
        walk(names) is None,
    ensures
        walk(names + more) is None,
    decreases more.len(),
{
    if more.len() == 0 {
        assert(names + more =~= names);
    } else {
        lemma_walk_escape_is_final(names, more.drop_last());
        assert((names + more).drop_last() =~= names + more.drop_last());
    }
}

/// A path that asks for the parent of the root has left the sandbox, and
/// nothing written behind it brings it back.
pub proof fn lemma_escape_is_final(path: Seq<char>, separator: char, rest: Seq<char>)
    requires
        is_separator(separator),
        resolved(path) is None,
    ensures
        resolved(path + seq![separator] + rest) is None,
{
    lemma_split_concat(path, separator, rest);
    lemma_walk_escape_is_final(split_path(path), split_path(rest));
}

/// Names that stay in the directory reached so far change nothing: a walk
/// that begins with one ends where the walk along the rest ends.
pub proof fn lemma_walk_skips_current(name: Seq<char>, names: Seq<Seq<char>>)
    requires
        is_current(name),
    ensures
        walk(seq![name] + names) == walk(names),
    decreases names.len(),
{
    let all = seq![name] + names;
    if names.len() == 0 {
        assert(all.drop_last() =~= Seq::<Seq<char>>::empty());
        assert(all.last() == name);
        assert(walk(all.drop_last()) == Some(Seq::<Seq<char>>::empty()));
    } else {
        lemma_walk_skips_current(name, names.drop_last());
        assert(all.drop_last() =~= seq![name] + names.drop_last());
        assert(all.last() == names.last());
    }
}

/// Separators in front of a path change nothing: the path resolves as it
/// does without them.
pub proof fn lemma_leading_separator(separator: char, path: Seq<char>)
    requires
        is_separator(separator),
    ensures
        resolved(seq![separator] + path) == resolved(path),
{
    let empty = Seq::<char>::empty();
    lemma_split_concat(empty, separator, path);
    assert(empty + seq![separator] + path =~= seq![separator] + path);
    assert(split_path(empty) =~= seq![empty]);
    lemma_walk_skips_current(empty, split_path(path));
}

} // verus!
