//! Rules on path text: the last component of a path, and a name put under a
//! directory. Components are separated by `/`.

use vstd::prelude::*;
use vstd::string::*;
use crate::text::chars_of;

verus! {

/// Number of characters at the back of `path` that are not `/`.
pub open spec fn trailing_name_len(path: Seq<char>) -> nat
    decreases path.len(),
{
    if path.len() > 0 && path.last() != '/' {
        1 + trailing_name_len(path.drop_last())
    } else {
        0
    }
}

/// The trailing run of non-separators is no longer than the path.
pub proof fn lemma_trailing_name_len(path: Seq<char>)
    ensures
        trailing_name_len(path) <= path.len(),
        path.len() > 0 && path.last() != '/' ==> trailing_name_len(path) >= 1,
    decreases path.len(),
{
    if path.len() > 0 {
        lemma_trailing_name_len(path.drop_last());
    }
}

/// The last component of `path` that names something: separators and `.`
/// components at the end are passed over; there is none where the path is
/// used up or where `..` is met first.
pub open spec fn file_name(path: Seq<char>) -> Option<Seq<char>>
    decreases path.len(),
{
    if path.len() == 0 {
        None
    } else if path.last() == '/' {
        file_name(path.drop_last())
    } else {
        let n = trailing_name_len(path);
        let start = path.len() - n;
        let name = path.skip(start);
        proof {
            lemma_trailing_name_len(path);
        }
        if name == seq!['.'] {
            file_name(path.take(start))
        } else if name == seq!['.', '.'] {
            None
        } else {
            Some(name)
        }
    }
}

/// `name` placed under the directory `dir`: an absolute `name` stands for
/// itself, and a separator is put between the two unless `dir` is empty or
/// ends with one.
pub open spec fn joined(dir: Seq<char>, name: Seq<char>) -> Seq<char> {
    if name.len() > 0 && name[0] == '/' {
        name
    } else if dir.len() == 0 || dir.last() == '/' {
        dir + name
    } else {
        dir + seq!['/'] + name
    }
}

/// The last component of `path`, if it has one.
pub fn last_component(path: &str) -> (name: Option<String>)
    ensures
        match name {
            Some(n) => file_name(path@) == Some(n@),
            None => file_name(path@) is None,
        },
{
    let chars = chars_of(path);
    let mut end: usize = chars.len();
    assert(path@.take(end as int) == path@);
    while end > 0
        invariant
            chars@ == path@,
            end <= chars@.len(),
            file_name(path@) == file_name(path@.take(end as int)),
        decreases end,
    {
        let ghost head = path@.take(end as int);
        if chars[end - 1] == '/' {
            assert(head.drop_last() == path@.take(end - 1));
            end = end - 1;
        } else {
            let mut start: usize = end;
            assert(path@.take(end as int).take(end as int) == head);
            while start > 0 && chars[start - 1] != '/'
                invariant
                    chars@ == path@,
                    start <= end <= chars@.len(),
                    head == path@.take(end as int),
                    trailing_name_len(head) == (end - start) + trailing_name_len(
                        head.take(start as int),
                    ),
                decreases start,
            {
                assert(head.take(start as int).drop_last() == head.take(start - 1));
                start = start - 1;
            }
            proof {
                assert(trailing_name_len(head.take(start as int)) == 0);
                assert(head.skip(start as int) == path@.subrange(start as int, end as int));
                assert(head.take(start as int) == path@.take(start as int));
            }
            let ghost name = path@.subrange(start as int, end as int);
            if end - start == 1 && chars[start] == '.' {
                assert(name == seq!['.']);
                end = start;
            } else if end - start == 2 && chars[start] == '.' && chars[start + 1] == '.' {
                assert(name == seq!['.', '.']);
                return None;
            } else {
                proof {
                    if name == seq!['.'] {
                        assert(name.len() == 1 && name[0] == '.');
                    }
                    if name == seq!['.', '.'] {
                        assert(name.len() == 2 && name[0] == '.' && name[1] == '.');
                    }
                }
                return Some(path.substring_char(start, end).to_owned());
            }
        }
    }
    None
}

/// `name` placed under the directory `dir`.
pub fn join(dir: &str, name: &str) -> (path: String)
    ensures
        path@ == joined(dir@, name@),
{
    let d = chars_of(dir);
    let n = chars_of(name);
    if n.len() > 0 && n[0] == '/' {
        name.to_owned()
    } else if d.len() == 0 || d[d.len() - 1] == '/' {
        let mut path = dir.to_owned();
        path.append(name);
        path
    } else {
        proof {
            reveal_strlit("/");
            assert("/"@ == seq!['/']);
        }
        let mut path = dir.to_owned();
        path.append("/");
        path.append(name);
        path
    }
}

} // verus!
