//! Paths as texts.

use vstd::prelude::*;
use crate::text;

verus! {

/// A relative path below a directory. An absolute one stands for itself.
pub open spec fn joined(dir: Seq<char>, name: Seq<char>) -> Seq<char> {
    if name.len() > 0 && name[0] == '/' {
        name
    } else if dir.len() == 0 || dir.last() == '/' {
        dir + name
    } else {
        dir + "/"@ + name
    }
}

/// Joins a directory and a path below it.
pub fn join(dir: &str, name: &str) -> (r: String)
    ensures
        r@ == joined(dir@, name@),
{
    let d = text::to_chars(dir);
    let n = text::to_chars(name);
    if n.len() > 0 && n[0] == '/' {
        name.to_owned()
    } else if d.len() == 0 || d[d.len() - 1] == '/' {
        text::cat2(dir, name)
    } else {
        text::cat3(dir, "/", name)
    }
}

/// A relative path comes after its directory with one `/` between them, and an
/// absolute one stands for itself.
pub proof fn law_joined_path_is_below_its_directory(dir: Seq<char>, name: Seq<char>)
    ensures
        name.len() > 0 && name[0] == '/' ==> joined(dir, name) == name,
        name.len() == 0 || name[0] != '/' ==> {
            let p = joined(dir, name);
            let gap = p.len() - dir.len() - name.len();
            &&& gap == if dir.len() == 0 || dir.last() == '/' {
                0int
            } else {
                1
            }
            &&& p.take(dir.len() as int) == dir
            &&& p.skip(p.len() - name.len()) == name
            &&& gap == 1 ==> p[dir.len() as int] == '/'
        },
{
    reveal_strlit("/");
    if name.len() == 0 || name[0] != '/' {
        let p = joined(dir, name);
        assert(p.take(dir.len() as int) =~= dir);
        assert(p.skip(p.len() - name.len()) =~= name);
    }
}

} // verus!
