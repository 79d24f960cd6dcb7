//! Paths as texts, with the slash between their names.

use crate::text::{chars_of, join, joined, pieces, same, split, views};
use vstd::prelude::*;

verus! {

/// Why a path is not one below a directory.
#[derive(Debug, Clone, Copy, PartialEq, Eq, Structural)]
pub enum PathFault {
    /// It starts at the root.
    Absolute,
    /// It steps up to a parent.
    Traversal,
    /// It names nothing.
    Empty,
}

/// A piece of a path that names something: not an empty one, and not the single dot.
pub open spec fn is_name(piece: Seq<char>) -> bool {
    piece.len() > 0 && piece != "."@
}

/// The pieces of a list that name something, in their order.
pub open spec fn only_names(list: Seq<Seq<char>>) -> Seq<Seq<char>>
    decreases list.len(),
{
    if list.len() == 0 {
        Seq::<Seq<char>>::empty()
    } else if is_name(list.last()) {
        only_names(list.drop_last()).push(list.last())
    } else {
        only_names(list.drop_last())
    }
}

/// The names that a path goes through.
pub open spec fn names(path: Seq<char>) -> Seq<Seq<char>> {
    only_names(pieces(path, '/'))
}

pub open spec fn absolute(path: Seq<char>) -> bool {
    path.len() > 0 && path[0] == '/'
}

/// The names of a path that stays below the directory it is taken from.
pub open spec fn names_below(path: Seq<char>) -> Result<Seq<Seq<char>>, PathFault> {
    if absolute(path) {
        Err(PathFault::Absolute)
    } else if names(path).contains(".."@) {
        Err(PathFault::Traversal)
    } else if names(path).len() == 0 {
        Err(PathFault::Empty)
    } else {
        Ok(names(path))
    }
}

pub fn is_absolute(path: &str) -> (r: bool)
    ensures
        r == absolute(path@),
{
    let a = chars_of(path);
    a.len() > 0 && a[0] == '/'
}

/// The names of a path, or why it does not stay below the directory it is taken from.
pub fn relative_names(path: &str) -> (r: Result<Vec<String>, PathFault>)
    ensures
        match r {
            Ok(list) => names_below(path@) == Ok::<Seq<Seq<char>>, PathFault>(views(list@)),
            Err(e) => names_below(path@) == Err::<Seq<Seq<char>>, PathFault>(e),
        },
{
    if is_absolute(path) {
        return Err(PathFault::Absolute);
    }
    let parts = split(path, '/');
    let ghost all = pieces(path@, '/');
    let mut out: Vec<String> = Vec::new();
    let mut climbs = false;
    let mut i: usize = 0;
    while i < parts.len()
        invariant
            all == views(parts@),
            i <= parts.len(),
            views(out@) == only_names(all.take(i as int)),
            climbs == views(out@).contains(".."@),
        decreases parts.len() - i,
    {
        assert(all.take(i + 1).drop_last() =~= all.take(i as int));
        let part = &parts[i];
        let ghost before = views(out@);
        if part.as_str().as_bytes().len() > 0 && !same(part.as_str(), ".") {
            proof {
                no_bytes_no_chars(part@);
            }
            let up = same(part.as_str(), "..");
            let copy = part.clone();
            out.push(copy);
            assert(views(out@) =~= before.push(part@));
            proof {
                assert(views(out@)[before.len() as int] == part@);
                if before.contains(".."@) {
                    let k = choose|k: int| 0 <= k < before.len() && before[k] == ".."@;
                    assert(views(out@)[k] == ".."@);
                }
                if views(out@).contains(".."@) && part@ != ".."@ {
                    let k = choose|k: int| 0 <= k < views(out@).len() && views(out@)[k] == ".."@;
                    assert(before[k] == ".."@);
                }
            }
            if up {
                climbs = true;
            }
        } else {
            proof {
                no_bytes_no_chars(part@);
            }
        }
        i = i + 1;
    }
    assert(all.take(all.len() as int) =~= all);
    if climbs {
        Err(PathFault::Traversal)
    } else if out.len() == 0 {
        Err(PathFault::Empty)
    } else {
        Ok(out)
    }
}

proof fn no_bytes_no_chars(s: Seq<char>)
    ensures
        vstd::utf8::encode_utf8(s).len() == 0 <==> s.len() == 0,
{
    if s.len() > 0 {
        vstd::utf8::encode_utf8_first_scalar(s);
    }
}

/// The path with nothing in it but its names.
pub open spec fn plain_path(names: Seq<Seq<char>>) -> Seq<char> {
    joined(names, "/"@)
}

pub fn path_of(names: &Vec<String>) -> (r: String)
    ensures
        r@ == plain_path(views(names@)),
{
    join(names, "/")
}

/// A path taken from a directory.
pub open spec fn below(dir: Seq<char>, path: Seq<char>) -> Seq<char> {
    if absolute(path) {
        path
    } else if dir.len() == 0 || dir.last() == '/' {
        dir + path
    } else {
        dir + "/"@ + path
    }
}

pub fn join_path(dir: &str, path: &str) -> (r: String)
    ensures
        r@ == below(dir@, path@),
{
    if is_absolute(path) {
        return path.to_owned();
    }
    let d = chars_of(dir);
    let mut out = dir.to_owned();
    if d.len() > 0 && d[d.len() - 1] != '/' {
        out.push_str("/");
    }
    out.push_str(path);
    out
}

/// A name of a path that stays below is neither empty nor a step to the same or the parent
/// directory, and holds no slash.
pub proof fn names_below_are_plain(path: Seq<char>, i: int)
    requires
        names_below(path) matches Ok(list) && 0 <= i < list.len(),
    ensures
        names(path)[i].len() > 0,
        names(path)[i] != "."@,
        names(path)[i] != ".."@,
        !names(path)[i].contains('/'),
{
    pieces_hold_no_separator(path, '/');
    only_names_come_from(pieces(path, '/'));
    let piece = names(path)[i];
    assert(is_name(piece) && pieces(path, '/').contains(piece));
    if piece == ".."@ {
        assert(names(path).contains(".."@));
    }
}

proof fn only_names_come_from(list: Seq<Seq<char>>)
    ensures
        forall|i: int|
            0 <= i < only_names(list).len() ==> is_name(#[trigger] only_names(list)[i])
                && list.contains(only_names(list)[i]),
    decreases list.len(),
{
    if list.len() > 0 {
        only_names_come_from(list.drop_last());
        assert forall|i: int| 0 <= i < only_names(list).len() implies is_name(
            #[trigger] only_names(list)[i],
        ) && list.contains(only_names(list)[i]) by {
            let init = only_names(list.drop_last());
            if i < init.len() {
                assert(only_names(list)[i] == init[i]);
                let k = choose|k: int|
                    0 <= k < list.drop_last().len() && list.drop_last()[k] == init[i];
                assert(list[k] == init[i]);
            } else {
                assert(list[list.len() - 1] == only_names(list)[i]);
            }
        }
    }
}

proof fn pieces_hold_no_separator(s: Seq<char>, c: char)
    ensures
        pieces(s, c).len() > 0,
        forall|i: int| 0 <= i < pieces(s, c).len() ==> !(#[trigger] pieces(s, c)[i]).contains(c),
    decreases s.len(),
{
    if s.len() > 0 {
        pieces_hold_no_separator(s.drop_last(), c);
        let init = pieces(s.drop_last(), c);
        assert forall|i: int| 0 <= i < pieces(s, c).len() implies !(#[trigger] pieces(
            s,
            c,
        )[i]).contains(c) by {
            if i < init.len() - 1 {
                assert(pieces(s, c)[i] == init[i]);
            } else if s.last() != c {
                let last = init.last();
                assert(pieces(s, c)[i] == last.push(s.last()));
                assert(init[init.len() - 1] == last);
                assert forall|k: int| 0 <= k < last.push(s.last()).len() implies last.push(
                    s.last(),
                )[k] != c by {
                    if k < last.len() {
                        assert(last.contains(last[k]));
                    }
                }
            } else if i == init.len() - 1 {
                assert(pieces(s, c)[i] == init[i]);
            }
        }
    }
}

} // verus!
