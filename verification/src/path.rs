//! File paths as text.
use vstd::prelude::*;
use vstd::string::*;

use crate::text::{cat, cat3, chars, collect, own};

verus! {

/// Whether a path starts at the root.
pub open spec fn is_absolute(p: Seq<char>) -> bool {
    p.len() > 0 && p[0] == '/'
}

/// `b` as seen from `a`: `b` itself where it starts at the root.
pub open spec fn path_join_spec(a: Seq<char>, b: Seq<char>) -> Seq<char> {
    if is_absolute(b) {
        b
    } else if a.len() == 0 || a.last() == '/' {
        a + b
    } else {
        a + "/"@ + b
    }
}

/// `b` as seen from `a`.
pub fn path_join(a: &str, b: &str) -> (out: String)
    ensures
        out@ == path_join_spec(a@, b@),
{
    let x: Vec<char> = chars(a);
    let y: Vec<char> = chars(b);
    if y.len() > 0 && y[0] == '/' {
        own(b)
    } else if x.len() == 0 || x[x.len() - 1] == '/' {
        cat(a, b)
    } else {
        cat3(a, "/", b)
    }
}

/// A path without what names nothing at its end: slashes, the root's own
/// excepted, and `.` components, one that is the whole path excepted.
pub open spec fn bare(p: Seq<char>) -> Seq<char>
    decreases p.len(),
{
    if p.len() > 1 && (p.last() == '/' || (p.last() == '.' && p[p.len() - 2] == '/')) {
        bare(p.drop_last())
    } else {
        p
    }
}

/// The directory a path stands in: all but its last component; none for the
/// root and for the empty path.
pub open spec fn parent_of(p: Seq<char>) -> Option<Seq<char>> {
    let q = bare(p);
    if q.len() == 0 || q =~= seq!['/'] {
        None
    } else {
        let name = crate::text::after_last(q, '/');
        Some(bare(q.take(q.len() - name.len())))
    }
}

/// The last component of a path, where that is a name: none for the root, for
/// the empty path, and for one that ends in `..` or is `.`.
pub open spec fn file_name_of(p: Seq<char>) -> Option<Seq<char>> {
    let q = bare(p);
    let name = crate::text::after_last(q, '/');
    if q.len() == 0 || q =~= seq!['/'] || name =~= seq!['.'] || name =~= seq!['.', '.'] {
        None
    } else {
        Some(name)
    }
}

/// What follows the last slash is no longer than the path.
proof fn after_last_fits(s: Seq<char>, sep: char)
    ensures
        crate::text::after_last(s, sep).len() <= s.len(),
        crate::text::after_last(s, sep) == s.skip(s.len() - crate::text::after_last(s, sep).len()),
        crate::text::after_last(s, sep).len() < s.len() ==> s[s.len() - crate::text::after_last(s, sep).len() - 1]
            == sep,
    decreases s.len(),
{
    if s.len() == 0 || s.last() == sep {
        assert(crate::text::after_last(s, sep) =~= s.skip(s.len() as int));
    } else {
        after_last_fits(s.drop_last(), sep);
        let t = crate::text::after_last(s.drop_last(), sep);
        assert(t.push(s.last()) =~= s.skip(s.len() - 1 - t.len()));
    }
}

/// Where a path's [`bare`] form ends.
fn bare_end(cs: &Vec<char>, to: usize) -> (n: usize)
    requires
        to <= cs@.len(),
    ensures
        n <= to,
        cs@.take(n as int) == bare(cs@.take(to as int)),
{
    let mut n: usize = to;
    while n > 1 && (cs[n - 1] == '/' || (cs[n - 1] == '.' && cs[n - 2] == '/'))
        invariant
            n <= to <= cs@.len(),
            bare(cs@.take(to as int)) == bare(cs@.take(n as int)),
        decreases n,
    {
        assert(cs@.take(n as int).drop_last() =~= cs@.take(n - 1));
        n -= 1;
    }
    n
}

/// The directory `p` stands in.
pub fn parent(p: &str) -> (dir: Option<String>)
    ensures
        crate::text::opt_view(dir) == parent_of(p@),
{
    let cs: Vec<char> = chars(p);
    assert(cs@.take(cs@.len() as int) =~= cs@);
    let n: usize = bare_end(&cs, cs.len());
    let ghost q = bare(p@);
    if n == 0 || (n == 1 && cs[0] == '/') {
        assert(n == 1 ==> q =~= seq!['/']);
        return None;
    }
    assert(!(q =~= seq!['/'])) by {
        if q =~= seq!['/'] {
            assert(q.len() == 1 && q[0] == '/');
        }
    }
    let q_text = collect(&cs, 0, n);
    assert(cs@.subrange(0, n as int) =~= q);
    let name = crate::text::rsplit_last(q_text.as_str(), '/');
    proof {
        after_last_fits(q, '/');
    }
    let len: usize = name.as_str().unicode_len();
    let m: usize = bare_end(&cs, n - len);
    assert(q.take(n - len) =~= cs@.take(n - len));
    assert(cs@.subrange(0, m as int) =~= cs@.take(m as int));
    Some(collect(&cs, 0, m))
}

/// The last component of `p`.
pub fn file_name(p: &str) -> (name: Option<String>)
    ensures
        crate::text::opt_view(name) == file_name_of(p@),
{
    let cs: Vec<char> = chars(p);
    assert(cs@.take(cs@.len() as int) =~= cs@);
    let n: usize = bare_end(&cs, cs.len());
    let ghost q = bare(p@);
    if n == 0 || (n == 1 && cs[0] == '/') {
        assert(n == 1 ==> q =~= seq!['/']);
        return None;
    }
    assert(!(q =~= seq!['/'])) by {
        if q =~= seq!['/'] {
            assert(q.len() == 1 && q[0] == '/');
        }
    }
    let q_text = collect(&cs, 0, n);
    assert(cs@.subrange(0, n as int) =~= q);
    let name = crate::text::rsplit_last(q_text.as_str(), '/');
    if is_dots(name.as_str()) {
        return None;
    }
    Some(name)
}

/// Whether a component is `.` or `..`.
fn is_dots(name: &str) -> (yes: bool)
    ensures
        yes == (name@ =~= seq!['.'] || name@ =~= seq!['.', '.']),
{
    let cs: Vec<char> = chars(name);
    let yes: bool = (cs.len() == 1 && cs[0] == '.') || (cs.len() == 2 && cs[0] == '.' && cs[1] == '.');
    assert(yes == (name@ =~= seq!['.'] || name@ =~= seq!['.', '.'])) by {
        if name@ =~= seq!['.'] {
            assert(name@[0] == '.');
        }
        if name@ =~= seq!['.', '.'] {
            assert(name@[0] == '.' && name@[1] == '.');
        }
    }
    yes
}

/// A file name without its extension: all before the last dot, unless that is
/// the first character.
pub open spec fn stem_of(name: Seq<char>) -> Seq<char> {
    let ext = crate::text::after_last(name, '.');
    if ext.len() + 1 >= name.len() || name =~= seq!['.', '.'] {
        name
    } else {
        name.take(name.len() - ext.len() - 1)
    }
}

/// The extension of a file name: what follows the last dot, unless that is the
/// first character.
pub open spec fn extension_of(name: Seq<char>) -> Option<Seq<char>> {
    let ext = crate::text::after_last(name, '.');
    if ext.len() + 1 >= name.len() || name =~= seq!['.', '.'] {
        None
    } else {
        Some(ext)
    }
}

/// See [`stem_of`] and [`extension_of`].
pub fn split_extension(name: &str) -> (r: (String, Option<String>))
    ensures
        r.0@ == stem_of(name@),
        crate::text::opt_view(r.1) == extension_of(name@),
{
    let cs: Vec<char> = chars(name);
    let ext = crate::text::rsplit_last(name, '.');
    proof {
        after_last_fits(name@, '.');
    }
    let len: usize = ext.as_str().unicode_len();
    let dots: bool = cs.len() == 2 && cs[0] == '.' && cs[1] == '.';
    assert(dots == (name@ =~= seq!['.', '.'])) by {
        if name@ =~= seq!['.', '.'] {
            assert(name@[0] == '.' && name@[1] == '.');
        }
    }
    if len == cs.len() || len + 1 >= cs.len() || dots {
        return (own(name), None);
    }
    assert(cs@.subrange(0, cs@.len() - len - 1) =~= name@.take(name@.len() - len - 1));
    (collect(&cs, 0, cs.len() - len - 1), Some(ext))
}

/// Joining a component onto a directory gives a path in that directory, whose
/// last component it is, unless it names the directory itself or the one above.
pub proof fn join_names_the_child(dir: Seq<char>, name: Seq<char>)
    requires
        dir.len() > 0,
        bare(dir) == dir,
        name.len() > 0,
        name != seq!['.'],
        forall|i: int| 0 <= i < name.len() ==> #[trigger] name[i] != '/',
    ensures
        name != seq!['.', '.'] ==> file_name_of(path_join_spec(dir, name)) == Some(name),
        parent_of(path_join_spec(dir, name)) == Some(dir),
{
    let p = path_join_spec(dir, name);
    assert(name[0] != '/');
    assert(name[name.len() - 1] != '/');
    reveal_strlit("/");
    assert(p.last() == name.last());
    assert(p.len() > 1);
    if name.len() == 1 {
        assert(name[0] != '.') by {
            if name[0] == '.' {
                assert(name =~= seq!['.']);
            }
        }
    } else {
        assert(name[name.len() - 2] != '/');
        assert(p[p.len() - 2] == name[name.len() - 2]);
    }
    assert(bare(p) == p);
    assert(!(p =~= seq!['/'])) by {
        assert(p.last() != '/');
    }
    let front = p.take(p.len() - name.len());
    assert(front =~= if dir.last() == '/' { dir } else { dir + "/"@ });
    assert(p =~= front + name);
    after_last_of_join(front, name);
    if dir.last() == '/' {
        assert(dir.len() == 1) by {
            if dir.len() > 1 {
                bare_shrinks(dir.drop_last());
            }
        }
    } else {
        assert(front.drop_last() =~= dir);
    }
}

/// A trailing slash or `.` changes neither a path's name nor its parent.
pub proof fn trailing_dots_name_nothing(p: Seq<char>)
    requires
        p.len() > 0,
    ensures
        file_name_of(p + seq!['/']) == file_name_of(p),
        parent_of(p + seq!['/']) == parent_of(p),
        file_name_of(p + seq!['/', '.']) == file_name_of(p),
        parent_of(p + seq!['/', '.']) == parent_of(p),
{
    let slash = p + seq!['/'];
    let dot = p + seq!['/', '.'];
    assert(slash.drop_last() =~= p);
    assert(dot.drop_last() =~= slash);
    assert(bare(slash) == bare(p));
    assert(bare(dot) == bare(slash));
}

/// Taking off what names nothing never makes a path longer.
proof fn bare_shrinks(p: Seq<char>)
    ensures
        bare(p).len() <= p.len(),
    decreases p.len(),
{
    if p.len() > 1 && (p.last() == '/' || (p.last() == '.' && p[p.len() - 2] == '/')) {
        bare_shrinks(p.drop_last());
    }
}

/// What follows the last slash of a directory and a plain name is the name.
proof fn after_last_of_join(front: Seq<char>, name: Seq<char>)
    requires
        front.len() > 0,
        front.last() == '/',
        forall|i: int| 0 <= i < name.len() ==> #[trigger] name[i] != '/',
    ensures
        crate::text::after_last(front + name, '/') == name,
    decreases name.len(),
{
    if name.len() == 0 {
        assert(front + name =~= front);
        assert(name =~= Seq::<char>::empty());
    } else {
        assert(name[name.len() - 1] != '/');
        assert((front + name).drop_last() =~= front + name.drop_last());
        assert forall|i: int| 0 <= i < name.drop_last().len() implies #[trigger] name.drop_last()[i] != '/' by {
            assert(name[i] != '/');
        }
        after_last_of_join(front, name.drop_last());
        assert(name.drop_last().push(name.last()) =~= name);
    }
}

/// A joined path begins with the directory, ends with the name, and has one
/// slash between them that was not there before; a name from the root stands
/// alone.
pub proof fn joins_put_one_slash(a: Seq<char>, b: Seq<char>)
    ensures
        b.len() > 0 && b[0] == '/' ==> path_join_spec(a, b) == b,
        (b.len() == 0 || b[0] != '/') && a.len() > 0 && a.last() != '/' ==> {
            &&& path_join_spec(a, b).len() == a.len() + 1 + b.len()
            &&& path_join_spec(a, b).take(a.len() as int) == a
            &&& path_join_spec(a, b)[a.len() as int] == '/'
            &&& path_join_spec(a, b).skip(a.len() as int + 1) == b
        },
        (b.len() == 0 || b[0] != '/') && (a.len() == 0 || a.last() == '/') ==> path_join_spec(a, b) == a + b,
{
    reveal_strlit("/");
    assert((a + "/"@ + b).take(a.len() as int) =~= a);
    assert((a + "/"@ + b).skip(a.len() as int + 1) =~= b);
}

} // verus!
