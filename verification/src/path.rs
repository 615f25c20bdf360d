//! Paths as strings, joined the way `Path::join` joins them on Unix.
use vstd::prelude::*;
use vstd::string::*;

verus! {

broadcast use vstd::string::group_string_axioms;

/// `part` appended to `base` as a path component: an absolute `part` (one
/// that starts with `/`) replaces `base`; otherwise a `/` is put between the
/// two unless `base` is empty or already ends with one.
pub open spec fn join_spec(base: Seq<char>, part: Seq<char>) -> Seq<char> {
    if part.len() > 0 && part[0] == '/' {
        part
    } else if base.len() == 0 || base.last() == '/' {
        base + part
    } else {
        base + seq!['/'] + part
    }
}

/// Joins `part` onto `base` (see `join_spec`).
pub fn join_path(base: &str, part: &str) -> (r: String)
    ensures
        r@ == join_spec(base@, part@),
{
    let slash = "/";
    proof {
        reveal_strlit("/");
    }
    let plen = part.unicode_len();
    if plen > 0 && part.get_char(0) == '/' {
        return part.to_owned();
    }
    let blen = base.unicode_len();
    let mut r = base.to_owned();
    if blen > 0 && base.get_char(blen - 1) != '/' {
        r.append(slash);
    }
    r.append(part);
    r
}

/// A relative component joined onto a path: the result starts with the
/// path and ends with the component, and is at least as long as both
/// together.
pub proof fn lemma_join_relative(base: Seq<char>, part: Seq<char>)
    requires
        !(part.len() > 0 && part[0] == '/'),
    ensures
        join_spec(base, part).len() >= base.len() + part.len(),
        join_spec(base, part).subrange(0, base.len() as int) == base,
        join_spec(base, part).subrange(
            join_spec(base, part).len() - part.len(),
            join_spec(base, part).len() as int,
        ) == part,
{
    let j = join_spec(base, part);
    assert(j.subrange(0, base.len() as int) =~= base);
    assert(j.subrange(j.len() - part.len(), j.len() as int) =~= part);
}

/// Joining two different relative components onto the same path gives two
/// different paths.
pub proof fn lemma_join_injective(base: Seq<char>, a: Seq<char>, b: Seq<char>)
    requires
        !(a.len() > 0 && a[0] == '/'),
        !(b.len() > 0 && b[0] == '/'),
        a != b,
    ensures
        join_spec(base, a) != join_spec(base, b),
{
    let ja = join_spec(base, a);
    let jb = join_spec(base, b);
    if ja == jb {
        if base.len() == 0 || base.last() == '/' {
            assert(a =~= ja.subrange(base.len() as int, ja.len() as int));
            assert(b =~= jb.subrange(base.len() as int, jb.len() as int));
        } else {
            assert(a =~= ja.subrange(base.len() as int + 1, ja.len() as int));
            assert(b =~= jb.subrange(base.len() as int + 1, jb.len() as int));
        }
    }
}

} // verus!
