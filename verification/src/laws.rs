use crate::paths::{namespace_path_spec, topic_fqn_spec, topic_path_spec};
use vstd::prelude::*;

verus! {

/// An equal prefix cancels: if `p + x` and `p + y` are the same text, then
/// `x` and `y` are.
proof fn lemma_prefix_cancel(p: Seq<char>, x: Seq<char>, y: Seq<char>)
    requires
        p + x == p + y,
    ensures
        x == y,
{
    assert(x =~= (p + x).subrange(p.len() as int, (p + x).len() as int));
    assert(y =~= (p + y).subrange(p.len() as int, (p + y).len() as int));
}

/// A slash-joined pair splits one way only: if `a + "/" + b` and
/// `c + "/" + d` are the same text and neither `a` nor `c` contains a
/// slash, then `a == c` and `b == d`.
proof fn lemma_sep_split_unique(a: Seq<char>, b: Seq<char>, c: Seq<char>, d: Seq<char>)
    requires
        !a.contains('/'),
        !c.contains('/'),
        a + "/"@ + b == c + "/"@ + d,
    ensures
        a == c,
        b == d,
{
    reveal_strlit("/");
    let s = a + "/"@ + b;
    if a.len() < c.len() {
        assert(s[a.len() as int] == '/');
        assert((c + "/"@ + d)[a.len() as int] == c[a.len() as int]);
        assert(c.contains('/')) by {
            assert(c[a.len() as int] == '/');
        }
        assert(false);
    }
    if c.len() < a.len() {
        assert(s[c.len() as int] == (a + "/"@ + b)[c.len() as int]);
        assert((c + "/"@ + d)[c.len() as int] == '/');
        assert(a.contains('/')) by {
            assert(a[c.len() as int] == '/');
        }
        assert(false);
    }
    assert(a =~= s.subrange(0, a.len() as int));
    assert(c =~= (c + "/"@ + d).subrange(0, c.len() as int));
    assert(b =~= s.subrange(a.len() as int + 1, s.len() as int));
    assert(d =~= (c + "/"@ + d).subrange(c.len() as int + 1, s.len() as int));
}

/// Distinct tenant/namespace pairs address distinct namespace resources.
///
/// Creating, deleting and listing all go through the namespace path, so as
/// long as tenant names carry no slash, the path built for one pair never
/// collides with the path built for another: the namespace created is the
/// namespace later listed or deleted, and no other.
pub proof fn lemma_namespace_path_injective(
    t1: Seq<char>,
    n1: Seq<char>,
    t2: Seq<char>,
    n2: Seq<char>,
)
    requires
        !t1.contains('/'),
        !t2.contains('/'),
        namespace_path_spec(t1, n1) == namespace_path_spec(t2, n2),
    ensures
        t1 == t2,
        n1 == n2,
{
    assert("/namespaces/"@ + (t1 + "/"@ + n1) =~= namespace_path_spec(t1, n1));
    assert("/namespaces/"@ + (t2 + "/"@ + n2) =~= namespace_path_spec(t2, n2));
    lemma_prefix_cancel("/namespaces/"@, t1 + "/"@ + n1, t2 + "/"@ + n2);
    lemma_sep_split_unique(t1, n1, t2, n2);
}

/// Distinct topic triples address distinct topic resources.
///
/// Creation and deletion of a topic go through the topic path, so as long
/// as tenant and namespace names carry no slash, the path built for one
/// (tenant, namespace, topic) triple never collides with the path built
/// for another.
pub proof fn lemma_topic_path_injective(
    t1: Seq<char>,
    n1: Seq<char>,
    p1: Seq<char>,
    t2: Seq<char>,
    n2: Seq<char>,
    p2: Seq<char>,
)
    requires
        !t1.contains('/'),
        !n1.contains('/'),
        !t2.contains('/'),
        !n2.contains('/'),
        topic_path_spec(t1, n1, p1) == topic_path_spec(t2, n2, p2),
    ensures
        t1 == t2,
        n1 == n2,
        p1 == p2,
{
    assert("/persistent/"@ + (t1 + "/"@ + (n1 + "/"@ + p1)) =~= topic_path_spec(t1, n1, p1));
    assert("/persistent/"@ + (t2 + "/"@ + (n2 + "/"@ + p2)) =~= topic_path_spec(t2, n2, p2));
    lemma_prefix_cancel(
        "/persistent/"@,
        t1 + "/"@ + (n1 + "/"@ + p1),
        t2 + "/"@ + (n2 + "/"@ + p2),
    );
    lemma_sep_split_unique(t1, n1 + "/"@ + p1, t2, n2 + "/"@ + p2);
    lemma_sep_split_unique(n1, p1, n2, p2);
}

/// Distinct topic triples carry distinct fully qualified names.
///
/// A topic listing names each topic by its fully qualified name, so as
/// long as tenant and namespace names carry no slash, the name under which
/// a created topic is listed determines the triple it was created with:
/// one created topic accounts for exactly one listed entry.
pub proof fn lemma_topic_fqn_injective(
    t1: Seq<char>,
    n1: Seq<char>,
    p1: Seq<char>,
    t2: Seq<char>,
    n2: Seq<char>,
    p2: Seq<char>,
)
    requires
        !t1.contains('/'),
        !n1.contains('/'),
        !t2.contains('/'),
        !n2.contains('/'),
        topic_fqn_spec(t1, n1, p1) == topic_fqn_spec(t2, n2, p2),
    ensures
        t1 == t2,
        n1 == n2,
        p1 == p2,
{
    assert("persistent://"@ + (t1 + "/"@ + (n1 + "/"@ + p1)) =~= topic_fqn_spec(t1, n1, p1));
    assert("persistent://"@ + (t2 + "/"@ + (n2 + "/"@ + p2)) =~= topic_fqn_spec(t2, n2, p2));
    lemma_prefix_cancel(
        "persistent://"@,
        t1 + "/"@ + (n1 + "/"@ + p1),
        t2 + "/"@ + (n2 + "/"@ + p2),
    );
    lemma_sep_split_unique(t1, n1 + "/"@ + p1, t2, n2 + "/"@ + p2);
    lemma_sep_split_unique(n1, p1, n2, p2);
}

} // verus!
