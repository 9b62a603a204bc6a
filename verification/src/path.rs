//! Paths of the control group file system, as text.
//!
//! A path is a string of components separated by `/`. Two operations matter to
//! the controllers: descending into a sub-path, and deciding whether one path
//! lies below another. Both go by whole components.
use vstd::prelude::*;
use crate::text::{push_chars, same_text, split, split_spec, texts, to_chars, to_text};

verus! {

/// Whether `p` starts at the root of the file system.
pub open spec fn absolute(p: Seq<char>) -> bool {
    p.len() > 0 && p[0] == '/'
}

/// The path reached from `base` by `p`: `p` itself where it is absolute, else
/// `p` appended to `base`, with a `/` between the two unless `base` is empty or
/// already ends in one.
pub open spec fn join_spec(base: Seq<char>, p: Seq<char>) -> Seq<char> {
    if absolute(p) {
        p
    } else if base.len() > 0 && base.last() != '/' {
        base.push('/') + p
    } else {
        base + p
    }
}

/// Whether the piece `seg`, found between two `/`, counts as a component. Empty
/// pieces never do, and `.` only at the very start of a path.
pub open spec fn counts(seg: Seq<char>, first: bool) -> bool {
    seg.len() > 0 && (first || seg != seq!['.'])
}

/// The pieces of `segs` that count as components, in order.
pub open spec fn named_parts(segs: Seq<Seq<char>>) -> Seq<Seq<char>>
    decreases segs.len(),
{
    if segs.len() == 0 {
        Seq::<Seq<char>>::empty()
    } else if counts(segs.last(), segs.len() == 1) {
        named_parts(segs.drop_last()).push(segs.last())
    } else {
        named_parts(segs.drop_last())
    }
}

/// The components of the path `p`: the root `/` if `p` is absolute, then each
/// name between separators. Repeated and trailing separators add nothing, and
/// `.` counts only at the start of a relative path; `..` is a component like any
/// other name.
pub open spec fn components(p: Seq<char>) -> Seq<Seq<char>> {
    let names = named_parts(split_spec(p, '/', '/'));
    if absolute(p) {
        seq![seq!['/']] + names
    } else {
        names
    }
}

/// Whether the path `p` lies at or below `base`: the components of `base` are
/// the first components of `p`.
pub open spec fn below(p: Seq<char>, base: Seq<char>) -> bool {
    components(base).is_prefix_of(components(p))
}

/// The path reached from `base` by `p`.
pub fn join(base: &str, p: &str) -> (r: String)
    ensures
        r@ == join_spec(base@, p@),
{
    let b = to_chars(base);
    let q = to_chars(p);
    if q.len() > 0 && q[0] == '/' {
        return to_text(&q);
    }
    let mut out: Vec<char> = Vec::new();
    push_chars(&mut out, &b);
    if b.len() > 0 && b[b.len() - 1] != '/' {
        out.push('/');
    }
    push_chars(&mut out, &q);
    assert(out@ =~= join_spec(base@, p@));
    to_text(&out)
}

/// The components of the path whose characters are `p`.
pub fn components_of(p: &Vec<char>) -> (r: Vec<Vec<char>>)
    ensures
        texts(r@) == components(p@),
{
    let segs = split(p, '/', '/');
    let ghost s = split_spec(p@, '/', '/');
    let mut out: Vec<Vec<char>> = Vec::new();
    let rooted = p.len() > 0 && p[0] == '/';
    if rooted {
        let mut root: Vec<char> = Vec::new();
        root.push('/');
        assert(root@ =~= seq!['/']);
        out.push(root);
    }
    let ghost head = texts(out@);
    assert(head =~= if absolute(p@) {
        seq![seq!['/']]
    } else {
        Seq::<Seq<char>>::empty()
    });
    let mut i: usize = 0;
    assert(s.take(0) =~= Seq::<Seq<char>>::empty());
    assert(texts(out@) =~= head + named_parts(s.take(0)));
    while i < segs.len()
        invariant
            i <= segs.len(),
            texts(segs@) == s,
            texts(out@) == head + named_parts(s.take(i as int)),
        decreases segs.len() - i,
    {
        let seg = &segs[i];
        assert(s[i as int] == seg@);
        assert(s.take(i as int + 1).drop_last() =~= s.take(i as int));
        assert(s.take(i as int + 1).last() == seg@);
        let ghost before = texts(out@);
        let dot = seg.len() == 1 && seg[0] == '.';
        assert(dot == (seg@ == seq!['.'])) by {
            if seg.len() == 1 && seg[0] == '.' {
                assert(seg@ =~= seq!['.']);
            }
        }
        if seg.len() > 0 && (i == 0 || !dot) {
            let copy = crate::text::slice_of(seg, 0, seg.len());
            assert(copy@ =~= seg@);
            out.push(copy);
            assert(texts(out@) =~= before.push(seg@));
            assert(texts(out@) =~= head + named_parts(s.take(i as int + 1)));
        }
        i += 1;
    }
    assert(s.take(segs.len() as int) =~= s);
    out
}

/// Whether the path `p` lies at or below `base`.
pub fn starts_with(p: &str, base: &str) -> (r: bool)
    ensures
        r == below(p@, base@),
{
    let pc = components_of(&to_chars(p));
    let bc = components_of(&to_chars(base));
    let ghost ps = components(p@);
    let ghost bs = components(base@);
    if bc.len() > pc.len() {
        return false;
    }
    let mut i: usize = 0;
    while i < bc.len()
        invariant
            i <= bc.len() <= pc.len(),
            ps == components(p@),
            bs == components(base@),
            texts(pc@) == ps,
            texts(bc@) == bs,
            forall|k: int| 0 <= k < i ==> ps[k] == bs[k],
        decreases bc.len() - i,
    {
        assert(ps[i as int] == pc[i as int]@);
        assert(bs[i as int] == bc[i as int]@);
        if !same_text(&pc[i], &bc[i]) {
            assert(!bs.is_prefix_of(ps)) by {
                if bs.is_prefix_of(ps) {
                    assert(ps.subrange(0, bs.len() as int)[i as int] == bs[i as int]);
                }
            }
            return false;
        }
        i += 1;
    }
    assert(ps.subrange(0, bs.len() as int) =~= bs);
    true
}

} // verus!
