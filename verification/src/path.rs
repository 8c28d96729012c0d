//! Unix file-system paths as text: joining, lexical normalization and absolutization.
use crate::text::{push_char, push_chars, push_str, str_chars};
use vstd::prelude::*;

verus! {

/// `path` is absolute: it starts with `/`.
pub open spec fn is_absolute(path: Seq<char>) -> bool {
    path.len() > 0 && path[0] == '/'
}

/// The path `base` extended by `component`: a component that is absolute replaces the base,
/// an empty base is replaced, and otherwise a `/` separates the two unless the base already
/// ends with one.
pub open spec fn join(base: Seq<char>, component: Seq<char>) -> Seq<char> {
    if is_absolute(component) || base.len() == 0 {
        component
    } else if base.last() == '/' {
        base + component
    } else {
        base + seq!['/'] + component
    }
}

/// The stack of components after one more component: an empty component and `.` change
/// nothing, `..` removes the last component if there is one, and any other name is added.
pub open spec fn apply_component(stack: Seq<Seq<char>>, c: Seq<char>) -> Seq<Seq<char>> {
    if c.len() == 0 || c == seq!['.'] {
        stack
    } else if c == seq!['.', '.'] {
        if stack.len() > 0 {
            stack.drop_last()
        } else {
            stack
        }
    } else {
        stack.push(c)
    }
}

/// Reading `p` from left to right: the components settled so far and the component being
/// read (the text after the last `/`).
pub open spec fn scan(p: Seq<char>) -> (Seq<Seq<char>>, Seq<char>)
    decreases p.len(),
{
    if p.len() == 0 {
        (Seq::empty(), Seq::empty())
    } else {
        let (stack, current) = scan(p.drop_last());
        if p.last() == '/' {
            (apply_component(stack, current), Seq::empty())
        } else {
            (stack, current.push(p.last()))
        }
    }
}

/// The components of `p` after resolving `.` and `..` lexically.
pub open spec fn normal_components(p: Seq<char>) -> Seq<Seq<char>> {
    apply_component(scan(p).0, scan(p).1)
}

/// Components joined by `/`.
pub open spec fn join_components(cs: Seq<Seq<char>>) -> Seq<char>
    decreases cs.len(),
{
    if cs.len() == 0 {
        Seq::empty()
    } else if cs.len() == 1 {
        cs[0]
    } else {
        join_components(cs.drop_last()) + seq!['/'] + cs.last()
    }
}

/// The lexical normal form of a path: `/` for an absolute path, then its normal components
/// separated by `/`.
pub open spec fn normalize(p: Seq<char>) -> Seq<char> {
    if is_absolute(p) {
        seq!['/'] + join_components(normal_components(p))
    } else {
        join_components(normal_components(p))
    }
}

/// `path` made absolute against `parent` when it is relative; an absolute path is kept as is.
pub open spec fn absolutize(path: Seq<char>, parent: Seq<char>) -> Seq<char> {
    if is_absolute(path) {
        path
    } else {
        normalize(join(parent, path))
    }
}

/// A component that normalization keeps: not empty, no `/`, and neither `.` nor `..`.
pub open spec fn clean_component(c: Seq<char>) -> bool {
    &&& c.len() > 0
    &&& forall|i: int| 0 <= i < c.len() ==> #[trigger] c[i] != '/'
    &&& c != seq!['.']
    &&& c != seq!['.', '.']
}

/// Every settled component of a scan is clean and the component being read holds no `/`.
pub proof fn lemma_scan_clean(p: Seq<char>)
    ensures
        forall|i: int| 0 <= i < scan(p).0.len() ==> #[trigger] clean_component(scan(p).0[i]),
        forall|i: int| 0 <= i < scan(p).1.len() ==> #[trigger] scan(p).1[i] != '/',
    decreases p.len(),
{
    if p.len() > 0 {
        lemma_scan_clean(p.drop_last());
        let (stack, current) = scan(p.drop_last());
        if p.last() == '/' {
            let st2 = apply_component(stack, current);
            assert forall|i: int| 0 <= i < st2.len() implies #[trigger] clean_component(st2[i]) by {
                if i < stack.len() {
                    assert(st2[i] == stack[i]);
                } else {
                    assert(st2[i] == current);
                }
            }
        } else {
            let cur2 = current.push(p.last());
            assert forall|i: int| 0 <= i < cur2.len() implies #[trigger] cur2[i] != '/' by {
                if i < current.len() {
                    assert(cur2[i] == current[i]);
                }
            }
        }
    }
}

/// The normal components of any path are clean.
pub proof fn lemma_normal_components_clean(p: Seq<char>)
    ensures
        forall|i: int| 0 <= i < normal_components(p).len() ==> #[trigger] clean_component(
            normal_components(p)[i],
        ),
{
    lemma_scan_clean(p);
    let (stack, current) = scan(p);
    let n = normal_components(p);
    assert forall|i: int| 0 <= i < n.len() implies #[trigger] clean_component(n[i]) by {
        if i < stack.len() {
            assert(n[i] == stack[i]);
        } else {
            assert(n[i] == current);
        }
    }
}

/// Scanning depends on what was read only through the state it led to.
pub proof fn lemma_scan_append_same(a: Seq<char>, b: Seq<char>, s: Seq<char>)
    requires
        scan(a) == scan(b),
    ensures
        scan(a + s) == scan(b + s),
    decreases s.len(),
{
    if s.len() > 0 {
        lemma_scan_append_same(a, b, s.drop_last());
        assert((a + s).drop_last() == a + s.drop_last());
        assert((b + s).drop_last() == b + s.drop_last());
    } else {
        assert(a + s == a);
        assert(b + s == b);
    }
}

/// Reading text without `/` only extends the component being read.
pub proof fn lemma_scan_append_plain(a: Seq<char>, b: Seq<char>)
    requires
        forall|i: int| 0 <= i < b.len() ==> #[trigger] b[i] != '/',
    ensures
        scan(a + b) == (scan(a).0, scan(a).1 + b),
    decreases b.len(),
{
    if b.len() > 0 {
        lemma_scan_append_plain(a, b.drop_last());
        assert((a + b).drop_last() == a + b.drop_last());
        assert(b.drop_last().push(b.last()) == b);
        assert(b[b.len() - 1] != '/');
    } else {
        assert(a + b == a);
        assert(scan(a).1 + b == scan(a).1);
    }
}

/// Scanning clean components joined by `/` settles all but the last, which is being read.
pub proof fn lemma_scan_join(cs: Seq<Seq<char>>)
    requires
        cs.len() > 0,
        forall|i: int| 0 <= i < cs.len() ==> #[trigger] clean_component(cs[i]),
    ensures
        scan(join_components(cs)) == (cs.drop_last(), cs.last()),
    decreases cs.len(),
{
    assert(clean_component(cs[cs.len() - 1]));
    assert(clean_component(cs[0]));
    if cs.len() == 1 {
        lemma_scan_append_plain(Seq::empty(), cs[0]);
        assert(Seq::<char>::empty() + cs[0] == cs[0]);
        assert(cs.drop_last() =~= Seq::<Seq<char>>::empty());
    } else {
        let init = cs.drop_last();
        assert forall|i: int| 0 <= i < init.len() implies #[trigger] clean_component(init[i]) by {
            assert(init[i] == cs[i]);
        }
        lemma_scan_join(init);
        let j = join_components(init);
        assert((j + seq!['/']).drop_last() == j);
        assert(scan(j + seq!['/']) == (apply_component(init.drop_last(), init.last()), Seq::<
            char,
        >::empty()));
        assert(apply_component(init.drop_last(), init.last()) =~= init) by {
            assert(clean_component(init.last()));
            assert(init.last().len() > 0);
        }
        lemma_scan_append_plain(j + seq!['/'], cs.last());
        assert(Seq::<char>::empty() + cs.last() == cs.last());
        assert(join_components(cs) == j + seq!['/'] + cs.last());
    }
}

/// Clean components joined by `/` normalize back to themselves.
pub proof fn lemma_normal_components_of_join(cs: Seq<Seq<char>>)
    requires
        forall|i: int| 0 <= i < cs.len() ==> #[trigger] clean_component(cs[i]),
    ensures
        normal_components(join_components(cs)) == cs,
{
    if cs.len() == 0 {
        assert(normal_components(Seq::empty()) =~= Seq::<Seq<char>>::empty());
    } else {
        lemma_scan_join(cs);
        assert(clean_component(cs.last()));
        assert(cs.last().len() > 0);
        assert(cs.drop_last().push(cs.last()) =~= cs);
    }
}

/// Normalization is idempotent: a normalized path is its own normal form.
pub proof fn lemma_normalize_idempotent(p: Seq<char>)
    ensures
        normalize(normalize(p)) == normalize(p),
{
    let cs = normal_components(p);
    lemma_normal_components_clean(p);
    lemma_normal_components_of_join(cs);
    let j = join_components(cs);
    if cs.len() > 0 {
        lemma_scan_join(cs);
        assert(j.len() > 0 && j[0] != '/') by {
            lemma_join_starts_with_first(cs);
            assert(clean_component(cs[0]));
            assert(cs[0][0] != '/');
        }
    }
    if is_absolute(p) {
        let n = seq!['/'] + j;
        assert(is_absolute(n));
        assert(scan(seq!['/']) == scan(Seq::<char>::empty())) by {
            assert(seq!['/'].drop_last() =~= Seq::<char>::empty());
            assert(apply_component(Seq::<Seq<char>>::empty(), Seq::<char>::empty()) =~= Seq::<
                Seq<char>,
            >::empty());
        }
        lemma_scan_append_same(seq!['/'], Seq::empty(), j);
        assert(Seq::<char>::empty() + j == j);
        assert(normal_components(n) == normal_components(j));
    } else {
        assert(!is_absolute(j));
    }
}

/// A join of clean components starts with the first component.
pub proof fn lemma_join_starts_with_first(cs: Seq<Seq<char>>)
    requires
        cs.len() > 0,
        forall|i: int| 0 <= i < cs.len() ==> #[trigger] clean_component(cs[i]),
    ensures
        join_components(cs).len() > 0,
        join_components(cs)[0] == cs[0][0],
    decreases cs.len(),
{
    assert(clean_component(cs[0]));
    if cs.len() > 1 {
        let init = cs.drop_last();
        assert forall|i: int| 0 <= i < init.len() implies #[trigger] clean_component(init[i]) by {
            assert(init[i] == cs[i]);
        }
        lemma_join_starts_with_first(init);
        assert(init[0] == cs[0]);
    }
}

/// Absolutizing a relative path against an absolute parent gives an absolute path.
pub proof fn lemma_absolutize_absolute(path: Seq<char>, parent: Seq<char>)
    requires
        is_absolute(parent),
    ensures
        is_absolute(absolutize(path, parent)),
{
    if !is_absolute(path) {
        assert(join(parent, path)[0] == '/');
    }
}

/// Appends `/` and `component` to `base` as [`join`] does.
pub fn join_path(base: &str, component: &str) -> (r: String)
    ensures
        r@ == join(base@, component@),
{
    let b = str_chars(base);
    let c = str_chars(component);
    if (c.len() > 0 && c[0] == '/') || b.len() == 0 {
        return component.to_owned();
    }
    let mut s = base.to_owned();
    if b[b.len() - 1] != '/' {
        push_char(&mut s, '/');
    }
    push_str(&mut s, component);
    s
}

/// Whether a character sequence is `.`.
fn is_dot(c: &Vec<char>) -> (r: bool)
    ensures
        r == (c@ == seq!['.']),
{
    let r = c.len() == 1 && c[0] == '.';
    assert(r ==> c@ =~= seq!['.']);
    assert(c@ == seq!['.'] ==> c@[0] == '.');
    r
}

/// Whether a character sequence is `..`.
fn is_dot_dot(c: &Vec<char>) -> (r: bool)
    ensures
        r == (c@ == seq!['.', '.']),
{
    let r = c.len() == 2 && c[0] == '.' && c[1] == '.';
    assert(r ==> c@ =~= seq!['.', '.']);
    assert(c@ == seq!['.', '.'] ==> c@[0] == '.' && c@[1] == '.');
    r
}

/// The views of a list of character vectors.
pub open spec fn views(v: Seq<Vec<char>>) -> Seq<Seq<char>> {
    v.map_values(|c: Vec<char>| c@)
}

/// Applies one component to a stack of components.
fn apply(stack: &mut Vec<Vec<char>>, c: Vec<char>)
    ensures
        views(final(stack)@) == apply_component(views(old(stack)@), c@),
{
    if c.len() == 0 || is_dot(&c) {
    } else if is_dot_dot(&c) {
        if stack.len() > 0 {
            stack.pop();
            assert(views(stack@) =~= views(old(stack)@).drop_last());
        }
    } else {
        let ghost cv = c@;
        stack.push(c);
        assert(views(stack@) =~= views(old(stack)@).push(cv));
    }
}

/// Normalizes a path lexically, without consulting the file system: `.` components and empty
/// components are dropped and each `..` removes the component before it.
pub fn normalize_path(path: &str) -> (r: String)
    ensures
        r@ == normalize(path@),
{
    let cs = str_chars(path);
    let mut stack: Vec<Vec<char>> = Vec::new();
    let mut current: Vec<char> = Vec::new();
    let mut i: usize = 0;
    assert(cs@.take(0) =~= Seq::<char>::empty());
    while i < cs.len()
        invariant
            0 <= i <= cs.len(),
            cs@ == path@,
            (views(stack@), current@) == scan(cs@.take(i as int)),
        decreases cs.len() - i,
    {
        let c = cs[i];
        assert(cs@.take(i + 1).drop_last() == cs@.take(i as int));
        if c == '/' {
            let cur = current;
            apply(&mut stack, cur);
            current = Vec::new();
            assert(current@ =~= Seq::<char>::empty());
        } else {
            current.push(c);
        }
        i += 1;
    }
    assert(cs@.take(cs.len() as int) == cs@);
    apply(&mut stack, current);
    let mut out = String::new();
    if cs.len() > 0 && cs[0] == '/' {
        push_char(&mut out, '/');
    }
    let ghost prefix = out@;
    let mut k: usize = 0;
    assert(views(stack@).take(0) =~= Seq::<Seq<char>>::empty());
    while k < stack.len()
        invariant
            0 <= k <= stack.len(),
            out@ == prefix + join_components(views(stack@).take(k as int)),
        decreases stack.len() - k,
    {
        let ghost before = views(stack@).take(k as int);
        if k > 0 {
            push_char(&mut out, '/');
        }
        push_chars(&mut out, &stack[k], 0, stack[k].len());
        assert(stack@[k as int]@.subrange(0, stack@[k as int]@.len() as int) == stack@[k as int]@);
        k += 1;
        let ghost after = views(stack@).take(k as int);
        assert(after.drop_last() == before);
        assert(after.last() == stack@[k - 1]@);
        if k > 1 {
            assert(join_components(after) == join_components(before) + seq!['/'] + after.last());
        } else {
            assert(before =~= Seq::<Seq<char>>::empty());
        }
    }
    assert(views(stack@).take(stack.len() as int) == views(stack@));
    out
}

/// Makes a relative `path` absolute against `parent` and normalizes it; an absolute `path`
/// is returned unchanged.
pub fn absolutize_path(path: &str, parent: &str) -> (r: String)
    ensures
        r@ == absolutize(path@, parent@),
{
    let cs = str_chars(path);
    if cs.len() > 0 && cs[0] == '/' {
        path.to_owned()
    } else {
        let joined = join_path(parent, path);
        normalize_path(joined.as_str())
    }
}

} // verus!
