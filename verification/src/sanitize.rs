//! Path sanitization: validating a raw archive entry name into a relative
//! path guaranteed to stay within the extraction root. This is the
//! directory-traversal (zip-slip) defense shared by the zip and tar
//! extractors.
//!
//! A name is decomposed into components at separator bytes and scanned with
//! a running nesting depth: a parent-directory component that would take the
//! depth negative is a rejection, so interior "descend then ascend" patterns
//! are allowed while any name that nets above the root is refused.

use vstd::prelude::*;

use crate::bytes::{clone_bytes, copy_prefix};

verus! {

/// A path separator byte: `/` or `\`.
pub open spec fn is_sep(b: u8) -> bool {
    b == 47 || b == 92
}

/// Index of the first separator byte of `s`, or `s.len()` if there is none.
pub open spec fn first_sep(s: Seq<u8>) -> nat
    decreases s.len(),
{
    if s.len() == 0 {
        0
    } else if is_sep(s[0]) {
        0
    } else {
        1 + first_sep(s.skip(1))
    }
}

proof fn lemma_first_sep(s: Seq<u8>)
    ensures
        first_sep(s) <= s.len(),
        forall|i: int| 0 <= i < first_sep(s) ==> !is_sep(s[i]),
        first_sep(s) < s.len() ==> is_sep(s[first_sep(s) as int]),
    decreases s.len(),
{
    if s.len() == 0 {
    } else if is_sep(s[0]) {
    } else {
        lemma_first_sep(s.skip(1));
        assert forall|i: int| 0 <= i < first_sep(s) implies !is_sep(s[i]) by {
            if i >= 1 {
                assert(s.skip(1)[i - 1] == s[i]);
            }
        }
        if first_sep(s) < s.len() {
            assert(s.skip(1)[first_sep(s) as int - 1] == s[first_sep(s) as int]);
        }
    }
}

/// The components of an entry name: the byte runs between separators.
/// Leading, trailing, and doubled separators yield empty components, which
/// the depth scan ignores.
pub open spec fn components(s: Seq<u8>) -> Seq<Seq<u8>>
    decreases s.len(),
{
    let i = first_sep(s);
    if i >= s.len() {
        seq![s]
    } else {
        seq![s.take(i as int)] + components(s.skip(i as int + 1))
    }
}

proof fn lemma_components_nonempty(s: Seq<u8>)
    ensures
        components(s).len() >= 1,
{
}

/// A parent-directory component: `..`.
pub open spec fn is_parent(c: Seq<u8>) -> bool {
    c == seq![46u8, 46u8]
}

/// A component that leaves the position in the tree unchanged: a
/// current-directory component `.`, or the empty run between doubled or
/// trailing separators.
pub open spec fn is_flat(c: Seq<u8>) -> bool {
    c.len() == 0 || c == seq![46u8]
}

/// An ordinary name component, descending one level into the tree.
pub open spec fn is_normal(c: Seq<u8>) -> bool {
    !is_parent(c) && !is_flat(c)
}

/// A drive-style component, such as `C:`.
pub open spec fn is_drive_like(c: Seq<u8>) -> bool {
    exists|i: int| 0 <= i < c.len() && c[i] == 58
}

/// Whether the name begins with a root or drive-style component: a leading
/// separator, or a first component containing `:`.
pub open spec fn starts_rooted(s: Seq<u8>) -> bool {
    s.len() > 0 && (is_sep(s[0]) || is_drive_like(components(s)[0]))
}

/// Whether the components `cs`, scanned from a starting depth, keep the
/// nesting depth non-negative throughout: parent components may never climb
/// above the starting point.
pub open spec fn depth_stays_inside(cs: Seq<Seq<u8>>, depth: nat) -> bool
    decreases cs.len(),
{
    if cs.len() == 0 {
        true
    } else if is_parent(cs[0]) {
        depth > 0 && depth_stays_inside(cs.skip(1), (depth - 1) as nat)
    } else if is_flat(cs[0]) {
        depth_stays_inside(cs.skip(1), depth)
    } else {
        depth_stays_inside(cs.skip(1), depth + 1)
    }
}

/// A safe entry name: free of NUL bytes, not rooted, and never climbing
/// above the extraction root even via interior parent components.
pub open spec fn safe_name(s: Seq<u8>) -> bool {
    &&& !s.contains(0u8)
    &&& !starts_rooted(s)
    &&& depth_stays_inside(components(s), 0)
}

/// The component stack that a name resolves to when scanned over an initial
/// stack: normal components are pushed, parent components pop, flat
/// components are dropped.
pub open spec fn resolve_onto(cs: Seq<Seq<u8>>, stack: Seq<Seq<u8>>) -> Seq<Seq<u8>>
    decreases cs.len(),
{
    if cs.len() == 0 {
        stack
    } else if is_parent(cs[0]) {
        resolve_onto(cs.skip(1), stack.drop_last())
    } else if is_flat(cs[0]) {
        resolve_onto(cs.skip(1), stack)
    } else {
        resolve_onto(cs.skip(1), stack.push(cs[0]))
    }
}

/// The textual parent of an entry name: the bytes before the last
/// separator, or the empty name (standing for the extraction root itself)
/// if the name is a single component.
pub open spec fn parent_name(s: Seq<u8>) -> Seq<u8>
    decreases s.len(),
{
    if s.len() == 0 {
        Seq::empty()
    } else if is_sep(s.last()) {
        s.drop_last()
    } else {
        parent_name(s.drop_last())
    }
}

proof fn lemma_first_sep_push(s: Seq<u8>, b: u8)
    ensures
        first_sep(s) < s.len() ==> first_sep(s.push(b)) == first_sep(s),
        first_sep(s) == s.len() && is_sep(b) ==> first_sep(s.push(b)) == s.len(),
        first_sep(s) == s.len() && !is_sep(b) ==> first_sep(s.push(b)) == s.len() + 1,
    decreases s.len(),
{
    lemma_first_sep(s);
    if s.len() == 0 {
        assert(s.push(b)[0] == b);
        assert(s.push(b).skip(1) =~= Seq::<u8>::empty());
        assert(first_sep(Seq::<u8>::empty()) == 0);
        if !is_sep(b) {
            assert(first_sep(s.push(b)) == 1 + first_sep(s.push(b).skip(1)));
        }
    } else {
        assert(s.push(b)[0] == s[0]);
        if !is_sep(s[0]) {
            assert(s.push(b).skip(1) =~= s.skip(1).push(b));
            lemma_first_sep_push(s.skip(1), b);
            lemma_first_sep(s.skip(1));
        }
    }
}

proof fn lemma_components_push(s: Seq<u8>, b: u8)
    ensures
        is_sep(b) ==> components(s.push(b)) == components(s).push(Seq::<u8>::empty()),
        !is_sep(b) ==> components(s.push(b)) == components(s).update(
            components(s).len() - 1,
            components(s).last().push(b),
        ),
    decreases s.len(),
{
    lemma_first_sep(s);
    lemma_first_sep_push(s, b);
    let i = first_sep(s);
    let t = s.push(b);
    if i == s.len() {
        assert(components(s) == seq![s]);
        if is_sep(b) {
            assert(t.take(s.len() as int) =~= s);
            assert(t.skip(s.len() as int + 1) =~= Seq::<u8>::empty());
            assert(components(Seq::<u8>::empty()) == seq![Seq::<u8>::empty()]);
            assert(components(t) == seq![t.take(s.len() as int)] + components(
                t.skip(s.len() as int + 1),
            ));
            assert(components(t) =~= components(s).push(Seq::<u8>::empty()));
        } else {
            assert(components(t) == seq![t]);
            assert(components(s).update(0int, s.push(b)) =~= seq![t]);
        }
    } else {
        assert(components(s) == seq![s.take(i as int)] + components(s.skip(i as int + 1)));
        assert(t.take(i as int) =~= s.take(i as int));
        assert(t.skip(i as int + 1) =~= s.skip(i as int + 1).push(b));
        assert(components(t) == seq![t.take(i as int)] + components(s.skip(i as int + 1).push(b)));
        lemma_components_push(s.skip(i as int + 1), b);
        lemma_components_nonempty(s.skip(i as int + 1));
        let sub = components(s.skip(i as int + 1));
        if is_sep(b) {
            assert(seq![s.take(i as int)] + sub.push(Seq::<u8>::empty()) =~= (seq![
                s.take(i as int),
            ] + sub).push(Seq::<u8>::empty()));
        } else {
            assert((seq![s.take(i as int)] + sub).last() == sub.last());
            assert(seq![s.take(i as int)] + sub.update(sub.len() - 1, sub.last().push(b)) =~= (seq![
                s.take(i as int),
            ] + sub).update(sub.len() as int, sub.last().push(b)));
        }
    }
}

fn contains_nul(name: &Vec<u8>) -> (r: bool)
    ensures
        r == name@.contains(0u8),
{
    let mut i: usize = 0;
    while i < name.len()
        invariant
            i <= name.len(),
            forall|j: int| 0 <= j < i ==> name@[j] != 0,
        decreases name.len() - i,
    {
        if name[i] == 0 {
            proof {
                assert(name@[i as int] == 0);
            }
            return true;
        }
        i += 1;
    }
    false
}

fn component_is_parent(c: &Vec<u8>) -> (r: bool)
    ensures
        r == is_parent(c@),
{
    if c.len() == 2 {
        let r = c[0] == 46 && c[1] == 46;
        proof {
            if r {
                assert(c@ =~= seq![46u8, 46u8]);
            }
        }
        r
    } else {
        false
    }
}

fn component_is_flat(c: &Vec<u8>) -> (r: bool)
    ensures
        r == is_flat(c@),
{
    if c.len() == 0 {
        true
    } else if c.len() == 1 {
        let r = c[0] == 46;
        proof {
            if r {
                assert(c@ =~= seq![46u8]);
            }
        }
        r
    } else {
        false
    }
}

fn component_is_drive_like(c: &Vec<u8>) -> (r: bool)
    ensures
        r == is_drive_like(c@),
{
    let mut i: usize = 0;
    while i < c.len()
        invariant
            i <= c.len(),
            forall|j: int| 0 <= j < i ==> c@[j] != 58,
        decreases c.len() - i,
    {
        if c[i] == 58 {
            proof {
                assert(c@[i as int] == 58);
            }
            return true;
        }
        i += 1;
    }
    false
}

/// Split an entry name into its components.
pub fn split_components(name: &Vec<u8>) -> (r: Vec<Vec<u8>>)
    ensures
        r.deep_view() == components(name@),
{
    let mut r: Vec<Vec<u8>> = Vec::new();
    let mut cur: Vec<u8> = Vec::new();
    let mut i: usize = 0;
    proof {
        assert(name@.take(0) =~= Seq::<u8>::empty());
        assert(components(Seq::<u8>::empty()) == seq![Seq::<u8>::empty()]);
        assert(r.deep_view().push(cur@) =~= seq![Seq::<u8>::empty()]);
    }
    while i < name.len()
        invariant
            i <= name.len(),
            r.deep_view().push(cur@) == components(name@.take(i as int)),
        decreases name.len() - i,
    {
        let b = name[i];
        proof {
            assert(name@.take(i as int + 1) =~= name@.take(i as int).push(name@[i as int]));
            lemma_components_push(name@.take(i as int), name@[i as int]);
            lemma_components_nonempty(name@.take(i as int));
        }
        if b == 47 || b == 92 {
            let ghost old_r_dv = r.deep_view();
            let ghost old_cur = cur@;
            r.push(cur);
            cur = Vec::new();
            proof {
                assert(is_sep(name@[i as int]));
                assert(r.deep_view() =~~= old_r_dv.push(old_cur));
            }
        } else {
            let ghost old_r_dv = r.deep_view();
            let ghost old_cur = cur@;
            cur.push(b);
            proof {
                assert(!is_sep(name@[i as int]));
                let cs = components(name@.take(i as int));
                assert(cs == old_r_dv.push(old_cur));
                assert(cs.last() == old_cur);
                assert(cs.update(cs.len() - 1, old_cur.push(name@[i as int])) =~= old_r_dv.push(
                    old_cur.push(name@[i as int]),
                ));
            }
        }
        i += 1;
    }
    proof {
        assert(name@.take(name@.len() as int) =~= name@);
    }
    let ghost old_r_dv = r.deep_view();
    let ghost old_cur = cur@;
    r.push(cur);
    proof {
        assert(r.deep_view() =~~= old_r_dv.push(old_cur));
    }
    r
}

/// Validate a raw entry name and compute the component stack it resolves
/// to inside the extraction root. Returns `None` exactly on the unsafe
/// names: a NUL byte, a root or drive-style start, or a net climb above the
/// root.
pub fn resolve(name: &Vec<u8>) -> (r: Option<Vec<Vec<u8>>>)
    ensures
        r is Some <==> safe_name(name@),
        r matches Some(st) ==> st.deep_view() == resolve_onto(
            components(name@),
            Seq::<Seq<u8>>::empty(),
        ),
{
    if contains_nul(name) {
        return None;
    }
    let comps = split_components(name);
    proof {
        lemma_components_nonempty(name@);
    }
    if name.len() > 0 {
        let b0 = name[0];
        if b0 == 47 || b0 == 92 {
            proof {
                assert(starts_rooted(name@));
            }
            return None;
        }
        if component_is_drive_like(&comps[0]) {
            proof {
                assert(comps.deep_view()[0] == comps@[0]@);
                assert(starts_rooted(name@));
            }
            return None;
        }
        proof {
            assert(comps.deep_view()[0] == comps@[0]@);
            assert(!starts_rooted(name@));
        }
    }
    let ghost cs = components(name@);
    let mut stack: Vec<Vec<u8>> = Vec::new();
    let mut i: usize = 0;
    proof {
        assert(cs.skip(0) =~= cs);
        assert(stack.deep_view() =~= Seq::<Seq<u8>>::empty());
    }
    while i < comps.len()
        invariant
            i <= comps.len(),
            cs == components(name@),
            comps.deep_view() == cs,
            !name@.contains(0u8),
            !starts_rooted(name@),
            depth_stays_inside(cs, 0) <==> depth_stays_inside(
                cs.skip(i as int),
                stack@.len() as nat,
            ),
            resolve_onto(cs, Seq::<Seq<u8>>::empty()) == resolve_onto(
                cs.skip(i as int),
                stack.deep_view(),
            ),
        decreases comps.len() - i,
    {
        let c = &comps[i];
        proof {
            assert(c@ == comps.deep_view()[i as int]);
            assert(cs.skip(i as int)[0] == cs[i as int]);
            assert(cs.skip(i as int).skip(1) =~= cs.skip(i as int + 1));
        }
        if component_is_parent(c) {
            if stack.len() == 0 {
                return None;
            }
            let ghost old_dv = stack.deep_view();
            stack.pop();
            proof {
                assert(stack.deep_view() =~~= old_dv.drop_last());
            }
        } else if component_is_flat(c) {
        } else {
            let ghost old_dv = stack.deep_view();
            let cc = clone_bytes(c);
            stack.push(cc);
            proof {
                assert(stack.deep_view() =~~= old_dv.push(cs[i as int]));
            }
        }
        i += 1;
    }
    proof {
        assert(cs.skip(comps.len() as int) =~= Seq::<Seq<u8>>::empty());
    }
    Some(stack)
}

/// Ensure an entry name is safe to use as a relative path inside the
/// extraction target, returning it unchanged when it is, and `None`
/// (signalling "unsafe, skip this entry") when it is not.
pub fn enclosed_name(name: &Vec<u8>) -> (r: Option<Vec<u8>>)
    ensures
        r is Some <==> safe_name(name@),
        r matches Some(p) ==> p@ == name@,
{
    match resolve(name) {
        Some(_) => Some(clone_bytes(name)),
        None => None,
    }
}

/// The textual parent of an entry name, for memoizing the directory that a
/// file entry needs: the bytes before the last separator, or the empty name
/// (the extraction root) for a single-component name.
pub fn parent_of(name: &Vec<u8>) -> (r: Vec<u8>)
    ensures
        r@ == parent_name(name@),
{
    let mut i: usize = name.len();
    proof {
        assert(name@.take(name.len() as int) =~= name@);
    }
    while i > 0
        invariant
            i <= name.len(),
            parent_name(name@) == parent_name(name@.take(i as int)),
        decreases i,
    {
        let b = name[i - 1];
        if b == 47 || b == 92 {
            let r = copy_prefix(name, i - 1);
            proof {
                let pre = name@.take(i as int);
                assert(pre.last() == name@[i as int - 1]);
                assert(is_sep(pre.last()));
                assert(pre.drop_last() =~= name@.take(i as int - 1));
            }
            return r;
        }
        proof {
            let pre = name@.take(i as int);
            assert(pre.last() == name@[i as int - 1]);
            assert(!is_sep(pre.last()));
            assert(pre.drop_last() =~= name@.take(i as int - 1));
        }
        i -= 1;
    }
    proof {
        assert(name@.take(0) =~= Seq::<u8>::empty());
    }
    Vec::new()
}

/// Number of parent-directory components among `cs`.
pub open spec fn parent_count(cs: Seq<Seq<u8>>) -> int
    decreases cs.len(),
{
    if cs.len() == 0 {
        0
    } else {
        (if is_parent(cs[0]) {
            1int
        } else {
            0int
        }) + parent_count(cs.skip(1))
    }
}

/// Number of normal (descending) components among `cs`.
pub open spec fn normal_count(cs: Seq<Seq<u8>>) -> int
    decreases cs.len(),
{
    if cs.len() == 0 {
        0
    } else {
        (if is_normal(cs[0]) {
            1int
        } else {
            0int
        }) + normal_count(cs.skip(1))
    }
}

proof fn lemma_count_take_unfold(cs: Seq<Seq<u8>>, j: int)
    requires
        1 <= j <= cs.len(),
    ensures
        parent_count(cs.take(j)) == (if is_parent(cs[0]) {
            1int
        } else {
            0int
        }) + parent_count(cs.skip(1).take(j - 1)),
        normal_count(cs.take(j)) == (if is_normal(cs[0]) {
            1int
        } else {
            0int
        }) + normal_count(cs.skip(1).take(j - 1)),
{
    assert(cs.take(j)[0] == cs[0]);
    assert(cs.take(j).skip(1) =~= cs.skip(1).take(j - 1));
}

proof fn lemma_depth_characterization(cs: Seq<Seq<u8>>, d: nat)
    ensures
        depth_stays_inside(cs, d) <==> (forall|j: int|
            0 <= j <= cs.len() ==> parent_count(#[trigger] cs.take(j)) <= normal_count(cs.take(j))
                + d),
    decreases cs.len(),
{
    if cs.len() == 0 {
        assert(depth_stays_inside(cs, d));
        assert forall|j: int| 0 <= j <= cs.len() implies parent_count(#[trigger] cs.take(j))
            <= normal_count(cs.take(j)) + d by {
            assert(cs.take(j) =~= cs);
        }
    } else {
        let rest = cs.skip(1);
        let p0: int = if is_parent(cs[0]) {
            1
        } else {
            0
        };
        let n0: int = if is_normal(cs[0]) {
            1
        } else {
            0
        };
        let d2: nat = if is_parent(cs[0]) {
            if d > 0 {
                (d - 1) as nat
            } else {
                0
            }
        } else if is_flat(cs[0]) {
            d
        } else {
            d + 1
        };
        lemma_depth_characterization(rest, d2);
        if is_parent(cs[0]) && d == 0 {
            // the scan fails immediately; so does the prefix at length one
            assert(cs.take(1) =~= seq![cs[0]]);
            assert(seq![cs[0]].skip(1) =~= Seq::<Seq<u8>>::empty());
            assert(parent_count(Seq::<Seq<u8>>::empty()) == 0);
            assert(normal_count(Seq::<Seq<u8>>::empty()) == 0);
            assert(seq![cs[0]][0] == cs[0]);
            assert(parent_count(cs.take(1)) == 1);
            assert(normal_count(cs.take(1)) == 0);
            assert(!depth_stays_inside(cs, d));
            assert(!(parent_count(cs.take(1)) <= normal_count(cs.take(1)) + d));
        } else {
            // here the head contributes (p0, n0) and the tail is scanned at d2,
            // with d2 + p0 == d + n0
            assert(d2 + p0 == d + n0);
            assert(depth_stays_inside(cs, d) == depth_stays_inside(rest, d2));
            if depth_stays_inside(rest, d2) {
                assert forall|j: int| 0 <= j <= cs.len() implies parent_count(
                    #[trigger] cs.take(j),
                ) <= normal_count(cs.take(j)) + d by {
                    if j == 0 {
                        assert(cs.take(0) =~= Seq::<Seq<u8>>::empty());
                    } else {
                        lemma_count_take_unfold(cs, j);
                        assert(parent_count(rest.take(j - 1)) <= normal_count(rest.take(j - 1))
                            + d2);
                    }
                }
            }
            if forall|j: int|
                0 <= j <= cs.len() ==> parent_count(#[trigger] cs.take(j)) <= normal_count(
                    cs.take(j),
                ) + d {
                assert forall|j: int| 0 <= j <= rest.len() implies parent_count(
                    #[trigger] rest.take(j),
                ) <= normal_count(rest.take(j)) + d2 by {
                    lemma_count_take_unfold(cs, j + 1);
                    assert(parent_count(cs.take(j + 1)) <= normal_count(cs.take(j + 1)) + d);
                }
                assert(depth_stays_inside(rest, d2));
            }
        }
    }
}

proof fn lemma_resolve_onto_normal(cs: Seq<Seq<u8>>, stack: Seq<Seq<u8>>)
    requires
        depth_stays_inside(cs, stack.len() as nat),
        forall|k: int| 0 <= k < stack.len() ==> is_normal(#[trigger] stack[k]),
    ensures
        forall|k: int|
            0 <= k < resolve_onto(cs, stack).len() ==> is_normal(
                #[trigger] resolve_onto(cs, stack)[k],
            ),
    decreases cs.len(),
{
    let result = resolve_onto(cs, stack);
    if cs.len() == 0 {
        assert(result == stack);
        assert forall|k: int| 0 <= k < result.len() implies is_normal(#[trigger] result[k]) by {
            assert(result[k] == stack[k]);
        }
    } else if is_parent(cs[0]) {
        assert(stack.len() > 0);
        assert forall|k: int| 0 <= k < stack.drop_last().len() implies is_normal(
            #[trigger] stack.drop_last()[k],
        ) by {
            assert(stack.drop_last()[k] == stack[k]);
        }
        lemma_resolve_onto_normal(cs.skip(1), stack.drop_last());
        assert(result == resolve_onto(cs.skip(1), stack.drop_last()));
        assert forall|k: int| 0 <= k < result.len() implies is_normal(#[trigger] result[k]) by {
            assert(result[k] == resolve_onto(cs.skip(1), stack.drop_last())[k]);
        }
    } else if is_flat(cs[0]) {
        lemma_resolve_onto_normal(cs.skip(1), stack);
        assert(result == resolve_onto(cs.skip(1), stack));
        assert forall|k: int| 0 <= k < result.len() implies is_normal(#[trigger] result[k]) by {
            assert(result[k] == resolve_onto(cs.skip(1), stack)[k]);
        }
    } else {
        assert forall|k: int| 0 <= k < stack.push(cs[0]).len() implies is_normal(
            #[trigger] stack.push(cs[0])[k],
        ) by {
            if k < stack.len() {
                assert(stack.push(cs[0])[k] == stack[k]);
            } else {
                assert(stack.push(cs[0])[k] == cs[0]);
            }
        }
        lemma_resolve_onto_normal(cs.skip(1), stack.push(cs[0]));
        assert(result == resolve_onto(cs.skip(1), stack.push(cs[0])));
        assert forall|k: int| 0 <= k < result.len() implies is_normal(#[trigger] result[k]) by {
            assert(result[k] == resolve_onto(cs.skip(1), stack.push(cs[0]))[k]);
        }
    }
}

/// What a safe name resolves to is a plain descent: every component of its
/// resolved stack is a normal one, so the path a safe entry is written to
/// is never absolute and retains no parent or current-directory component —
/// it cannot leave the extraction root.
pub proof fn lemma_safe_name_resolves_to_descent(s: Seq<u8>)
    requires
        safe_name(s),
    ensures
        forall|k: int|
            0 <= k < resolve_onto(components(s), Seq::<Seq<u8>>::empty()).len() ==> is_normal(
                #[trigger] resolve_onto(components(s), Seq::<Seq<u8>>::empty())[k],
            ),
{
    lemma_resolve_onto_normal(components(s), Seq::<Seq<u8>>::empty());
}

/// The sanitizer's rejection rule without the running depth scan: a raw
/// entry name is rejected if and only if it contains a NUL byte, begins
/// with a root or drive-style component, or has, at some prefix of its
/// component list, more parent-directory components than normal components
/// before them.
pub proof fn lemma_rejection_characterization(s: Seq<u8>)
    ensures
        safe_name(s) <==> {
            &&& !s.contains(0u8)
            &&& !starts_rooted(s)
            &&& forall|j: int|
                0 <= j <= components(s).len() ==> parent_count(#[trigger] components(s).take(j))
                    <= normal_count(components(s).take(j))
        },
{
    lemma_depth_characterization(components(s), 0);
}

} // verus!
