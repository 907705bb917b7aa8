//! The structured data tree bound to a template evaluation, and the deep
//! merge that combines two such trees: mappings merge key by key and
//! recursively, every other value is overwritten by the right-hand side.

use vstd::prelude::*;

verus! {

/// A JSON-like structured data tree: null, boolean, integer, text, an
/// ordered sequence, or a string-keyed mapping with recursive values.
/// A mapping is held as its entries in insertion order; on lookup the
/// first entry with a given key wins.
#[derive(Debug)]
pub enum DataTree {
    Null,
    Bool(bool),
    Int(i64),
    Text(String),
    List(Vec<DataTree>),
    Object(Vec<(String, DataTree)>),
}

/// The mathematical model of a `DataTree`: the same tree over `int`,
/// `Seq<char>` and `Seq`.
#[verifier::ext_equal]
pub enum DataTreeV {
    Null,
    Bool(bool),
    Int(int),
    Text(Seq<char>),
    List(Seq<DataTreeV>),
    Object(Seq<(Seq<char>, DataTreeV)>),
}

pub open spec fn tree_view(v: DataTree) -> DataTreeV
    decreases v,
{
    match v {
        DataTree::Null => DataTreeV::Null,
        DataTree::Bool(b) => DataTreeV::Bool(b),
        DataTree::Int(i) => DataTreeV::Int(i as int),
        DataTree::Text(s) => DataTreeV::Text(s@),
        DataTree::List(xs) => DataTreeV::List(list_view(xs@)),
        DataTree::Object(es) => DataTreeV::Object(entries_view(es@)),
    }
}

pub open spec fn list_view(xs: Seq<DataTree>) -> Seq<DataTreeV>
    decreases xs,
{
    if xs.len() == 0 {
        Seq::empty()
    } else {
        list_view(xs.drop_last()).push(tree_view(xs.last()))
    }
}

pub open spec fn entries_view(es: Seq<(String, DataTree)>) -> Seq<(Seq<char>, DataTreeV)>
    decreases es,
{
    if es.len() == 0 {
        Seq::empty()
    } else {
        entries_view(es.drop_last()).push((es.last().0@, tree_view(es.last().1)))
    }
}

/// `entries_view` maps the key and value views over the entries, one by one.
pub proof fn lemma_entries_view(es: Seq<(String, DataTree)>)
    ensures
        entries_view(es).len() == es.len(),
        forall|i: int|
            0 <= i < es.len() ==> entries_view(es)[i] == (es[i].0@, tree_view(es[i].1)),
    decreases es,
{
    if es.len() != 0 {
        lemma_entries_view(es.drop_last());
    }
}

impl View for DataTree {
    type V = DataTreeV;

    open spec fn view(&self) -> DataTreeV {
        tree_view(*self)
    }
}

/// Whether an entry sequence holds the key `k`.
pub open spec fn assoc_has<V>(es: Seq<(Seq<char>, V)>, k: Seq<char>) -> bool {
    exists|i: int| 0 <= i < es.len() && es[i].0 == k
}

/// The value at the first entry with key `k` (arbitrary when absent).
pub open spec fn assoc_get<V>(es: Seq<(Seq<char>, V)>, k: Seq<char>) -> V
    decreases es.len(),
{
    if es.len() == 0 {
        arbitrary()
    } else if es[0].0 == k {
        es[0].1
    } else {
        assoc_get(es.drop_first(), k)
    }
}

/// The entry sequence with the first entry keyed `k` replaced by `(k, v)`;
/// unchanged when the key is absent.
pub open spec fn assoc_set<V>(es: Seq<(Seq<char>, V)>, k: Seq<char>, v: V) -> Seq<(Seq<char>, V)>
    decreases es.len(),
{
    if es.len() == 0 {
        es
    } else if es[0].0 == k {
        seq![(k, v)] + es.drop_first()
    } else {
        seq![es[0]] + assoc_set(es.drop_first(), k, v)
    }
}

/// Deep merge: when both sides are mappings, merge key by key, recursing on
/// keys present in both and appending the right-hand side's new keys in
/// order; in every other case the right-hand side wins outright.
pub open spec fn merge_v(a: DataTreeV, b: DataTreeV) -> DataTreeV
    decreases b,
{
    match b {
        DataTreeV::Object(ys) => match a {
            DataTreeV::Object(xs) => DataTreeV::Object(merge_entries(xs, ys)),
            _ => b,
        },
        _ => b,
    }
}

/// The entries of a merged mapping: the right-hand entries are folded onto
/// the left-hand ones in order, each either merged into the entry that
/// already holds its key or appended.
pub open spec fn merge_entries(
    xs: Seq<(Seq<char>, DataTreeV)>,
    ys: Seq<(Seq<char>, DataTreeV)>,
) -> Seq<(Seq<char>, DataTreeV)>
    decreases ys,
{
    if ys.len() == 0 {
        xs
    } else {
        let done = merge_entries(xs, ys.drop_last());
        let k = ys.last().0;
        let v = ys.last().1;
        if assoc_has(done, k) {
            assoc_set(done, k, merge_v(assoc_get(done, k), v))
        } else {
            done.push((k, v))
        }
    }
}

/// When `i` is the first index holding key `k`, lookup returns that entry's
/// value.
pub proof fn lemma_assoc_get_at<V>(es: Seq<(Seq<char>, V)>, k: Seq<char>, i: int)
    requires
        0 <= i < es.len(),
        es[i].0 == k,
        forall|l: int| 0 <= l < i ==> es[l].0 != k,
    ensures
        assoc_get(es, k) == es[i].1,
    decreases i,
{
    if i > 0 {
        assert(forall|l: int| 0 <= l < i - 1 ==> es.drop_first()[l].0 != k);
        lemma_assoc_get_at(es.drop_first(), k, i - 1);
    }
}

/// When `i` is the first index holding key `k`, replacing the value at `k`
/// is updating that entry.
pub proof fn lemma_assoc_set_at<V>(es: Seq<(Seq<char>, V)>, k: Seq<char>, v: V, i: int)
    requires
        0 <= i < es.len(),
        es[i].0 == k,
        forall|l: int| 0 <= l < i ==> es[l].0 != k,
    ensures
        assoc_set(es, k, v) == es.update(i, (k, v)),
    decreases i,
{
    if i == 0 {
        assert(assoc_set(es, k, v) =~= es.update(0, (k, v)));
    } else {
        assert(forall|l: int| 0 <= l < i - 1 ==> es.drop_first()[l].0 != k);
        lemma_assoc_set_at(es.drop_first(), k, v, i - 1);
        assert(assoc_set(es, k, v) =~= es.update(i, (k, v)));
    }
}


/// Whether all keys of an entry sequence are distinct.
pub open spec fn distinct_keys<V>(es: Seq<(Seq<char>, V)>) -> bool {
    forall|i: int, j: int| 0 <= i < j < es.len() ==> es[i].0 != es[j].0
}

/// How appending one entry changes key lookup: the new key becomes present,
/// and every key already present keeps its value.
pub proof fn lemma_assoc_push<V>(es: Seq<(Seq<char>, V)>, k: Seq<char>, v: V)
    ensures
        forall|k2: Seq<char>|
            assoc_has(es.push((k, v)), k2) <==> assoc_has(es, k2) || k2 == k,
        forall|k2: Seq<char>|
            assoc_has(es, k2) ==> assoc_get(es.push((k, v)), k2) == assoc_get(es, k2),
        !assoc_has(es, k) ==> assoc_get(es.push((k, v)), k) == v,
    decreases es.len(),
{
    if es.len() == 0 {
        assert forall|k2: Seq<char>|
            assoc_has(es.push((k, v)), k2) <==> assoc_has(es, k2) || k2 == k by {
            if assoc_has(es.push((k, v)), k2) {
                assert(es.push((k, v))[0].0 == k2 || k2 == k);
            }
            if k2 == k {
                assert(es.push((k, v))[0].0 == k2);
            }
        }
    } else {
        lemma_assoc_push(es.drop_first(), k, v);
        assert(es.push((k, v)).drop_first() =~= es.drop_first().push((k, v)));
        assert forall|k2: Seq<char>|
            assoc_has(es.push((k, v)), k2) <==> assoc_has(es, k2) || k2 == k by {
            if assoc_has(es.push((k, v)), k2) {
                let i = choose|i: int|
                    0 <= i < es.push((k, v)).len() && es.push((k, v))[i].0 == k2;
                if i < es.len() {
                    assert(es[i].0 == k2);
                } else {
                    assert(k2 == k);
                }
            }
            if assoc_has(es, k2) {
                let i = choose|i: int| 0 <= i < es.len() && es[i].0 == k2;
                assert(es.push((k, v))[i].0 == k2);
            }
            if k2 == k {
                assert(es.push((k, v))[es.len() as int].0 == k2);
            }
        }
        assert forall|k2: Seq<char>|
            assoc_has(es, k2) implies assoc_get(es.push((k, v)), k2) == assoc_get(es, k2) by {
            if es[0].0 != k2 {
                let i = choose|i: int| 0 <= i < es.len() && es[i].0 == k2;
                assert(es.drop_first()[i - 1].0 == k2);
                assert(assoc_has(es.drop_first(), k2));
                assert(assoc_get(es.push((k, v)), k2) == assoc_get(
                    es.drop_first().push((k, v)),
                    k2,
                ));
            }
        }
    }
}

/// How replacing the value at a present key changes lookup: that key now
/// holds the new value, every other key keeps its value, and the key set is
/// unchanged; at an absent key the sequence is unchanged.
pub proof fn lemma_assoc_set<V>(es: Seq<(Seq<char>, V)>, k: Seq<char>, v: V)
    ensures
        assoc_set(es, k, v).len() == es.len(),
        forall|k2: Seq<char>| assoc_has(assoc_set(es, k, v), k2) <==> assoc_has(es, k2),
        assoc_has(es, k) ==> assoc_get(assoc_set(es, k, v), k) == v,
        forall|k2: Seq<char>|
            k2 != k && assoc_has(es, k2) ==> assoc_get(assoc_set(es, k, v), k2) == assoc_get(
                es,
                k2,
            ),
        !assoc_has(es, k) ==> assoc_set(es, k, v) == es,
    decreases es.len(),
{
    if es.len() == 0 {
        assert(assoc_set(es, k, v) =~= es);
    } else if es[0].0 == k {
        let r = seq![(k, v)] + es.drop_first();
        assert(assoc_set(es, k, v) == r);
        assert(r.drop_first() =~= es.drop_first());
        assert(r[0] == (k, v));
        assert(es[0].0 == k);
        assert forall|k2: Seq<char>| assoc_has(r, k2) <==> assoc_has(es, k2) by {
            if assoc_has(r, k2) {
                let i = choose|i: int| 0 <= i < r.len() && r[i].0 == k2;
                if i == 0 {
                    assert(es[0].0 == k2);
                } else {
                    assert(es[i].0 == k2);
                }
            }
            if assoc_has(es, k2) {
                let i = choose|i: int| 0 <= i < es.len() && es[i].0 == k2;
                if i == 0 {
                    assert(r[0].0 == k2);
                } else {
                    assert(r[i].0 == k2);
                }
            }
        }
        assert forall|k2: Seq<char>|
            k2 != k && assoc_has(es, k2) implies assoc_get(r, k2) == assoc_get(es, k2) by {
            assert(r[0].0 != k2);
            assert(assoc_get(r, k2) == assoc_get(r.drop_first(), k2));
            assert(assoc_get(es, k2) == assoc_get(es.drop_first(), k2));
        }
    } else {
        lemma_assoc_set(es.drop_first(), k, v);
        let r = seq![es[0]] + assoc_set(es.drop_first(), k, v);
        assert(assoc_set(es, k, v) == r);
        assert(r.drop_first() =~= assoc_set(es.drop_first(), k, v));
        assert(r[0] == es[0]);
        assert forall|k2: Seq<char>| assoc_has(r, k2) <==> assoc_has(es, k2) by {
            if assoc_has(r, k2) {
                let i = choose|i: int| 0 <= i < r.len() && r[i].0 == k2;
                if i == 0 {
                    assert(es[0].0 == k2);
                } else {
                    assert(r.drop_first()[i - 1].0 == k2);
                    assert(assoc_has(r.drop_first(), k2));
                    assert(assoc_has(es.drop_first(), k2));
                    let l = choose|l: int|
                        0 <= l < es.drop_first().len() && es.drop_first()[l].0 == k2;
                    assert(es[l + 1].0 == k2);
                }
            }
            if assoc_has(es, k2) {
                let i = choose|i: int| 0 <= i < es.len() && es[i].0 == k2;
                if i == 0 {
                    assert(r[0].0 == k2);
                } else {
                    assert(es.drop_first()[i - 1].0 == k2);
                    assert(assoc_has(es.drop_first(), k2));
                    assert(assoc_has(r.drop_first(), k2));
                    let l = choose|l: int|
                        0 <= l < r.drop_first().len() && r.drop_first()[l].0 == k2;
                    assert(r[l + 1].0 == k2);
                }
            }
        }
        if assoc_has(es, k) {
            assert(assoc_has(es.drop_first(), k)) by {
                let i = choose|i: int| 0 <= i < es.len() && es[i].0 == k;
                assert(i != 0);
                assert(es.drop_first()[i - 1].0 == k);
            }
            assert(assoc_get(r, k) == assoc_get(r.drop_first(), k));
        }
        assert forall|k2: Seq<char>|
            k2 != k && assoc_has(es, k2) implies assoc_get(r, k2) == assoc_get(es, k2) by {
            if es[0].0 == k2 {
                assert(assoc_get(r, k2) == r[0].1);
            } else {
                let i = choose|i: int| 0 <= i < es.len() && es[i].0 == k2;
                assert(es.drop_first()[i - 1].0 == k2);
                assert(assoc_has(es.drop_first(), k2));
            }
        }
        if !assoc_has(es, k) {
            assert(!assoc_has(es.drop_first(), k)) by {
                if assoc_has(es.drop_first(), k) {
                    let i = choose|i: int|
                        0 <= i < es.drop_first().len() && es.drop_first()[i].0 == k;
                    assert(es[i + 1].0 == k);
                }
            }
            assert(r =~= es);
        }
    }
}

/// Viewing a pushed entry sequence appends the entry's view.
pub proof fn lemma_entries_view_push(es: Seq<(String, DataTree)>, e: (String, DataTree))
    ensures
        entries_view(es.push(e)) == entries_view(es).push((e.0@, tree_view(e.1))),
{
    assert(es.push(e).drop_last() =~= es);
    assert(es.push(e).last() == e);
}

/// Viewing a pushed element sequence appends the element's view.
pub proof fn lemma_list_view_push(xs: Seq<DataTree>, x: DataTree)
    ensures
        list_view(xs.push(x)) == list_view(xs).push(tree_view(x)),
{
    assert(xs.push(x).drop_last() =~= xs);
    assert(xs.push(x).last() == x);
}

/// Viewing an updated entry sequence updates the entry's view.
pub proof fn lemma_entries_view_update(es: Seq<(String, DataTree)>, i: int, e: (String, DataTree))
    requires
        0 <= i < es.len(),
    ensures
        entries_view(es.update(i, e)) == entries_view(es).update(i, (e.0@, tree_view(e.1))),
{
    lemma_entries_view(es.update(i, e));
    lemma_entries_view(es);
    assert(entries_view(es.update(i, e)) =~= entries_view(es).update(i, (e.0@, tree_view(e.1))));
}

impl DataTree {
    /// A structurally equal copy of this tree.
    #[verifier::loop_isolation(false)]
    pub fn duplicate(&self) -> (r: DataTree)
        ensures
            r@ == self@,
        decreases self,
    {
        match self {
            DataTree::Null => DataTree::Null,
            DataTree::Bool(b) => DataTree::Bool(*b),
            DataTree::Int(i) => DataTree::Int(*i),
            DataTree::Text(s) => DataTree::Text(s.clone()),
            DataTree::List(xs) => {
                let mut out: Vec<DataTree> = Vec::new();
                let mut i: usize = 0;
                while i < xs.len()
                    invariant
                        i <= xs.len(),
                        out@.len() == i,
                        list_view(out@) == list_view(xs@.subrange(0, i as int)),
                    decreases xs.len() - i,
                {
                    let ghost prev = out@;
                    proof {
                        assert(*self == DataTree::List(*xs));
                        assert(decreases_to!(*self => *xs));
                        assert(decreases_to!(*xs => xs@));
                        assert(decreases_to!(xs@ => xs@[i as int]));
                    }
                    let d = xs[i].duplicate();
                    out.push(d);
                    proof {
                        lemma_list_view_push(prev, out@.last());
                        assert(xs@.subrange(0, i as int).push(xs@[i as int]) =~= xs@.subrange(
                            0,
                            (i + 1) as int,
                        ));
                        lemma_list_view_push(xs@.subrange(0, i as int), xs@[i as int]);
                    }
                    i += 1;
                }
                proof {
                    assert(xs@.subrange(0, xs@.len() as int) =~= xs@);
                }
                DataTree::List(out)
            },
            DataTree::Object(es) => {
                let mut out: Vec<(String, DataTree)> = Vec::new();
                let mut i: usize = 0;
                while i < es.len()
                    invariant
                        i <= es.len(),
                        out@.len() == i,
                        entries_view(out@) == entries_view(es@.subrange(0, i as int)),
                    decreases es.len() - i,
                {
                    let ghost prev = out@;
                    proof {
                        assert(*self == DataTree::Object(*es));
                        assert(decreases_to!(*self => *es));
                        assert(decreases_to!(*es => es@));
                        assert(decreases_to!(es@ => es@[i as int]));
                        assert(decreases_to!(es@[i as int] => es@[i as int].1));
                    }
                    let key = es[i].0.clone();
                    let d = es[i].1.duplicate();
                    out.push((key, d));
                    proof {
                        lemma_entries_view_push(prev, out@.last());
                        assert(es@.subrange(0, i as int).push(es@[i as int]) =~= es@.subrange(
                            0,
                            (i + 1) as int,
                        ));
                        lemma_entries_view_push(es@.subrange(0, i as int), es@[i as int]);
                    }
                    i += 1;
                }
                proof {
                    assert(es@.subrange(0, es@.len() as int) =~= es@);
                }
                DataTree::Object(out)
            },
        }
    }
}

/// The first entry of `es` whose key equals `k`, if any.
fn find_key<V>(es: &Vec<(String, V)>, k: &String) -> (r: Option<usize>)
    ensures
        match r {
            Some(i) => i < es@.len() && es@[i as int].0@ == k@ && forall|l: int|
                0 <= l < i ==> es@[l].0@ != k@,
            None => forall|l: int| 0 <= l < es@.len() ==> es@[l].0@ != k@,
        },
{
    let mut i: usize = 0;
    while i < es.len()
        invariant
            i <= es@.len(),
            forall|l: int| 0 <= l < i ==> es@[l].0@ != k@,
        decreases es@.len() - i,
    {
        if es[i].0 == *k {
            return Some(i);
        }
        i += 1;
    }
    None
}

/// Deep merge of two trees, right side winning on anything that is not a
/// pair of mappings; mappings merge key by key, recursively.
#[verifier::loop_isolation(false)]
pub fn merge_trees(a: &DataTree, b: &DataTree) -> (r: DataTree)
    ensures
        r@ == merge_v(a@, b@),
    decreases b,
{
    match b {
        DataTree::Object(ys) => {
            let xs = match a {
                DataTree::Object(xs) => xs,
                _ => {
                    return b.duplicate();
                },
            };
            let mut out: Vec<(String, DataTree)> = Vec::new();
            let mut i: usize = 0;
            while i < xs.len()
                invariant
                    i <= xs.len(),
                    out@.len() == i,
                    entries_view(out@) == entries_view(xs@.subrange(0, i as int)),
                decreases xs.len() - i,
            {
                let ghost prev = out@;
                let key = xs[i].0.clone();
                let d = xs[i].1.duplicate();
                out.push((key, d));
                proof {
                    lemma_entries_view_push(prev, out@.last());
                    assert(xs@.subrange(0, i as int).push(xs@[i as int]) =~= xs@.subrange(
                        0,
                        (i + 1) as int,
                    ));
                    lemma_entries_view_push(xs@.subrange(0, i as int), xs@[i as int]);
                }
                i += 1;
            }
            proof {
                assert(xs@.subrange(0, xs@.len() as int) =~= xs@);
            }
            let mut j: usize = 0;
            while j < ys.len()
                invariant
                    j <= ys.len(),
                    entries_view(out@) == merge_entries(
                        entries_view(xs@),
                        entries_view(ys@).subrange(0, j as int),
                    ),
                decreases ys.len() - j,
            {
                let ghost pre = entries_view(out@);
                let ghost yk = ys@[j as int].0@;
                let ghost yv = tree_view(ys@[j as int].1);
                proof {
                    lemma_entries_view(ys@);
                    lemma_entries_view(out@);
                }
                match find_key(&out, &ys[j].0) {
                    Some(idx) => {
                        proof {
                            assert(pre[idx as int].0 == yk);
                            assert(forall|l: int| 0 <= l < idx ==> pre[l].0 != yk);
                            lemma_assoc_get_at(pre, yk, idx as int);
                        }
                        let merged = {
                            proof {
                                assert(*b == DataTree::Object(*ys));
                                assert(decreases_to!(*b => *ys));
                                assert(decreases_to!(*ys => ys@));
                                assert(decreases_to!(ys@ => ys@[j as int]));
                                assert(decreases_to!(ys@[j as int] => ys@[j as int].1));
                            }
                            merge_trees(&out[idx].1, &ys[j].1)
                        };
                        let key = ys[j].0.clone();
                        let ghost before = out@;
                        out.set(idx, (key, merged));
                        proof {
                            lemma_assoc_set_at(
                                pre,
                                yk,
                                merge_v(assoc_get(pre, yk), yv),
                                idx as int,
                            );
                            lemma_entries_view_update(before, idx as int, out@[idx as int]);
                        }
                    },
                    None => {
                        proof {
                            assert(!assoc_has(pre, yk));
                        }
                        let key = ys[j].0.clone();
                        let d = ys[j].1.duplicate();
                        let ghost prev = out@;
                        out.push((key, d));
                        proof {
                            lemma_entries_view_push(prev, out@.last());
                        }
                    },
                }
                proof {
                    assert(entries_view(ys@).subrange(0, (j + 1) as int).drop_last()
                        =~= entries_view(ys@).subrange(0, j as int));
                    assert(entries_view(ys@).subrange(0, (j + 1) as int).last() == (yk, yv));
                }
                j += 1;
            }
            proof {
                lemma_entries_view(ys@);
                assert(entries_view(ys@).subrange(0, ys@.len() as int) =~= entries_view(ys@));
            }
            DataTree::Object(out)
        },
        _ => b.duplicate(),
    }
}

} // verus!
