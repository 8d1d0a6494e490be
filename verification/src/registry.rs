//! Lists of namespaces in which no path occurs twice.
use crate::adapter::Adapter;
use crate::ns::Namespace;
use std::sync::Arc;
use vstd::prelude::*;

verus! {

/// No two namespaces have the same path.
pub open spec fn distinct_paths<A: Adapter, C>(list: Seq<Arc<Namespace<A, C>>>) -> bool {
    forall|i: int, j: int|
        0 <= i < j < list.len() ==> (#[trigger] list[i]).path@ != (#[trigger] list[j]).path@
}

/// There is a namespace with the path.
pub open spec fn has_path<A: Adapter, C>(list: Seq<Arc<Namespace<A, C>>>, path: Seq<char>) -> bool {
    exists|i: int| 0 <= i < list.len() && (#[trigger] list[i]).path@ == path
}

/// The namespaces of the list by their paths.
pub open spec fn by_path<A: Adapter, C>(list: Seq<Arc<Namespace<A, C>>>) -> Map<
    Seq<char>,
    Arc<Namespace<A, C>>,
> {
    Map::new(
        |path: Seq<char>| has_path(list, path),
        |path: Seq<char>|
            list[choose|i: int| 0 <= i < list.len() && (#[trigger] list[i]).path@ == path],
    )
}

/// Each namespace of the list is found under its path.
pub(crate) proof fn lemma_by_path<A: Adapter, C>(list: Seq<Arc<Namespace<A, C>>>, i: int)
    requires
        distinct_paths(list),
        0 <= i < list.len(),
    ensures
        by_path(list).contains_key(list[i].path@),
        by_path(list)[list[i].path@] == list[i],
{
    let path = list[i].path@;
    assert(has_path(list, path));
    let k = choose|k: int| 0 <= k < list.len() && (#[trigger] list[k]).path@ == path;
    if k < i {
        assert(list[k].path@ != list[i].path@);
    } else if i < k {
        assert(list[i].path@ != list[k].path@);
    }
}

/// A namespace in the place of another one with the same path.
pub(crate) proof fn lemma_replaced<A: Adapter, C>(
    list: Seq<Arc<Namespace<A, C>>>,
    i: int,
    ns: Arc<Namespace<A, C>>,
)
    requires
        distinct_paths(list),
        0 <= i < list.len(),
        list[i].path@ == ns.path@,
    ensures
        distinct_paths(list.update(i, ns)),
        by_path(list.update(i, ns)) == by_path(list).insert(ns.path@, ns),
{
    let after = list.update(i, ns);
    assert forall|j: int| 0 <= j < after.len() implies (#[trigger] after[j]).path@
        == list[j].path@ by {}
    assert(distinct_paths(after));
    assert forall|path: Seq<char>| has_path(after, path) <==> has_path(list, path) by {
        if has_path(after, path) {
            let k = choose|k: int| 0 <= k < after.len() && (#[trigger] after[k]).path@ == path;
            assert(list[k].path@ == path);
        }
        if has_path(list, path) {
            let k = choose|k: int| 0 <= k < list.len() && (#[trigger] list[k]).path@ == path;
            assert(after[k].path@ == path);
        }
    }
    assert(has_path(list, ns.path@));
    assert forall|path: Seq<char>| has_path(after, path) implies by_path(after)[path]
        == by_path(list).insert(ns.path@, ns)[path] by {
        let k = choose|k: int| 0 <= k < after.len() && (#[trigger] after[k]).path@ == path;
        lemma_by_path(after, k);
        lemma_by_path(list, k);
        if path == ns.path@ {
            lemma_by_path(after, i);
        }
    }
    assert(by_path(after) =~= by_path(list).insert(ns.path@, ns));
}

/// One more namespace, with a path that is not there yet.
pub(crate) proof fn lemma_pushed<A: Adapter, C>(list: Seq<Arc<Namespace<A, C>>>, ns: Arc<Namespace<A, C>>)
    requires
        distinct_paths(list),
        !has_path(list, ns.path@),
    ensures
        distinct_paths(list.push(ns)),
        by_path(list.push(ns)) == by_path(list).insert(ns.path@, ns),
{
    let after = list.push(ns);
    let last = list.len() as int;
    assert forall|i: int, j: int| 0 <= i < j < after.len() implies (#[trigger] after[i]).path@ != (
    #[trigger] after[j]).path@ by {
        if j == last {
            assert(after[i] == list[i]);
        } else {
            assert(after[i] == list[i] && after[j] == list[j]);
        }
    }
    assert forall|path: Seq<char>|
        has_path(after, path) <==> has_path(list, path) || path == ns.path@ by {
        if has_path(after, path) {
            let k = choose|k: int| 0 <= k < after.len() && (#[trigger] after[k]).path@ == path;
            if k < last {
                assert(list[k].path@ == path);
            }
        }
        if has_path(list, path) {
            let k = choose|k: int| 0 <= k < list.len() && (#[trigger] list[k]).path@ == path;
            assert(after[k].path@ == path);
        }
        if path == ns.path@ {
            assert(after[last].path@ == path);
        }
    }
    assert forall|path: Seq<char>| has_path(after, path) implies by_path(after)[path]
        == by_path(list).insert(ns.path@, ns)[path] by {
        let k = choose|k: int| 0 <= k < after.len() && (#[trigger] after[k]).path@ == path;
        lemma_by_path(after, k);
        if k < last {
            lemma_by_path(list, k);
            assert(has_path(list, path));
        }
    }
    assert(by_path(after) =~= by_path(list).insert(ns.path@, ns));
}

/// The list without one of its namespaces.
pub(crate) proof fn lemma_removed<A: Adapter, C>(list: Seq<Arc<Namespace<A, C>>>, i: int)
    requires
        distinct_paths(list),
        0 <= i < list.len(),
    ensures
        distinct_paths(list.remove(i)),
        by_path(list.remove(i)) == by_path(list).remove(list[i].path@),
{
    let after = list.remove(i);
    let gone = list[i].path@;
    assert forall|j: int| 0 <= j < after.len() implies #[trigger] after[j] == list[if j < i {
        j
    } else {
        j + 1
    }] by {}
    assert(distinct_paths(after));
    assert forall|path: Seq<char>|
        has_path(after, path) <==> has_path(list, path) && path != gone by {
        if has_path(after, path) {
            let k = choose|k: int| 0 <= k < after.len() && (#[trigger] after[k]).path@ == path;
            let l = if k < i {
                k
            } else {
                k + 1
            };
            assert(list[l].path@ == path);
            if l < i {
                assert(list[l].path@ != list[i].path@);
            } else {
                assert(list[i].path@ != list[l].path@);
            }
        }
        if has_path(list, path) && path != gone {
            let k = choose|k: int| 0 <= k < list.len() && (#[trigger] list[k]).path@ == path;
            let l = if k < i {
                k
            } else {
                k - 1
            };
            assert(after[l].path@ == path);
        }
    }
    assert forall|path: Seq<char>| has_path(after, path) implies by_path(after)[path]
        == by_path(list)[path] by {
        let k = choose|k: int| 0 <= k < after.len() && (#[trigger] after[k]).path@ == path;
        lemma_by_path(after, k);
        lemma_by_path(
            list,
            if k < i {
                k
            } else {
                k + 1
            },
        );
    }
    assert(by_path(after) =~= by_path(list).remove(gone));
}

} // verus!
