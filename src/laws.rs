use vstd::prelude::*;
use crate::service::{Service, ids_dense, kept, renumbered, survives, with_new};

verus! {

/// One change to the registry, as `add_service` and `remove_service`
/// followed by `reorganize_ids` make it.
pub enum RegistryOp {
    Add {
        name: String,
        color: String,
        start_command: Option<String>,
        stop_command: Option<String>,
        restart_command: Option<String>,
    },
    Remove { by_id: Option<usize>, by_name: Option<String> },
}

/// The collection after one change.
pub open spec fn apply_op(s: Seq<Service>, op: RegistryOp) -> Seq<Service> {
    match op {
        RegistryOp::Add { name, color, start_command, stop_command, restart_command } => with_new(
            s,
            name,
            color,
            start_command,
            stop_command,
            restart_command,
        ),
        RegistryOp::Remove { by_id, by_name } => if kept(s, by_id, by_name).len() == s.len() {
            s
        } else {
            renumbered(kept(s, by_id, by_name))
        },
    }
}

/// The collection after the changes, made in order.
pub open spec fn apply_ops(s: Seq<Service>, ops: Seq<RegistryOp>) -> Seq<Service>
    decreases ops.len(),
{
    if ops.len() == 0 {
        s
    } else {
        apply_op(apply_ops(s, ops.drop_last()), ops.last())
    }
}

/// The ids that occur in the collection.
pub open spec fn id_set(s: Seq<Service>) -> Set<int> {
    Set::new(|n: int| exists|k: int| 0 <= k < s.len() && (#[trigger] s[k]).id == n)
}

/// Removal never adds records.
pub proof fn lemma_kept_len(s: Seq<Service>, id: Option<usize>, name: Option<String>)
    ensures
        kept(s, id, name).len() <= s.len(),
    decreases s.len(),
{
    if s.len() > 0 {
        lemma_kept_len(s.drop_last(), id, name);
    }
}

/// Removal leaves the collection as it was exactly when no record matches a
/// selector; then it keeps every record.
pub proof fn lemma_remove_not_found_iff_no_match(
    s: Seq<Service>,
    id: Option<usize>,
    name: Option<String>,
)
    ensures
        (kept(s, id, name).len() == s.len()) <==> (forall|i: int|
            0 <= i < s.len() ==> survives(#[trigger] s[i], id, name)),
        kept(s, id, name).len() == s.len() ==> kept(s, id, name) == s,
    decreases s.len(),
{
    if s.len() > 0 {
        let p = s.drop_last();
        lemma_remove_not_found_iff_no_match(p, id, name);
        lemma_kept_len(p, id, name);
        if forall|i: int| 0 <= i < s.len() ==> survives(#[trigger] s[i], id, name) {
            assert forall|i: int| 0 <= i < p.len() implies survives(#[trigger] p[i], id, name) by {
                assert(p[i] == s[i]);
            }
            assert(survives(s[s.len() - 1], id, name));
            assert(kept(s, id, name) =~= s);
        }
        if kept(s, id, name).len() == s.len() {
            assert(survives(s.last(), id, name));
            assert forall|i: int| 0 <= i < s.len() implies survives(#[trigger] s[i], id, name) by {
                if i < s.len() - 1 {
                    assert(p[i] == s[i]);
                }
            }
        }
    }
}

/// Every collection that a run of adds and removals builds from the empty one
/// has the ids 1, 2, ..., n in the order of its records.
pub proof fn lemma_ops_keep_ids_dense(ops: Seq<RegistryOp>)
    requires
        ops.len() < usize::MAX,
    ensures
        ids_dense(apply_ops(Seq::empty(), ops)),
        apply_ops(Seq::empty(), ops).len() <= ops.len(),
    decreases ops.len(),
{
    if ops.len() > 0 {
        let prev = apply_ops(Seq::empty(), ops.drop_last());
        lemma_ops_keep_ids_dense(ops.drop_last());
        match ops.last() {
            RegistryOp::Add { .. } => {},
            RegistryOp::Remove { by_id, by_name } => {
                lemma_kept_len(prev, by_id, by_name);
            },
        }
    }
}

/// After any run of adds and removals from the empty registry, the set of ids
/// is exactly {1, ..., n}, n being the number of records.
pub proof fn lemma_ids_are_one_to_n(ops: Seq<RegistryOp>)
    requires
        ops.len() < usize::MAX,
    ensures
        id_set(apply_ops(Seq::empty(), ops)) == Set::new(
            |n: int| 1 <= n <= apply_ops(Seq::empty(), ops).len(),
        ),
{
    let s = apply_ops(Seq::empty(), ops);
    lemma_ops_keep_ids_dense(ops);
    assert forall|n: int| 1 <= n <= s.len() implies #[trigger] id_set(s).contains(n) by {
        assert(s[n - 1].id == n);
    }
    assert(id_set(s) =~= Set::new(|n: int| 1 <= n <= s.len()));
}

} // verus!
