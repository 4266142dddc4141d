//! The migration journal: an ordered, append-only sequence of
//! schema-mutating statements, reconciled positionally against the live
//! database's applied-migration log.

use vstd::prelude::*;

use crate::error::TurboError;

verus! {

/// The views of a sequence of statement strings.
pub open spec fn text_views(v: Seq<String>) -> Seq<Seq<char>> {
    v.map_values(|s: String| s@)
}

/// The applied log matches the target sequence at every position present in
/// both, and the target is at least as long.
pub open spec fn is_prefix_of(applied: Seq<Seq<char>>, target: Seq<Seq<char>>) -> bool {
    &&& applied.len() <= target.len()
    &&& forall|i: int| 0 <= i < applied.len() ==> applied[i] == target[i]
}

/// The statements reconciliation still has to apply: the target entries past
/// the end of the applied log, in target order.
pub open spec fn pending_of(applied: Seq<Seq<char>>, target: Seq<Seq<char>>) -> Seq<Seq<char>> {
    target.skip(applied.len() as int)
}

/// Walk the applied log and the target sequence pairwise by position and
/// decide what reconciliation must do.
///
/// Returns the statements still to apply when the applied log is a positional
/// prefix of the target.  A textual mismatch at a shared position is fatal
/// drift; an applied log longer than the target means the live database holds
/// migrations this manifest does not know about.
pub fn reconcile(applied: &Vec<String>, target: &Vec<String>) -> (r: Result<
    Vec<String>,
    TurboError,
>)
    ensures
        r is Ok <==> is_prefix_of(text_views(applied@), text_views(target@)),
        r matches Ok(plan) ==> text_views(plan@) =~= pending_of(
            text_views(applied@),
            text_views(target@),
        ),
        r matches Err(e) ==> match e {
            TurboError::MigrationDrift { position, applied_statement, target_statement } => {
                &&& position < applied@.len()
                &&& position < target@.len()
                &&& applied@[position as int]@ != target@[position as int]@
                &&& forall|j: int| 0 <= j < position ==> applied@[j]@ == target@[j]@
                &&& applied_statement@ == applied@[position as int]@
                &&& target_statement@ == target@[position as int]@
            },
            TurboError::UnknownMigrations { applied_count, target_count } => {
                &&& applied@.len() > target@.len()
                &&& forall|j: int| 0 <= j < target@.len() ==> applied@[j]@ == target@[j]@
                &&& applied_count == applied@.len()
                &&& target_count == target@.len()
            },
            _ => false,
        },
{
    let shared: usize = if applied.len() < target.len() {
        applied.len()
    } else {
        target.len()
    };
    let mut i: usize = 0;
    while i < shared
        invariant
            shared <= applied.len(),
            shared <= target.len(),
            shared == if applied@.len() < target@.len() {
                applied@.len() as int
            } else {
                target@.len() as int
            },
            0 <= i <= shared,
            forall|j: int| 0 <= j < i ==> applied@[j]@ == target@[j]@,
        decreases shared - i,
    {
        if applied[i] != target[i] {
            proof {
                assert(text_views(applied@)[i as int] != text_views(target@)[i as int]);
            }
            return Err(
                TurboError::MigrationDrift {
                    position: i,
                    applied_statement: applied[i].clone(),
                    target_statement: target[i].clone(),
                },
            );
        }
        i += 1;
    }
    if applied.len() > target.len() {
        return Err(
            TurboError::UnknownMigrations {
                applied_count: applied.len(),
                target_count: target.len(),
            },
        );
    }
    let mut plan: Vec<String> = Vec::new();
    let mut k: usize = applied.len();
    while k < target.len()
        invariant
            applied@.len() <= k <= target@.len(),
            plan@.len() == k - applied@.len(),
            forall|j: int|
                0 <= j < plan@.len() ==> plan@[j]@ == target@[j + applied@.len()]@,
        decreases target@.len() - k,
    {
        plan.push(target[k].clone());
        k += 1;
    }
    assert(text_views(plan@) =~= pending_of(text_views(applied@), text_views(target@)));
    Ok(plan)
}

/// Law: reconciliation is idempotent.  Once the applied log equals the target
/// sequence, a further run finds nothing pending, so it performs zero writes.
pub proof fn lemma_reconcile_idempotent(log: Seq<Seq<char>>)
    ensures
        is_prefix_of(log, log),
        pending_of(log, log) =~= Seq::<Seq<char>>::empty(),
{
}

/// Law: against an empty applied log (a fresh database) the entire target
/// sequence is pending, in target order.  Two fresh databases reconciled
/// against the same target therefore apply the same statements in the same
/// order.
pub proof fn lemma_reconcile_fresh(target: Seq<Seq<char>>)
    ensures
        is_prefix_of(Seq::<Seq<char>>::empty(), target),
        pending_of(Seq::<Seq<char>>::empty(), target) =~= target,
{
}

/// Law: the journal is append-only.  Appending entries to a target whose
/// prefix equals the applied log leaves that prefix untouched and makes
/// exactly the appended entries pending.
pub proof fn lemma_reconcile_append(log: Seq<Seq<char>>, appended: Seq<Seq<char>>)
    ensures
        is_prefix_of(log, log + appended),
        pending_of(log, log + appended) =~= appended,
{
}

} // verus!
