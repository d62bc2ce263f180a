//! Laws of the transfer registry.

use vstd::prelude::*;
use crate::identifiers::{hyphenated_text, law_hyphenated_text_is_injective};
use crate::transfer_model::{
    entry_index, has_entry, lemma_finished_inv, lemma_index_unique, live_entries, retained_entries,
    scope_of, RegistryEntry, RegistryModel, TransferBinding, TransferFailureCode, TransferPhase,
    InboundAdmission, TransferRegistryError,
};
use crate::transfer_status::{cancel_answer, readmitted};
use crate::wire_index::WireScope;

verus! {

/// The order of states is transitive, so what holds from one call to the next
/// holds over any number of calls.
pub proof fn law_states_are_ordered(a: RegistryModel, b: RegistryModel, c: RegistryModel)
    requires
        a.precedes(b),
        b.precedes(c),
    ensures
        a.precedes(c),
{
    assert forall|id: u128| #[trigger] a.history.contains_key(id) implies c.history.contains_key(id)
        && c.history[id] == a.history[id] by {
        assert(b.history.contains_key(id));
    }
}

/// A transfer that has ended keeps its outcome in every later state.
pub proof fn law_outcomes_are_final(before: RegistryModel, after: RegistryModel, id: u128)
    requires
        before.precedes(after),
        after.inv(),
        before.history.contains_key(id),
    ensures
        after.history.contains_key(id),
        after.history[id] == before.history[id],
        after.has(id) ==> after.entry(id).phase == before.history[id].phase,
{
    assert(after.history.contains_key(id));
    if after.has(id) {
        assert(after.entry_known(after.entries[after.index_of(id)]));
    }
}

/// An identifier that was ever used, publicly or on the wire, is never handed
/// out again.
pub proof fn law_identifiers_are_not_reused(before: RegistryModel, after: RegistryModel, id: u128)
    requires
        before.precedes(after),
        before.public_ids.contains(id) || before.wire_ids.contains(id),
    ensures
        !after.available(id),
{
}

/// A public identifier is never also a wire identifier.
pub proof fn law_public_and_wire_identifiers_are_disjoint(m: RegistryModel, id: u128)
    requires
        m.inv(),
        m.public_ids.contains(id),
    ensures
        !m.wire_ids.contains(id),
{
}

/// Different peers, directions or wire identifiers never lead to one transfer.
pub proof fn law_scopes_are_isolated(m: RegistryModel, a: WireScope, b: WireScope)
    requires
        m.inv(),
        m.by_wire.contains_key(a),
        m.by_wire.contains_key(b),
        a != b,
    ensures
        m.by_wire[a] != m.by_wire[b],
{
    assert(m.scope_known(a));
    assert(m.scope_known(b));
    if m.by_wire[a] == m.by_wire[b] {
        let id = m.by_wire[a];
        if m.has(id) {
            assert(m.entry_known(m.entries[m.index_of(id)]));
        }
    }
}

/// Once a transfer is complete, a cancellation changes nothing and reaches nobody.
pub proof fn law_completion_beats_cancellation(m: RegistryModel, id: u128)
    requires
        m.inv(),
        m.revision < u64::MAX,
        m.has(id),
        !m.entry(id).phase.terminal(),
        m.entry(id).phase != TransferPhase::CancelRequested,
    ensures
        ({
            let done = m.finished(id, m.entry(id).completed());
            let answer = cancel_answer(done, id);
            &&& done.history[id].phase == TransferPhase::Completed
            &&& answer.1 == done
            &&& answer.0 == if done.has(id) {
                Ok::<Option<TransferBinding>, TransferRegistryError>(None)
            } else {
                Err(TransferRegistryError::NotFound)
            }
        }),
{
    let e = m.entry(id).completed();
    assert(m.entry_known(m.entries[m.index_of(id)]));
    lemma_finished_inv(m, id, e);
    let done = m.finished(id, e);
    assert(done.history.contains_key(id));
    if done.has(id) {
        assert(done.entry_known(done.entries[done.index_of(id)]));
    }
}

/// Once a cancellation was accepted, completion cannot win, and giving the
/// transfer up ends it as cancelled.
pub proof fn law_cancellation_beats_completion(m: RegistryModel, id: u128)
    requires
        m.inv(),
        m.revision < u64::MAX - 1,
        m.has(id),
        !m.entry(id).phase.terminal(),
        m.entry(id).phase != TransferPhase::CancelRequested,
        m.entry(id).cancellable,
    ensures
        ({
            let asked = cancel_answer(m, id).1;
            &&& asked.has(id)
            &&& asked.entry(id).phase == TransferPhase::CancelRequested
            &&& asked.after_cancelled(id).history[id].phase == TransferPhase::Cancelled
        }),
{
    let at = m.index_of(id);
    let asked = cancel_answer(m, id).1;
    assert(m.entry_known(m.entries[at]));
    assert(asked.entries[at].public_id == id);
    assert forall|i: int, j: int| 0 <= i < j < asked.entries.len() implies (
    #[trigger] asked.entries[i]).public_id != (#[trigger] asked.entries[j]).public_id by {
        assert(m.entries[i].public_id != m.entries[j].public_id);
    }
    lemma_index_unique(asked.entries, at);
}

/// Asking for a cancellation twice is the same as asking once.
pub proof fn law_cancellation_is_idempotent(m: RegistryModel, id: u128)
    requires
        m.inv(),
        cancel_answer(m, id).0 is Ok,
    ensures
        ({
            let asked = cancel_answer(m, id).1;
            cancel_answer(asked, id) == (
                Ok::<Option<TransferBinding>, TransferRegistryError>(None),
                asked,
            )
        }),
{
    let at = m.index_of(id);
    let asked = cancel_answer(m, id).1;
    if cancel_answer(m, id).0->Ok_0 is Some {
        assert(asked.entries[at].public_id == id) by {
            assert(m.entry_known(m.entries[at]));
        }
        assert forall|i: int, j: int| 0 <= i < j < asked.entries.len() implies (
        #[trigger] asked.entries[i]).public_id != (#[trigger] asked.entries[j]).public_id by {
            assert(m.entries[i].public_id != m.entries[j].public_id);
        }
        lemma_index_unique(asked.entries, at);
    }
}

/// Sent bytes never go down, and having sent everything is not completion.
pub proof fn law_sent_bytes_never_regress(e: RegistryEntry, processed: u64)
    requires
        e.consistent(),
        !e.phase.terminal(),
    ensures
        !e.sent(processed).phase.terminal(),
        e.processed_bytes matches Some(before) ==> e.sent(processed).processed_bytes matches Some(
            after,
        ) && before <= after,
{
}

/// Once cleanup has failed, a late cancellation does not hide it.
pub proof fn law_cleanup_failure_wins(m: RegistryModel, id: u128, failure: TransferFailureCode)
    requires
        m.inv(),
        m.revision < u64::MAX,
        m.has(id),
        !m.entry(id).phase.terminal(),
    ensures
        ({
            let failed = m.irreversibly_failed(id, failure);
            &&& failed.history[id].phase == TransferPhase::Failed
            &&& failed.after_cancelled(id) == failed
            &&& failed.has(id) ==> failed.entry(id).failure is Some
        }),
{
    let e = m.entry(id).failed(failure);
    assert(m.entry_known(m.entries[m.index_of(id)]));
    lemma_finished_inv(m, id, e);
    let failed = m.irreversibly_failed(id, failure);
    assert(failed.history.contains_key(id));
    if failed.has(id) {
        assert(failed.entry_known(failed.entries[failed.index_of(id)]));
    }
}

/// A peer that announces an ended transfer again learns how it ended, and
/// nothing is brought back to life.
pub proof fn law_ended_transfers_are_not_resurrected(
    m: RegistryModel,
    scope: WireScope,
    total_bytes: u64,
)
    requires
        m.inv(),
        m.by_wire.contains_key(scope),
        m.history.contains_key(m.by_wire[scope]),
    ensures
        readmitted(m, m.by_wire[scope], total_bytes) == (
            Ok::<InboundAdmission, TransferRegistryError>(
                InboundAdmission::Terminal {
                    binding: m.history[m.by_wire[scope]].binding,
                    phase: m.history[m.by_wire[scope]].phase,
                },
            ),
            m,
        ),
        scope_of(m.history[m.by_wire[scope]].binding) == scope,
{
    let id = m.by_wire[scope];
    assert(m.scope_known(scope));
    if m.has(id) {
        assert(m.entry_known(m.entries[m.index_of(id)]));
    }
}

proof fn lemma_live_members(entries: Seq<RegistryEntry>)
    ensures
        live_entries(entries).len() <= entries.len(),
        forall|k: int|
            #![trigger live_entries(entries)[k]]
            0 <= k < live_entries(entries).len() ==> exists|i: int|
                0 <= i < entries.len() && #[trigger] entries[i] == live_entries(entries)[k]
                    && !entries[i].phase.terminal(),
    decreases entries.len(),
{
    if entries.len() > 0 {
        let rest = entries.drop_last();
        lemma_live_members(rest);
        assert forall|k: int|
            #![trigger live_entries(entries)[k]]
            0 <= k < live_entries(entries).len() implies exists|i: int|
                0 <= i < entries.len() && #[trigger] entries[i] == live_entries(entries)[k]
                    && !entries[i].phase.terminal() by {
            if k < live_entries(rest).len() {
                assert(live_entries(entries)[k] == live_entries(rest)[k]);
                let i = choose|i: int|
                    0 <= i < rest.len() && #[trigger] rest[i] == live_entries(rest)[k]
                        && !rest[i].phase.terminal();
                assert(entries[i] == rest[i]);
            } else {
                assert(entries[entries.len() - 1] == live_entries(entries)[k]);
            }
        }
    }
}

proof fn lemma_live_distinct(entries: Seq<RegistryEntry>)
    requires
        forall|i: int, j: int|
            0 <= i < j < entries.len() ==> (#[trigger] entries[i]).public_id != (
            #[trigger] entries[j]).public_id,
    ensures
        forall|a: int, b: int|
            0 <= a < b < live_entries(entries).len() ==> (#[trigger] live_entries(
                entries,
            )[a]).public_id != (#[trigger] live_entries(entries)[b]).public_id,
    decreases entries.len(),
{
    if entries.len() > 0 {
        let rest = entries.drop_last();
        lemma_live_distinct(rest);
        lemma_live_members(rest);
        assert forall|a: int, b: int| 0 <= a < b < live_entries(entries).len() implies (
        #[trigger] live_entries(entries)[a]).public_id != (#[trigger] live_entries(
            entries,
        )[b]).public_id by {
            assert(live_entries(entries)[a] == live_entries(rest)[a]);
            if b < live_entries(rest).len() {
                assert(live_entries(entries)[b] == live_entries(rest)[b]);
            } else {
                let i = choose|i: int|
                    0 <= i < rest.len() && #[trigger] rest[i] == live_entries(rest)[a]
                        && !rest[i].phase.terminal();
                assert(entries[i].public_id != entries[entries.len() - 1].public_id);
            }
        }
    }
}

proof fn lemma_retained(fifo: Seq<u128>, entries: Seq<RegistryEntry>)
    requires
        fifo.no_duplicates(),
    ensures
        retained_entries(fifo, entries).len() <= fifo.len(),
        forall|k: int|
            #![trigger retained_entries(fifo, entries)[k]]
            0 <= k < retained_entries(fifo, entries).len() ==> fifo.contains(
                retained_entries(fifo, entries)[k].public_id,
            ) && has_entry(entries, retained_entries(fifo, entries)[k].public_id) && retained_entries(
                fifo,
                entries,
            )[k] == entries[entry_index(entries, retained_entries(fifo, entries)[k].public_id)],
        forall|a: int, b: int|
            0 <= a < b < retained_entries(fifo, entries).len() ==> (#[trigger] retained_entries(
                fifo,
                entries,
            )[a]).public_id != (#[trigger] retained_entries(fifo, entries)[b]).public_id,
    decreases fifo.len(),
{
    if fifo.len() > 0 {
        let rest = fifo.drop_last();
        let all = retained_entries(fifo, entries);
        let before = retained_entries(rest, entries);
        assert(rest.no_duplicates());
        lemma_retained(rest, entries);
        assert forall|k: int| #![trigger all[k]] 0 <= k < all.len() implies fifo.contains(
            all[k].public_id,
        ) && has_entry(entries, all[k].public_id) && all[k] == entries[entry_index(
            entries,
            all[k].public_id,
        )] by {
            if k < before.len() {
                assert(all[k] == before[k]);
                let i = choose|i: int| 0 <= i < rest.len() && rest[i] == before[k].public_id;
                assert(fifo[i] == rest[i]);
            } else {
                assert(fifo[fifo.len() - 1] == all[k].public_id);
            }
        }
        assert forall|a: int, b: int| 0 <= a < b < all.len() implies (#[trigger] all[a]).public_id
            != (#[trigger] all[b]).public_id by {
            assert(all[a] == before[a]);
            if b < before.len() {
                assert(all[b] == before[b]);
            } else {
                let i = choose|i: int| 0 <= i < rest.len() && rest[i] == before[a].public_id;
                assert(fifo[i] != fifo[fifo.len() - 1]);
            }
        }
    }
}

/// A listing never shows more than its limits allow, and never shows two
/// transfers under one identifier.
pub proof fn law_listing_is_bounded_and_unambiguous(m: RegistryModel)
    requires
        m.inv(),
    ensures
        m.listing_order().len() <= m.limits.nonterminal + m.limits.terminal,
        forall|a: int, b: int|
            0 <= a < b < m.listing_order().len() ==> hyphenated_text(
                (#[trigger] m.listing_order()[a]).public_id,
            ) != hyphenated_text((#[trigger] m.listing_order()[b]).public_id),
{
    let live = live_entries(m.entries);
    let kept = retained_entries(m.fifo, m.entries);
    lemma_live_members(m.entries);
    lemma_live_distinct(m.entries);
    lemma_retained(m.fifo, m.entries);
    assert forall|a: int, b: int| 0 <= a < b < m.listing_order().len() implies hyphenated_text(
        (#[trigger] m.listing_order()[a]).public_id,
    ) != hyphenated_text((#[trigger] m.listing_order()[b]).public_id) by {
        let x = m.listing_order()[a].public_id;
        let y = m.listing_order()[b].public_id;
        assert(x != y) by {
            if b < live.len() {
                assert(live[a].public_id != live[b].public_id);
            } else if a >= live.len() {
                assert(kept[a - live.len()].public_id != kept[b - live.len()].public_id);
            } else {
                let i = choose|i: int|
                    0 <= i < m.entries.len() && #[trigger] m.entries[i] == live[a]
                        && !m.entries[i].phase.terminal();
                let k = b - live.len();
                assert(m.fifo.contains(kept[k].public_id));
                let f = choose|f: int| 0 <= f < m.fifo.len() && m.fifo[f] == kept[k].public_id;
                assert(m.history.contains_key(m.fifo[f]));
                assert(m.entry_known(m.entries[i]));
            }
        }
        if hyphenated_text(x) == hyphenated_text(y) {
            law_hyphenated_text_is_injective(x, y);
        }
    }
}

} // verus!
