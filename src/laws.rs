use vstd::prelude::*;
use crate::codec::{
    encode_record, lemma_decode_encode, lemma_parsed_encodable, lemma_record_fits, parse_record,
};
use crate::processor::{
    AccountView, BatchError, EffectView, create_outcome, created_record, slot_after,
    transfer_outcome, transferred, verify_outcome, zeros,
};
use crate::state::{EntryView, HISTORY_CAPACITY, capacity_for, id_bytes};

verus! {

/// Creating a batch allocates exactly the capacity reserved for its
/// identifier, and the new slot reads back as the payer's record: the payer
/// is manufacturer and current owner, the identifier and creation time are
/// the given ones, the history is the single entry of the payer at that time,
/// the batch is active, and the record is well formed.
pub proof fn lemma_create_invariants(accts: Seq<AccountView>, id: Seq<char>, t: i64)
    requires
        create_outcome(accts, id, Some(t)) is Ok,
        accts[0].key.len() == 32,
    ensures
        match create_outcome(accts, id, Some(t)) {
            Ok(EffectView::Allocate { space, data }) => {
                let p = accts[0].key;
                &&& space == capacity_for(id_bytes(id).len())
                &&& data.len() == space
                &&& parse_record(data) matches Some(r) && {
                    &&& r.batch_id == id
                    &&& r.manufacturer == p
                    &&& r.current_owner == p
                    &&& r.created_at == t
                    &&& r.ownership_history == seq![EntryView { owner: p, timestamp: t }]
                    &&& r.is_active
                    &&& r.wf()
                }
            },
            _ => false,
        },
{
    let r = created_record(id, accts[0].key, t);
    lemma_record_fits(r);
    let bytes = encode_record(r);
    let space = capacity_for(id_bytes(id).len());
    lemma_decode_encode(r, zeros((space - bytes.len()) as nat));
}

/// A transfer to `q` at clock `t` keeps the slot's length and leaves in it the
/// prior record with `q` as current owner and the entry of `q` at `t`
/// appended to its history; manufacturer, identifier and creation time stay.
/// A well-formed record stays well formed.
pub proof fn lemma_transfer_invariants(
    program_id: Seq<u8>,
    accts: Seq<AccountView>,
    q: Seq<u8>,
    t: i64,
)
    requires
        transfer_outcome(program_id, accts, q, Some(t)) is Ok,
        q.len() == 32,
    ensures
        match transfer_outcome(program_id, accts, q, Some(t)) {
            Ok(EffectView::Overwrite { data }) => {
                let r = parse_record(accts[1].data)->Some_0;
                &&& data.len() == accts[1].data.len()
                &&& parse_record(data) matches Some(n) && {
                    &&& n == transferred(r, q, t)
                    &&& n.current_owner == q
                    &&& n.manufacturer == r.manufacturer
                    &&& n.batch_id == r.batch_id
                    &&& n.created_at == r.created_at
                    &&& n.ownership_history == r.ownership_history + seq![
                        EntryView { owner: q, timestamp: t },
                    ]
                    &&& r.wf() ==> n.wf()
                }
            },
            _ => false,
        },
{
    let slot = accts[1].data;
    lemma_parsed_encodable(slot);
    let r = parse_record(slot)->Some_0;
    let n = transferred(r, q, t);
    assert forall|i: int| 0 <= i < n.ownership_history.len() implies #[trigger] n.ownership_history[i].owner.len()
        == 32 by {
        if i < r.ownership_history.len() {
            assert(n.ownership_history[i] == r.ownership_history[i]);
        }
    }
    let bytes = encode_record(n);
    lemma_decode_encode(n, slot.skip(bytes.len() as int));
    assert(n.ownership_history =~= r.ownership_history + seq![EntryView { owner: q, timestamp: t }]);
}

/// Only the current owner can hand a batch on: a signer who is not the
/// record's current owner is refused, whatever else was signed.
pub proof fn lemma_transfer_needs_current_owner(
    program_id: Seq<u8>,
    accts: Seq<AccountView>,
    q: Seq<u8>,
    t: i64,
)
    requires
        accts.len() >= 3,
        accts[1].owner == program_id,
        accts[0].is_signer,
        parse_record(accts[1].data) matches Some(r) && r.current_owner != accts[0].key,
    ensures
        transfer_outcome(program_id, accts, q, Some(t)) == Err::<EffectView, BatchError>(
            BatchError::NotCurrentOwner,
        ),
{
}

/// A slot that this program does not own is refused before its bytes are
/// read, whatever they hold.
pub proof fn lemma_foreign_slot(
    program_id: Seq<u8>,
    accts: Seq<AccountView>,
    q: Seq<u8>,
    now: Option<i64>,
)
    ensures
        accts.len() >= 3 && accts[1].owner != program_id ==> transfer_outcome(
            program_id,
            accts,
            q,
            now,
        ) == Err::<EffectView, BatchError>(BatchError::WrongProgramOwner),
        accts.len() >= 1 && accts[0].owner != program_id ==> verify_outcome(program_id, accts)
            == Err::<EffectView, BatchError>(BatchError::WrongProgramOwner),
{
}

/// The history bound: on a slot of the reserved capacity holding a
/// well-formed active record, a transfer by the current owner succeeds and
/// appends one entry while the history holds fewer than its bound of
/// entries, and is refused once the bound is reached, leaving the slot as
/// it was.
pub proof fn lemma_history_bound(program_id: Seq<u8>, accts: Seq<AccountView>, q: Seq<u8>, t: i64)
    requires
        accts.len() >= 3,
        accts[1].owner == program_id,
        accts[0].is_signer,
        q.len() == 32,
        parse_record(accts[1].data) matches Some(r) && {
            &&& r.wf()
            &&& r.is_active
            &&& r.current_owner == accts[0].key
            &&& accts[1].data.len() == capacity_for(id_bytes(r.batch_id).len())
        },
    ensures
        ({
            let r = parse_record(accts[1].data)->Some_0;
            let o = transfer_outcome(program_id, accts, q, Some(t));
            &&& r.ownership_history.len() < HISTORY_CAPACITY ==> (o matches Ok(
                EffectView::Overwrite { data },
            ) && parse_record(data) matches Some(n) && n.wf() && n.ownership_history.len()
                == r.ownership_history.len() + 1)
            &&& r.ownership_history.len() == HISTORY_CAPACITY ==> (o == Err::<EffectView, BatchError>(
                BatchError::CapacityExceeded,
            ) && slot_after(accts[1].data, o) == accts[1].data)
        }),
{
    let r = parse_record(accts[1].data)->Some_0;
    if r.ownership_history.len() < HISTORY_CAPACITY {
        let n = transferred(r, q, t);
        assert(n.ownership_history[0] == r.ownership_history[0]);
        assert forall|i: int| 0 <= i < n.ownership_history.len() implies #[trigger] n.ownership_history[i].owner.len()
            == 32 by {
            if i < r.ownership_history.len() {
                assert(n.ownership_history[i] == r.ownership_history[i]);
            }
        }
        lemma_record_fits(n);
        lemma_transfer_invariants(program_id, accts, q, t);
    }
}

/// Reading a batch back writes nothing: the slot keeps its bytes, so a
/// second read sees the same slot and gives the same outcome.
pub proof fn lemma_verify_is_pure(program_id: Seq<u8>, accts: Seq<AccountView>)
    requires
        accts.len() >= 1,
    ensures
        ({
            let o = verify_outcome(program_id, accts);
            let slot = accts[0];
            let again = accts.update(
                0,
                AccountView {
                    key: slot.key,
                    owner: slot.owner,
                    is_signer: slot.is_signer,
                    data: slot_after(slot.data, o),
                },
            );
            &&& slot_after(slot.data, o) == slot.data
            &&& verify_outcome(program_id, again) == o
        }),
{
    let slot = accts[0];
    let o = verify_outcome(program_id, accts);
    let again = accts.update(
        0,
        AccountView {
            key: slot.key,
            owner: slot.owner,
            is_signer: slot.is_signer,
            data: slot_after(slot.data, o),
        },
    );
    assert(again =~= accts);
}

} // verus!
