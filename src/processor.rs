use vstd::prelude::*;
use vstd::slice::slice_subrange;
use crate::codec::{
    decode_batch, encode_batch, encode_record, lemma_parsed_encodable, lemma_record_fits,
    parse_record, push_all,
};
use crate::instruction::{InstructionView, MedWeb3Instruction, parse_instruction};
use crate::state::{
    BatchAccount, BatchView, EntryView, OwnershipRecord, Pubkey, capacity_for, id_bytes,
    HISTORY_CAPACITY, MAX_BATCH_ID_LEN,
};

verus! {

/// Why a command was refused.
#[derive(Clone, Copy, Debug, PartialEq, Eq, Structural)]
pub enum BatchError {
    /// The command envelope does not decode, or its batch identifier is
    /// empty or too long.
    InvalidInstruction,
    /// Fewer account handles than the command needs.
    NotEnoughAccounts,
    /// A principal that must sign did not.
    MissingSignature,
    /// The batch slot is not owned by this program.
    WrongProgramOwner,
    /// The signer is not the batch's current owner.
    NotCurrentOwner,
    /// The slot bytes do not hold a batch record, or the batch is inactive.
    InvalidSlotData,
    /// The record would outgrow its history bound or its slot.
    CapacityExceeded,
    /// The ledger clock could not be read.
    OracleFailure,
}

/// One account handle as the host hands it over: its key, the program that
/// owns it, whether it signed the transaction, and its bytes.
#[derive(Clone, Debug)]
pub struct AccountState {
    pub key: Pubkey,
    pub owner: Pubkey,
    pub is_signer: bool,
    pub data: Vec<u8>,
}

pub ghost struct AccountView {
    pub key: Seq<u8>,
    pub owner: Seq<u8>,
    pub is_signer: bool,
    pub data: Seq<u8>,
}

impl View for AccountState {
    type V = AccountView;

    open spec fn view(&self) -> AccountView {
        AccountView {
            key: self.key@,
            owner: self.owner@,
            is_signer: self.is_signer,
            data: self.data@,
        }
    }
}

/// The views of the account handles.
pub open spec fn accounts_view(a: Seq<AccountState>) -> Seq<AccountView> {
    a.map_values(|x: AccountState| x@)
}

/// What the host is to do after a successful command.
#[derive(Clone, Debug)]
pub enum Effect {
    /// Allocate the new batch slot (the second account) with `space` bytes,
    /// owned by this program, and fill it with `data`.
    Allocate { space: usize, data: Vec<u8> },
    /// Replace the bytes of the batch slot (the second account) by `data`.
    Overwrite { data: Vec<u8> },
    /// Nothing to write; report the record that was read.
    Report { record: BatchAccount },
}

pub ghost enum EffectView {
    Allocate { space: nat, data: Seq<u8> },
    Overwrite { data: Seq<u8> },
    Report { record: BatchView },
}

impl View for Effect {
    type V = EffectView;

    open spec fn view(&self) -> EffectView {
        match self {
            Effect::Allocate { space, data } => EffectView::Allocate {
                space: *space as nat,
                data: data@,
            },
            Effect::Overwrite { data } => EffectView::Overwrite { data: data@ },
            Effect::Report { record } => EffectView::Report { record: record@ },
        }
    }
}

/// The record of a batch created by `payer` at clock `t`.
pub open spec fn created_record(id: Seq<char>, payer: Seq<u8>, t: i64) -> BatchView {
    BatchView {
        batch_id: id,
        manufacturer: payer,
        current_owner: payer,
        created_at: t,
        ownership_history: seq![EntryView { owner: payer, timestamp: t }],
        is_active: true,
    }
}

/// The record `r` once handed to `q` at clock `t`.
pub open spec fn transferred(r: BatchView, q: Seq<u8>, t: i64) -> BatchView {
    BatchView {
        batch_id: r.batch_id,
        manufacturer: r.manufacturer,
        current_owner: q,
        created_at: r.created_at,
        ownership_history: r.ownership_history.push(EntryView { owner: q, timestamp: t }),
        is_active: r.is_active,
    }
}

/// `n` zero bytes.
pub open spec fn zeros(n: nat) -> Seq<u8> {
    Seq::new(n, |i: int| 0u8)
}

/// Outcome of creating batch `id` with accounts payer, new slot, allocator,
/// rent oracle, clock oracle, when the clock reads `now`.
pub open spec fn create_outcome(accts: Seq<AccountView>, id: Seq<char>, now: Option<i64>) -> Result<
    EffectView,
    BatchError,
> {
    if accts.len() < 5 {
        Err(BatchError::NotEnoughAccounts)
    } else if !accts[0].is_signer || !accts[1].is_signer {
        Err(BatchError::MissingSignature)
    } else if id_bytes(id).len() == 0 || id_bytes(id).len() > MAX_BATCH_ID_LEN {
        Err(BatchError::InvalidInstruction)
    } else {
        match now {
            None => Err(BatchError::OracleFailure),
            Some(t) => {
                let space = capacity_for(id_bytes(id).len());
                let bytes = encode_record(created_record(id, accts[0].key, t));
                Ok(EffectView::Allocate { space, data: bytes + zeros((space - bytes.len()) as nat) })
            },
        }
    }
}

/// Outcome of handing a batch to `q` with accounts signer, batch slot, clock
/// oracle, when the clock reads `now`. The slot keeps its length: the new
/// record is written over its leading bytes.
pub open spec fn transfer_outcome(
    program_id: Seq<u8>,
    accts: Seq<AccountView>,
    q: Seq<u8>,
    now: Option<i64>,
) -> Result<EffectView, BatchError> {
    if accts.len() < 3 {
        Err(BatchError::NotEnoughAccounts)
    } else if accts[1].owner != program_id {
        Err(BatchError::WrongProgramOwner)
    } else if !accts[0].is_signer {
        Err(BatchError::MissingSignature)
    } else {
        match now {
            None => Err(BatchError::OracleFailure),
            Some(t) => match parse_record(accts[1].data) {
                None => Err(BatchError::InvalidSlotData),
                Some(r) => if r.current_owner != accts[0].key {
                    Err(BatchError::NotCurrentOwner)
                } else if !r.is_active {
                    Err(BatchError::InvalidSlotData)
                } else if r.ownership_history.len() >= HISTORY_CAPACITY {
                    Err(BatchError::CapacityExceeded)
                } else {
                    let bytes = encode_record(transferred(r, q, t));
                    let slot = accts[1].data;
                    if bytes.len() > slot.len() {
                        Err(BatchError::CapacityExceeded)
                    } else {
                        Ok(EffectView::Overwrite { data: bytes + slot.skip(bytes.len() as int) })
                    }
                },
            },
        }
    }
}

/// Outcome of reading back the batch in the first account.
pub open spec fn verify_outcome(program_id: Seq<u8>, accts: Seq<AccountView>) -> Result<
    EffectView,
    BatchError,
> {
    if accts.len() < 1 {
        Err(BatchError::NotEnoughAccounts)
    } else if accts[0].owner != program_id {
        Err(BatchError::WrongProgramOwner)
    } else {
        match parse_record(accts[0].data) {
            None => Err(BatchError::InvalidSlotData),
            Some(r) => Ok(EffectView::Report { record: r }),
        }
    }
}

/// Outcome of the command encoded in `data`.
pub open spec fn process_outcome(
    program_id: Seq<u8>,
    accts: Seq<AccountView>,
    data: Seq<u8>,
    now: Option<i64>,
) -> Result<EffectView, BatchError> {
    match parse_instruction(data) {
        None => Err(BatchError::InvalidInstruction),
        Some(InstructionView::CreateBatch { batch_id }) => create_outcome(accts, batch_id, now),
        Some(InstructionView::TransferOwnership { new_owner }) => transfer_outcome(
            program_id,
            accts,
            new_owner,
            now,
        ),
        Some(InstructionView::VerifyBatch) => verify_outcome(program_id, accts),
    }
}

/// The bytes of the batch slot once the host has applied outcome `o` to a
/// slot that held `slot`.
pub open spec fn slot_after(slot: Seq<u8>, o: Result<EffectView, BatchError>) -> Seq<u8> {
    match o {
        Ok(EffectView::Allocate { data, .. }) => data,
        Ok(EffectView::Overwrite { data }) => data,
        _ => slot,
    }
}

/// Whether an exec outcome is the given spec outcome.
pub open spec fn outcome_is(r: Result<Effect, BatchError>, o: Result<EffectView, BatchError>) -> bool {
    match r {
        Ok(e) => o == Ok::<EffectView, BatchError>(e@),
        Err(x) => o == Err::<EffectView, BatchError>(x),
    }
}

/// Dispatches commands to the batch transitions.
pub struct Processor;

impl Processor {
    /// Decodes one command and decides its transition. `now` is the ledger
    /// clock, or `None` where the clock oracle could not be read.
    pub fn process_instruction(
        program_id: &Pubkey,
        accounts: &[AccountState],
        instruction_data: &[u8],
        now: Option<i64>,
    ) -> (r: Result<Effect, BatchError>)
        ensures
            outcome_is(
                r,
                process_outcome(program_id@, accounts_view(accounts@), instruction_data@, now),
            ),
    {
        let instruction = match MedWeb3Instruction::unpack(instruction_data) {
            Ok(i) => i,
            Err(_) => {
                return Err(BatchError::InvalidInstruction);
            },
        };
        match instruction {
            MedWeb3Instruction::CreateBatch { batch_id } => Self::process_create_batch(
                accounts,
                &batch_id,
                now,
            ),
            MedWeb3Instruction::TransferOwnership { new_owner } => Self::process_transfer_ownership(
                program_id,
                accounts,
                &new_owner,
                now,
            ),
            MedWeb3Instruction::VerifyBatch => Self::process_verify_batch(program_id, accounts),
        }
    }

    fn process_create_batch(accounts: &[AccountState], batch_id: &String, now: Option<i64>) -> (r:
        Result<Effect, BatchError>)
        ensures
            outcome_is(r, create_outcome(accounts_view(accounts@), batch_id@, now)),
    {
        if accounts.len() < 5 {
            return Err(BatchError::NotEnoughAccounts);
        }
        let payer = &accounts[0];
        let slot = &accounts[1];
        if !payer.is_signer || !slot.is_signer {
            return Err(BatchError::MissingSignature);
        }
        let id_len = batch_id.as_str().as_bytes().len();
        if id_len == 0 || id_len > MAX_BATCH_ID_LEN {
            return Err(BatchError::InvalidInstruction);
        }
        let t = match now {
            Some(t) => t,
            None => {
                return Err(BatchError::OracleFailure);
            },
        };
        let space = BatchAccount::get_account_size(id_len);
        let record = BatchAccount {
            batch_id: batch_id.clone(),
            manufacturer: payer.key,
            current_owner: payer.key,
            created_at: t,
            ownership_history: vec![OwnershipRecord { owner: payer.key, timestamp: t }],
            is_active: true,
        };
        let ghost expected = created_record(batch_id@, payer.key@, t);
        assert(record@.ownership_history =~= expected.ownership_history);
        assert(record@ == expected);
        proof {
            lemma_record_fits(expected);
        }
        let mut data = encode_batch(&record);
        let ghost bytes = data@;
        while data.len() < space
            invariant
                bytes == encode_record(expected),
                bytes.len() <= space,
                bytes.len() <= data@.len() <= space,
                data@ == bytes + zeros((data@.len() - bytes.len()) as nat),
            decreases space - data@.len(),
        {
            data.push(0u8);
            assert(data@ =~= bytes + zeros((data@.len() - bytes.len()) as nat));
        }
        Ok(Effect::Allocate { space, data })
    }

    fn process_transfer_ownership(
        program_id: &Pubkey,
        accounts: &[AccountState],
        new_owner: &Pubkey,
        now: Option<i64>,
    ) -> (r: Result<Effect, BatchError>)
        ensures
            outcome_is(
                r,
                transfer_outcome(program_id@, accounts_view(accounts@), new_owner@, now),
            ),
    {
        if accounts.len() < 3 {
            return Err(BatchError::NotEnoughAccounts);
        }
        let signer = &accounts[0];
        let slot = &accounts[1];
        if !slot.owner.same_key(program_id) {
            return Err(BatchError::WrongProgramOwner);
        }
        if !signer.is_signer {
            return Err(BatchError::MissingSignature);
        }
        let t = match now {
            Some(t) => t,
            None => {
                return Err(BatchError::OracleFailure);
            },
        };
        let mut record = match decode_batch(slot.data.as_slice()) {
            Some(record) => record,
            None => {
                return Err(BatchError::InvalidSlotData);
            },
        };
        let ghost before = record@;
        if !record.current_owner.same_key(&signer.key) {
            return Err(BatchError::NotCurrentOwner);
        }
        if !record.is_active {
            return Err(BatchError::InvalidSlotData);
        }
        if record.ownership_history.len() >= HISTORY_CAPACITY {
            return Err(BatchError::CapacityExceeded);
        }
        record.current_owner = *new_owner;
        record.ownership_history.push(OwnershipRecord { owner: *new_owner, timestamp: t });
        let ghost after = transferred(before, new_owner@, t);
        assert(record@.ownership_history =~= after.ownership_history);
        assert(record@ == after);
        proof {
            lemma_parsed_encodable(slot.data@);
        }
        let mut data = encode_batch(&record);
        let written = data.len();
        let slot_len = slot.data.len();
        if written > slot_len {
            return Err(BatchError::CapacityExceeded);
        }
        push_all(&mut data, slice_subrange(slot.data.as_slice(), written, slot_len));
        assert(slot.data@.subrange(written as int, slot_len as int) =~= slot.data@.skip(
            written as int,
        ));
        Ok(Effect::Overwrite { data })
    }

    fn process_verify_batch(program_id: &Pubkey, accounts: &[AccountState]) -> (r: Result<
        Effect,
        BatchError,
    >)
        ensures
            outcome_is(r, verify_outcome(program_id@, accounts_view(accounts@))),
    {
        if accounts.len() < 1 {
            return Err(BatchError::NotEnoughAccounts);
        }
        let slot = &accounts[0];
        if !slot.owner.same_key(program_id) {
            return Err(BatchError::WrongProgramOwner);
        }
        match decode_batch(slot.data.as_slice()) {
            Some(record) => Ok(Effect::Report { record }),
            None => Err(BatchError::InvalidSlotData),
        }
    }
}

} // verus!
