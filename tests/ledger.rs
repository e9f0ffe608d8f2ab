use medweb3::codec::{decode_batch, encode_batch};
use medweb3::instruction::MedWeb3Instruction;
use medweb3::processor::{AccountState, BatchError, Effect};
use medweb3::state::{BatchAccount, OwnershipRecord, Pubkey};
use medweb3::Processor;

const T0: i64 = 1_700_000_000;

fn key(b: u8) -> Pubkey {
    Pubkey::new_from_array([b; 32])
}

fn program() -> Pubkey {
    key(0xAA)
}

fn account(k: Pubkey, owner: Pubkey, is_signer: bool, data: Vec<u8>) -> AccountState {
    AccountState { key: k, owner, is_signer, data }
}

fn create_data(id: &str) -> Vec<u8> {
    let mut v = vec![0u8];
    v.extend_from_slice(&(id.len() as u32).to_le_bytes());
    v.extend_from_slice(id.as_bytes());
    v
}

fn transfer_data(to: Pubkey) -> Vec<u8> {
    let mut v = vec![1u8];
    v.extend_from_slice(&to.to_bytes());
    v
}

fn verify_data() -> Vec<u8> {
    vec![2u8]
}

fn create_accounts(payer: Pubkey, payer_signs: bool, slot_signs: bool) -> Vec<AccountState> {
    vec![
        account(payer, key(0), payer_signs, vec![]),
        account(key(0x50), key(0), slot_signs, vec![]),
        account(key(0x51), key(0), false, vec![]),
        account(key(0x52), key(0), false, vec![]),
        account(key(0x53), key(0), false, vec![]),
    ]
}

/// Creates "LOT-A" by 0x01..01 at `T0` and returns the slot bytes.
fn created_slot(id: &str) -> Vec<u8> {
    let accounts = create_accounts(key(1), true, true);
    match Processor::process_instruction(&program(), &accounts, &create_data(id), Some(T0)) {
        Ok(Effect::Allocate { space, data }) => {
            assert_eq!(data.len(), space);
            data
        }
        other => panic!("creation failed: {:?}", other),
    }
}

fn transfer(slot: &[u8], signer: Pubkey, to: Pubkey, t: i64) -> Result<Vec<u8>, BatchError> {
    let accounts = vec![
        account(signer, key(0), true, vec![]),
        account(key(0x50), program(), false, slot.to_vec()),
        account(key(0x53), key(0), false, vec![]),
    ];
    match Processor::process_instruction(&program(), &accounts, &transfer_data(to), Some(t)) {
        Ok(Effect::Overwrite { data }) => Ok(data),
        Ok(other) => panic!("unexpected effect: {:?}", other),
        Err(e) => Err(e),
    }
}

fn verify(slot: &[u8], owner: Pubkey) -> Result<BatchAccount, BatchError> {
    let accounts = vec![account(key(0x50), owner, false, slot.to_vec())];
    match Processor::process_instruction(&program(), &accounts, &verify_data(), None) {
        Ok(Effect::Report { record }) => Ok(record),
        Ok(other) => panic!("unexpected effect: {:?}", other),
        Err(e) => Err(e),
    }
}

fn same(a: &Pubkey, b: &Pubkey) -> bool {
    a.to_bytes() == b.to_bytes()
}

#[test]
fn create_writes_expected_bytes() {
    let slot = created_slot("LOT-A");
    // 1_700_000_000 is 0x6553F100: little-endian 00 F1 53 65 00 00 00 00
    let t0 = [0x00, 0xF1, 0x53, 0x65, 0x00, 0x00, 0x00, 0x00];
    assert_eq!(t0, T0.to_le_bytes());
    let mut expected = vec![0x05, 0x00, 0x00, 0x00, 0x4C, 0x4F, 0x54, 0x2D, 0x41];
    expected.extend_from_slice(&[0x01; 32]);
    expected.extend_from_slice(&[0x01; 32]);
    expected.extend_from_slice(&t0);
    expected.extend_from_slice(&[0x01, 0x00, 0x00, 0x00]);
    expected.extend_from_slice(&[0x01; 32]);
    expected.extend_from_slice(&t0);
    expected.push(0x01);
    assert_eq!(&slot[..expected.len()], &expected[..]);
    assert!(slot[expected.len()..].iter().all(|b| *b == 0));
    assert_eq!(slot.len(), BatchAccount::get_account_size(5));
    assert_eq!(slot.len(), 4 + 5 + 32 + 32 + 8 + 4 + 400 + 1);
}

#[test]
fn verify_after_create() {
    let slot = created_slot("LOT-A");
    let r = verify(&slot, program()).unwrap();
    assert_eq!(r.batch_id, "LOT-A");
    assert!(same(&r.manufacturer, &key(1)));
    assert!(same(&r.current_owner, &key(1)));
    assert_eq!(r.created_at, T0);
    assert_eq!(r.ownership_history.len(), 1);
    assert!(same(&r.ownership_history[0].owner, &key(1)));
    assert_eq!(r.ownership_history[0].timestamp, T0);
    assert!(r.is_active);
}

#[test]
fn transfer_to_second_owner() {
    let slot = created_slot("LOT-A");
    let after = transfer(&slot, key(1), key(2), 1_700_000_100).unwrap();
    assert_eq!(after.len(), slot.len());
    let r = verify(&after, program()).unwrap();
    assert_eq!(r.ownership_history.len(), 2);
    assert!(same(&r.current_owner, &key(2)));
    assert!(same(&r.manufacturer, &key(1)));
    assert_eq!(r.created_at, T0);
    let last = r.ownership_history[1];
    assert!(same(&last.owner, &key(2)));
    assert_eq!(last.timestamp, 1_700_000_100);
}

#[test]
fn unauthorized_transfer_is_refused() {
    let slot = created_slot("LOT-A");
    let after = transfer(&slot, key(1), key(2), 1_700_000_100).unwrap();
    assert_eq!(transfer(&after, key(1), key(3), 1_700_000_200), Err(BatchError::NotCurrentOwner));
    let r = verify(&after, program()).unwrap();
    assert!(same(&r.current_owner, &key(2)));
    assert_eq!(r.ownership_history.len(), 2);
}

#[test]
fn history_overflow_after_nine_transfers() {
    let mut slot = created_slot("LOT-A");
    let mut owner = key(1);
    for i in 0..9u8 {
        let next = key(0x10 + i);
        slot = transfer(&slot, owner, next, T0 + 100 * (i as i64 + 1)).unwrap();
        owner = next;
    }
    assert_eq!(verify(&slot, program()).unwrap().ownership_history.len(), 10);
    assert_eq!(transfer(&slot, owner, key(0x30), T0 + 5000), Err(BatchError::CapacityExceeded));
    let r = verify(&slot, program()).unwrap();
    assert_eq!(r.ownership_history.len(), 10);
    assert!(same(&r.current_owner, &owner));
}

#[test]
fn foreign_slot_is_refused() {
    let slot = created_slot("LOT-A");
    assert_eq!(verify(&slot, key(0x77)).err(), Some(BatchError::WrongProgramOwner));
    // Not even decodable bytes get that far.
    assert_eq!(verify(&[0xFF, 0xFF], key(0x77)).err(), Some(BatchError::WrongProgramOwner));
    let accounts = vec![
        account(key(1), key(0), true, vec![]),
        account(key(0x50), key(0x77), false, slot.clone()),
        account(key(0x53), key(0), false, vec![]),
    ];
    let r = Processor::process_instruction(&program(), &accounts, &transfer_data(key(2)), Some(T0));
    assert_eq!(r.err(), Some(BatchError::WrongProgramOwner));
}

#[test]
fn round_trip_of_a_record() {
    let r = BatchAccount {
        batch_id: "Lot-ß-42".to_string(),
        manufacturer: key(7),
        current_owner: key(9),
        created_at: -5,
        ownership_history: vec![
            OwnershipRecord { owner: key(7), timestamp: -5 },
            OwnershipRecord { owner: key(9), timestamp: i64::MAX },
        ],
        is_active: true,
    };
    let mut bytes = encode_batch(&r);
    assert_eq!(bytes.len(), 4 + "Lot-ß-42".len() + 32 + 32 + 8 + 4 + 2 * 40 + 1);
    assert!(bytes.len() <= BatchAccount::get_account_size(r.batch_id.len()));
    bytes.extend_from_slice(&[9, 9, 9]);
    let d = decode_batch(&bytes).unwrap();
    assert_eq!(d.batch_id, r.batch_id);
    assert!(same(&d.manufacturer, &r.manufacturer));
    assert!(same(&d.current_owner, &r.current_owner));
    assert_eq!(d.created_at, -5);
    assert_eq!(d.ownership_history.len(), 2);
    assert_eq!(d.ownership_history[1].timestamp, i64::MAX);
    assert!(d.is_active);
}

#[test]
fn encoding_matches_borsh_layout() {
    let r = BatchAccount {
        batch_id: "LOT-B".to_string(),
        manufacturer: key(3),
        current_owner: key(4),
        created_at: 1234,
        ownership_history: vec![
            OwnershipRecord { owner: key(3), timestamp: 1234 },
            OwnershipRecord { owner: key(4), timestamp: 1300 },
        ],
        is_active: false,
    };
    let fields = (
        "LOT-B".to_string(),
        [3u8; 32],
        [4u8; 32],
        1234i64,
        vec![([3u8; 32], 1234i64), ([4u8; 32], 1300i64)],
        false,
    );
    assert_eq!(encode_batch(&r), borsh::to_vec(&fields).unwrap());
}

#[test]
fn decode_rejects_malformed_slots() {
    let slot = created_slot("LOT-A");
    assert!(decode_batch(&slot[..3]).is_none());
    assert!(decode_batch(&slot[..50]).is_none());
    // history length claims more entries than the bytes hold
    let mut long_count = slot.clone();
    let count_at = 4 + 5 + 72;
    long_count[count_at..count_at + 4].copy_from_slice(&1000u32.to_le_bytes());
    assert!(decode_batch(&long_count).is_none());
    // flag byte other than 0 or 1
    let mut bad_flag = slot.clone();
    bad_flag[count_at + 4 + 40] = 2;
    assert!(decode_batch(&bad_flag).is_none());
    // identifier bytes that are not UTF-8
    let mut bad_text = slot.clone();
    bad_text[4] = 0xFF;
    assert!(decode_batch(&bad_text).is_none());
    assert_eq!(verify(&bad_text, program()).err(), Some(BatchError::InvalidSlotData));
}

#[test]
fn unpack_decodes_envelopes() {
    match MedWeb3Instruction::unpack(&create_data("LOT-A")) {
        Ok(MedWeb3Instruction::CreateBatch { batch_id }) => assert_eq!(batch_id, "LOT-A"),
        other => panic!("{:?}", other),
    }
    match MedWeb3Instruction::unpack(&transfer_data(key(2))) {
        Ok(MedWeb3Instruction::TransferOwnership { new_owner }) => {
            assert!(same(&new_owner, &key(2)))
        }
        other => panic!("{:?}", other),
    }
    assert!(matches!(MedWeb3Instruction::unpack(&[2]), Ok(MedWeb3Instruction::VerifyBatch)));
    assert!(MedWeb3Instruction::unpack(&[]).is_err());
    assert!(MedWeb3Instruction::unpack(&[3]).is_err());
    assert!(MedWeb3Instruction::unpack(&[2, 0]).is_err());
    assert!(MedWeb3Instruction::unpack(&[1, 5, 5]).is_err());
    assert!(MedWeb3Instruction::unpack(&[0, 9, 0, 0, 0, 0x41]).is_err());
    assert!(MedWeb3Instruction::unpack(&[0, 2, 0, 0, 0, 0xC3, 0x28]).is_err());
    match MedWeb3Instruction::unpack(&[0, 2, 0, 0, 0, 0xC3, 0x9F]) {
        Ok(MedWeb3Instruction::CreateBatch { batch_id }) => assert_eq!(batch_id, "ß"),
        other => panic!("{:?}", other),
    }
}

#[test]
fn invalid_instruction_errors() {
    let accounts = create_accounts(key(1), true, true);
    let r = Processor::process_instruction(&program(), &accounts, &[7], Some(T0));
    assert_eq!(r.err(), Some(BatchError::InvalidInstruction));
    let empty = Processor::process_instruction(&program(), &accounts, &create_data(""), Some(T0));
    assert_eq!(empty.err(), Some(BatchError::InvalidInstruction));
    let long_id = "x".repeat(65);
    let long = Processor::process_instruction(&program(), &accounts, &create_data(&long_id), Some(T0));
    assert_eq!(long.err(), Some(BatchError::InvalidInstruction));
    let max_id = "x".repeat(64);
    let max = Processor::process_instruction(&program(), &accounts, &create_data(&max_id), Some(T0));
    assert!(matches!(max, Ok(Effect::Allocate { space, .. }) if space == 64 + 481));
}

#[test]
fn missing_signatures_and_accounts() {
    let data = create_data("LOT-A");
    let no_payer = create_accounts(key(1), false, true);
    let r = Processor::process_instruction(&program(), &no_payer, &data, Some(T0));
    assert_eq!(r.err(), Some(BatchError::MissingSignature));
    let no_slot = create_accounts(key(1), true, false);
    let r = Processor::process_instruction(&program(), &no_slot, &data, Some(T0));
    assert_eq!(r.err(), Some(BatchError::MissingSignature));
    let few = create_accounts(key(1), true, true)[..4].to_vec();
    let r = Processor::process_instruction(&program(), &few, &data, Some(T0));
    assert_eq!(r.err(), Some(BatchError::NotEnoughAccounts));
    let r = Processor::process_instruction(&program(), &[], &verify_data(), None);
    assert_eq!(r.err(), Some(BatchError::NotEnoughAccounts));

    let slot = created_slot("LOT-A");
    let unsigned = vec![
        account(key(1), key(0), false, vec![]),
        account(key(0x50), program(), false, slot),
        account(key(0x53), key(0), false, vec![]),
    ];
    let r = Processor::process_instruction(&program(), &unsigned, &transfer_data(key(2)), Some(T0));
    assert_eq!(r.err(), Some(BatchError::MissingSignature));
}

#[test]
fn clock_failure_is_reported() {
    let accounts = create_accounts(key(1), true, true);
    let r = Processor::process_instruction(&program(), &accounts, &create_data("LOT-A"), None);
    assert_eq!(r.err(), Some(BatchError::OracleFailure));
    let slot = created_slot("LOT-A");
    let accounts = vec![
        account(key(1), key(0), true, vec![]),
        account(key(0x50), program(), false, slot),
        account(key(0x53), key(0), false, vec![]),
    ];
    let r = Processor::process_instruction(&program(), &accounts, &transfer_data(key(2)), None);
    assert_eq!(r.err(), Some(BatchError::OracleFailure));
}

#[test]
fn inactive_batch_is_not_transferred() {
    let mut slot = created_slot("LOT-A");
    let flag_at = 4 + 5 + 72 + 4 + 40;
    slot[flag_at] = 0;
    assert!(!verify(&slot, program()).unwrap().is_active);
    assert_eq!(transfer(&slot, key(1), key(2), T0), Err(BatchError::InvalidSlotData));
}

#[test]
fn slot_too_small_for_new_entry() {
    let slot = created_slot("LOT-A");
    let used = 4 + 5 + 72 + 4 + 40 + 1;
    assert_eq!(transfer(&slot[..used], key(1), key(2), T0), Err(BatchError::CapacityExceeded));
    assert!(transfer(&slot[..used + 40], key(1), key(2), T0).is_ok());
}

#[test]
fn self_transfer_and_clock_going_back_are_recorded() {
    let slot = created_slot("LOT-A");
    let after = transfer(&slot, key(1), key(1), T0 - 10).unwrap();
    let r = verify(&after, program()).unwrap();
    assert_eq!(r.ownership_history.len(), 2);
    assert!(same(&r.ownership_history[1].owner, &key(1)));
    assert_eq!(r.ownership_history[1].timestamp, T0 - 10);
    let zero = transfer(&after, key(1), key(0), T0).unwrap();
    assert!(same(&verify(&zero, program()).unwrap().current_owner, &key(0)));
}

#[test]
fn verify_leaves_slot_unchanged() {
    let slot = created_slot("LOT-A");
    let accounts = vec![account(key(0x50), program(), false, slot.clone())];
    let first = Processor::process_instruction(&program(), &accounts, &verify_data(), None);
    let second = Processor::process_instruction(&program(), &accounts, &verify_data(), None);
    assert!(matches!(first, Ok(Effect::Report { .. })));
    assert!(matches!(second, Ok(Effect::Report { .. })));
    assert_eq!(accounts[0].data, slot);
}

#[test]
fn same_key_compares_bytes() {
    assert!(key(1).same_key(&key(1)));
    let mut b = [1u8; 32];
    b[31] = 2;
    assert!(!key(1).same_key(&Pubkey::new_from_array(b)));
}
