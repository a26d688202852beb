use sanctum_marinade_liquid_staking_core::{
    List, ListAccount, ListRecord, StakeList, StakeRecord, ValidatorList, ValidatorRecord,
};

fn stake_record(seed: u8) -> StakeRecord {
    StakeRecord {
        stake_account: [seed; 32],
        last_update_delegated_lamports: (1_000_000_007u64 * seed as u64).to_le_bytes(),
        last_update_epoch: (600 + seed as u64).to_le_bytes(),
        is_emergency_unstaking: seed % 2,
        additional_record_space: [0; 7],
    }
}

fn validator_record(seed: u8) -> ValidatorRecord {
    ValidatorRecord {
        validator_account: [seed; 32],
        active_balance: (5_000_000u64 + seed as u64).to_le_bytes(),
        score: (11_285u32 + seed as u32).to_le_bytes(),
        last_stake_delta_epoch: (700 + seed as u64).to_le_bytes(),
        duplication_flag_bump_seed: 255 - seed,
        additional_record_space: [0; 8],
    }
}

fn list_bytes<T: ListRecord>(records: &[T]) -> Vec<u8> {
    let mut data = vec![9u8; 8];
    for r in records {
        r.encode_into(&mut data);
    }
    data
}

#[test]
fn stake_list_round_trip() {
    let records: Vec<StakeRecord> = (1..=5).map(stake_record).collect();
    let data = list_bytes(&records);
    assert_eq!(data.len(), 8 + 5 * 56);
    let list: StakeList = ListAccount::try_from_acc_data(&data).unwrap();
    let copy = list;
    assert_eq!(copy.len(), 5);
    assert_eq!(list.clone().as_slice(), records);
    assert_eq!(list.len(), 5);
    assert_eq!(list.as_slice(), records);
    for (i, r) in records.iter().enumerate() {
        assert_eq!(list.get(i), Some(*r));
    }
    assert_eq!(list.get(5), None);
    let third = list.get(2).unwrap();
    assert_eq!(third.stake_account(), &[3u8; 32]);
    assert_eq!(third.last_update_delegated_lamports(), 3_000_000_021);
    assert_eq!(third.last_update_epoch(), 603);
    assert!(third.is_emergency_unstaking());
    assert!(!list.get(1).unwrap().is_emergency_unstaking());
}

#[test]
fn validator_list_round_trip() {
    let records: Vec<ValidatorRecord> = (0..3).map(validator_record).collect();
    let data = list_bytes(&records);
    assert_eq!(data.len(), 8 + 3 * 61);
    let list: ValidatorList = ListAccount::try_from_acc_data(&data).unwrap();
    assert_eq!(list.as_slice(), records);
    let v = list.get(2).unwrap();
    assert_eq!(v.validator_account(), &[2u8; 32]);
    assert_eq!(v.active_balance(), 5_000_002);
    assert_eq!(v.score(), 11_287);
    assert_eq!(v.last_stake_delta_epoch(), 702);
    assert_eq!(v.duplication_flag_bump_seed(), 253);
}

#[test]
fn truncated_list_is_refused() {
    let records: Vec<StakeRecord> = (1..=3).map(stake_record).collect();
    let data = list_bytes(&records);
    assert!(StakeList::try_from_acc_data(&data[..data.len() - 1]).is_none());
    assert!(StakeList::try_from_acc_data(&data[..data.len() + 1 - 1]).is_some());
}

#[test]
fn header_alone_is_refused() {
    let data = [0u8; 8];
    assert!(StakeList::try_from_acc_data(&data).is_none());
    assert!(ValidatorList::try_from_acc_data(&data[..3]).is_none());
    assert!(ValidatorList::try_from_acc_data(&[]).is_none());
}

#[test]
fn list_header_accessors() {
    let l = List { account: [1; 32], item_size: 61, count: 0, _reserved1: [0; 32], _reserved2: 0 };
    assert_eq!(l.item_size(), 61);
    assert_eq!(l.len(), 0);
    assert!(l.is_empty());
    let l = List { count: 4, ..l };
    assert_eq!(l.len(), 4);
    assert!(!l.is_empty());
}
