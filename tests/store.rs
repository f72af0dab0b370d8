use std::cell::Cell;

use hall_of_hero::{
    add_record, buy_record, get_nft_data_from_repository, read_record,
    save_nft_data_to_repository, update_record, validate_record, AddRecord, BuyRecord, NFTRecord,
    Pubkey, RecordError, Repository, UpdateRecord, NFT_COUNT, NFT_RECORD_SIZE, REPOSITORY_SIZE,
};

fn key(b: u8) -> Pubkey {
    Pubkey::new([b; 32])
}

fn register(repo: &mut Repository, hero_id: u8, uri: &str, mint: u8, price: u64) -> NFTRecord {
    let ctx = AddRecord { nft_mint: key(mint) };
    add_record(&ctx, repo, hero_id, uri.to_string(), price).unwrap()
}

fn buy_ctx(dead: u8, holder: u8, new: u8) -> BuyRecord {
    BuyRecord {
        dead_nft_mint: key(dead),
        dead_nft_token_account_mint: key(holder),
        new_nft_mint: key(new),
    }
}

#[test]
fn new_repository_is_zero_filled() {
    let repo = Repository::new();
    assert_eq!(repo.as_bytes().len(), REPOSITORY_SIZE);
    assert_eq!(REPOSITORY_SIZE, NFT_COUNT * NFT_RECORD_SIZE);
    assert!(repo.as_bytes().iter().all(|b| *b == 0));
}

#[test]
fn from_bytes_checks_size() {
    assert!(Repository::from_bytes(vec![0u8; REPOSITORY_SIZE - 1]).is_none());
    assert!(Repository::from_bytes(vec![0u8; REPOSITORY_SIZE]).is_some());
    assert!(Repository::from_bytes(vec![0u8; REPOSITORY_SIZE + 8]).is_some());
}

#[test]
fn encoding_layout_is_exact() {
    let mut repo = Repository::new();
    register(&mut repo, 2, "ab", 9, 0x0102030405060708);
    let bytes = repo.as_bytes();
    let start = 2 * NFT_RECORD_SIZE;
    let mut expected: Vec<u8> = vec![2, 2, 0, 0, 0, b'a', b'b'];
    expected.extend_from_slice(&[9u8; 32]);
    expected.extend_from_slice(&[8, 7, 6, 5, 4, 3, 2, 1]);
    expected.extend_from_slice(&[8, 7, 6, 5, 4, 3, 2, 1]);
    assert_eq!(&bytes[start..start + expected.len()], &expected[..]);
    assert!(bytes[start + expected.len()..start + NFT_RECORD_SIZE].iter().all(|b| *b == 0));
    let rec = NFTRecord {
        hero_id: 2,
        content_uri: "ab".to_string(),
        key_nft: key(9),
        last_price: 1,
        listed_price: 1,
    };
    assert_eq!(rec.encode().unwrap().len(), 1 + 4 + 2 + 32 + 8 + 8);
}

#[test]
fn round_trip_returns_identical_record() {
    let mut repo = Repository::new();
    let rec = NFTRecord {
        hero_id: 5,
        content_uri: "ipfs://héros/5".to_string(),
        key_nft: key(0xAB),
        last_price: 77,
        listed_price: 1234,
    };
    save_nft_data_to_repository(&rec, &mut repo).unwrap();
    let back = read_record(&repo, 5).unwrap();
    assert_eq!(back.hero_id, 5);
    assert_eq!(back.content_uri, "ipfs://héros/5");
    assert_eq!(back.key_nft.to_bytes(), [0xAB; 32]);
    assert_eq!(back.last_price, 77);
    assert_eq!(back.listed_price, 1234);
    let bytes = rec.encode().unwrap();
    let decoded = NFTRecord::decode(&bytes).unwrap();
    assert_eq!(decoded.content_uri, rec.content_uri);
    assert_eq!(decoded.listed_price, rec.listed_price);
}

#[test]
fn writing_a_slot_leaves_other_slots_alone() {
    let mut repo = Repository::new();
    register(&mut repo, 4, "four", 4, 40);
    register(&mut repo, 6, "six", 6, 60);
    let before = repo.as_bytes().to_vec();
    register(&mut repo, 5, "five, a longer reference", 5, 50);
    let after = repo.as_bytes();
    for j in 0..NFT_COUNT {
        if j != 5 {
            let r = j * NFT_RECORD_SIZE..(j + 1) * NFT_RECORD_SIZE;
            assert_eq!(&before[r.clone()], &after[r]);
        }
    }
    assert_eq!(read_record(&repo, 4).unwrap().content_uri, "four");
    assert_eq!(read_record(&repo, 6).unwrap().content_uri, "six");
}

#[test]
fn out_of_range_slot_is_refused() {
    let mut repo = Repository::new();
    let ctx = AddRecord { nft_mint: key(1) };
    let r = add_record(&ctx, &mut repo, NFT_COUNT as u8, "x".to_string(), 1);
    assert_eq!(r.unwrap_err(), RecordError::OutOfRange);
    assert_eq!(read_record(&repo, 200).unwrap_err(), RecordError::OutOfRange);
    assert!(repo.as_bytes().iter().all(|b| *b == 0));
}

#[test]
fn oversized_record_is_refused_without_write() {
    let mut repo = Repository::new();
    let ctx = AddRecord { nft_mint: key(1) };
    let long = "x".repeat(NFT_RECORD_SIZE);
    let r = add_record(&ctx, &mut repo, 1, long, 1);
    assert_eq!(r.unwrap_err(), RecordError::SerializationOverflow);
    assert!(repo.as_bytes().iter().all(|b| *b == 0));
    // the widest content that still fits
    let widest = "y".repeat(NFT_RECORD_SIZE - 53);
    let rec = add_record(&ctx, &mut repo, 1, widest.clone(), 1).unwrap();
    assert_eq!(read_record(&repo, 1).unwrap().content_uri, widest);
    assert_eq!(rec.content_uri, widest);
}

#[test]
fn zero_filled_slot_seven_fails_to_deserialize() {
    let repo = Repository::new();
    assert_eq!(read_record(&repo, 7).unwrap_err(), RecordError::DeserializationFailure);
    let r = get_nft_data_from_repository(7, &key(0), &repo, &key(0));
    assert_eq!(r.unwrap_err(), RecordError::DeserializationFailure);
}

#[test]
fn truncated_string_fails_to_deserialize() {
    let mut bytes = vec![0u8; REPOSITORY_SIZE];
    let start = 3 * NFT_RECORD_SIZE;
    bytes[start] = 3;
    bytes[start + 1] = 0xFF; // content length far beyond the slot
    let repo = Repository::from_bytes(bytes).unwrap();
    assert_eq!(read_record(&repo, 3).unwrap_err(), RecordError::DeserializationFailure);
}

#[test]
fn validator_checks_both_identities() {
    let rec = NFTRecord {
        hero_id: 1,
        content_uri: String::new(),
        key_nft: key(3),
        last_price: 0,
        listed_price: 0,
    };
    assert!(validate_record(rec.clone(), &key(3), &key(3)).is_ok());
    assert_eq!(
        validate_record(rec.clone(), &key(3), &key(4)).unwrap_err(),
        RecordError::OwnershipMismatch
    );
    assert_eq!(
        validate_record(rec, &key(4), &key(3)).unwrap_err(),
        RecordError::OwnershipMismatch
    );
}

#[test]
fn update_changes_listing_terms_only() {
    let mut repo = Repository::new();
    register(&mut repo, 3, "old", 1, 100);
    let ctx = UpdateRecord { nft_mint: key(1), token_account_mint: key(1) };
    let rec = update_record(&ctx, &mut repo, 3, "new".to_string(), 150).unwrap();
    assert_eq!(rec.listed_price, 150);
    assert_eq!(rec.last_price, 100);
    let stored = read_record(&repo, 3).unwrap();
    assert_eq!(stored.content_uri, "new");
    assert_eq!(stored.listed_price, 150);
    assert_eq!(stored.last_price, 100);
    assert_eq!(stored.key_nft.to_bytes(), [1; 32]);
}

#[test]
fn update_with_other_identity_is_refused() {
    let mut repo = Repository::new();
    register(&mut repo, 3, "old", 1, 100);
    let before = repo.as_bytes().to_vec();
    let ctx = UpdateRecord { nft_mint: key(2), token_account_mint: key(2) };
    let r = update_record(&ctx, &mut repo, 3, "new".to_string(), 1);
    assert_eq!(r.unwrap_err(), RecordError::OwnershipMismatch);
    let ctx = UpdateRecord { nft_mint: key(1), token_account_mint: key(2) };
    let r = update_record(&ctx, &mut repo, 3, "new".to_string(), 1);
    assert_eq!(r.unwrap_err(), RecordError::OwnershipMismatch);
    assert_eq!(repo.as_bytes(), &before[..]);
}

#[test]
fn exchange_with_other_identity_is_refused_before_payment() {
    let mut repo = Repository::new();
    register(&mut repo, 3, "uri", 1, 100);
    let before = repo.as_bytes().to_vec();
    let paid = Cell::new(false);
    let r = buy_record(&buy_ctx(2, 2, 9), &mut repo, 3, || true, |_| {
        paid.set(true);
        true
    });
    assert_eq!(r.unwrap_err(), RecordError::OwnershipMismatch);
    assert!(!paid.get());
    assert_eq!(repo.as_bytes(), &before[..]);
}

#[test]
fn full_lifecycle_scenario() {
    let mut repo = Repository::new();
    let seller_token = 0x51;
    let buyer_token = 0xB7;
    let seller_balance = Cell::new(0u64);
    let buyer_balance = Cell::new(1000u64);
    register(&mut repo, 3, "hero-3", seller_token, 100);
    let up = UpdateRecord { nft_mint: key(seller_token), token_account_mint: key(seller_token) };
    update_record(&up, &mut repo, 3, "hero-3".to_string(), 150).unwrap();
    let rec = buy_record(
        &buy_ctx(seller_token, seller_token, buyer_token),
        &mut repo,
        3,
        || true,
        |amount| {
            buyer_balance.set(buyer_balance.get() - amount);
            seller_balance.set(seller_balance.get() + amount);
            true
        },
    )
    .unwrap();
    assert_eq!(rec.last_price, 150);
    assert_eq!(rec.listed_price, 150);
    let stored = read_record(&repo, 3).unwrap();
    assert_eq!(stored.last_price, 150);
    assert_eq!(stored.listed_price, 150);
    assert_eq!(stored.key_nft.to_bytes(), [buyer_token; 32]);
    assert_eq!(buyer_balance.get(), 850);
    assert_eq!(seller_balance.get(), 150);
}

#[test]
fn exchange_presenting_a_replaced_token_is_refused() {
    let mut repo = Repository::new();
    register(&mut repo, 3, "hero-3", 1, 100);
    buy_record(&buy_ctx(1, 1, 2), &mut repo, 3, || true, |_| true).unwrap();
    let before = repo.as_bytes().to_vec();
    let paid = Cell::new(false);
    let r = buy_record(&buy_ctx(1, 1, 3), &mut repo, 3, || true, |_| {
        paid.set(true);
        true
    });
    assert_eq!(r.unwrap_err(), RecordError::OwnershipMismatch);
    assert!(!paid.get());
    assert_eq!(repo.as_bytes(), &before[..]);
}

#[test]
fn failed_payment_leaves_storage_unchanged() {
    let mut repo = Repository::new();
    register(&mut repo, 8, "hero-8", 1, 100);
    let before = repo.as_bytes().to_vec();
    let asked = Cell::new(0u64);
    let r = buy_record(&buy_ctx(1, 1, 2), &mut repo, 8, || true, |amount| {
        asked.set(amount);
        false
    });
    assert_eq!(r.unwrap_err(), RecordError::TransferFailure);
    assert_eq!(asked.get(), 100);
    assert_eq!(repo.as_bytes(), &before[..]);
}

#[test]
fn failed_token_transfer_stops_the_exchange() {
    let mut repo = Repository::new();
    register(&mut repo, 8, "hero-8", 1, 100);
    let before = repo.as_bytes().to_vec();
    let paid = Cell::new(false);
    let r = buy_record(&buy_ctx(1, 1, 2), &mut repo, 8, || false, |_| {
        paid.set(true);
        true
    });
    assert_eq!(r.unwrap_err(), RecordError::TransferFailure);
    assert!(!paid.get());
    assert_eq!(repo.as_bytes(), &before[..]);
}

#[test]
fn exchange_settles_at_listed_price_and_keeps_it() {
    let mut repo = Repository::new();
    register(&mut repo, 0, "hero-0", 1, 10);
    let up = UpdateRecord { nft_mint: key(1), token_account_mint: key(1) };
    update_record(&up, &mut repo, 0, "hero-0".to_string(), 0).unwrap();
    let asked = Cell::new(u64::MAX);
    let rec = buy_record(&buy_ctx(1, 1, 2), &mut repo, 0, || true, |a| {
        asked.set(a);
        true
    })
    .unwrap();
    assert_eq!(asked.get(), 0);
    assert_eq!(rec.last_price, 0);
    assert_eq!(read_record(&repo, 0).unwrap().last_price, 0);
}

#[test]
fn exchange_out_of_range_and_empty_slot() {
    let mut repo = Repository::new();
    let r = buy_record(&buy_ctx(0, 0, 2), &mut repo, 12, || true, |_| true);
    assert_eq!(r.unwrap_err(), RecordError::OutOfRange);
    let paid = Cell::new(false);
    let r = buy_record(&buy_ctx(0, 0, 2), &mut repo, 7, || true, |_| {
        paid.set(true);
        true
    });
    assert_eq!(r.unwrap_err(), RecordError::DeserializationFailure);
    assert!(!paid.get());
    assert!(repo.as_bytes().iter().all(|b| *b == 0));
}
