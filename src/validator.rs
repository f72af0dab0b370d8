use vstd::prelude::*;

use crate::error::RecordError;
use crate::record::{NFTRecord, Pubkey};
use crate::storage::{read_record, slot_holds_record, stored_record, Repository, NFT_COUNT};

verus! {

/// Accepts `record` only where its ownership token is both `presented` and
/// `secondary` (an identity taken from an independent source).
pub fn validate_record(record: NFTRecord, presented: &Pubkey, secondary: &Pubkey) -> (res: Result<
    NFTRecord,
    RecordError,
>)
    ensures
        res is Ok <==> (record.key_nft.bytes@ == presented.bytes@ && record.key_nft.bytes@
            == secondary.bytes@),
        res matches Ok(r) ==> r@ == record@,
        res is Err ==> res == Err::<NFTRecord, RecordError>(RecordError::OwnershipMismatch),
{
    if !record.key_nft.same_as(presented) || !record.key_nft.same_as(secondary) {
        return Err(RecordError::OwnershipMismatch);
    }
    Ok(record)
}

/// Reads the record in slot `hero_id` and checks it against the token
/// identity `key_nft` and the identity `nft_account` of the supplied account.
pub fn get_nft_data_from_repository(
    hero_id: u8,
    key_nft: &Pubkey,
    repository: &Repository,
    nft_account: &Pubkey,
) -> (res: Result<NFTRecord, RecordError>)
    requires
        repository.wf(),
    ensures
        hero_id >= NFT_COUNT ==> res == Err::<NFTRecord, RecordError>(RecordError::OutOfRange),
        hero_id < NFT_COUNT && !slot_holds_record(repository@, hero_id as int) ==> res == Err::<
            NFTRecord,
            RecordError,
        >(RecordError::DeserializationFailure),
        hero_id < NFT_COUNT && slot_holds_record(repository@, hero_id as int) ==> {
            let m = stored_record(repository@, hero_id as int);
            if m.key_nft == key_nft.bytes@ && m.key_nft == nft_account.bytes@ {
                res matches Ok(r) && r@ == m
            } else {
                res == Err::<NFTRecord, RecordError>(RecordError::OwnershipMismatch)
            }
        },
{
    let record = read_record(repository, hero_id)?;
    validate_record(record, key_nft, nft_account)
}

} // verus!
