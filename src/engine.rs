use vstd::prelude::*;

use crate::error::RecordError;
use crate::record::{NFTRecord, Pubkey, RecordView};
use crate::storage::{
    fits, lemma_record_bytes_len, save_nft_data_to_repository, slot_holds_record,
    slot_image, stored_at, stored_record, with_slot, Repository, NFT_COUNT,
};
use crate::validator::get_nft_data_from_repository;

verus! {

/// The identities that registering a slot reads.
#[derive(Debug, Clone, Copy)]
pub struct AddRecord {
    /// The mint of the token that will prove ownership of the slot.
    pub nft_mint: Pubkey,
}

/// The identities that updating a listing reads.
#[derive(Debug, Clone, Copy)]
pub struct UpdateRecord {
    /// The mint of the presented ownership token.
    pub nft_mint: Pubkey,
    /// The mint recorded in the owner's token account.
    pub token_account_mint: Pubkey,
}

/// The identities that an exchange reads.
#[derive(Debug, Clone, Copy)]
pub struct BuyRecord {
    /// The mint of the ownership token being replaced.
    pub dead_nft_mint: Pubkey,
    /// The mint recorded in the token account that holds the outgoing token.
    pub dead_nft_token_account_mint: Pubkey,
    /// The mint of the buyer's new ownership token.
    pub new_nft_mint: Pubkey,
}

/// The record that registering slot `hero_id` creates.
pub open spec fn registered(hero_id: u8, content_uri: Seq<char>, key: Seq<u8>, price: u64) -> RecordView {
    RecordView { hero_id, content_uri, key_nft: key, last_price: price, listed_price: price }
}

/// `m` with new listing terms; owner and settled price are kept.
pub open spec fn relisted(m: RecordView, content_uri: Seq<char>, price: u64) -> RecordView {
    RecordView {
        hero_id: m.hero_id,
        content_uri,
        key_nft: m.key_nft,
        last_price: m.last_price,
        listed_price: price,
    }
}

/// `m` after a sale at its listed price to the holder of token `key`.
pub open spec fn sold(m: RecordView, key: Seq<u8>) -> RecordView {
    RecordView {
        hero_id: m.hero_id,
        content_uri: m.content_uri,
        key_nft: key,
        last_price: m.listed_price,
        listed_price: m.listed_price,
    }
}

/// Slot `i` of `repo` holds a record owned through both `a` and `b`.
pub open spec fn owned_by(repo: Seq<u8>, i: int, a: Seq<u8>, b: Seq<u8>) -> bool {
    &&& slot_holds_record(repo, i)
    &&& stored_record(repo, i).key_nft == a
    &&& stored_record(repo, i).key_nft == b
}

/// Registers slot `hero_id`: a record owned through `ctx.nft_mint` whose
/// settled and listed prices are both `price`. Whatever the slot held before
/// is overwritten.
pub fn add_record(
    ctx: &AddRecord,
    repository: &mut Repository,
    hero_id: u8,
    content_uri: String,
    price: u64,
) -> (res: Result<NFTRecord, RecordError>)
    requires
        old(repository).wf(),
    ensures
        final(repository).wf(),
        ({
            let m = registered(hero_id, content_uri@, ctx.nft_mint.bytes@, price);
            &&& hero_id >= NFT_COUNT ==> res == Err::<NFTRecord, RecordError>(
                RecordError::OutOfRange,
            )
            &&& hero_id < NFT_COUNT && !fits(m) ==> res == Err::<NFTRecord, RecordError>(
                RecordError::SerializationOverflow,
            )
            &&& hero_id < NFT_COUNT && fits(m) ==> (res matches Ok(r) && r@ == m)
            &&& hero_id < NFT_COUNT && fits(m) ==> final(repository)@ == with_slot(
                old(repository)@,
                hero_id as int,
                slot_image(m),
            )
        }),
        res is Err ==> final(repository)@ == old(repository)@,
{
    let new_record = NFTRecord {
        hero_id,
        content_uri,
        key_nft: ctx.nft_mint,
        last_price: price,
        listed_price: price,
    };
    save_nft_data_to_repository(&new_record, repository)?;
    Ok(new_record)
}

/// Changes the listing terms of slot `hero_id`, which must be owned through
/// both `ctx.nft_mint` and `ctx.token_account_mint`. The owner and the
/// settled price are left as they were.
pub fn update_record(
    ctx: &UpdateRecord,
    repository: &mut Repository,
    hero_id: u8,
    content_uri: String,
    new_price: u64,
) -> (res: Result<NFTRecord, RecordError>)
    requires
        old(repository).wf(),
    ensures
        final(repository).wf(),
        res is Err ==> final(repository)@ == old(repository)@,
        hero_id >= NFT_COUNT ==> res == Err::<NFTRecord, RecordError>(RecordError::OutOfRange),
        hero_id < NFT_COUNT && !slot_holds_record(old(repository)@, hero_id as int) ==> res
            == Err::<NFTRecord, RecordError>(RecordError::DeserializationFailure),
        hero_id < NFT_COUNT && slot_holds_record(old(repository)@, hero_id as int) && !owned_by(
            old(repository)@,
            hero_id as int,
            ctx.nft_mint.bytes@,
            ctx.token_account_mint.bytes@,
        ) ==> res == Err::<NFTRecord, RecordError>(RecordError::OwnershipMismatch),
        hero_id < NFT_COUNT && owned_by(
            old(repository)@,
            hero_id as int,
            ctx.nft_mint.bytes@,
            ctx.token_account_mint.bytes@,
        ) ==> {
            let n = relisted(stored_record(old(repository)@, hero_id as int), content_uri@, new_price);
            if fits(n) {
                &&& (res matches Ok(r) && r@ == n)
                &&& final(repository)@ == with_slot(old(repository)@, hero_id as int, slot_image(n))
            } else {
                res == Err::<NFTRecord, RecordError>(RecordError::SerializationOverflow)
            }
        },
{
    let mut nft_record = get_nft_data_from_repository(
        hero_id,
        &ctx.nft_mint,
        repository,
        &ctx.token_account_mint,
    )?;
    nft_record.listed_price = new_price;
    nft_record.content_uri = content_uri;
    save_nft_data_to_repository(&nft_record, repository)?;
    Ok(nft_record)
}

/// Sells slot `hero_id` at its listed price. In order: `move_token` moves
/// the ownership token to the buyer; the stored record is checked against the
/// outgoing token; the record is rewritten with the listed price as settled
/// price and `ctx.new_nft_mint` as owner; `pay` moves that price from the
/// buyer to the previous owner. Each callback returns whether its transfer
/// completed. On any failure the region is left as it was before the call.
/// `pay` may be called only after the token transfer completed and the
/// record passed its check, and only with the listed price: its `requires`
/// holds for no other call, so no payment can be asked for on any other path.
pub fn buy_record<T, P>(
    ctx: &BuyRecord,
    repository: &mut Repository,
    hero_id: u8,
    move_token: T,
    pay: P,
) -> (res: Result<NFTRecord, RecordError>) where T: FnOnce() -> bool, P: FnOnce(u64) -> bool
    requires
        old(repository).wf(),
        move_token.requires(()),
        forall|amount: u64|
            move_token.ensures((), true) && owned_by(
                old(repository)@,
                hero_id as int,
                ctx.dead_nft_mint.bytes@,
                ctx.dead_nft_token_account_mint.bytes@,
            ) && amount == stored_record(old(repository)@, hero_id as int).listed_price
                ==> #[trigger] pay.requires((amount,)),
    ensures
        final(repository).wf(),
        res is Err ==> final(repository)@ == old(repository)@,
        hero_id >= NFT_COUNT <==> res == Err::<NFTRecord, RecordError>(RecordError::OutOfRange),
        ({
            let old_repo = old(repository)@;
            let i = hero_id as int;
            let m = stored_record(old_repo, i);
            let n = sold(m, ctx.new_nft_mint.bytes@);
            let owned = owned_by(
                old_repo,
                i,
                ctx.dead_nft_mint.bytes@,
                ctx.dead_nft_token_account_mint.bytes@,
            );
            &&& i < NFT_COUNT && !slot_holds_record(old_repo, i) ==> (res == Err::<
                NFTRecord,
                RecordError,
            >(RecordError::DeserializationFailure) || (res == Err::<NFTRecord, RecordError>(
                RecordError::TransferFailure,
            ) && move_token.ensures((), false)))
            &&& i < NFT_COUNT && slot_holds_record(old_repo, i) && !owned ==> (res == Err::<
                NFTRecord,
                RecordError,
            >(RecordError::OwnershipMismatch) || (res == Err::<NFTRecord, RecordError>(
                RecordError::TransferFailure,
            ) && move_token.ensures((), false)))
            &&& res == Err::<NFTRecord, RecordError>(RecordError::TransferFailure) ==> move_token.ensures(
                (),
                false,
            ) || (owned && pay.ensures((m.listed_price,), false))
            &&& res == Err::<NFTRecord, RecordError>(RecordError::DeserializationFailure) ==> move_token.ensures(
                (),
                true,
            ) && !slot_holds_record(old_repo, i)
            &&& res == Err::<NFTRecord, RecordError>(RecordError::OwnershipMismatch) ==> move_token.ensures(
                (),
                true,
            ) && slot_holds_record(old_repo, i) && !owned
            &&& res != Err::<NFTRecord, RecordError>(RecordError::SerializationOverflow)
            &&& res matches Ok(r) ==> {
                &&& move_token.ensures((), true)
                &&& owned
                &&& pay.ensures((m.listed_price,), true)
                &&& r@ == n
                &&& r.last_price == m.listed_price
                &&& final(repository)@ == with_slot(old_repo, i, slot_image(n))
            }
        }),
{
    if hero_id as usize >= NFT_COUNT {
        return Err(RecordError::OutOfRange);
    }
    if !move_token() {
        return Err(RecordError::TransferFailure);
    }
    let mut nft_record = get_nft_data_from_repository(
        hero_id,
        &ctx.dead_nft_mint,
        repository,
        &ctx.dead_nft_token_account_mint,
    )?;
    let ghost m = nft_record@;
    proof {
        let i = hero_id as int;
        assert(stored_at(repository@, i, stored_record(repository@, i)));
        lemma_record_bytes_len(m);
        lemma_record_bytes_len(sold(m, ctx.new_nft_mint.bytes@));
        assert(fits(m));
    }
    nft_record.last_price = nft_record.listed_price;
    nft_record.key_nft = ctx.new_nft_mint;
    let previous = repository.slot_bytes(hero_id as usize);
    save_nft_data_to_repository(&nft_record, repository)?;
    if !pay(nft_record.last_price) {
        repository.write_slot(hero_id as usize, &previous);
        assert(repository@ =~= old(repository)@);
        return Err(RecordError::TransferFailure);
    }
    Ok(nft_record)
}

} // verus!
