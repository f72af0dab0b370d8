use vstd::prelude::*;

use crate::error::RecordError;
use crate::record::{le_bytes, parses_as, record_bytes, utf8, NFTRecord, RecordView};

verus! {

/// Number of slots in the catalog.
pub const NFT_COUNT: usize = 12;

/// Width in bytes of one slot.
pub const NFT_RECORD_SIZE: usize = 250;

/// Smallest region that holds every slot.
pub const REPOSITORY_SIZE: usize = NFT_COUNT * NFT_RECORD_SIZE;

/// The bytes of slot `i`.
pub open spec fn slot(repo: Seq<u8>, i: int) -> Seq<u8> {
    repo.subrange(i * NFT_RECORD_SIZE as int, i * NFT_RECORD_SIZE as int + NFT_RECORD_SIZE as int)
}

/// `repo` with the bytes of slot `i` replaced by `img`.
pub open spec fn with_slot(repo: Seq<u8>, i: int, img: Seq<u8>) -> Seq<u8> {
    repo.subrange(0, i * NFT_RECORD_SIZE as int) + img
        + repo.subrange(i * NFT_RECORD_SIZE as int + NFT_RECORD_SIZE as int, repo.len() as int)
}

/// The encoding of `m` fits in one slot.
pub open spec fn fits(m: RecordView) -> bool {
    record_bytes(m).len() <= NFT_RECORD_SIZE
}

/// What a slot holds after `m` is written to it: its encoding, then zeros.
pub open spec fn slot_image(m: RecordView) -> Seq<u8> {
    record_bytes(m) + Seq::new((NFT_RECORD_SIZE - record_bytes(m).len()) as nat, |_k: int| 0u8)
}

/// Slot `i` of `repo` decodes to `m`, a record that belongs to that slot.
pub open spec fn stored_at(repo: Seq<u8>, i: int, m: RecordView) -> bool {
    &&& 0 <= i < NFT_COUNT
    &&& m.hero_id == i
    &&& parses_as(slot(repo, i), m)
}

/// Slot `i` of `repo` holds a record.
pub open spec fn slot_holds_record(repo: Seq<u8>, i: int) -> bool {
    exists|m: RecordView| #[trigger] stored_at(repo, i, m)
}

/// The record that slot `i` of `repo` holds, where it holds one.
pub open spec fn stored_record(repo: Seq<u8>, i: int) -> RecordView {
    choose|m: RecordView| #[trigger] stored_at(repo, i, m)
}

/// `le_bytes` yields exactly the number of bytes asked for.
pub proof fn lemma_le_bytes_len(v: nat, n: nat)
    ensures
        le_bytes(v, n).len() == n,
    decreases n,
{
    if n > 0 {
        lemma_le_bytes_len(v / 256, (n - 1) as nat);
    }
}

/// The length of a record's encoding.
pub proof fn lemma_record_bytes_len(m: RecordView)
    ensures
        record_bytes(m).len() == 21 + utf8(m.content_uri).len() + m.key_nft.len(),
{
    lemma_le_bytes_len(utf8(m.content_uri).len(), 4);
    lemma_le_bytes_len(m.last_price as nat, 8);
    lemma_le_bytes_len(m.listed_price as nat, 8);
}

/// A record written to its slot is read back unchanged.
pub proof fn lemma_round_trip(repo: Seq<u8>, m: RecordView)
    requires
        repo.len() >= REPOSITORY_SIZE,
        m.hero_id < NFT_COUNT,
        m.key_nft.len() == 32,
        fits(m),
    ensures
        stored_at(with_slot(repo, m.hero_id as int, slot_image(m)), m.hero_id as int, m),
        slot_holds_record(with_slot(repo, m.hero_id as int, slot_image(m)), m.hero_id as int),
{
    lemma_record_bytes_len(m);
    let i = m.hero_id as int;
    let r = with_slot(repo, i, slot_image(m));
    assert(slot(r, i) =~= slot_image(m));
    assert(record_bytes(m).is_prefix_of(slot_image(m))) by {
        assert(slot_image(m).subrange(0, record_bytes(m).len() as int) =~= record_bytes(m));
    }
    assert(stored_at(r, i, m));
}

/// Writing slot `i` leaves the bytes of every other slot as they were.
pub proof fn lemma_slot_isolation(repo: Seq<u8>, i: int, img: Seq<u8>, j: int)
    requires
        repo.len() >= REPOSITORY_SIZE,
        0 <= i < NFT_COUNT,
        0 <= j < NFT_COUNT,
        i != j,
        img.len() == NFT_RECORD_SIZE,
    ensures
        slot(with_slot(repo, i, img), j) == slot(repo, j),
{
    assert(slot(with_slot(repo, i, img), j) =~= slot(repo, j));
}

/// A byte region large enough for every slot of the catalog.
pub struct Repository {
    data: Vec<u8>,
}

impl View for Repository {
    type V = Seq<u8>;

    closed spec fn view(&self) -> Seq<u8> {
        self.data@
    }
}

impl Repository {
    pub open spec fn wf(&self) -> bool {
        self@.len() >= REPOSITORY_SIZE
    }

    /// A zero-filled region of exactly `REPOSITORY_SIZE` bytes.
    pub fn new() -> (r: Repository)
        ensures
            r.wf(),
            r@ == Seq::new(REPOSITORY_SIZE as nat, |_k: int| 0u8),
    {
        let mut data: Vec<u8> = Vec::new();
        while data.len() < REPOSITORY_SIZE
            invariant
                data@.len() <= REPOSITORY_SIZE,
                forall|k: int| 0 <= k < data@.len() ==> data@[k] == 0u8,
            decreases REPOSITORY_SIZE - data@.len(),
        {
            data.push(0u8);
        }
        let r = Repository { data };
        assert(r@ =~= Seq::new(REPOSITORY_SIZE as nat, |_k: int| 0u8));
        r
    }

    /// Takes over an existing region, which must hold every slot.
    pub fn from_bytes(data: Vec<u8>) -> (r: Option<Repository>)
        ensures
            r is Some <==> data@.len() >= REPOSITORY_SIZE,
            r matches Some(repo) ==> repo.wf() && repo@ == data@,
    {
        if data.len() >= REPOSITORY_SIZE {
            Some(Repository { data })
        } else {
            None
        }
    }

    /// The whole region.
    pub fn as_bytes(&self) -> (r: &[u8])
        ensures
            r@ == self@,
    {
        self.data.as_slice()
    }

    /// The bytes of slot `i`.
    pub fn slot_bytes(&self, i: usize) -> (r: Vec<u8>)
        requires
            self.wf(),
            i < NFT_COUNT,
        ensures
            r@ == slot(self@, i as int),
    {
        let start: usize = i * NFT_RECORD_SIZE;
        let mut r: Vec<u8> = Vec::with_capacity(NFT_RECORD_SIZE);
        let mut k: usize = 0;
        while k < NFT_RECORD_SIZE
            invariant
                start == i * NFT_RECORD_SIZE,
                i < NFT_COUNT,
                self.wf(),
                k <= NFT_RECORD_SIZE,
                r@ =~= self@.subrange(start as int, start + k),
            decreases NFT_RECORD_SIZE - k,
        {
            r.push(self.data[start + k]);
            k = k + 1;
        }
        r
    }

    /// Replaces the bytes of slot `i` with `img`.
    pub(crate) fn write_slot(&mut self, i: usize, img: &Vec<u8>)
        requires
            old(self).wf(),
            i < NFT_COUNT,
            img@.len() == NFT_RECORD_SIZE,
        ensures
            final(self).wf(),
            final(self)@ == with_slot(old(self)@, i as int, img@),
    {
        let start: usize = i * NFT_RECORD_SIZE;
        let mut k: usize = 0;
        while k < NFT_RECORD_SIZE
            invariant
                start == i * NFT_RECORD_SIZE,
                i < NFT_COUNT,
                img@.len() == NFT_RECORD_SIZE,
                k <= NFT_RECORD_SIZE,
                self@.len() == old(self)@.len(),
                old(self).wf(),
                forall|j: int|
                    0 <= j < self@.len() ==> #[trigger] self@[j] == if start <= j < start + k {
                        img@[j - start]
                    } else {
                        old(self)@[j]
                    },
            decreases NFT_RECORD_SIZE - k,
        {
            self.data.set(start + k, img[k]);
            k = k + 1;
        }
        assert(self@ =~= with_slot(old(self)@, i as int, img@));
    }
}

/// Reads the record in slot `hero_id`. Fails where the index is outside the
/// catalog, or where the slot's bytes do not decode to a record whose own
/// slot id is `hero_id` (a never-written, zero-filled slot among them).
pub fn read_record(repository: &Repository, hero_id: u8) -> (res: Result<NFTRecord, RecordError>)
    requires
        repository.wf(),
    ensures
        hero_id >= NFT_COUNT ==> res == Err::<NFTRecord, RecordError>(RecordError::OutOfRange),
        hero_id < NFT_COUNT ==> (res is Ok <==> slot_holds_record(repository@, hero_id as int)),
        hero_id < NFT_COUNT && res is Err ==> res == Err::<NFTRecord, RecordError>(
            RecordError::DeserializationFailure,
        ),
        res matches Ok(r) ==> r@ == stored_record(repository@, hero_id as int),
        res matches Ok(r) ==> forall|m: RecordView| #[trigger]
            stored_at(repository@, hero_id as int, m) ==> m == r@,
{
    if hero_id as usize >= NFT_COUNT {
        return Err(RecordError::OutOfRange);
    }
    let bytes = repository.slot_bytes(hero_id as usize);
    match NFTRecord::decode(&bytes) {
        Some(r) => {
            if r.hero_id != hero_id {
                assert(!slot_holds_record(repository@, hero_id as int)) by {
                    if slot_holds_record(repository@, hero_id as int) {
                        let m = stored_record(repository@, hero_id as int);
                        assert(stored_at(repository@, hero_id as int, m));
                        assert(parses_as(bytes@, m));
                    }
                }
                Err(RecordError::DeserializationFailure)
            } else {
                assert(stored_at(repository@, hero_id as int, r@));
                let ghost m = stored_record(repository@, hero_id as int);
                assert(parses_as(bytes@, m));
                Ok(r)
            }
        },
        None => {
            assert(!slot_holds_record(repository@, hero_id as int)) by {
                if slot_holds_record(repository@, hero_id as int) {
                    let m = stored_record(repository@, hero_id as int);
                    assert(stored_at(repository@, hero_id as int, m));
                    assert(parses_as(bytes@, m));
                }
            }
            Err(RecordError::DeserializationFailure)
        },
    }
}

/// Writes `nft_record` into the slot named by its own id: its encoding, then
/// zeros to the end of the slot. Nothing is written where the id lies outside
/// the catalog or the encoding is wider than a slot.
pub fn save_nft_data_to_repository(nft_record: &NFTRecord, repository: &mut Repository) -> (res:
    Result<(), RecordError>)
    requires
        old(repository).wf(),
    ensures
        final(repository).wf(),
        nft_record.hero_id >= NFT_COUNT ==> res == Err::<(), RecordError>(RecordError::OutOfRange),
        nft_record.hero_id < NFT_COUNT && !fits(nft_record@) ==> res == Err::<(), RecordError>(
            RecordError::SerializationOverflow,
        ),
        nft_record.hero_id < NFT_COUNT && fits(nft_record@) ==> res is Ok,
        res is Ok ==> final(repository)@ == with_slot(
            old(repository)@,
            nft_record.hero_id as int,
            slot_image(nft_record@),
        ),
        res is Err ==> final(repository)@ == old(repository)@,
{
    if nft_record.hero_id as usize >= NFT_COUNT {
        return Err(RecordError::OutOfRange);
    }
    proof {
        lemma_record_bytes_len(nft_record@);
    }
    let encoded = nft_record.encode();
    let mut img = match encoded {
        Some(b) => b,
        None => {
            return Err(RecordError::SerializationOverflow);
        },
    };
    if img.len() > NFT_RECORD_SIZE {
        return Err(RecordError::SerializationOverflow);
    }
    let ghost enc = img@;
    while img.len() < NFT_RECORD_SIZE
        invariant
            enc == record_bytes(nft_record@),
            enc.len() <= img@.len() <= NFT_RECORD_SIZE,
            img@ =~= enc + Seq::new((img@.len() - enc.len()) as nat, |_k: int| 0u8),
        decreases NFT_RECORD_SIZE - img@.len(),
    {
        img.push(0u8);
    }
    assert(img@ =~= slot_image(nft_record@));
    repository.write_slot(nft_record.hero_id as usize, &img);
    Ok(())
}

} // verus!
