use vstd::prelude::*;

verus! {

/// A 32-byte account identity (an ownership token's mint).
#[derive(Debug, Clone, Copy)]
pub struct Pubkey {
    pub bytes: [u8; 32],
}

impl Pubkey {
    pub fn new(bytes: [u8; 32]) -> (r: Pubkey)
        ensures
            r.bytes@ == bytes@,
    {
        Pubkey { bytes }
    }

    pub fn to_bytes(&self) -> (r: [u8; 32])
        ensures
            r@ == self.bytes@,
    {
        self.bytes
    }

    /// Byte-wise equality of two identities.
    pub fn same_as(&self, other: &Pubkey) -> (r: bool)
        ensures
            r == (self.bytes@ == other.bytes@),
    {
        let mut i: usize = 0;
        while i < 32
            invariant
                0 <= i <= 32,
                forall|j: int| 0 <= j < i ==> self.bytes@[j] == other.bytes@[j],
            decreases 32 - i,
        {
            if self.bytes[i] != other.bytes[i] {
                return false;
            }
            i = i + 1;
        }
        assert(self.bytes@ =~= other.bytes@);
        true
    }
}

/// The state of one catalog slot.
#[derive(Debug, Clone)]
pub struct NFTRecord {
    pub hero_id: u8,
    pub content_uri: String,
    pub key_nft: Pubkey,
    pub last_price: u64,
    pub listed_price: u64,
}

/// The mathematical value of a record.
pub struct RecordView {
    pub hero_id: u8,
    pub content_uri: Seq<char>,
    pub key_nft: Seq<u8>,
    pub last_price: u64,
    pub listed_price: u64,
}

impl View for NFTRecord {
    type V = RecordView;

    open spec fn view(&self) -> RecordView {
        RecordView {
            hero_id: self.hero_id,
            content_uri: self.content_uri@,
            key_nft: self.key_nft.bytes@,
            last_price: self.last_price,
            listed_price: self.listed_price,
        }
    }
}

/// The UTF-8 encoding of one character.
pub open spec fn utf8_char(c: char) -> Seq<u8> {
    let v = c as u32;
    if v < 0x80 {
        seq![v as u8]
    } else if v < 0x800 {
        seq![(0xC0 | (v >> 6)) as u8, (0x80 | (v & 0x3F)) as u8]
    } else if v < 0x10000 {
        seq![
            (0xE0 | (v >> 12)) as u8,
            (0x80 | ((v >> 6) & 0x3F)) as u8,
            (0x80 | (v & 0x3F)) as u8,
        ]
    } else {
        seq![
            (0xF0 | (v >> 18)) as u8,
            (0x80 | ((v >> 12) & 0x3F)) as u8,
            (0x80 | ((v >> 6) & 0x3F)) as u8,
            (0x80 | (v & 0x3F)) as u8,
        ]
    }
}

/// The UTF-8 encoding of a string.
pub open spec fn utf8(s: Seq<char>) -> Seq<u8>
    decreases s.len(),
{
    if s.len() == 0 {
        Seq::empty()
    } else {
        utf8(s.drop_last()) + utf8_char(s.last())
    }
}

/// The `n` low-order bytes of `v`, least significant first.
pub open spec fn le_bytes(v: nat, n: nat) -> Seq<u8>
    decreases n,
{
    if n == 0 {
        Seq::empty()
    } else {
        seq![(v % 256) as u8] + le_bytes(v / 256, (n - 1) as nat)
    }
}

/// The Borsh layout of a record: the slot id, the content reference as a
/// length-prefixed UTF-8 string, the 32 key bytes, then both prices as
/// little-endian 64-bit integers.
pub open spec fn record_bytes(m: RecordView) -> Seq<u8> {
    seq![m.hero_id] + le_bytes(utf8(m.content_uri).len(), 4) + utf8(m.content_uri) + m.key_nft
        + le_bytes(m.last_price as nat, 8) + le_bytes(m.listed_price as nat, 8)
}

/// `m` is a record with a well-formed key, and content whose byte length
/// fits the four-byte length prefix, whose encoding begins `bytes`.
pub open spec fn parses_as(bytes: Seq<u8>, m: RecordView) -> bool {
    &&& m.key_nft.len() == 32
    &&& utf8(m.content_uri).len() <= u32::MAX
    &&& record_bytes(m).is_prefix_of(bytes)
}

/// Relies on borsh::to_vec over the field tuple, which writes the layout of
/// `record_bytes`; it errs only where the content's byte length exceeds `u32`.
#[verifier::external_body]
fn borsh_encode(r: &NFTRecord) -> (res: Option<Vec<u8>>)
    ensures
        res matches Some(b) ==> b@ == record_bytes(r@),
        res is None <==> utf8(r.content_uri@).len() > u32::MAX,
{
    borsh::to_vec(&(r.hero_id, &r.content_uri, &r.key_nft.bytes, r.last_price, r.listed_price)).ok()
}

/// Relies on BorshDeserialize::deserialize for the field tuple, which reads
/// the layout of `record_bytes` from the front of `b` and ignores what follows.
#[verifier::external_body]
fn borsh_decode(b: &Vec<u8>) -> (res: Option<NFTRecord>)
    ensures
        res matches Some(r) ==> parses_as(b@, r@),
        res matches Some(r) ==> forall|m: RecordView| #[trigger] parses_as(b@, m) ==> m == r@,
        res is None ==> forall|m: RecordView| !#[trigger] parses_as(b@, m),
{
    let mut s: &[u8] = b.as_slice();
    match <(u8, String, [u8; 32], u64, u64) as borsh::BorshDeserialize>::deserialize(&mut s) {
        Ok((hero_id, content_uri, bytes, last_price, listed_price)) => Some(
            NFTRecord { hero_id, content_uri, key_nft: Pubkey { bytes }, last_price, listed_price },
        ),
        Err(_) => None,
    }
}

impl NFTRecord {
    /// The record's encoding, or `None` where its content cannot be encoded.
    pub fn encode(&self) -> (res: Option<Vec<u8>>)
        ensures
            res matches Some(b) ==> b@ == record_bytes(self@),
            res is None <==> utf8(self.content_uri@).len() > u32::MAX,
    {
        borsh_encode(self)
    }

    /// Decodes a record from the front of `b`; trailing bytes are ignored.
    pub fn decode(b: &Vec<u8>) -> (res: Option<NFTRecord>)
        ensures
            res matches Some(r) ==> parses_as(b@, r@),
            res matches Some(r) ==> forall|m: RecordView| #[trigger] parses_as(b@, m) ==> m == r@,
            res is None ==> forall|m: RecordView| !#[trigger] parses_as(b@, m),
    {
        borsh_decode(b)
    }
}

} // verus!
