use vstd::prelude::*;

use crate::bytes::{le_val, lemma_le_bound, lemma_pow256_values, read_le};

verus! {

/// Sentinel at the start of every oracle account.
pub const MAGIC: u32 = 0xa1b2c3d4;

pub const VERSION_2: u32 = 2;

/// The one layout version this library reads.
pub const VERSION: u32 = VERSION_2;

/// Number of product slots in a mapping account.
pub const MAP_TABLE_SIZE: usize = 640;

pub const PROD_ACCT_SIZE: usize = 512;

pub const PROD_HDR_SIZE: usize = 48;

/// Width of the opaque attribute block of a product account.
pub const PROD_ATTR_SIZE: usize = PROD_ACCT_SIZE - PROD_HDR_SIZE;

/// Number of per-publisher components in a price account.
pub const PRICE_COMPS: usize = 32;

/// Byte size of an encoded price account.
pub const PRICE_SIZE: usize = 3312;

/// Byte size of an encoded product account.
pub const PRODUCT_SIZE: usize = PROD_ACCT_SIZE;

/// Byte size of an encoded mapping account.
pub const MAPPING_SIZE: usize = 20536;

/// Byte size of an account key.
pub const KEY_SIZE: usize = 32;

/// Byte size of an encoded `PriceInfo`.
pub const PRICE_INFO_SIZE: usize = 32;

/// Byte size of an encoded `PriceComp`.
pub const PRICE_COMP_SIZE: usize = 96;

/// Account-type tags.
pub const ACCOUNT_TYPE_UNKNOWN: u32 = 0;

pub const ACCOUNT_TYPE_MAPPING: u32 = 1;

pub const ACCOUNT_TYPE_PRODUCT: u32 = 2;

pub const ACCOUNT_TYPE_PRICE: u32 = 3;

/// Why an account buffer or an index operation was rejected.
#[derive(Clone, Copy, Debug, PartialEq, Eq, Structural)]
pub enum PythError {
    /// The buffer is shorter than the record it should hold.
    SizeMismatch,
    InvalidMagic,
    VersionMismatch,
    WrongAccountType,
    /// An all-zero key where a real one is required.
    InvalidKey,
    /// A product does not reference the price account supplied with it.
    KeyMismatch,
    /// No index entry matches.
    NotFound,
}

/// A compact price with its decimal exponent.
#[derive(Copy, Clone, Debug)]
pub struct PriceStruct {
    pub expo: i32,
    pub price: i64,
}

/// A 32-byte account key.
#[derive(Default, Copy, Clone, Debug)]
pub struct AccKey {
    pub val: [u8; 32],
}

#[derive(Copy, Clone, Debug, PartialEq, Eq, Structural)]
pub enum PriceStatus {
    Unknown,
    Trading,
    Halted,
    Auction,
}

impl Default for PriceStatus {
    fn default() -> (r: Self)
        ensures
            r == PriceStatus::Trading,
    {
        PriceStatus::Trading
    }
}

#[derive(Copy, Clone, Debug, PartialEq, Eq, Structural)]
pub enum CorpAction {
    NoCorpAct,
}

impl Default for CorpAction {
    fn default() -> (r: Self)
        ensures
            r == CorpAction::NoCorpAct,
    {
        CorpAction::NoCorpAct
    }
}

#[derive(Default, Copy, Clone, Debug)]
pub struct PriceInfo {
    pub price: i64,
    pub conf: u64,
    pub status: PriceStatus,
    pub corp_act: CorpAction,
    pub pub_slot: u64,
}

/// One publisher's contribution to a price account.
#[derive(Default, Copy, Clone)]
pub struct PriceComp {
    pub publisher: AccKey,
    pub agg: PriceInfo,
    pub latest: PriceInfo,
}

#[derive(Copy, Clone, Debug, PartialEq, Eq, Structural)]
pub enum PriceType {
    Unknown,
    Price,
    TWAP,
    Volatility,
}

impl Default for PriceType {
    fn default() -> (r: Self)
        ensures
            r == PriceType::Price,
    {
        PriceType::Price
    }
}

/// The kind of record an account holds.
#[derive(Copy, Clone, Debug, PartialEq, Eq, Structural)]
pub enum AccountType {
    Unknown,
    Mapping,
    Product,
    Price,
}

pub open spec fn account_type_tag(t: AccountType) -> u32 {
    match t {
        AccountType::Unknown => ACCOUNT_TYPE_UNKNOWN,
        AccountType::Mapping => ACCOUNT_TYPE_MAPPING,
        AccountType::Product => ACCOUNT_TYPE_PRODUCT,
        AccountType::Price => ACCOUNT_TYPE_PRICE,
    }
}

impl AccountType {
    /// The tag that an account of this type carries in its `atype` field.
    pub fn tag(&self) -> (r: u32)
        ensures
            r == account_type_tag(*self),
    {
        match self {
            AccountType::Unknown => ACCOUNT_TYPE_UNKNOWN,
            AccountType::Mapping => ACCOUNT_TYPE_MAPPING,
            AccountType::Product => ACCOUNT_TYPE_PRODUCT,
            AccountType::Price => ACCOUNT_TYPE_PRICE,
        }
    }
}

/// A key is valid when at least one of its bytes is not zero.
pub open spec fn key_valid(k: AccKey) -> bool {
    exists|i: int| 0 <= i < 32 && k.val@[i] != 0
}

/// Relies on bytemuck::cast: reinterprets the 32 key bytes as four words, so a
/// word is zero exactly when its eight bytes are.
#[verifier::external_body]
fn key_words(val: [u8; 32]) -> (r: [u64; 4])
    ensures
        forall|w: int|
            0 <= w < 4 ==> (#[trigger] r@[w] == 0 <==> (forall|j: int|
                0 <= j < 8 ==> #[trigger] val@[8 * w + j] == 0)),
{
    bytemuck::cast::<[u8; 32], [u64; 4]>(val)
}

impl AccKey {
    /// Whether the key is set, that is not all zero.
    pub fn is_valid(&self) -> (r: bool)
        ensures
            r == key_valid(*self),
    {
        let w = key_words(self.val);
        let r = w[0] != 0 || w[1] != 0 || w[2] != 0 || w[3] != 0;
        proof {
            if r {
                let k: int = if w[0] != 0 {
                    0
                } else if w[1] != 0 {
                    1
                } else if w[2] != 0 {
                    2
                } else {
                    3
                };
                assert(w@[k] != 0);
                assert(!(forall|j: int| 0 <= j < 8 ==> #[trigger] self.val@[8 * k + j] == 0));
            } else {
                assert forall|i: int| 0 <= i < 32 implies self.val@[i] == 0 by {
                    let k = i / 8;
                    assert(w@[k] == 0);
                    assert(self.val@[8 * k + (i - 8 * k)] == 0);
                }
            }
        }
        r
    }

    /// Whether both keys hold the same bytes.
    pub fn same_as(&self, other: &AccKey) -> (r: bool)
        ensures
            r == (self.val@ == other.val@),
    {
        let mut i: usize = 0;
        while i < KEY_SIZE
            invariant
                i <= 32,
                forall|j: int| 0 <= j < i ==> self.val@[j] == other.val@[j],
            decreases 32 - i,
        {
            if self.val[i] != other.val[i] {
                return false;
            }
            i = i + 1;
        }
        assert(self.val@ =~= other.val@);
        true
    }
}

/// The header checks shared by all account types, in the order they are made:
/// magic first, then the account type, then the version.
pub open spec fn header_check(magic: u32, atype: u32, ver: u32, expected: u32) -> Result<
    (),
    PythError,
> {
    if magic != MAGIC {
        Err(PythError::InvalidMagic)
    } else if atype != expected {
        Err(PythError::WrongAccountType)
    } else if ver != VERSION {
        Err(PythError::VersionMismatch)
    } else {
        Ok(())
    }
}

/// Checks an account header against the expected account-type tag.
pub fn validate_header(magic: u32, atype: u32, ver: u32, expected: u32) -> (r: Result<
    (),
    PythError,
>)
    ensures
        r == header_check(magic, atype, ver, expected),
{
    if magic != MAGIC {
        Err(PythError::InvalidMagic)
    } else if atype != expected {
        Err(PythError::WrongAccountType)
    } else if ver != VERSION {
        Err(PythError::VersionMismatch)
    } else {
        Ok(())
    }
}

#[derive(Default, Copy, Clone)]
pub struct Price {
    pub magic: u32,
    pub ver: u32,
    pub atype: u32,
    /// Declared account size.
    pub size: u32,
    pub ptype: PriceType,
    /// Decimal exponent of the prices.
    pub expo: i32,
    /// Number of component prices.
    pub num: u32,
    pub unused: u32,
    /// Slot that is currently accumulating.
    pub curr_slot: u64,
    /// Slot at which the aggregate price became valid.
    pub valid_slot: u64,
    /// Time-weighted average price.
    pub twap: i64,
    /// Annualized price volatility.
    pub avol: u64,
    pub drv0: i64,
    pub drv1: i64,
    pub drv2: i64,
    pub drv3: i64,
    pub drv4: i64,
    pub drv5: i64,
    /// Key of the product account.
    pub prod: AccKey,
    /// Next price account of the linked list.
    pub next: AccKey,
    /// Publisher who computed the last aggregate.
    pub agg_pub: AccKey,
    pub agg: PriceInfo,
    pub comp: [PriceComp; 32],
}

/// Metadata of one instrument.
#[derive(Copy, Clone)]
pub struct Product {
    pub magic: u32,
    pub ver: u32,
    pub atype: u32,
    pub size: u32,
    /// First price account of the product.
    pub px_acc: AccKey,
    /// Opaque key/value attributes.
    pub attr: [u8; PROD_ATTR_SIZE],
}

/// One page of the linked list of product keys.
#[derive(Copy, Clone)]
pub struct Mapping {
    pub magic: u32,
    pub ver: u32,
    pub atype: u32,
    pub size: u32,
    /// Number of occupied product slots.
    pub num: u32,
    pub unused: u32,
    /// Next mapping page, if any.
    pub next: AccKey,
    pub products: [AccKey; MAP_TABLE_SIZE],
}

pub open spec fn u32_at(s: Seq<u8>, o: int) -> u32 {
    le_val(s, o, 4) as u32
}

pub open spec fn u64_at(s: Seq<u8>, o: int) -> u64 {
    le_val(s, o, 8) as u64
}

pub open spec fn i32_at(s: Seq<u8>, o: int) -> i32 {
    u32_at(s, o) as i32
}

pub open spec fn i64_at(s: Seq<u8>, o: int) -> i64 {
    u64_at(s, o) as i64
}

/// `k` holds the 32 bytes of `s` at `o`.
pub open spec fn key_at(k: AccKey, s: Seq<u8>, o: int) -> bool {
    k.val@ == s.subrange(o, o + 32)
}

/// Encoded status values; a value out of range reads as `Unknown`.
pub open spec fn status_of(v: u32) -> PriceStatus {
    if v == 1 {
        PriceStatus::Trading
    } else if v == 2 {
        PriceStatus::Halted
    } else if v == 3 {
        PriceStatus::Auction
    } else {
        PriceStatus::Unknown
    }
}

/// Encoded price types; a value out of range reads as `Unknown`.
pub open spec fn price_type_of(v: u32) -> PriceType {
    if v == 1 {
        PriceType::Price
    } else if v == 2 {
        PriceType::TWAP
    } else if v == 3 {
        PriceType::Volatility
    } else {
        PriceType::Unknown
    }
}

/// `p` is the `PriceInfo` encoded in `s` at `o`.
pub open spec fn info_at(p: PriceInfo, s: Seq<u8>, o: int) -> bool {
    &&& p.price == i64_at(s, o)
    &&& p.conf == u64_at(s, o + 8)
    &&& p.status == status_of(u32_at(s, o + 16))
    &&& p.corp_act == CorpAction::NoCorpAct
    &&& p.pub_slot == u64_at(s, o + 24)
}

/// `c` is the `PriceComp` encoded in `s` at `o`.
pub open spec fn comp_at(c: PriceComp, s: Seq<u8>, o: int) -> bool {
    &&& key_at(c.publisher, s, o)
    &&& info_at(c.agg, s, o + 32)
    &&& info_at(c.latest, s, o + 64)
}

/// Offset of the `i`-th component in a price account.
pub open spec fn comp_offset(i: int) -> int {
    240 + 96 * i
}

/// `p` is the price record encoded at the start of `s`.
pub open spec fn price_at(p: Price, s: Seq<u8>) -> bool {
    &&& p.magic == u32_at(s, 0)
    &&& p.ver == u32_at(s, 4)
    &&& p.atype == u32_at(s, 8)
    &&& p.size == u32_at(s, 12)
    &&& p.ptype == price_type_of(u32_at(s, 16))
    &&& p.expo == i32_at(s, 20)
    &&& p.num == u32_at(s, 24)
    &&& p.unused == u32_at(s, 28)
    &&& p.curr_slot == u64_at(s, 32)
    &&& p.valid_slot == u64_at(s, 40)
    &&& p.twap == i64_at(s, 48)
    &&& p.avol == u64_at(s, 56)
    &&& p.drv0 == i64_at(s, 64)
    &&& p.drv1 == i64_at(s, 72)
    &&& p.drv2 == i64_at(s, 80)
    &&& p.drv3 == i64_at(s, 88)
    &&& p.drv4 == i64_at(s, 96)
    &&& p.drv5 == i64_at(s, 104)
    &&& key_at(p.prod, s, 112)
    &&& key_at(p.next, s, 144)
    &&& key_at(p.agg_pub, s, 176)
    &&& info_at(p.agg, s, 208)
    &&& forall|i: int| 0 <= i < 32 ==> comp_at(#[trigger] p.comp@[i], s, comp_offset(i))
}

/// `p` is the product record encoded at the start of `s`.
pub open spec fn product_at(p: Product, s: Seq<u8>) -> bool {
    &&& p.magic == u32_at(s, 0)
    &&& p.ver == u32_at(s, 4)
    &&& p.atype == u32_at(s, 8)
    &&& p.size == u32_at(s, 12)
    &&& key_at(p.px_acc, s, 16)
    &&& p.attr@ == s.subrange(48, 512)
}

/// Offset of the `i`-th product key in a mapping account.
pub open spec fn slot_offset(i: int) -> int {
    56 + 32 * i
}

/// `m` is the mapping record encoded at the start of `s`.
pub open spec fn mapping_at(m: Mapping, s: Seq<u8>) -> bool {
    &&& m.magic == u32_at(s, 0)
    &&& m.ver == u32_at(s, 4)
    &&& m.atype == u32_at(s, 8)
    &&& m.size == u32_at(s, 12)
    &&& m.num == u32_at(s, 16)
    &&& m.unused == u32_at(s, 20)
    &&& key_at(m.next, s, 24)
    &&& forall|i: int| 0 <= i < 640 ==> key_at(#[trigger] m.products@[i], s, slot_offset(i))
}

fn read_u32(s: &[u8], o: usize) -> (r: u32)
    requires
        o + 4 <= s@.len(),
        o + 4 <= usize::MAX,
    ensures
        r == u32_at(s@, o as int),
{
    let v = read_le(s, o, 4);
    proof {
        lemma_le_bound(s@, o as int, 4);
        lemma_pow256_values();
    }
    v as u32
}

fn read_u64(s: &[u8], o: usize) -> (r: u64)
    requires
        o + 8 <= s@.len(),
        o + 8 <= usize::MAX,
    ensures
        r == u64_at(s@, o as int),
{
    let v = read_le(s, o, 8);
    proof {
        lemma_le_bound(s@, o as int, 8);
        lemma_pow256_values();
    }
    v
}

fn read_i64(s: &[u8], o: usize) -> (r: i64)
    requires
        o + 8 <= s@.len(),
        o + 8 <= usize::MAX,
    ensures
        r == i64_at(s@, o as int),
{
    read_u64(s, o) as i64
}

fn read_key(s: &[u8], o: usize) -> (r: AccKey)
    requires
        o + 32 <= s@.len(),
        o + 32 <= usize::MAX,
    ensures
        key_at(r, s@, o as int),
{
    let mut val = [0u8; 32];
    let mut i: usize = 0;
    while i < KEY_SIZE
        invariant
            i <= 32,
            o + 32 <= s@.len(),
            o + 32 <= usize::MAX,
            forall|j: int| 0 <= j < i ==> val@[j] == s@[o + j],
        decreases 32 - i,
    {
        val[i] = s[o + i];
        i = i + 1;
    }
    assert(val@ =~= s@.subrange(o as int, o + 32));
    AccKey { val }
}

fn read_status(v: u32) -> (r: PriceStatus)
    ensures
        r == status_of(v),
{
    if v == 1 {
        PriceStatus::Trading
    } else if v == 2 {
        PriceStatus::Halted
    } else if v == 3 {
        PriceStatus::Auction
    } else {
        PriceStatus::Unknown
    }
}

fn read_price_type(v: u32) -> (r: PriceType)
    ensures
        r == price_type_of(v),
{
    if v == 1 {
        PriceType::Price
    } else if v == 2 {
        PriceType::TWAP
    } else if v == 3 {
        PriceType::Volatility
    } else {
        PriceType::Unknown
    }
}

fn read_info(s: &[u8], o: usize) -> (r: PriceInfo)
    requires
        o + 32 <= s@.len(),
        o + 32 <= usize::MAX,
    ensures
        info_at(r, s@, o as int),
{
    PriceInfo {
        price: read_i64(s, o),
        conf: read_u64(s, o + 8),
        status: read_status(read_u32(s, o + 16)),
        corp_act: CorpAction::NoCorpAct,
        pub_slot: read_u64(s, o + 24),
    }
}

fn read_comp(s: &[u8], o: usize) -> (r: PriceComp)
    requires
        o + 96 <= s@.len(),
        o + 96 <= usize::MAX,
    ensures
        comp_at(r, s@, o as int),
{
    PriceComp { publisher: read_key(s, o), agg: read_info(s, o + 32), latest: read_info(s, o + 64) }
}

impl Price {
    /// Decodes a price account from the start of `data`.
    pub fn load(data: &[u8]) -> (r: Result<Price, PythError>)
        ensures
            match r {
                Ok(p) => data@.len() >= PRICE_SIZE && price_at(p, data@),
                Err(e) => data@.len() < PRICE_SIZE && e == PythError::SizeMismatch,
            },
    {
        if data.len() < PRICE_SIZE {
            return Err(PythError::SizeMismatch);
        }
        let blank = PriceInfo {
            price: 0,
            conf: 0,
            status: PriceStatus::Trading,
            corp_act: CorpAction::NoCorpAct,
            pub_slot: 0,
        };
        let mut comp = [PriceComp { publisher: AccKey { val: [0u8; 32] }, agg: blank, latest: blank }; 32];
        let mut i: usize = 0;
        while i < PRICE_COMPS
            invariant
                i <= 32,
                data@.len() >= PRICE_SIZE,
                forall|j: int| 0 <= j < i ==> comp_at(#[trigger] comp@[j], data@, comp_offset(j)),
            decreases 32 - i,
        {
            comp[i] = read_comp(data, 240 + 96 * i);
            i = i + 1;
        }
        Ok(Price {
            magic: read_u32(data, 0),
            ver: read_u32(data, 4),
            atype: read_u32(data, 8),
            size: read_u32(data, 12),
            ptype: read_price_type(read_u32(data, 16)),
            expo: read_u32(data, 20) as i32,
            num: read_u32(data, 24),
            unused: read_u32(data, 28),
            curr_slot: read_u64(data, 32),
            valid_slot: read_u64(data, 40),
            twap: read_i64(data, 48),
            avol: read_u64(data, 56),
            drv0: read_i64(data, 64),
            drv1: read_i64(data, 72),
            drv2: read_i64(data, 80),
            drv3: read_i64(data, 88),
            drv4: read_i64(data, 96),
            drv5: read_i64(data, 104),
            prod: read_key(data, 112),
            next: read_key(data, 144),
            agg_pub: read_key(data, 176),
            agg: read_info(data, 208),
            comp,
        })
    }
}

impl Product {
    /// Decodes a product account from the start of `data`.
    pub fn load(data: &[u8]) -> (r: Result<Product, PythError>)
        ensures
            match r {
                Ok(p) => data@.len() >= PRODUCT_SIZE && product_at(p, data@),
                Err(e) => data@.len() < PRODUCT_SIZE && e == PythError::SizeMismatch,
            },
    {
        if data.len() < PRODUCT_SIZE {
            return Err(PythError::SizeMismatch);
        }
        let mut attr = [0u8; PROD_ATTR_SIZE];
        let mut i: usize = 0;
        while i < PROD_ATTR_SIZE
            invariant
                i <= 464,
                data@.len() >= PRODUCT_SIZE,
                forall|j: int| 0 <= j < i ==> attr@[j] == data@[48 + j],
            decreases 464 - i,
        {
            attr[i] = data[PROD_HDR_SIZE + i];
            i = i + 1;
        }
        assert(attr@ =~= data@.subrange(48, 512));
        Ok(Product {
            magic: read_u32(data, 0),
            ver: read_u32(data, 4),
            atype: read_u32(data, 8),
            size: read_u32(data, 12),
            px_acc: read_key(data, 16),
            attr,
        })
    }
}

impl Mapping {
    /// Decodes a mapping account from the start of `data`.
    pub fn load(data: &[u8]) -> (r: Result<Mapping, PythError>)
        ensures
            match r {
                Ok(m) => data@.len() >= MAPPING_SIZE && mapping_at(m, data@),
                Err(e) => data@.len() < MAPPING_SIZE && e == PythError::SizeMismatch,
            },
    {
        if data.len() < MAPPING_SIZE {
            return Err(PythError::SizeMismatch);
        }
        let mut products = [AccKey { val: [0u8; 32] }; MAP_TABLE_SIZE];
        let mut i: usize = 0;
        while i < MAP_TABLE_SIZE
            invariant
                i <= 640,
                data@.len() >= MAPPING_SIZE,
                forall|j: int|
                    0 <= j < i ==> key_at(#[trigger] products@[j], data@, slot_offset(j)),
            decreases 640 - i,
        {
            products[i] = read_key(data, 56 + 32 * i);
            i = i + 1;
        }
        Ok(Mapping {
            magic: read_u32(data, 0),
            ver: read_u32(data, 4),
            atype: read_u32(data, 8),
            size: read_u32(data, 12),
            num: read_u32(data, 16),
            unused: read_u32(data, 20),
            next: read_key(data, 24),
            products,
        })
    }
}

} // verus!
