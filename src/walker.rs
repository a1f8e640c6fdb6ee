use vstd::prelude::*;

use crate::pc::{
    header_check, product_at, u32_at, AccKey, Mapping, Product, PythError, ACCOUNT_TYPE_PRODUCT,
    MAP_TABLE_SIZE, PRODUCT_SIZE,
};

verus! {

/// The window that one bounded call enumerates by default.
pub const DEFAULT_WINDOW: usize = 10;

/// An account handed in by the host: its key and its data.
pub struct AccountData {
    pub key: AccKey,
    pub data: Vec<u8>,
}

/// How many product slots a window of `window_limit` entries covers in a
/// mapping that declares `num` occupied slots: never more than the table holds.
pub open spec fn window_len(num: u32, window_limit: usize) -> int {
    let occupied: int = if num <= 640 {
        num as int
    } else {
        640
    };
    if occupied <= window_limit {
        occupied
    } else {
        window_limit as int
    }
}

/// Number of occupied slots that can be read, `num` capped at the table size.
pub open spec fn occupied(m: Mapping) -> int {
    if m.num <= 640 {
        m.num as int
    } else {
        640
    }
}

impl Mapping {
    /// Number of occupied product slots that can be read.
    pub fn occupied(&self) -> (r: usize)
        ensures
            r == occupied(*self),
    {
        if (self.num as usize) <= MAP_TABLE_SIZE {
            self.num as usize
        } else {
            MAP_TABLE_SIZE
        }
    }

    /// Whether a window of `window_limit` entries leaves occupied slots unread.
    pub fn has_more(&self, window_limit: usize) -> (r: bool)
        ensures
            r == (occupied(*self) > window_limit),
    {
        self.occupied() > window_limit
    }
}

/// The keys of the first occupied product slots of `mapping`, in slot order,
/// at most `window_limit` of them.
pub fn enumerate_products(mapping: &Mapping, window_limit: usize) -> (r: Vec<AccKey>)
    ensures
        r@.len() == window_len(mapping.num, window_limit),
        forall|i: int| 0 <= i < r@.len() ==> #[trigger] r@[i] == mapping.products@[i],
{
    let occupied = mapping.occupied();
    let count = if occupied <= window_limit {
        occupied
    } else {
        window_limit
    };
    let mut r: Vec<AccKey> = Vec::new();
    let mut i: usize = 0;
    while i < count
        invariant
            count == window_len(mapping.num, window_limit),
            count <= 640,
            i <= count,
            r@.len() == i,
            forall|j: int| 0 <= j < i ==> #[trigger] r@[j] == mapping.products@[j],
        decreases count - i,
    {
        r.push(mapping.products[i]);
        i = i + 1;
    }
    r
}

/// An empty mapping yields no keys; a mapping with at least `window_limit`
/// occupied slots yields exactly `window_limit` keys, those of the first slots.
pub proof fn lemma_window_len(num: u32, window_limit: usize)
    ensures
        num == 0 ==> window_len(num, window_limit) == 0,
        num >= window_limit && window_limit <= 640 ==> window_len(num, window_limit)
            == window_limit,
{
}

/// Outcome of loading the account `acc` for product slot `i` of `m`: its key
/// must be the slot's key, its data must hold a product record, and that
/// record's header must be right.
pub open spec fn slot_load_check(m: Mapping, i: int, acc: AccountData) -> Result<(), PythError> {
    if acc.key.val@ != m.products@[i].val@ {
        Err(PythError::KeyMismatch)
    } else if acc.data@.len() < PRODUCT_SIZE {
        Err(PythError::SizeMismatch)
    } else {
        header_check(
            u32_at(acc.data@, 0),
            u32_at(acc.data@, 8),
            u32_at(acc.data@, 4),
            ACCOUNT_TYPE_PRODUCT,
        )
    }
}

/// Loads the products of the occupied slots in the window, in slot order;
/// `accounts[i]` is the account the host found for slot `i`. The first slot
/// whose account fails to load stops the walk with that failure.
pub fn load_window_products(
    mapping: &Mapping,
    window_limit: usize,
    accounts: &Vec<AccountData>,
) -> (r: Result<Vec<Product>, PythError>)
    requires
        accounts@.len() >= window_len(mapping.num, window_limit),
    ensures
        match r {
            Ok(ps) => {
                &&& ps@.len() == window_len(mapping.num, window_limit)
                &&& forall|i: int|
                    0 <= i < ps@.len() ==> slot_load_check(*mapping, i, accounts@[i]) is Ok
                        && product_at(#[trigger] ps@[i], accounts@[i].data@)
            },
            Err(e) => exists|i: int|
                0 <= i < window_len(mapping.num, window_limit) && slot_load_check(
                    *mapping,
                    i,
                    accounts@[i],
                ) == Err::<(), PythError>(e) && forall|j: int|
                    0 <= j < i ==> #[trigger] slot_load_check(*mapping, j, accounts@[j]) is Ok,
        },
{
    let occupied = mapping.occupied();
    let count = if occupied <= window_limit {
        occupied
    } else {
        window_limit
    };
    let mut ps: Vec<Product> = Vec::new();
    let mut i: usize = 0;
    while i < count
        invariant
            count == window_len(mapping.num, window_limit),
            count <= 640,
            count <= accounts@.len(),
            i <= count,
            ps@.len() == i,
            forall|j: int| 0 <= j < i ==> #[trigger] slot_load_check(*mapping, j, accounts@[j]) is Ok,
            forall|j: int| 0 <= j < i ==> product_at(#[trigger] ps@[j], accounts@[j].data@),
        decreases count - i,
    {
        let acc = &accounts[i];
        if !acc.key.same_as(&mapping.products[i]) {
            assert(slot_load_check(*mapping, i as int, accounts@[i as int]) == Err::<(), PythError>(
                PythError::KeyMismatch,
            ));
            return Err(PythError::KeyMismatch);
        }
        let product = match Product::load(acc.data.as_slice()) {
            Ok(p) => p,
            Err(e) => {
                assert(slot_load_check(*mapping, i as int, accounts@[i as int]) == Err::<
                    (),
                    PythError,
                >(e));
                return Err(e);
            },
        };
        let checked = product.validate();
        if let Err(e) = checked {
            assert(slot_load_check(*mapping, i as int, accounts@[i as int]) == Err::<(), PythError>(
                e,
            ));
            return Err(e);
        }
        assert(slot_load_check(*mapping, i as int, accounts@[i as int]) is Ok);
        let ghost old_ps = ps@;
        ps.push(product);
        assert forall|j: int| 0 <= j < i + 1 implies product_at(
            #[trigger] ps@[j],
            accounts@[j].data@,
        ) by {
            if j < i {
                assert(ps@[j] == old_ps[j]);
            }
        }
        i = i + 1;
    }
    Ok(ps)
}

} // verus!
