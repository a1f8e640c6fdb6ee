use vstd::prelude::*;

use crate::pc::{
    header_check, key_valid, validate_header, AccKey, AccountType, Mapping, Price, Product, PythError,
    ACCOUNT_TYPE_MAPPING, ACCOUNT_TYPE_PRICE, ACCOUNT_TYPE_PRODUCT, MAGIC, VERSION,
};

verus! {

/// Outcome of checking a product against the key of the price account supplied
/// with it: the product's header first, then its price key's validity, then
/// that this key is the supplied one.
pub open spec fn pair_check(product: Product, price_key: AccKey) -> Result<(), PythError> {
    match header_check(product.magic, product.atype, product.ver, ACCOUNT_TYPE_PRODUCT) {
        Err(e) => Err(e),
        Ok(_) => if !key_valid(product.px_acc) {
            Err(PythError::InvalidKey)
        } else if product.px_acc.val@ != price_key.val@ {
            Err(PythError::KeyMismatch)
        } else {
            Ok(())
        },
    }
}

impl Price {
    /// Checks magic, account type and version of a price record.
    pub fn validate(&self) -> (r: Result<(), PythError>)
        ensures
            r == header_check(self.magic, self.atype, self.ver, ACCOUNT_TYPE_PRICE),
    {
        validate_header(self.magic, self.atype, self.ver, AccountType::Price.tag())
    }
}

impl Product {
    /// Checks magic, account type and version of a product record.
    pub fn validate(&self) -> (r: Result<(), PythError>)
        ensures
            r == header_check(self.magic, self.atype, self.ver, ACCOUNT_TYPE_PRODUCT),
    {
        validate_header(self.magic, self.atype, self.ver, AccountType::Product.tag())
    }
}

impl Mapping {
    /// Checks magic, account type and version of a mapping record.
    pub fn validate(&self) -> (r: Result<(), PythError>)
        ensures
            r == header_check(self.magic, self.atype, self.ver, ACCOUNT_TYPE_MAPPING),
    {
        validate_header(self.magic, self.atype, self.ver, AccountType::Mapping.tag())
    }
}

/// Checks that `product` is a well-formed product record whose price account
/// is the one whose key is `price_key`.
pub fn validate_product_price_pair(product: &Product, price_key: &AccKey) -> (r: Result<
    (),
    PythError,
>)
    ensures
        r == pair_check(*product, *price_key),
{
    let header = product.validate();
    if header.is_err() {
        return header;
    }
    if !product.px_acc.is_valid() {
        return Err(PythError::InvalidKey);
    }
    if !product.px_acc.same_as(price_key) {
        return Err(PythError::KeyMismatch);
    }
    Ok(())
}

/// A record whose magic is wrong is rejected for that reason, whatever else it holds.
pub proof fn lemma_bad_magic_rejected(magic: u32, atype: u32, ver: u32, expected: u32)
    requires
        magic != MAGIC,
    ensures
        header_check(magic, atype, ver, expected) == Err::<(), PythError>(PythError::InvalidMagic),
{
}

/// A record with the right magic but another account type than expected is
/// rejected for its account type, whatever its version.
pub proof fn lemma_wrong_type_rejected(magic: u32, atype: u32, ver: u32, expected: u32)
    requires
        magic == MAGIC,
        atype != expected,
    ensures
        header_check(magic, atype, ver, expected) == Err::<(), PythError>(
            PythError::WrongAccountType,
        ),
{
}

/// A key of 32 zero bytes is invalid, and a key with any byte not zero is valid.
pub proof fn lemma_key_validity(k: AccKey)
    ensures
        (forall|i: int| 0 <= i < 32 ==> k.val@[i] == 0) ==> !key_valid(k),
        forall|i: int| 0 <= i < 32 && k.val@[i] != 0 ==> key_valid(k),
{
}

/// A product and a price key pass the pair check exactly when the product's
/// magic, type and version are right, its price key is valid, and that key is
/// byte for byte the supplied one.
pub proof fn lemma_pair_ok_iff(product: Product, price_key: AccKey)
    ensures
        pair_check(product, price_key) is Ok <==> {
            &&& product.magic == MAGIC
            &&& product.atype == ACCOUNT_TYPE_PRODUCT
            &&& product.ver == VERSION
            &&& key_valid(product.px_acc)
            &&& product.px_acc.val@ == price_key.val@
        },
{
}

} // verus!
