use pyth_indexing::integrity::validate_product_price_pair;
use pyth_indexing::pc::{
    AccKey, AccountType, CorpAction, Mapping, Price, PriceStatus, PriceType, Product, PythError,
    ACCOUNT_TYPE_MAPPING, ACCOUNT_TYPE_PRICE, ACCOUNT_TYPE_PRODUCT, MAGIC, MAPPING_SIZE,
    PRICE_SIZE, PRODUCT_SIZE, VERSION,
};
use pyth_indexing::walker::{enumerate_products, load_window_products, AccountData, DEFAULT_WINDOW};

fn put_u32(b: &mut Vec<u8>, o: usize, v: u32) {
    b[o..o + 4].copy_from_slice(&v.to_le_bytes());
}

fn put_u64(b: &mut Vec<u8>, o: usize, v: u64) {
    b[o..o + 8].copy_from_slice(&v.to_le_bytes());
}

fn put_key(b: &mut Vec<u8>, o: usize, k: &[u8; 32]) {
    b[o..o + 32].copy_from_slice(k);
}

fn key_of(first: u8, last: u8) -> [u8; 32] {
    let mut k = [0u8; 32];
    k[0] = first;
    k[31] = last;
    k
}

fn header(size: usize, atype: u32) -> Vec<u8> {
    let mut b = vec![0u8; size];
    put_u32(&mut b, 0, MAGIC);
    put_u32(&mut b, 4, VERSION);
    put_u32(&mut b, 8, atype);
    put_u32(&mut b, 12, size as u32);
    b
}

fn product_bytes(px: &[u8; 32]) -> Vec<u8> {
    let mut b = header(PRODUCT_SIZE, ACCOUNT_TYPE_PRODUCT);
    put_key(&mut b, 16, px);
    b[48] = b'x';
    b[511] = b'y';
    b
}

fn mapping_bytes(num: u32) -> Vec<u8> {
    let mut b = header(MAPPING_SIZE, ACCOUNT_TYPE_MAPPING);
    put_u32(&mut b, 16, num);
    put_key(&mut b, 24, &key_of(0xee, 0));
    for i in 0..640usize {
        put_key(&mut b, 56 + 32 * i, &key_of((i % 256) as u8, (i / 256) as u8 + 1));
    }
    b
}

#[test]
fn short_buffers_are_size_mismatch() {
    assert_eq!(Price::load(&vec![0u8; PRICE_SIZE - 1]).err(), Some(PythError::SizeMismatch));
    assert_eq!(Product::load(&vec![0u8; PRODUCT_SIZE - 1]).err(), Some(PythError::SizeMismatch));
    assert_eq!(Mapping::load(&vec![0u8; MAPPING_SIZE - 1]).err(), Some(PythError::SizeMismatch));
    assert_eq!(Price::load(&[]).err(), Some(PythError::SizeMismatch));
}

#[test]
fn exact_and_longer_buffers_decode() {
    assert!(Price::load(&vec![0u8; PRICE_SIZE]).is_ok());
    assert!(Product::load(&vec![0u8; PRODUCT_SIZE + 7]).is_ok());
    assert!(Mapping::load(&vec![0u8; MAPPING_SIZE]).is_ok());
}

#[test]
fn price_fields_decode_at_their_offsets() {
    let mut b = header(PRICE_SIZE, ACCOUNT_TYPE_PRICE);
    put_u32(&mut b, 16, 2);
    put_u32(&mut b, 20, (-8i32) as u32);
    put_u32(&mut b, 24, 3);
    put_u64(&mut b, 32, 1_000_001);
    put_u64(&mut b, 48, (-5i64) as u64);
    put_u64(&mut b, 104, 77);
    put_key(&mut b, 112, &key_of(1, 2));
    put_key(&mut b, 144, &key_of(3, 4));
    put_u64(&mut b, 208, 4_200_000_000);
    put_u64(&mut b, 216, 1234);
    put_u32(&mut b, 224, 2);
    put_u64(&mut b, 232, 99);
    put_key(&mut b, 240 + 96 * 31, &key_of(9, 9));
    put_u64(&mut b, 240 + 96 * 31 + 64, 0x0102_0304_0506_0708);
    let p = Price::load(&b).unwrap();
    assert_eq!(p.magic, MAGIC);
    assert_eq!(p.ver, VERSION);
    assert_eq!(p.atype, ACCOUNT_TYPE_PRICE);
    assert_eq!(p.size, PRICE_SIZE as u32);
    assert_eq!(p.ptype, PriceType::TWAP);
    assert_eq!(p.expo, -8);
    assert_eq!(p.num, 3);
    assert_eq!(p.curr_slot, 1_000_001);
    assert_eq!(p.twap, -5);
    assert_eq!(p.drv5, 77);
    assert_eq!(p.prod.val, key_of(1, 2));
    assert_eq!(p.next.val, key_of(3, 4));
    assert_eq!(p.agg.price, 4_200_000_000);
    assert_eq!(p.agg.conf, 1234);
    assert_eq!(p.agg.status, PriceStatus::Halted);
    assert_eq!(p.agg.corp_act, CorpAction::NoCorpAct);
    assert_eq!(p.agg.pub_slot, 99);
    assert_eq!(p.comp[31].publisher.val, key_of(9, 9));
    assert_eq!(p.comp[31].latest.price, 0x0102_0304_0506_0708);
    assert_eq!(p.comp[0].agg.status, PriceStatus::Unknown);
    assert_eq!(p.validate(), Ok(()));
}

#[test]
fn out_of_range_enum_values_read_as_unknown() {
    let mut b = header(PRICE_SIZE, ACCOUNT_TYPE_PRICE);
    put_u32(&mut b, 16, 9);
    put_u32(&mut b, 224, 4);
    let p = Price::load(&b).unwrap();
    assert_eq!(p.ptype, PriceType::Unknown);
    assert_eq!(p.agg.status, PriceStatus::Unknown);
}

#[test]
fn product_decodes_key_and_attributes() {
    let p = Product::load(&product_bytes(&key_of(5, 6))).unwrap();
    assert_eq!(p.px_acc.val, key_of(5, 6));
    assert_eq!(p.attr.len(), 464);
    assert_eq!(p.attr[0], b'x');
    assert_eq!(p.attr[463], b'y');
    assert_eq!(p.validate(), Ok(()));
}

#[test]
fn mapping_decodes_slots() {
    let m = Mapping::load(&mapping_bytes(5)).unwrap();
    assert_eq!(m.num, 5);
    assert_eq!(m.next.val, key_of(0xee, 0));
    assert_eq!(m.products[0].val, key_of(0, 1));
    assert_eq!(m.products[639].val, key_of(127, 3));
    assert_eq!(m.validate(), Ok(()));
}

#[test]
fn bad_magic_is_rejected_whatever_else() {
    for atype in [0u32, 1, 2, 3, 7] {
        for ver in [0u32, 2, 5] {
            let mut b = header(PRICE_SIZE, atype);
            put_u32(&mut b, 0, 0xdead_beef);
            put_u32(&mut b, 4, ver);
            assert_eq!(Price::load(&b).unwrap().validate(), Err(PythError::InvalidMagic));
        }
    }
    let mut b = product_bytes(&key_of(1, 1));
    put_u32(&mut b, 0, 0);
    assert_eq!(Product::load(&b).unwrap().validate(), Err(PythError::InvalidMagic));
}

#[test]
fn wrong_account_type_is_rejected() {
    let b = header(PRICE_SIZE, ACCOUNT_TYPE_PRODUCT);
    assert_eq!(Price::load(&b).unwrap().validate(), Err(PythError::WrongAccountType));
    let mut m = mapping_bytes(1);
    put_u32(&mut m, 8, ACCOUNT_TYPE_PRICE);
    put_u32(&mut m, 4, 9);
    assert_eq!(Mapping::load(&m).unwrap().validate(), Err(PythError::WrongAccountType));
}

#[test]
fn wrong_version_is_rejected() {
    let mut b = header(PRICE_SIZE, ACCOUNT_TYPE_PRICE);
    put_u32(&mut b, 4, 1);
    assert_eq!(Price::load(&b).unwrap().validate(), Err(PythError::VersionMismatch));
}

#[test]
fn key_validity_is_not_all_zero() {
    assert!(!AccKey { val: [0u8; 32] }.is_valid());
    for i in 0..32 {
        let mut val = [0u8; 32];
        val[i] = 1;
        assert!(AccKey { val }.is_valid());
        val[i] = 0x80;
        assert!(AccKey { val }.is_valid());
    }
    assert!(AccKey { val: [0xff; 32] }.is_valid());
}

#[test]
fn same_as_compares_every_byte() {
    let a = AccKey { val: key_of(1, 2) };
    assert!(a.same_as(&AccKey { val: key_of(1, 2) }));
    assert!(!a.same_as(&AccKey { val: key_of(1, 3) }));
}

#[test]
fn account_type_tags() {
    assert_eq!(AccountType::Unknown.tag(), 0);
    assert_eq!(AccountType::Mapping.tag(), 1);
    assert_eq!(AccountType::Product.tag(), 2);
    assert_eq!(AccountType::Price.tag(), 3);
}

#[test]
fn pair_succeeds_on_matching_key() {
    let p = Product::load(&product_bytes(&key_of(4, 2))).unwrap();
    assert_eq!(validate_product_price_pair(&p, &AccKey { val: key_of(4, 2) }), Ok(()));
}

#[test]
fn pair_rejects_mismatched_key() {
    let p = Product::load(&product_bytes(&key_of(4, 2))).unwrap();
    assert_eq!(
        validate_product_price_pair(&p, &AccKey { val: key_of(4, 3) }),
        Err(PythError::KeyMismatch)
    );
}

#[test]
fn pair_rejects_zero_key() {
    let p = Product::load(&product_bytes(&[0u8; 32])).unwrap();
    assert_eq!(
        validate_product_price_pair(&p, &AccKey { val: [0u8; 32] }),
        Err(PythError::InvalidKey)
    );
}

#[test]
fn pair_checks_header_first() {
    let mut b = product_bytes(&[0u8; 32]);
    put_u32(&mut b, 8, ACCOUNT_TYPE_PRICE);
    let p = Product::load(&b).unwrap();
    assert_eq!(
        validate_product_price_pair(&p, &AccKey { val: key_of(1, 1) }),
        Err(PythError::WrongAccountType)
    );
    put_u32(&mut b, 0, 1);
    let p = Product::load(&b).unwrap();
    assert_eq!(
        validate_product_price_pair(&p, &AccKey { val: key_of(1, 1) }),
        Err(PythError::InvalidMagic)
    );
    let mut b = product_bytes(&key_of(1, 1));
    put_u32(&mut b, 4, 3);
    let p = Product::load(&b).unwrap();
    assert_eq!(
        validate_product_price_pair(&p, &AccKey { val: key_of(1, 1) }),
        Err(PythError::VersionMismatch)
    );
}

#[test]
fn enumerate_empty_mapping() {
    let m = Mapping::load(&mapping_bytes(0)).unwrap();
    assert!(enumerate_products(&m, 10).is_empty());
    assert!(!m.has_more(10));
}

#[test]
fn enumerate_truncates_to_window() {
    let m = Mapping::load(&mapping_bytes(25)).unwrap();
    let keys = enumerate_products(&m, 10);
    assert_eq!(keys.len(), 10);
    for (i, k) in keys.iter().enumerate() {
        assert_eq!(k.val, key_of(i as u8, 1));
    }
    assert!(m.has_more(10));
    assert_eq!(m.occupied(), 25);
}

#[test]
fn enumerate_stops_at_declared_count() {
    let m = Mapping::load(&mapping_bytes(3)).unwrap();
    let keys = enumerate_products(&m, 10);
    assert_eq!(keys.len(), 3);
    assert_eq!(keys[2].val, key_of(2, 1));
}

#[test]
fn enumerate_caps_count_at_table_size() {
    let m = Mapping::load(&mapping_bytes(5000)).unwrap();
    assert_eq!(m.occupied(), 640);
    assert_eq!(enumerate_products(&m, 1000).len(), 640);
    assert_eq!(enumerate_products(&m, 640).len(), 640);
    assert!(!m.has_more(640));
}

#[test]
fn agg_price_write_is_seen_by_next_decode() {
    let mut b = header(PRICE_SIZE, ACCOUNT_TYPE_PRICE);
    put_u64(&mut b, 208, 100);
    put_u64(&mut b, 216, 7);
    let before = Price::load(&b).unwrap();
    assert_eq!(before.agg.price, 100);
    assert_eq!(Price::set_agg_price(&mut b, -123_456_789), Ok(()));
    assert_eq!(&b[208..216], &(-123_456_789i64).to_le_bytes());
    let after = Price::load(&b).unwrap();
    assert_eq!(after.agg.price, -123_456_789);
    assert_eq!(after.agg.conf, 7);
    assert_eq!(after.magic, MAGIC);
}

#[test]
fn agg_price_write_on_short_buffer() {
    let mut b = vec![1u8; 100];
    assert_eq!(Price::set_agg_price(&mut b, 5), Err(PythError::SizeMismatch));
    assert_eq!(b, vec![1u8; 100]);
}

#[test]
fn enum_defaults() {
    assert_eq!(PriceStatus::default(), PriceStatus::Trading);
    assert_eq!(PriceType::default(), PriceType::Price);
    assert_eq!(CorpAction::default(), CorpAction::NoCorpAct);
}

fn slot_accounts(n: usize) -> Vec<AccountData> {
    (0..n)
        .map(|i| AccountData {
            key: AccKey { val: key_of((i % 256) as u8, (i / 256) as u8 + 1) },
            data: product_bytes(&key_of(i as u8, 0xaa)),
        })
        .collect()
}

#[test]
fn window_products_load_in_slot_order() {
    let m = Mapping::load(&mapping_bytes(25)).unwrap();
    let accounts = slot_accounts(DEFAULT_WINDOW);
    let ps = load_window_products(&m, DEFAULT_WINDOW, &accounts).unwrap();
    assert_eq!(ps.len(), 10);
    assert_eq!(ps[0].px_acc.val, key_of(0, 0xaa));
    assert_eq!(ps[9].px_acc.val, key_of(9, 0xaa));
}

#[test]
fn window_products_stop_at_first_failure() {
    let m = Mapping::load(&mapping_bytes(25)).unwrap();
    let mut accounts = slot_accounts(DEFAULT_WINDOW);
    accounts[6].data.truncate(100);
    put_u32(&mut accounts[4].data, 0, 1);
    assert_eq!(load_window_products(&m, DEFAULT_WINDOW, &accounts).err(), Some(PythError::InvalidMagic));
    accounts[4].key = AccKey { val: [7u8; 32] };
    assert_eq!(load_window_products(&m, DEFAULT_WINDOW, &accounts).err(), Some(PythError::KeyMismatch));
    let accounts = {
        let mut a = slot_accounts(DEFAULT_WINDOW);
        a[6].data.truncate(100);
        a
    };
    assert_eq!(load_window_products(&m, DEFAULT_WINDOW, &accounts).err(), Some(PythError::SizeMismatch));
    assert_eq!(load_window_products(&m, 6, &accounts).map(|p| p.len()).ok(), Some(6));
}

#[test]
fn window_products_of_empty_mapping() {
    let m = Mapping::load(&mapping_bytes(0)).unwrap();
    assert_eq!(load_window_products(&m, DEFAULT_WINDOW, &Vec::new()).map(|p| p.len()).ok(), Some(0));
}
