use embedded_usb_host::address::{AddressPool, DevAddress};

#[test]
fn take_one() {
    let mut pool = AddressPool::new();
    assert_eq!(1u8, u8::from(pool.take_next().unwrap()))
}

#[test]
fn take_all() {
    let mut pool = AddressPool::new();
    for i in 1u8..=127 {
        assert_eq!(i, u8::from(pool.take_next().unwrap()));
    }
    assert_eq!(None, pool.take_next())
}

#[test]
fn put_back_frees_the_lowest_again() {
    let mut pool = AddressPool::new();
    for _ in 0..5 {
        pool.take_next().unwrap();
    }
    pool.put_back(DevAddress::from_u8(2));
    pool.put_back(DevAddress::from_u8(4));
    assert_eq!(2u8, pool.take_next().unwrap().number());
    assert_eq!(4u8, pool.take_next().unwrap().number());
    assert_eq!(6u8, pool.take_next().unwrap().number());
}

#[test]
fn addresses_are_in_range_and_unique() {
    let mut pool = AddressPool::new();
    let mut seen = [false; 128];
    while let Some(addr) = pool.take_next() {
        let n = addr.number() as usize;
        assert!((1..=127).contains(&n));
        assert!(!seen[n]);
        seen[n] = true;
    }
    assert_eq!(seen.iter().filter(|s| **s).count(), 127);
}

#[test]
fn exhausted_pool_stays_exhausted_until_put_back() {
    let mut pool = AddressPool::new();
    for _ in 0..127 {
        assert!(pool.take_next().is_some());
    }
    assert_eq!(pool.take_next(), None);
    assert_eq!(pool.take_next(), None);
    pool.put_back(DevAddress::from_u8(127));
    assert_eq!(pool.take_next().map(|a| a.number()), Some(127));
    assert_eq!(pool.take_next(), None);
}

#[test]
fn reset_frees_every_address() {
    let mut pool = AddressPool::new();
    for _ in 0..40 {
        pool.take_next().unwrap();
    }
    pool.put_back(DevAddress::from_u8(7));
    pool.reset();
    for i in 1u8..=127 {
        assert_eq!(pool.take_next().unwrap().number(), i);
    }
    assert_eq!(pool.take_next(), None);
}

#[test]
fn put_back_of_a_free_address_or_of_zero_changes_nothing() {
    let mut pool = AddressPool::new();
    pool.put_back(DevAddress::from_u8(0));
    pool.put_back(DevAddress::from_u8(9));
    assert_eq!(pool.take_next().unwrap().number(), 1);
    pool.put_back(DevAddress::from_u8(0));
    assert_eq!(pool.take_next().unwrap().number(), 2);
    pool.put_back(DevAddress::from_u8(1));
    pool.put_back(DevAddress::from_u8(1));
    assert_eq!(pool.take_next().unwrap().number(), 1);
    assert_eq!(pool.take_next().unwrap().number(), 3);
}

#[test]
fn addresses_from_numbers() {
    assert_eq!(DevAddress::checked(127).map(|a| a.number()), Some(127));
    assert_eq!(DevAddress::checked(128), None);
    assert_eq!(DevAddress::checked(0).map(u8::from), Some(0));
    assert_eq!(DevAddress::from_u8(5), DevAddress::from_u8(5));
}
