use dali_tools::address::{Address, Group, Short};
use dali_tools::address_set::AddressSet;

#[test]
fn short_address_test() {
    let a: Short = Short::new(1);
    let b: Address = a.into();
    assert_eq!(b, Short::new(1));
    assert_eq!(b, Address::from_bus_address(0x02).unwrap());

    let a = Short::new(63);
    let b: Address = a.into();
    assert_eq!(b, Short::new(63));
    assert_eq!(b, Address::from_bus_address(0x3f << 1).unwrap());

    let a = Short::try_from(b).unwrap();
    assert_eq!(a, Short::new(63));
}

#[test]
fn group_address_test() {
    let a: Group = Group::new(0);
    let b: Address = a.into();
    assert_eq!(b, Group::new(0));
    assert_eq!(b, Address::from_bus_address(0x80).unwrap());

    let a = Group::from_display_value(16).unwrap();
    let b: Address = a.into();
    assert_eq!(b, Group::new(15));
    assert_eq!(b, Address::from_bus_address(0x9e).unwrap());

    let a = Group::try_from(b).unwrap();
    assert_eq!(a, Group::new(15));
}

#[test]
fn add_test() {
    let a = AddressSet::new();
    let mut b = a + 5;
    assert_eq!(b, AddressSet::from_slice(&[5]));
    b += 9;
    assert_eq!(b, AddressSet::from_slice(&[9, 5]));
}

#[test]
fn sub_test() {
    let a = AddressSet::from_slice(&[4, 7, 6]);
    let mut b = a - 7;
    assert_eq!(b, AddressSet::from_slice(&[6, 4]));
    b -= 6;
    assert_eq!(b, AddressSet::from_slice(&[4]));
}

#[test]
fn range_test() {
    let mut a = AddressSet::from_range(0u8..64u8);
    assert_eq!(a, (0..64).fold(AddressSet::new(), |a, b| a + b));
    a -= 9;
    assert_eq!(a, AddressSet::from_range(0u8..9) + AddressSet::from_range(10u8..64));
    let a = AddressSet::from_range(7u8..63u8);
    assert_eq!(a, (7..63).fold(AddressSet::new(), |a, b| a + b));
    let a = AddressSet::from_range(0u8..0u8);
    assert_eq!(a, AddressSet::new());
}

#[test]
fn address_bytes_and_display_values() {
    assert_eq!(Short::new(5).bus_address(), 10);
    assert_eq!(Short::new(5).display_value(), 6);
    assert_eq!(Group::new(3).bus_address(), 0x86);
    assert_eq!(Group::new(3).display_value(), 4);
    assert_eq!(Short::from_display_value(0), None);
    assert_eq!(Short::from_display_value(65), None);
    assert_eq!(Short::from_display_value(64), Some(Short::new(63)));
    assert_eq!(Group::from_display_value(17), None);
    assert_eq!(Address::from_bus_address(0xff), Some(Address::Broadcast));
    assert_eq!(Address::from_bus_address(0xfd), Some(Address::BroadcastUnaddressed));
    assert_eq!(Address::from_bus_address(0xa1), None);
    assert_eq!(Address::Broadcast.bus_address(), 0xfe);
    assert_eq!(Address::BroadcastUnaddressed.bus_address(), 0xfc);
    assert!(Short::try_from(Address::Broadcast).is_err());
    assert!(Group::try_from(Address::Short(Short::new(2))).is_err());
}

#[test]
fn address_round_trip_on_values() {
    for v in 0..64u8 {
        let a: Address = Short::new(v).into();
        assert_eq!(Address::from_bus_address(a.bus_address()), Some(a));
    }
    for v in 0..16u8 {
        let a: Address = Group::new(v).into();
        assert_eq!(Address::from_bus_address(a.bus_address()), Some(a));
    }
}

#[test]
fn address_set_members() {
    let s = AddressSet::from_slice(&[9, 2, 63, 2]);
    assert_eq!(s.to_vec(), vec![2, 9, 63]);
    assert!(!s.is_empty());
    assert!(AddressSet::new().is_empty());
    assert_eq!(AddressSet::from_range(3u8..6u8).to_vec(), vec![3, 4, 5]);
    assert_eq!(AddressSet::from_range(6u8..3u8), AddressSet::new());
    let t = s - &AddressSet::from_slice(&[9]);
    assert_eq!(t.to_vec(), vec![2, 63]);
    let u = t + &AddressSet::from_slice(&[1]);
    assert_eq!(u.to_vec(), vec![1, 2, 63]);
    let mut w = u;
    w -= AddressSet::from_slice(&[1, 63]);
    assert_eq!(w.to_vec(), vec![2]);
    w += &AddressSet::from_slice(&[7]);
    assert_eq!(w.to_vec(), vec![2, 7]);
    assert_eq!(AddressSet::from_slice(&w.to_vec()), w);
}

#[test]
fn address_set_range_split() {
    let a = AddressSet::from_range(4u8..20u8) - 11;
    assert_eq!(a, AddressSet::from_range(4u8..11u8) + AddressSet::from_range(12u8..20u8));
}
