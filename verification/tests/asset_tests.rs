use arbitrage_monitor::asset::{Address, AssetPair, SwapPath};

fn id(byte: u8) -> Address {
    Address::from_bytes([byte; 20])
}

#[test]
fn address_keeps_its_bytes() {
    let mut bytes = [0u8; 20];
    bytes[0] = 1;
    bytes[19] = 2;
    assert_eq!(Address::from_bytes(bytes).bytes, bytes);
}

#[test]
fn same_as_compares_every_byte() {
    assert!(id(1).same_as(&id(1)));
    assert!(!id(1).same_as(&id(2)));
    let mut first = [7u8; 20];
    let mut last = [7u8; 20];
    first[0] = 8;
    last[19] = 8;
    assert!(!id(7).same_as(&Address::from_bytes(first)));
    assert!(!id(7).same_as(&Address::from_bytes(last)));
}

#[test]
fn pair_of_distinct_assets() {
    let pair = AssetPair::new(id(1), id(2)).unwrap();
    assert_eq!(pair.base(), id(1));
    assert_eq!(pair.quote(), id(2));
}

#[test]
fn no_pair_of_an_asset_with_itself() {
    assert_eq!(AssetPair::new(id(1), id(1)), None);
}

#[test]
fn direct_path_has_two_hops() {
    let path = SwapPath::direct(id(1), id(2));
    assert_eq!(*path.hops(), vec![id(1), id(2)]);
}

#[test]
fn path_needs_two_assets() {
    assert_eq!(SwapPath::new(vec![]), None);
    assert_eq!(SwapPath::new(vec![id(1)]), None);
    assert_eq!(SwapPath::new(vec![id(1), id(2)]), Some(SwapPath::direct(id(1), id(2))));
    let long = SwapPath::new(vec![id(1), id(2), id(3)]).unwrap();
    assert_eq!(*long.hops(), vec![id(1), id(2), id(3)]);
}

#[test]
fn cloned_path_is_the_same_path() {
    let path = SwapPath::new(vec![id(1), id(2), id(3)]).unwrap();
    assert_eq!(path.clone(), path);
}
