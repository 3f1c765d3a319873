use rtls_ctl::range::AddressRange;

fn collect(r: AddressRange) -> Vec<u32> {
    let mut c = r.into_iter();
    let mut out = Vec::new();
    while let Some(a) = c.next() {
        out.push(a);
    }
    out
}

#[test]
fn range_is_inclusive_and_ascending() {
    let start = 0xC0A8_0101u32;
    let end = 0xC0A8_0114u32;
    let r = AddressRange::new(start, end);
    let v = collect(r);
    assert_eq!(v.len() as u32, end - start + 1);
    assert_eq!(r.len(), 20);
    assert_eq!(v[0], start);
    assert_eq!(*v.last().unwrap(), end);
    for w in v.windows(2) {
        assert!(w[0] < w[1]);
    }
}

#[test]
fn range_single_address() {
    assert_eq!(collect(AddressRange::new(7, 7)), vec![7]);
}

#[test]
fn range_reversed_is_empty() {
    let r = AddressRange::new(10, 9);
    assert_eq!(r.len(), 0);
    assert!(r.into_iter().is_empty());
    assert_eq!(collect(r), Vec::<u32>::new());
}

#[test]
fn range_reaches_the_top_address() {
    let v = collect(AddressRange::new(u32::MAX - 2, u32::MAX));
    assert_eq!(v, vec![u32::MAX - 2, u32::MAX - 1, u32::MAX]);
}

#[test]
fn range_is_restartable() {
    let r = AddressRange::new(100, 104);
    assert_eq!(collect(r), collect(r));
}
