use ivec::buffer::{IVec, Kind};

#[test]
fn ivec_usage() {
    let iv1 = IVec::from(vec![1, 2, 3]);
    assert_eq!(iv1, vec![1, 2, 3]);
    let iv2 = IVec::from(&[4; 128][..]);
    assert_eq!(iv2, vec![4; 128]);
}

#[test]
fn boxed_slice_conversion() {
    let boite1: Box<[u8]> = Box::new([1, 2, 3]);
    let iv1: IVec = boite1.into();
    assert_eq!(iv1, vec![1, 2, 3]);
    let boite2: Box<[u8]> = Box::new([4; 128]);
    let iv2: IVec = boite2.into();
    assert_eq!(iv2, vec![4; 128]);
}

#[test]
#[should_panic]
fn subslice_usage_00() {
    let iv1 = IVec::from(vec![1, 2, 3]);
    let _subslice = iv1.checked_subslice(0, 4).unwrap();
}

#[test]
#[should_panic]
fn subslice_usage_01() {
    let iv1 = IVec::from(vec![1, 2, 3]);
    let _subslice = iv1.checked_subslice(3, 1).unwrap();
}

#[test]
fn ivec_as_mut_identity() {
    let initial = &[1];
    let mut iv = IVec::from(initial);
    assert_eq!(&*initial, &*iv);
    assert_eq!(&*initial, &mut *iv);
    assert_eq!(&*initial, iv.as_mut());
}

#[test]
fn ivec_alignment() {
    let iv1 = IVec::from(
        (0..2_u64)
            .into_iter()
            .map(u64::to_be_bytes)
            .flat_map(|b| b.to_vec().into_iter())
            .collect::<Vec<u8>>(),
    );
    let kind = match iv1.kind() {
        Kind::Inline => "inline",
        Kind::Remote => "remote",
        Kind::Subslice => "subslice",
    };
    assert_eq!(iv1.as_ptr() as usize % 8, 0, "{kind}");
}
