use ivec::buffer::{IVec, Kind};
use std::sync::Arc;

fn counting(n: usize) -> Vec<u8> {
    (0..n).map(|i| (i % 251) as u8).collect()
}

fn samples() -> Vec<IVec> {
    let long = IVec::from(counting(64));
    vec![
        IVec::default(),
        IVec::from(vec![1, 2, 3]),
        IVec::from(counting(22)),
        IVec::from(counting(23)),
        long.subslice(0, 64),
        long.subslice(7, 9),
        long.subslice(64, 0),
        long,
    ]
}

#[test]
fn clone_equals_its_source() {
    for v in samples() {
        let c = v.clone();
        assert_eq!(c, v);
        assert_eq!(c.kind(), v.kind());
        assert_eq!(c.as_ref(), v.as_ref());
    }
}

#[test]
fn as_mut_shows_the_same_bytes() {
    for v in samples() {
        let mut c = v.clone();
        assert_eq!(c, v);
        assert_eq!(*v, *c);
        assert_eq!(&*v, c.as_mut());
        assert_eq!(c, v);
    }
}

#[test]
fn writing_to_a_clone_leaves_its_source() {
    for v in samples() {
        let before = v.to_vec();
        let mut c = v.clone();
        for b in c.as_mut().iter_mut() {
            *b = b.wrapping_add(1);
        }
        assert_eq!(v, before);
        let after: Vec<u8> = before.iter().map(|b| b.wrapping_add(1)).collect();
        assert_eq!(c, after);
    }
}

#[test]
fn writing_to_the_source_leaves_a_clone() {
    for v in samples() {
        let mut v = v;
        let before = v.to_vec();
        let c = v.clone();
        for b in v.iter_mut() {
            *b = !*b;
        }
        assert_eq!(c, before);
        let after: Vec<u8> = before.iter().map(|b| !*b).collect();
        assert_eq!(v, after);
    }
}

#[test]
fn writing_to_a_window_leaves_the_rest_of_the_buffer() {
    let v = IVec::from(counting(64));
    let mut w = v.subslice(10, 5);
    w.as_mut()[2] = 200;
    assert_eq!(w, vec![10, 11, 200, 13, 14]);
    assert_eq!(v, counting(64));
    assert_eq!(v.subslice(10, 5), vec![10, 11, 12, 13, 14]);
}

#[test]
fn a_shared_window_becomes_remote_when_written() {
    let v = IVec::from(counting(64));
    let mut w = v.subslice(10, 5);
    assert_eq!(w.kind(), Kind::Subslice);
    w.as_mut()[0] = 99;
    assert_eq!(w.kind(), Kind::Remote);
    assert_eq!(w, vec![99, 11, 12, 13, 14]);
    let whole: Arc<[u8]> = w.into();
    assert_eq!(whole.len(), 5);
}

#[test]
fn a_window_alone_is_written_in_place() {
    let arc: Arc<[u8]> = Arc::from(counting(64));
    let v = IVec::from(arc);
    let mut w = v.subslice(10, 5);
    drop(v);
    w.as_mut()[4] = 77;
    assert_eq!(w.kind(), Kind::Subslice);
    assert_eq!(w, vec![10, 11, 12, 13, 77]);
    let sub = w.subslice(3, 2);
    assert_eq!(sub, vec![13, 77]);
    w.as_mut()[0] = 1;
    assert_eq!(w.kind(), Kind::Remote);
    assert_eq!(w, vec![1, 11, 12, 13, 77]);
    assert_eq!(sub, vec![13, 77]);
}

#[test]
fn a_shared_remote_is_copied_once() {
    let arc: Arc<[u8]> = Arc::from(counting(64));
    let a = IVec::from(arc.clone());
    let mut b = a.clone();
    assert_eq!(Arc::strong_count(&arc), 3);
    b.as_mut()[0] = 255;
    assert_eq!(b.kind(), Kind::Remote);
    assert_eq!(Arc::strong_count(&arc), 2);
    assert_eq!(a, counting(64));
    assert_eq!(&*arc, &counting(64)[..]);
    let mut expected = counting(64);
    expected[0] = 255;
    assert_eq!(b, expected);
    let own: Arc<[u8]> = b.into();
    assert_eq!(Arc::strong_count(&own), 1);
}

#[test]
fn two_holders_part_on_the_first_write() {
    let a = IVec::from(counting(128));
    let mut b = a.clone();
    let shared: Arc<[u8]> = a.clone().into();
    assert_eq!(Arc::strong_count(&shared), 3);
    b[5] = 0;
    assert_eq!(a, counting(128));
    assert_eq!(Arc::strong_count(&shared), 2);
    drop(a);
    assert_eq!(Arc::strong_count(&shared), 1);
    assert_eq!(b[5], 0);
    assert_eq!(b[6], 6);
}

#[test]
fn a_remote_alone_is_written_in_place() {
    let mut v = IVec::from(counting(64));
    let at = v.as_ptr() as usize;
    v.as_mut()[63] = 0;
    assert_eq!(v.kind(), Kind::Remote);
    assert_eq!(v.as_ptr() as usize, at);
    assert_eq!(v[63], 0);
    assert_eq!(v[62], 62);
}

#[test]
fn inline_is_written_in_place() {
    let mut v = IVec::from(vec![1, 2, 3]);
    v.as_mut()[1] = 20;
    assert_eq!(v.kind(), Kind::Inline);
    assert_eq!(v, vec![1, 20, 3]);
    v[2] = 30;
    assert_eq!(v, vec![1, 20, 30]);
    assert_eq!(v.as_mut().len(), 3);
}

#[test]
fn make_mut_keeps_the_bytes() {
    for v in samples() {
        let before = v.to_vec();
        let keep = v.clone();
        let mut v = v;
        v.make_mut();
        assert_eq!(v, before);
        assert_eq!(keep, before);
    }
}

#[test]
fn make_mut_moves_a_shared_value_out() {
    let a = IVec::from(counting(64));
    let mut w = a.subslice(1, 40);
    w.make_mut();
    assert_eq!(w.kind(), Kind::Remote);
    assert_eq!(w.as_ref(), &counting(64)[1..41]);
    let mut alone = IVec::from(counting(64)).subslice(1, 40);
    alone.make_mut();
    assert_eq!(alone.kind(), Kind::Subslice);
    assert_eq!(alone.as_ref(), &counting(64)[1..41]);
}

#[test]
fn unshare_goes_by_the_count_it_is_given() {
    let long = IVec::from(counting(64));
    let mut w = long.subslice(2, 30);
    w.unshare(1);
    assert_eq!(w.kind(), Kind::Subslice);
    w.unshare(2);
    assert_eq!(w.kind(), Kind::Remote);
    assert_eq!(w.as_ref(), &counting(64)[2..32]);
    let mut r = long.clone();
    r.unshare(1);
    assert_eq!(r.kind(), Kind::Remote);
    r.unshare(7);
    assert_eq!(r.kind(), Kind::Remote);
    assert_eq!(r, counting(64));
    let mut i = IVec::from(vec![1, 2]);
    i.unshare(0);
    assert_eq!(i.kind(), Kind::Inline);
    i.unshare(5);
    assert_eq!(i.kind(), Kind::Inline);
    assert_eq!(i, vec![1, 2]);
}

#[test]
fn detach_takes_only_the_window() {
    let arc: Arc<[u8]> = Arc::from(counting(64));
    let long = IVec::from(arc.clone());
    let mut w = long.subslice(60, 4);
    assert_eq!(Arc::strong_count(&arc), 3);
    w.detach();
    assert_eq!(Arc::strong_count(&arc), 2);
    assert_eq!(w.kind(), Kind::Remote);
    assert_eq!(w, vec![60, 61, 62, 63]);
    let own: Arc<[u8]> = w.into();
    assert_eq!(own.len(), 4);
    let mut i = IVec::from(vec![9]);
    i.detach();
    assert_eq!(i.kind(), Kind::Inline);
    assert_eq!(i, vec![9]);
}
