use assert_repro::keygen::{
    apply_tag, draw_round_ops, fill_tuple, rand_fill_buffer, random_buffer, thread_rng,
    thread_seed, TAG_FIRST, TAG_SECOND,
};

#[test]
fn tag_overwrites_first_two_bytes() {
    let mut b = [1u8, 2, 3, 4];
    apply_tag(&mut b);
    assert_eq!(b, [b'3', b'f', 3, 4]);
    assert_eq!((TAG_FIRST, TAG_SECOND), (b'3', b'f'));
}

#[test]
fn fill_is_tagged_and_random() {
    let mut rng = thread_rng(42, 0, true);
    let mut b = [0u8; 40];
    rand_fill_buffer(&mut rng, &mut b);
    assert_eq!(&b[..2], b"3f");
    assert!(b[2..].iter().any(|x| *x != 0));
}

#[test]
fn same_seed_gives_same_buffers() {
    let mut a = thread_rng(42, 0, true);
    let mut b = thread_rng(42, 0, true);
    for _ in 0..100 {
        let (mut ka, mut va) = ([0u8; 40], [0u8; 216]);
        let (mut kb, mut vb) = ([0u8; 40], [0u8; 216]);
        fill_tuple(&mut a, &mut ka, &mut va);
        fill_tuple(&mut b, &mut kb, &mut vb);
        assert_eq!(ka, kb);
        assert_eq!(va, vb);
        assert_eq!(draw_round_ops(&mut a, 50000), draw_round_ops(&mut b, 50000));
    }
}

#[test]
fn thread_offset_changes_stream() {
    let mut a = thread_rng(42, 0, true);
    let mut b = thread_rng(42, 1, true);
    assert_ne!(random_buffer(&mut a, 40), random_buffer(&mut b, 40));
    let mut c = thread_rng(42, 0, false);
    let mut d = thread_rng(42, 3, false);
    assert_eq!(random_buffer(&mut c, 40), random_buffer(&mut d, 40));
}

#[test]
fn thread_seed_offsets() {
    assert_eq!(thread_seed(42, 3, true), 45);
    assert_eq!(thread_seed(42, 3, false), 42);
    assert_eq!(thread_seed(u64::MAX, 2, true), 1);
}

#[test]
fn round_ops_within_budget() {
    let mut rng = thread_rng(7, 0, true);
    for _ in 0..1000 {
        let n = draw_round_ops(&mut rng, 200000);
        assert!((50000..200000).contains(&n));
    }
    assert_eq!(draw_round_ops(&mut rng, 1), 0);
}

#[test]
fn random_buffer_has_length() {
    let mut rng = thread_rng(1, 0, true);
    let v = random_buffer(&mut rng, 6);
    assert_eq!(v.len(), 6);
    assert_eq!(&v[..2], b"3f");
}

#[test]
fn fill_ignores_old_contents() {
    let mut a = thread_rng(9, 0, true);
    let mut b = thread_rng(9, 0, true);
    let mut x = [0u8; 40];
    let mut y = [0xffu8; 40];
    rand_fill_buffer(&mut a, &mut x);
    rand_fill_buffer(&mut b, &mut y);
    assert_eq!(x, y);
}

#[test]
fn key_then_value_take_consecutive_draws() {
    let mut a = thread_rng(5, 0, true);
    let mut b = thread_rng(5, 0, true);
    let (mut k, mut v) = ([0u8; 40], [0u8; 216]);
    fill_tuple(&mut a, &mut k, &mut v);
    let mut k2 = [0u8; 40];
    let mut v2 = [0u8; 216];
    rand_fill_buffer(&mut b, &mut k2);
    rand_fill_buffer(&mut b, &mut v2);
    assert_eq!(k, k2);
    assert_eq!(v, v2);
}
