use tpt_zero_formal::rand::{Pcg32, Rng, SeedableRng, XorShift64};

#[test]
fn xorshift_zero_seed_rejected() {
    let mut rng = XorShift64::from_seed(0);
    assert_ne!(rng.state(), 0);
    assert_ne!(rng.next_u64(), 0);
}

#[test]
fn xorshift_deterministic_stream() {
    let mut rng = XorShift64::from_seed(0x1234_5678_9abc_def0);
    let outs = [rng.next_u64(), rng.next_u64(), rng.next_u64(), rng.next_u64()];
    assert_eq!(
        outs,
        [
            18_338_672_411_873_516_365,
            929_928_003_690_994_747,
            4_746_713_305_112_613_827,
            7_850_530_070_273_504_292,
        ]
    );
}

#[test]
fn xorshift_u32_matches_high_word() {
    let mut rng = XorShift64::from_seed(1);
    let u64_val = rng.next_u64();
    let mut rng2 = XorShift64::from_seed(1);
    let u32_val = rng2.next_u32();
    assert_eq!(u32_val, (u64_val >> 32) as u32);
}

#[test]
fn xorshift_fill_bytes_length() {
    let mut rng = XorShift64::from_seed(7);
    let mut buf = [0u8; 10];
    rng.fill_bytes(&mut buf);
    assert_ne!(buf, [0u8; 10]);
    let mut rng2 = XorShift64::from_seed(7);
    let expected = [rng2.next_u32().to_le_bytes(), rng2.next_u32().to_le_bytes()].concat();
    assert_eq!(&buf[..8], &expected[..]);
}

#[test]
fn pcg_deterministic_stream() {
    let mut rng = Pcg32::seed_from_u64(42);
    let outs = [rng.next_u32(), rng.next_u32(), rng.next_u32()];
    assert_eq!(outs, [1_698_300_867, 3_725_897_186, 2_636_848_158]);
}

#[test]
fn pcg_inc_is_odd() {
    let rng = Pcg32::new(0, 0);
    assert_eq!(rng.increment() & 1, 1);
    let rng = Pcg32::new(0, 4);
    assert_eq!(rng.increment() & 1, 1);
}

#[test]
fn pcg_different_seeds_differ() {
    let mut a = Pcg32::seed_from_u64(1);
    let mut b = Pcg32::seed_from_u64(2);
    assert_ne!(a.next_u32(), b.next_u32());
}

#[test]
fn seed_from_u64_matches_from_seed() {
    let a = XorShift64::seed_from_u64(123);
    let b = XorShift64::from_seed(123);
    assert_eq!(a, b);
    let c = Pcg32::seed_from_u64(123);
    let d = Pcg32::from_seed(123);
    assert_eq!(c, d);
}

#[test]
fn pcg_next_u64_joins_two_words() {
    let mut a = Pcg32::from_seed(9);
    let mut b = Pcg32::from_seed(9);
    let hi = u64::from(b.next_u32());
    let lo = u64::from(b.next_u32());
    assert_eq!(a.next_u64(), (hi << 32) | lo);
    assert_eq!(a, b);
}

#[test]
fn pcg_fill_bytes_matches_words() {
    let mut rng = Pcg32::from_seed(77);
    let mut buf = [0u8; 7];
    rng.fill_bytes(&mut buf);
    let mut rng2 = Pcg32::from_seed(77);
    let w0 = rng2.next_u32().to_le_bytes();
    let w1 = rng2.next_u32().to_le_bytes();
    assert_eq!(&buf[..4], &w0[..]);
    assert_eq!(&buf[4..], &w1[..3]);
    assert_eq!(rng, rng2);
}

#[test]
fn fill_bytes_of_empty_buffer_draws_nothing() {
    let mut rng = XorShift64::new(5);
    let before = rng;
    let mut empty: [u8; 0] = [];
    rng.fill_bytes(&mut empty);
    assert_eq!(rng, before);
}
