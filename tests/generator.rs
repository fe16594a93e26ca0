use mersenne_twister::{MersenneTwister64, SeedError};

fn draw(g: &mut MersenneTwister64, n: usize) -> Vec<u64> {
    (0..n).map(|_| g.next_u64()).collect()
}

#[test]
fn test_array_seed() {
    let mut twister =
        MersenneTwister64::new_from_array_seed(&[0x12345, 0x23456, 0x34567, 0x45678]).unwrap();
    assert_eq!(twister.next_u64(), 7266447313870364031);
    assert_eq!(twister.next_u64(), 4946485549665804864);
}

#[test]
fn test_default_seed() {
    let mut twister = MersenneTwister64::new();
    assert_eq!(twister.next_u64(), 14514284786278117030);
}

#[test]
fn array_seed_across_twists() {
    let mut g = MersenneTwister64::new_from_array_seed(&[0x12345, 0x23456, 0x34567, 0x45678]).unwrap();
    let out = draw(&mut g, 1000);
    assert_eq!(out[311], 15531278677382192198);
    assert_eq!(out[312], 3874303698666230242);
    assert_eq!(out[999], 994412663058993407);
}

#[test]
fn same_seed_same_sequence() {
    let key = [1u64, 2, 3, u64::MAX];
    let mut a = MersenneTwister64::new_from_array_seed(&key).unwrap();
    let mut b = MersenneTwister64::new_from_array_seed(&key).unwrap();
    assert_eq!(draw(&mut a, 2000), draw(&mut b, 2000));
    let mut c = MersenneTwister64::new();
    let mut d = MersenneTwister64::new();
    assert_eq!(draw(&mut c, 2000), draw(&mut d, 2000));
}

#[test]
fn value_after_full_buffer() {
    let mut g = MersenneTwister64::new();
    let out = draw(&mut g, 313);
    assert_eq!(out[311], 1370093900783164344);
    assert_eq!(out[312], 6776537281339823025);
}

#[test]
fn empty_seed_is_rejected() {
    let r = MersenneTwister64::new_from_array_seed(&[]);
    assert!(matches!(r, Err(SeedError::InvalidSeed)));
}

#[test]
fn max_word_seed_wraps() {
    let mut g = MersenneTwister64::new_from_array_seed(&[u64::MAX]).unwrap();
    assert_eq!(draw(&mut g, 3), vec![4937473558112567719, 6731675174956935940, 3920578678746080668]);
}

#[test]
fn key_longer_than_state() {
    let key = vec![u64::MAX; 400];
    let mut g = MersenneTwister64::new_from_array_seed(&key).unwrap();
    assert_eq!(draw(&mut g, 2), vec![1724931109007993969, 12098368557092395380]);
}

#[test]
fn single_zero_word_seed() {
    let mut g = MersenneTwister64::new_from_array_seed(&[0]).unwrap();
    assert_eq!(draw(&mut g, 2), vec![7921390068289837383, 17953614915005038351]);
}
