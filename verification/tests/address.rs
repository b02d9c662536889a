use anchor_lang::prelude::Pubkey;
use clmm_liquidity::address::{
    protocol_position_key, tick_seed, tickarray_bitmap_extension_key, Address,
    POOL_TICK_ARRAY_BITMAP_SEED, POSITION_SEED,
};

fn address_of(byte: u8) -> Address {
    Address::new([byte; 32])
}

#[test]
fn addresses_compare_by_their_bytes() {
    let a = address_of(1);
    let mut other = [1u8; 32];
    assert_eq!(a, Address::new(other));
    assert!(a.same(&Address::new(other)));
    other[31] = 2;
    assert_ne!(a, Address::new(other));
    assert!(!a.same(&Address::new(other)));
    other[31] = 1;
    other[0] = 0;
    assert!(!a.same(&Address::new(other)));
    assert_eq!(Address::new(other).bytes, other);
}

#[test]
fn seeds_spell_their_names() {
    assert_eq!(&POSITION_SEED[..], "position".as_bytes());
    assert_eq!(&POOL_TICK_ARRAY_BITMAP_SEED[..], "pool_tick_array_bitmap_extension".as_bytes());
}

#[test]
fn tick_seed_is_big_endian_twos_complement() {
    assert_eq!(tick_seed(0), vec![0, 0, 0, 0]);
    assert_eq!(tick_seed(1), vec![0, 0, 0, 1]);
    assert_eq!(tick_seed(-1), vec![255, 255, 255, 255]);
    assert_eq!(tick_seed(0x01020304), vec![1, 2, 3, 4]);
    assert_eq!(tick_seed(i32::MAX), vec![127, 255, 255, 255]);
    assert_eq!(tick_seed(i32::MIN), vec![128, 0, 0, 0]);
    for tick in [-443636, 443636, -30720, 30720, 256, -256, 65535, -65536] {
        assert_eq!(tick_seed(tick), tick.to_be_bytes().to_vec());
    }
}

#[test]
fn bitmap_extension_key_is_the_program_derived_address() {
    let program = address_of(9);
    let pool = address_of(4);
    let (expected, _) = Pubkey::find_program_address(
        &["pool_tick_array_bitmap_extension".as_bytes(), &[4u8; 32]],
        &Pubkey::new_from_array([9u8; 32]),
    );
    let key = tickarray_bitmap_extension_key(&program, &pool);
    assert_eq!(key, Some(Address::new(expected.to_bytes())));
    assert_ne!(key, Some(program));
    assert_ne!(key, Some(pool));
    // Another pool or another program has another address.
    assert_ne!(tickarray_bitmap_extension_key(&program, &address_of(5)), key);
    assert_ne!(tickarray_bitmap_extension_key(&address_of(8), &pool), key);
    // The same pool and program have the same address again.
    assert_eq!(tickarray_bitmap_extension_key(&program, &pool), key);
}

#[test]
fn protocol_position_key_is_the_program_derived_address() {
    let program = address_of(9);
    let pool = address_of(4);
    let (expected, _) = Pubkey::find_program_address(
        &[
            "position".as_bytes(),
            &[4u8; 32],
            &(-120i32).to_be_bytes(),
            &(360i32).to_be_bytes(),
        ],
        &Pubkey::new_from_array([9u8; 32]),
    );
    let key = protocol_position_key(&program, &pool, -120, 360);
    assert_eq!(key, Some(Address::new(expected.to_bytes())));
    assert_ne!(key, Some(program));
    assert_ne!(key, Some(pool));
    assert_ne!(protocol_position_key(&program, &pool, -120, 361), key);
    assert_ne!(protocol_position_key(&program, &pool, -121, 360), key);
    assert_ne!(protocol_position_key(&program, &pool, 360, -120), key);
    assert_ne!(key, tickarray_bitmap_extension_key(&program, &pool));
}
