use rust_crypto_example::secret::{
    KeyData, PrivateKey, SecretKeyData, SecretSeed, Seed, KEY_DATA_SIZE, SEED_SIZE,
};
use secrecy::ExposeSecret;
use zeroize::Zeroize;

#[test]
fn test_zeroize_stack() {
    let mut private_key = PrivateKey::default();
    println!("Test private key on stack: {:p}", &private_key);

    println!(
        "Pointer to PrivateKey.sk_seed (stack): {:p}",
        &private_key.sk_seed.expose_secret().s
    );
    println!(
        "Pointer to PrivateKey.sk_data (stack): {:p}",
        &private_key.sk_data.expose_secret().d
    );
    println!("Pointer to PrivateKey.pk_seed (stack): {:p}", &private_key.pk_seed.s);
    println!("Pointer to PrivateKey.pk_data (stack): {:p}", &private_key.pk_data.d);

    let sk_seed = SecretSeed::new(Seed::new());
    println!("Pointer to sk_seed (stack): {:p}", &sk_seed.expose_secret().s);
    let pk_seed = Seed::new();
    println!("Pointer to pk_seed (stack): {:p}", &pk_seed.s);
    private_key.private_keygen(&sk_seed, &pk_seed);
    drop(sk_seed);

    println!("private_key: {:02x?}", private_key);
    println!("private_key.sk_seed: {:02x?}", private_key.sk_seed.expose_secret());
    println!("private_key.sk_data: {:02x?}", private_key.sk_data.expose_secret());

    println!("PrivateKey.sk_seed: {:0x?}", &private_key.sk_seed.expose_secret().s[..16]);
    println!("PrivateKey.sk_data: {:0x?}", &private_key.sk_data.expose_secret().d[..16]);
    println!("PrivateKey.pk_seed: {:0x?}", &private_key.pk_seed.s[..16]);
    println!("PrivateKey.pk_data: {:0x?}", &private_key.pk_data.d[..16]);
    assert_eq!(private_key.sk_seed.expose_secret().s, [0x5A; 32]);
    assert_eq!(private_key.sk_data.expose_secret().d, [0xA5; 32]);
    assert_eq!(private_key.pk_seed.s, [0x5A; 32]);
    assert_eq!(private_key.pk_data.d, [0x5B; 32]);

    println!("drop private_key - start ...");
    drop(private_key);
    println!("drop private_key - end.");
}

#[test]
fn test_zeroize_heap() {
    let mut private_key = Box::new(PrivateKey::default());
    println!("Test private key on heap: {:p}", private_key.as_ref());

    println!(
        "Pointer to PrivateKey.sk_seed (heap): {:p}",
        &private_key.sk_seed.expose_secret().s
    );
    println!(
        "Pointer to PrivateKey.sk_data (heap): {:p}",
        &private_key.sk_data.expose_secret().d
    );
    println!("Pointer to PrivateKey.pk_seed (heap): {:p}", &private_key.pk_seed.s);
    println!("Pointer to PrivateKey.pk_data (heap): {:p}", &private_key.pk_data.d);

    let sk_seed = Box::new(SecretSeed::new(Seed::new()));
    println!("Pointer to sk_seed (heap): {:p}", &sk_seed.expose_secret().s);
    let pk_seed = Seed::new();
    println!("Pointer to pk_seed (stack): {:p}", &pk_seed.s);
    private_key.private_keygen(&sk_seed, &pk_seed);
    drop(sk_seed);

    println!("private_key: {:02x?}", private_key);
    println!("private_key.sk_seed: {:02x?}", private_key.sk_seed.expose_secret());
    println!("private_key.sk_data: {:02x?}", private_key.sk_data.expose_secret());

    println!("PrivateKey.sk_seed: {:0x?}", &private_key.sk_seed.expose_secret().s[..16]);
    println!("PrivateKey.sk_data: {:0x?}", &private_key.sk_data.expose_secret().d[..16]);
    println!("PrivateKey.pk_seed: {:0x?}", &private_key.pk_seed.s[..16]);
    println!("PrivateKey.pk_data: {:0x?}", &private_key.pk_data.d[..16]);
    assert_eq!(private_key.sk_seed.expose_secret().s, [0x5A; 32]);
    assert_eq!(private_key.sk_data.expose_secret().d, [0xA5; 32]);
    assert_eq!(private_key.pk_seed.s, [0x5A; 32]);
    assert_eq!(private_key.pk_data.d, [0x5B; 32]);

    println!("drop private_key - start ...");
    drop(private_key);
    println!("drop private_key - end.");
}

#[test]
fn sizes_are_thirty_two_bytes() {
    assert_eq!(SEED_SIZE, 32);
    assert_eq!(KEY_DATA_SIZE, 32);
}

#[test]
fn default_seed_and_key_data_are_all_zero() {
    assert_eq!(Seed::default().s, [0u8; 32]);
    assert_eq!(KeyData::default().d, [0u8; 32]);
}

#[test]
fn new_seed_is_filled_with_0x5a() {
    assert_eq!(Seed::new().s, [0x5Au8; 32]);
}

#[test]
fn zeroize_clears_a_seed_in_place() {
    let mut seed = Seed::new();
    seed.s[0] = 0xFF;
    seed.s[31] = 0x01;
    seed.zeroize();
    assert_eq!(seed.s, [0u8; 32]);
}

#[test]
fn zeroize_clears_key_data_in_place() {
    let mut data = KeyData { d: [0xC3; 32] };
    data.zeroize();
    assert_eq!(data.d, [0u8; 32]);
}

#[test]
fn zeroize_of_zero_stays_zero() {
    let mut seed = Seed::default();
    seed.zeroize();
    assert_eq!(seed.s, [0u8; 32]);
}

#[test]
fn clone_of_seed_is_independent() {
    let mut seed = Seed::new();
    let copy = seed.clone();
    seed.zeroize();
    assert_eq!(copy.s, [0x5Au8; 32]);
    assert_eq!(seed.s, [0u8; 32]);

    let mut data = KeyData { d: [7; 32] };
    let kept = data.clone();
    data.d[3] = 9;
    assert_eq!(kept.d, [7u8; 32]);
}

#[test]
fn seed_exposes_itself() {
    let mut seed = Seed::default();
    seed.s[5] = 42;
    assert_eq!(seed.expose_secret().s, seed.s);
    let data = KeyData { d: [1; 32] };
    assert_eq!(data.expose_secret().d, [1u8; 32]);
}

#[test]
fn container_hands_out_what_it_was_given() {
    let mut bytes = [0u8; 32];
    for (i, b) in bytes.iter_mut().enumerate() {
        *b = (i * 3 + 1) as u8;
    }
    let secret = SecretSeed::new(Seed { s: bytes });
    assert_eq!(secret.expose_secret().s, bytes);

    let secret = SecretKeyData::new(KeyData { d: bytes });
    assert_eq!(secret.expose_secret().d, bytes);
}

#[test]
fn clone_of_container_holds_the_same_bytes_in_its_own_storage() {
    let secret = SecretSeed::new(Seed::new());
    let copy = secret.clone();
    drop(secret);
    assert_eq!(copy.expose_secret().s, [0x5Au8; 32]);

    let secret = SecretKeyData::new(KeyData { d: [0x11; 32] });
    let copy = secret.clone();
    drop(secret);
    assert_eq!(copy.expose_secret().d, [0x11u8; 32]);
}

#[test]
fn formatting_a_container_shows_a_placeholder_not_the_bytes() {
    let secret = SecretSeed::new(Seed { s: [0xAB; 32] });
    let shown = format!("{:?}", secret);
    assert!(shown.contains("REDACTED"));
    assert!(!shown.contains("171"));
    let shown = format!("{:02x?}", secret);
    assert!(shown.contains("REDACTED"));
    assert!(!shown.contains("ab, ab"));

    let secret = SecretKeyData::new(KeyData { d: [0xCD; 32] });
    let shown = format!("{:?}", secret);
    assert!(shown.contains("REDACTED"));
    assert!(!shown.contains("205"));
}

#[test]
fn formatting_a_key_hides_secret_fields_and_shows_public_ones() {
    let mut key = PrivateKey::default();
    key.private_keygen(&SecretSeed::new(Seed { s: [0x21; 32] }), &Seed { s: [0x42; 32] });
    let shown = format!("{:02x?}", key);
    assert!(shown.contains("REDACTED"));
    // secret seed 0x21 and secret key data 0xde never appear
    assert!(!shown.contains("21, 21"));
    assert!(!shown.contains("de, de"));
    // public seed 0x42 and public key data 0x43 do
    assert!(shown.contains("42, 42"));
    assert!(shown.contains("43, 43"));
}
