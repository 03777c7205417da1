use trc20_adrrgen::address::ADDRESS_TYPE_PREFIX;
use trc20_adrrgen::codec::{b58decode_check, verify_checksum};
use trc20_adrrgen::{b58encode_check, Address, Error, KeyPair, Private, Public};

const GENERATOR_HEX: &str = "79be667ef9dcbbac55a06295ce870b07029bfcdb2dce28d959f2815b16f81798483ada7726a3c4655da4fbfc0e1108a8fd17b448a68554199c47d08ffb10d4b8";
const SCALAR_ONE_ADDRESS: &str = "TMVQGm1qAQYVdetCeGRRkTWYYrLXuHK2HC";
const CURVE_ORDER_HEX: &str = "fffffffffffffffffffffffffffffffebaaedce6af48a03bbfd25e8cd0364141";

fn scalar(last: u8) -> Private {
    let mut bytes = [0u8; 32];
    bytes[31] = last;
    Private::new(bytes)
}

fn from_hex32(s: &str) -> [u8; 32] {
    let v = hex::decode(s).unwrap();
    let mut out = [0u8; 32];
    out.copy_from_slice(&v);
    out
}

#[test]
fn scalar_one_gives_generator_point() {
    let public = Public::from_private(&scalar(1)).unwrap();
    assert_eq!(public.as_bytes().len(), 64);
    assert_eq!(public.to_string(), GENERATOR_HEX);
}

#[test]
fn scalar_one_gives_reference_address() {
    let address = Address::from_private(&scalar(1));
    assert_eq!(
        hex::encode(address.as_bytes()),
        "417e5f4552091a69125d5dfcb7b8c2659029395bdf"
    );
    assert_eq!(address.to_string(), SCALAR_ONE_ADDRESS);
}

#[test]
fn address_from_public_matches_from_private() {
    let public = Public::from_private(&scalar(1)).unwrap();
    assert_eq!(Address::from_public(&public), Address::from_private(&scalar(1)));
    assert_eq!(Address::try_from_private(&scalar(1)), Ok(Address::from_private(&scalar(1))));
}

#[test]
fn derivation_is_deterministic() {
    let bytes = from_hex32("1f2e3d4c5b6a79880123456789abcdef0011223344556677889900aabbccddee");
    let a = Address::from_private(&Private::new(bytes));
    let b = Address::from_private(&Private::new(bytes));
    assert_eq!(a, b);
    assert_eq!(a.to_string(), b.to_string());
    let p = Public::from_private(&Private::new(bytes)).unwrap();
    let q = Public::from_private(&Private::new(bytes)).unwrap();
    assert_eq!(p.as_bytes(), q.as_bytes());
}

#[test]
fn lengths_are_fixed_and_text_has_no_whitespace() {
    for last in 1u8..20 {
        let private = scalar(last);
        assert_eq!(private.as_bytes().len(), 32);
        let public = Public::from_private(&private).unwrap();
        assert_eq!(public.as_bytes().len(), 64);
        let address = Address::from_public(&public);
        assert_eq!(address.as_bytes().len(), 21);
        let text = address.to_string();
        assert!(!text.chars().any(|c| c.is_whitespace()));
    }
}

#[test]
fn zero_scalar_is_rejected() {
    let zero = Private::new([0u8; 32]);
    assert_eq!(Public::from_private(&zero).err(), Some(Error::InvalidPrivate));
    assert_eq!(Address::try_from_private(&zero), Err(Error::InvalidPrivate));
    assert!(KeyPair::from_private(zero).is_err());
}

#[test]
fn curve_order_scalar_is_rejected() {
    let order = Private::new(from_hex32(CURVE_ORDER_HEX));
    assert_eq!(Public::from_private(&order).err(), Some(Error::InvalidPrivate));
    let above = Private::new([0xffu8; 32]);
    assert_eq!(Public::from_private(&above).err(), Some(Error::InvalidPrivate));
}

#[test]
fn largest_valid_scalar_is_accepted() {
    let mut bytes = from_hex32(CURVE_ORDER_HEX);
    bytes[31] -= 1;
    assert!(Public::from_private(&Private::new(bytes)).is_ok());
}

#[test]
fn address_starts_with_network_prefix() {
    for last in 1u8..10 {
        let address = Address::from_private(&scalar(last));
        assert_eq!(address.prefix(), ADDRESS_TYPE_PREFIX);
        let decoded = b58decode_check(&address.to_string()).unwrap();
        assert_eq!(decoded.len(), 21);
        assert_eq!(decoded[0], 0x41);
        assert_eq!(decoded.as_slice(), address.as_bytes());
        assert!(address.to_string().starts_with('T'));
    }
}

#[test]
fn address_with_other_prefix() {
    let public = Public::from_private(&scalar(1)).unwrap();
    let address = Address::from_public_with_prefix(&public, 0xa0);
    assert_eq!(
        hex::encode(address.as_bytes()),
        "a07e5f4552091a69125d5dfcb7b8c2659029395bdf"
    );
    assert_eq!(address.prefix(), 0xa0);
}

#[test]
fn private_renders_as_lower_hex() {
    assert_eq!(
        scalar(0xab).to_string(),
        "00000000000000000000000000000000000000000000000000000000000000ab"
    );
}

#[test]
fn base58check_known_values() {
    assert_eq!(b58encode_check(&[]), "3QJmnh");
    assert_eq!(b58encode_check(&[0, 1]), "18AV53K");
    assert_eq!(b58encode_check(b"hello"), "2L5B5yqsVG8Vt");
}

#[test]
fn base58check_round_trip() {
    let cases: Vec<Vec<u8>> = vec![
        vec![],
        vec![0],
        vec![0, 0, 7],
        b"hello".to_vec(),
        (0u8..64).collect(),
        vec![0xff; 21],
    ];
    for raw in cases {
        let text = b58encode_check(&raw);
        assert_eq!(b58decode_check(&text), Ok(raw));
    }
}

#[test]
fn base58check_detects_altered_character() {
    let text = b58encode_check(b"hello");
    let mut chars: Vec<char> = text.chars().collect();
    chars[3] = if chars[3] == 'z' { 'y' } else { 'z' };
    let altered: String = chars.into_iter().collect();
    assert_eq!(b58decode_check(&altered), Err(Error::InvalidChecksum));
}

#[test]
fn base58check_rejects_bad_text() {
    assert_eq!(b58decode_check("0OIl"), Err(Error::InvalidAddress));
    let long = "2".repeat(200);
    assert_eq!(b58decode_check(&long), Err(Error::InvalidAddress));
    assert_eq!(b58decode_check("1"), Err(Error::InvalidChecksum));
}

#[test]
fn checksum_is_verified() {
    assert_eq!(verify_checksum(&[1, 2, 3]), Err(Error::InvalidChecksum));
    let mut data = b"hello".to_vec();
    let text = b58encode_check(b"hello");
    let full = base58::FromBase58::from_base58(text.as_str()).unwrap();
    data.extend_from_slice(&full[5..]);
    assert_eq!(verify_checksum(&data), Ok(b"hello".to_vec()));
    let last = data.len() - 1;
    data[last] ^= 1;
    assert_eq!(verify_checksum(&data), Err(Error::InvalidChecksum));
}

#[test]
fn key_pair_renders_three_lines() {
    let pair = KeyPair::from_private(scalar(1)).unwrap();
    let expected = format!(
        "private: {}\npublic:  {}\naddress: {}",
        "0000000000000000000000000000000000000000000000000000000000000001",
        GENERATOR_HEX,
        SCALAR_ONE_ADDRESS
    );
    assert_eq!(pair.to_string(), expected);
    assert_eq!(pair.address().to_string(), SCALAR_ONE_ADDRESS);
    assert_eq!(pair.public().to_string(), GENERATOR_HEX);
}

#[test]
fn key_pair_simple_line() {
    let pair = KeyPair::from_private(scalar(1)).unwrap();
    assert_eq!(
        pair.simple_line(),
        format!(
            "{}:{}",
            SCALAR_ONE_ADDRESS, "0000000000000000000000000000000000000000000000000000000000000001"
        )
    );
    assert_eq!(pair.private().as_bytes()[31], 1);
}

#[test]
fn key_pair_from_parts() {
    let private = scalar(2);
    let public = Public::from_private(&private).unwrap();
    let pair = KeyPair::from(private.clone(), public.clone());
    assert_eq!(pair.address(), Address::from_public(&public));
}

#[test]
fn distinct_scalars_give_distinct_addresses() {
    let mut seen = std::collections::BTreeSet::new();
    for last in 1u8..=200 {
        assert!(seen.insert(Address::from_private(&scalar(last))));
    }
}

#[test]
fn error_messages_and_conversion() {
    assert_eq!(Error::InvalidPrivate.to_string(), "Invalid Private");
    assert_eq!(Error::FailedKeyGeneration.to_string(), "Key generation failed");
    assert_eq!(Error::from(libsecp256k1::Error::InvalidSecretKey), Error::InvalidPrivate);
    assert_eq!(Error::from(libsecp256k1::Error::InvalidPublicKey), Error::InvalidPublic);
    assert_eq!(Error::from(libsecp256k1::Error::InvalidMessage), Error::InvalidMessage);
    assert_eq!(Error::from(libsecp256k1::Error::InvalidRecoveryId), Error::InvalidSignature);
}
