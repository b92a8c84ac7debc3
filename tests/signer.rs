use ccx_binance::signer::{sign, ApiCred, ArrStr, CoinbaseTradeSigner};
use hmac::{Hmac, Mac, NewMac};
use sha2::Sha256;

#[test]
fn arr_str_from_u32() {
    assert_eq!(ArrStr::from_u32(0).as_bytes(), b"0".to_vec());
    assert_eq!(ArrStr::from_u32(7).as_bytes(), b"7".to_vec());
    assert_eq!(ArrStr::from_u32(1700000000).as_bytes(), b"1700000000".to_vec());
    assert_eq!(ArrStr::from_u32(u32::MAX).as_bytes(), b"4294967295".to_vec());
}

#[test]
fn sign_matches_hmac_of_concatenation() {
    let mut m = Hmac::<Sha256>::new_varkey(b"secret").unwrap();
    m.update(b"1700000000POST/api/v3/orders{\"a\":1}");
    let expect = hex::encode(m.finalize().into_bytes());
    let got = sign("secret", 1700000000, "POST", "/api/v3/orders", "{\"a\":1}");
    assert_eq!(got, expect);
    assert_eq!(got.len(), 64);
    assert!(got.chars().all(|c| c.is_ascii_hexdigit() && !c.is_ascii_uppercase()));
}

#[test]
fn api_cred_signs_with_its_secret() {
    let cred = ApiCred { key: "k1".to_string(), secret: "s1".to_string() };
    assert_eq!(cred.api_key(), "k1");
    assert_eq!(cred.sign_data(5, "GET", "/p", ""), sign("s1", 5, "GET", "/p", ""));
    assert_ne!(cred.sign_data(5, "GET", "/p", ""), sign("s2", 5, "GET", "/p", ""));
}
