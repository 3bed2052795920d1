use arweave_rs::crypto::base64::{same_bytes, Base64};
use arweave_rs::crypto::hash::{decimal_of, deep_hash, DeepHashItem};
use arweave_rs::crypto::Provider;
use arweave_rs::error::Error;

fn blob(bytes: &[u8]) -> DeepHashItem {
    DeepHashItem::Blob(bytes.to_vec())
}

#[test]
fn decimal_of_writes_ascii_digits() {
    assert_eq!(decimal_of(0), b"0".to_vec());
    assert_eq!(decimal_of(7), b"7".to_vec());
    assert_eq!(decimal_of(10), b"10".to_vec());
    assert_eq!(decimal_of(500000), b"500000".to_vec());
    assert_eq!(decimal_of(u64::MAX), b"18446744073709551615".to_vec());
}

#[test]
fn deep_hash_of_empty_blob() {
    let expected: [u8; 48] = [
        208, 168, 89, 202, 95, 193, 234, 132, 193, 62, 97, 140, 119, 164, 60, 115, 79, 40, 30, 83,
        234, 132, 152, 52, 187, 95, 9, 79, 124, 16, 133, 17, 7, 212, 127, 202, 233, 155, 158, 121,
        182, 149, 226, 34, 131, 131, 3, 19,
    ];
    assert_eq!(deep_hash(&blob(b"")), expected);
}

#[test]
fn deep_hash_of_empty_list() {
    let expected: [u8; 48] = [
        166, 158, 125, 55, 253, 199, 240, 64, 169, 236, 22, 170, 232, 77, 226, 79, 171, 74, 101,
        61, 172, 77, 224, 189, 36, 126, 54, 186, 185, 254, 69, 217, 40, 156, 90, 4, 168, 147, 201,
        82, 133, 129, 47, 92, 239, 201, 112, 122,
    ];
    assert_eq!(deep_hash(&DeepHashItem::List(vec![])), expected);
}

#[test]
fn deep_hash_of_blob() {
    let expected: [u8; 48] = [
        248, 96, 35, 59, 217, 36, 26, 71, 43, 77, 176, 200, 132, 70, 62, 67, 88, 74, 175, 53, 52,
        194, 54, 2, 233, 166, 81, 8, 249, 254, 24, 248, 101, 211, 182, 206, 78, 4, 88, 254, 247,
        17, 41, 192, 70, 116, 73, 193,
    ];
    assert_eq!(deep_hash(&blob(b"abc")), expected);
}

#[test]
fn deep_hash_of_list_folds_in_order() {
    let expected: [u8; 48] = [
        119, 204, 120, 192, 131, 70, 60, 209, 198, 232, 173, 197, 238, 208, 124, 64, 156, 142, 22,
        102, 226, 67, 153, 11, 28, 112, 190, 128, 32, 127, 244, 245, 174, 60, 199, 183, 88, 127,
        193, 33, 213, 158, 169, 180, 8, 43, 203, 105,
    ];
    let item = DeepHashItem::List(vec![blob(b"a"), blob(b"bc")]);
    assert_eq!(deep_hash(&item), expected);
    let swapped = DeepHashItem::List(vec![blob(b"bc"), blob(b"a")]);
    assert_ne!(deep_hash(&swapped), expected);
}

#[test]
fn deep_hash_of_nested_list() {
    let expected: [u8; 48] = [
        43, 93, 238, 172, 51, 61, 81, 203, 13, 117, 183, 208, 53, 234, 234, 50, 79, 157, 150, 82,
        228, 37, 132, 179, 59, 255, 197, 130, 63, 210, 15, 31, 95, 164, 91, 143, 187, 125, 223, 54,
        206, 141, 105, 27, 255, 155, 133, 83,
    ];
    let item = DeepHashItem::List(vec![
        blob(b"a"),
        DeepHashItem::List(vec![blob(b"b"), DeepHashItem::List(vec![])]),
        blob(b""),
    ]);
    assert_eq!(deep_hash(&item), expected);
    assert_eq!(Provider::without_key().deep_hash(item), expected);
}

#[test]
fn deep_hash_tells_a_blob_from_a_list_of_blobs() {
    let joined = blob(b"ab");
    let split = DeepHashItem::List(vec![blob(b"a"), blob(b"b")]);
    let single = DeepHashItem::List(vec![blob(b"ab")]);
    assert_ne!(deep_hash(&joined), deep_hash(&split));
    assert_ne!(deep_hash(&joined), deep_hash(&single));
    assert_ne!(deep_hash(&split), deep_hash(&single));
}

#[test]
fn deep_hash_is_repeatable() {
    let item = DeepHashItem::List(vec![blob(b"x"), blob(b"y")]);
    assert_eq!(deep_hash(&item), deep_hash(&item));
}

#[test]
fn sha256_of_abc() {
    let expected: [u8; 32] = [
        186, 120, 22, 191, 143, 1, 207, 234, 65, 65, 64, 222, 93, 174, 34, 35, 176, 3, 97, 163,
        150, 23, 122, 156, 180, 16, 255, 97, 242, 0, 21, 173,
    ];
    assert_eq!(Provider::without_key().hash_sha256(b"abc"), expected);
}

#[test]
fn sha384_of_abc() {
    let expected: [u8; 48] = [
        203, 0, 117, 63, 69, 163, 94, 139, 181, 160, 61, 105, 154, 198, 80, 7, 39, 44, 50, 171, 14,
        222, 209, 99, 26, 139, 96, 90, 67, 255, 91, 237, 128, 134, 7, 43, 161, 231, 204, 35, 88,
        186, 236, 161, 52, 200, 37, 167,
    ];
    assert_eq!(Provider::without_key().hash_sha384(b"abc"), expected);
}

#[test]
fn base64_text_is_unpadded_base64url() {
    let bytes = Base64(vec![1, 2, 3, 4, 5, 6, 7]);
    assert_eq!(bytes.to_string(), "AQIDBAUGBw");
    assert_eq!(Base64(vec![251, 255]).to_string(), "-_8");
    assert_eq!(Base64(vec![]).to_string(), "");
}

#[test]
fn base64_reads_its_own_text() {
    assert_eq!(Base64::from_str("AQIDBAUGBw"), Ok(Base64(vec![1, 2, 3, 4, 5, 6, 7])));
    assert_eq!(Base64::from_str("-_8"), Ok(Base64(vec![251, 255])));
    assert_eq!(Base64::from_str(""), Ok(Base64(vec![])));
}

#[test]
fn base64_rejects_what_is_not_base64url() {
    assert_eq!(Base64::from_str("AQID*"), Err(Error::EncodingError));
    assert_eq!(Base64::from_str("+/8"), Err(Error::EncodingError));
    assert_eq!(Base64::from_str("AQIDBAUGBw=="), Err(Error::EncodingError));
}

#[test]
fn base64_helpers() {
    assert!(Base64(vec![]).is_empty());
    assert!(!Base64(vec![0]).is_empty());
    assert!(Base64::default().is_empty());
    assert_eq!(Base64::from_utf8_str("App-Name"), Base64(b"App-Name".to_vec()));
    assert_eq!(Base64(vec![9, 8]).clone(), Base64(vec![9, 8]));
    assert!(same_bytes(&[1, 2, 3], &[1, 2, 3]));
    assert!(!same_bytes(&[1, 2, 3], &[1, 2, 4]));
    assert!(!same_bytes(&[1, 2, 3], &[1, 2]));
    assert!(same_bytes(&[], &[]));
}

#[test]
fn errors_say_what_went_wrong() {
    assert_eq!(Error::UnsignedTransaction.to_string(), "transaction is not signed");
    assert_eq!(Error::InvalidSignature.to_string(), "invalid signature");
    assert_eq!(Error::EncodingError.to_string(), "field could not be encoded");
    assert_eq!(Error::KeyUnavailable.to_string(), "no private key available");
    assert_eq!(Error::SigningFailed.to_string(), "the key was refused for signing");
    assert_eq!(Error::StatusCodeNotOk.to_string(), "status code not ok");
    assert_eq!(Error::ChunkUploadFailed.to_string(), "chunk upload failed");
    assert_eq!(
        Error::ArweaveGetPriceError("timeout".to_string()).to_string(),
        "could not get the price: timeout"
    );
}
