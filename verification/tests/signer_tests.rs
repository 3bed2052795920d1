use arweave_rs::crypto::base64::Base64;
use arweave_rs::crypto::keys::{
    is_at_least_two, is_usable_modulus, public_exponent_bytes, public_key_of, verify_digest,
    KeyPair, KeyParts, DEVELOPMENT_KEYPAIR,
};
use arweave_rs::crypto::{signing_result, Provider};
use arweave_rs::error::Error;
use arweave_rs::signer::ArweaveSigner;
use arweave_rs::submit::SubmitConfig;
use arweave_rs::transaction::tags::Tag;
use arweave_rs::transaction::Tx;
use arweave_rs::Arweave;
use data_encoding::BASE64URL_NOPAD;
use sha2::{Digest, Sha256};

fn example_tx(owner: Base64) -> Tx {
    Tx {
        format: 2,
        id: Base64(vec![]),
        last_tx: Base64(vec![]),
        owner,
        tags: vec![Tag::from_utf8_strs("App-Name", "Test")],
        target: Base64(vec![]),
        quantity: 0,
        data_root: Base64(vec![]),
        data: Base64(vec![]),
        data_size: 0,
        reward: 500000,
        signature: Base64(vec![]),
    }
}

fn signed_example(signer: &ArweaveSigner) -> Tx {
    signer.sign_transaction(example_tx(signer.get_public_key())).unwrap()
}

/// A second key file, for tests that need two wallets.
const SECOND_KEYPAIR: &str =
    "{\"kty\":\"RSA\",\"e\":\"AQAB\",\"n\":\"4gPv1Xow7joS2ckWkfiwMs_Tv1eg1YNUwb4kI8RVSG0rmg3n\
     d7wfC8uowfY4vtH6wTcczsFh_mbRJggNB3WTP3Z7Z0BWve2d6X6mNRZNw4wsmnHiKfo9s-95aWxaIQclJB0RqOl5\
     yVya8TBwd04VMLV-IWxjuDJpqe_HcpVCLnXg0aTBVB49_i9rr2VX51whvPxrtAQluH_Tf60_LS6km0dNxZbAP3YL\
     67h7CEK4d_FVvmUIIAznM151KmX-1cbnUlE7PIgzYHybTLidnT_rfjLUIfzl_EJ4zZVbdqqAOKpUB7dUDGMQLr8b\
     WDqZQNmlgFUBnOP-TVnSjbEWn-kwuw\",\"d\":\"QatnKh3gzbct9v2Ig01A1OKx4ayyXJdWLxzyHzpSlUKzIoX\
     btVyBoMnB9Ol3v2n_c9hxlFl4AZUaO_Sm5H3zFMN2Q5_cFD9QXKGh5VbfrWuzIgTo881z1C5Glq0W2vXags23bd6\
     4thskIeQzKVcUrRxu04NMzh5HuUqkJtTbb-fgTTgOpr4b6yRMNPm_8khruiboqrOGnIVxzRENaDjPCQua7oyae4j\
     MaDCJXREh-rmR3VlStI6PU160Kic7r5vAixJeeUkOKrHrIX_8VbnHdlo-bHsRh7VmYTd_eVC4Lf0bZB32VidUXO8\
     9W0jI2VIlUrfO3mKE9w59E3pG2ZGSYQ\",\"p\":\"-tJ7igNibDT5_MXNURm6Kugl7LkLpmTZQu3HLG4NgfEvjU\
     os01cUoRrEIMskME6V8wSWrKIOQR3dYOF2AJw9RvrVyJgNZfKpZx6xexThvAYHouAyYly_Wu5Z_4kbCYyHMdDlIP\
     2HGjcG8UBrnbYdfLi1mgmyPielwZbCrWHYTdk\",\"q\":\"5q5bofgS7W_UkJX_9oI75b_226sVhMjM9NQBMmBm\
     fUdaB-vWpXbzNFP3ej2fm1Wlv-8U_cMv75i3iJcwf9cU4Hw5yymHCziIMFe3To1XNJptipiJ0lcrz3VgL6-3Lw9x\
     p52YcCVXjsSqIADDf-jo-QrGBW5yXvrg1ThU2YdNkrM\",\"dp\":\"-frvf2TSIjBGeqQVdl_iyMKokZ73unXGh\
     0r-eAyTT8-2aeXkeRnQCKTplhmATtjz38nR9epptIJ0UgtDFWaiN-zlRtAsgk_wgEL59kagmEmWMMGr1ZbEbHcjo\
     WffV4wEbiTZSCEGFp2DQMzItN191AEvlX9Wc1YGgMOl8TGUaDk\",\"dq\":\"I_STVcib8qRWpn6q2dpsyZ_FM3\
     IUNZEy2QpecWKzNt2zO77XwwyqVcKstUH7qbOM1UDHrdIJm7fbC5A9P__fQio6u97qLKaQG7DgYn8HU6yqXErwWH\
     e73Wc3KdeintQya-TViM1ZO2iN99UGo95CyeaS_O-9Je7GspVILGu5fJ8\",\"qi\":\"cMuYxzN2yatt0DA1es-\
     4Q1VbA_JeMKYQ51ZqtOC0mzB_iKRVuP-msAFELHuYV8Rr7fH-AWKR2Dtr6I97OjsfjwfKRmt-gabGPsbTjOcj6bE\
     dacMpY0iHzeU9TaNpOk29EVrPTklRUORvJ9GKw0tBwFq_6aVtMDKx0e4eegP7jYs\"}";

/// The modulus that the key file `text` holds.
fn modulus_of(text: &str) -> Vec<u8> {
    let key: serde_json::Value = serde_json::from_str(text).unwrap();
    BASE64URL_NOPAD.decode(key["n"].as_str().unwrap().as_bytes()).unwrap()
}

fn second_signer() -> ArweaveSigner {
    ArweaveSigner::from_keypair_path(SECOND_KEYPAIR).unwrap()
}

#[test]
fn test_sign_verify() -> Result<(), Error> {
    let message = Base64(
        [
            74, 15, 74, 255, 248, 205, 47, 229, 107, 195, 69, 76, 215, 249, 34, 186, 197, 31, 178,
            163, 72, 54, 78, 179, 19, 178, 1, 132, 183, 231, 131, 213, 146, 203, 6, 99, 106, 231,
            215, 199, 181, 171, 52, 255, 205, 55, 203, 117,
        ]
        .to_vec(),
    );
    let signer = ArweaveSigner::default();
    let signature = signer.sign(&message.0)?;
    let pubk = signer.get_public_key();
    ArweaveSigner::verify(&pubk.0, &message.0, &signature.0)
}

#[test]
fn signature_has_the_length_of_the_modulus() {
    let signer = ArweaveSigner::default();
    let modulus = signer.keypair_modulus();
    assert_eq!(modulus.0.len(), 256);
    assert_eq!(modulus, signer.get_public_key());
    assert_eq!(modulus, signer.get_provider().public_key());
    let signature = signer.sign(b"message").unwrap();
    assert_eq!(signature.0.len(), 256);
    assert_ne!(signature.0, b"message".to_vec());
}

#[test]
fn verify_rejects_a_changed_message_signature_or_key() {
    let signer = ArweaveSigner::default();
    let other = second_signer();
    let key = signer.get_public_key();
    let signature = signer.sign(b"message").unwrap();
    assert_eq!(ArweaveSigner::verify(&key.0, b"message", &signature.0), Ok(()));
    assert_eq!(
        ArweaveSigner::verify(&key.0, b"massage", &signature.0),
        Err(Error::InvalidSignature)
    );
    let mut flipped = signature.0.clone();
    flipped[100] ^= 1;
    assert_eq!(ArweaveSigner::verify(&key.0, b"message", &flipped), Err(Error::InvalidSignature));
    assert_eq!(
        ArweaveSigner::verify(&key.0, b"message", &signature.0[1..]),
        Err(Error::InvalidSignature)
    );
    assert_eq!(ArweaveSigner::verify(&key.0, b"message", &[]), Err(Error::InvalidSignature));
    assert_eq!(
        ArweaveSigner::verify(&other.get_public_key().0, b"message", &signature.0),
        Err(Error::InvalidSignature)
    );
    assert_eq!(ArweaveSigner::verify(&[], b"message", &signature.0), Err(Error::InvalidSignature));
    assert!(signer.get_provider().verify(&key.0, b"message", &signature.0));
    assert!(!Provider::without_key().verify(&key.0, b"other", &signature.0));
}

#[test]
fn signing_is_salted() {
    let signer = ArweaveSigner::default();
    let key = signer.get_public_key();
    let first = signer.sign(b"message").unwrap();
    let second = signer.sign(b"message").unwrap();
    assert_ne!(first, second);
    assert_eq!(ArweaveSigner::verify(&key.0, b"message", &first.0), Ok(()));
    assert_eq!(ArweaveSigner::verify(&key.0, b"message", &second.0), Ok(()));
}

#[test]
fn wallet_address_is_the_digest_of_the_public_key() {
    let signer = ArweaveSigner::default();
    let expected = Sha256::digest(&signer.get_public_key().0).to_vec();
    assert_eq!(signer.wallet_address(), Base64(expected));
    assert_eq!(signer.wallet_address().0.len(), 32);
}

#[test]
fn a_provider_without_a_key_cannot_sign() {
    let provider = Provider::without_key();
    assert_eq!(provider.sign(b"message"), Err(Error::KeyUnavailable));
    assert!(provider.keypair_modulus().is_empty());
    assert!(provider.public_key().is_empty());
    assert!(provider.wallet_address().is_empty());
    let client = Arweave { base_url: "https://arweave.net/".to_string(), crypto: provider };
    assert_eq!(client.sign_transaction(example_tx(Base64(vec![1]))), Err(Error::KeyUnavailable));
}

#[test]
fn sign_then_verify_transaction() {
    let signer = ArweaveSigner::default();
    let tx = example_tx(signer.get_public_key());
    let signed = signer.sign_transaction(tx.clone()).unwrap();
    assert_eq!(signed.signature.0.len(), 256);
    assert_eq!(signed.id, Base64(Sha256::digest(&signed.signature.0).to_vec()));
    let mut stripped = signed.clone();
    stripped.id = Base64(vec![]);
    stripped.signature = Base64(vec![]);
    assert_eq!(stripped, tx);
    assert_eq!(ArweaveSigner::verify_transaction(&signed), Ok(()));
    assert_eq!(Arweave::default().verify_transaction(&signed), Ok(()));
}

#[test]
fn end_to_end_example() {
    let signer = ArweaveSigner::default();
    let mut tx = example_tx(signer.get_public_key());
    tx.format = 1;
    let signed = signer.sign_transaction(tx).unwrap();
    assert_eq!(signed.quantity, 0);
    assert_eq!(signed.reward, 500000);
    assert!(signed.target.is_empty());
    assert!(signed.data.is_empty());
    assert_eq!(signed.id.0.len(), 32);
    assert_eq!(signed.id, Base64(Sha256::digest(&signed.signature.0).to_vec()));
    assert_eq!(ArweaveSigner::verify_transaction(&signed), Ok(()));
    let mut flipped = signed.clone();
    flipped.signature.0[0] ^= 0x80;
    assert_eq!(ArweaveSigner::verify_transaction(&flipped), Err(Error::InvalidSignature));
    let mut flipped = signed.clone();
    flipped.signature.0[255] ^= 1;
    assert_eq!(ArweaveSigner::verify_transaction(&flipped), Err(Error::InvalidSignature));
}

#[test]
fn tampering_is_detected() {
    let signer = ArweaveSigner::default();
    let signed = signed_example(&signer);
    assert_eq!(ArweaveSigner::verify_transaction(&signed), Ok(()));
    let mut tampered = signed.clone();
    tampered.quantity = 1;
    assert_eq!(ArweaveSigner::verify_transaction(&tampered), Err(Error::InvalidSignature));
    let mut tampered = signed.clone();
    tampered.reward = 1;
    assert_eq!(ArweaveSigner::verify_transaction(&tampered), Err(Error::InvalidSignature));
    let mut tampered = signed.clone();
    tampered.tags[0].value = Base64(b"Tesu".to_vec());
    assert_eq!(ArweaveSigner::verify_transaction(&tampered), Err(Error::InvalidSignature));
    let mut tampered = signed.clone();
    tampered.tags.push(Tag::from_utf8_strs("", ""));
    assert_eq!(ArweaveSigner::verify_transaction(&tampered), Err(Error::InvalidSignature));
    let mut tampered = signed.clone();
    tampered.target = Base64(vec![1]);
    assert_eq!(ArweaveSigner::verify_transaction(&tampered), Err(Error::InvalidSignature));
    let mut tampered = signed.clone();
    tampered.data_size = 1;
    assert_eq!(ArweaveSigner::verify_transaction(&tampered), Err(Error::InvalidSignature));
    let mut tampered = signed.clone();
    tampered.last_tx = Base64(vec![1]);
    assert_eq!(ArweaveSigner::verify_transaction(&tampered), Err(Error::InvalidSignature));
    let mut tampered = signed.clone();
    tampered.owner = second_signer().get_public_key();
    assert_eq!(ArweaveSigner::verify_transaction(&tampered), Err(Error::InvalidSignature));
}

#[test]
fn tag_order_is_signed() {
    let signer = ArweaveSigner::default();
    let mut tx = example_tx(signer.get_public_key());
    tx.tags = vec![Tag::from_utf8_strs("a", "1"), Tag::from_utf8_strs("b", "2")];
    let signed = signer.sign_transaction(tx).unwrap();
    assert_eq!(ArweaveSigner::verify_transaction(&signed), Ok(()));
    let mut reordered = signed.clone();
    reordered.tags.reverse();
    assert_eq!(ArweaveSigner::verify_transaction(&reordered), Err(Error::InvalidSignature));
}

#[test]
fn unsigned_transactions_are_not_verified() {
    let signer = ArweaveSigner::default();
    let tx = example_tx(signer.get_public_key());
    assert_eq!(ArweaveSigner::verify_transaction(&tx), Err(Error::UnsignedTransaction));
    let signed = signer.sign_transaction(tx).unwrap();
    let mut no_signature = signed.clone();
    no_signature.signature = Base64(vec![]);
    assert_eq!(ArweaveSigner::verify_transaction(&no_signature), Err(Error::UnsignedTransaction));
    let mut no_id = signed.clone();
    no_id.id = Base64(vec![]);
    assert_eq!(ArweaveSigner::verify_transaction(&no_id), Err(Error::UnsignedTransaction));
}

#[test]
fn unknown_formats_are_neither_signed_nor_verified() {
    let signer = ArweaveSigner::default();
    let mut tx = example_tx(signer.get_public_key());
    tx.format = 3;
    assert_eq!(signer.sign_transaction(tx), Err(Error::EncodingError));
    let mut signed = signed_example(&signer);
    signed.format = 3;
    assert_eq!(ArweaveSigner::verify_transaction(&signed), Err(Error::EncodingError));
    let keyless = Arweave {
        base_url: "https://arweave.net/".to_string(),
        crypto: Provider::without_key(),
    };
    let mut tx = example_tx(Base64(vec![1]));
    tx.format = 0;
    assert_eq!(keyless.sign_transaction(tx), Err(Error::EncodingError));
}

#[test]
fn signing_again_overwrites_signature_and_id() {
    let signer = ArweaveSigner::default();
    let first = signed_example(&signer);
    let second = signer.sign_transaction(first.clone()).unwrap();
    assert_ne!(first.signature, second.signature);
    assert_ne!(first.id, second.id);
    assert_eq!(ArweaveSigner::verify_transaction(&second), Ok(()));
    assert_eq!(second.id, Base64(Sha256::digest(&second.signature.0).to_vec()));
}

#[test]
fn a_transaction_of_another_owner_does_not_verify() {
    let signer = ArweaveSigner::default();
    let signed = signer.sign_transaction(example_tx(Base64(vec![1, 2, 3]))).unwrap();
    assert_eq!(ArweaveSigner::verify_transaction(&signed), Err(Error::InvalidSignature));
}

#[test]
fn signer_from_a_key_file() {
    let text = SECOND_KEYPAIR;
    let modulus = modulus_of(text);
    assert_ne!(modulus, modulus_of(DEVELOPMENT_KEYPAIR));
    let signer = ArweaveSigner::from_keypair_path(text).unwrap();
    assert_eq!(signer.get_public_key(), Base64(modulus.clone()));
    let signed = signed_example(&signer);
    assert_eq!(ArweaveSigner::verify_transaction(&signed), Ok(()));
    let client = Arweave::from_keypair_path(text, "http://localhost:1984/".to_string()).unwrap();
    assert_eq!(client.base_url, "http://localhost:1984/");
    assert_eq!(client.crypto.keypair_modulus(), Base64(modulus));
    let signed = client.sign_transaction(example_tx(client.crypto.public_key())).unwrap();
    assert_eq!(client.verify_transaction(&signed), Ok(()));
}

#[test]
fn key_files_without_a_private_rsa_key_are_refused() {
    assert!(matches!(ArweaveSigner::from_keypair_path(""), Err(Error::KeyUnavailable)));
    assert!(matches!(ArweaveSigner::from_keypair_path("{}"), Err(Error::KeyUnavailable)));
    let public = "{\"kty\":\"RSA\",\"e\":\"AQAB\",\"n\":\"AQIDBAUGBw\"}";
    assert!(matches!(ArweaveSigner::from_keypair_path(public), Err(Error::KeyUnavailable)));
    let symmetric = "{\"kty\":\"oct\",\"k\":\"Wpj30SfkzM_m0Sa_B2NqNw\"}";
    assert!(matches!(ArweaveSigner::from_keypair_path(symmetric), Err(Error::KeyUnavailable)));
    assert!(matches!(
        Arweave::from_keypair_path(public, "https://arweave.net/".to_string()),
        Err(Error::KeyUnavailable)
    ));
    assert!(matches!(Provider::from_keypair_path(public), Err(Error::KeyUnavailable)));
}

#[test]
fn a_key_that_the_backend_refuses_fails_to_sign() {
    let modulus = ArweaveSigner::default().get_public_key().0;
    let parts = KeyParts {
        modulus: modulus.clone(),
        private_exponent: vec![3],
        prime_p: vec![3],
        prime_q: vec![5],
    };
    let key = KeyPair::new(parts).unwrap();
    assert_eq!(key.modulus_bytes(), modulus);
    assert_eq!(key.sign_digest(&[0; 32]), None);
    let signer = ArweaveSigner::from_keypair(key);
    assert_eq!(signer.sign(b"message"), Err(Error::SigningFailed));
    assert_eq!(
        signer.sign_transaction(example_tx(signer.get_public_key())),
        Err(Error::SigningFailed)
    );
}

#[test]
fn key_parts_are_checked() {
    let modulus = ArweaveSigner::default().get_public_key().0;
    let parts = |modulus: Vec<u8>, p: Vec<u8>, q: Vec<u8>| KeyParts {
        modulus,
        private_exponent: vec![3],
        prime_p: p,
        prime_q: q,
    };
    assert!(KeyPair::new(parts(modulus.clone(), vec![3], vec![5])).is_some());
    assert!(KeyPair::new(parts(modulus.clone(), vec![1], vec![5])).is_none());
    assert!(KeyPair::new(parts(modulus.clone(), vec![3], vec![0, 0])).is_none());
    assert!(KeyPair::new(parts(modulus.clone(), vec![], vec![5])).is_none());
    assert!(KeyPair::new(parts(vec![], vec![3], vec![5])).is_none());
    assert!(KeyPair::new(parts(vec![200; 33], vec![3], vec![5])).is_none());
    let mut padded = vec![0];
    padded.extend_from_slice(&modulus);
    assert!(KeyPair::new(parts(padded, vec![3], vec![5])).is_none());
    let mut odd = modulus.clone();
    odd[0] = 1;
    assert!(KeyPair::new(parts(odd, vec![3], vec![5])).is_none());
}

#[test]
fn numbers_of_at_least_two() {
    assert!(!is_at_least_two(&[]));
    assert!(!is_at_least_two(&[0]));
    assert!(!is_at_least_two(&[1]));
    assert!(is_at_least_two(&[2]));
    assert!(!is_at_least_two(&[0, 0, 1]));
    assert!(is_at_least_two(&[0, 0, 2]));
    assert!(is_at_least_two(&[1, 0]));
    assert!(is_at_least_two(&[0, 1, 1]));
    assert!(is_usable_modulus(&[2]));
    assert!(!is_usable_modulus(&[]));
    assert!(!is_usable_modulus(&[0, 200]));
    assert!(!is_usable_modulus(&[1, 200]));
    assert_eq!(public_exponent_bytes(), vec![1, 0, 1]);
}

#[test]
fn the_verifying_key_of_a_modulus_is_the_modulus() {
    let signer = ArweaveSigner::default();
    let modulus = signer.get_public_key().0;
    assert_eq!(public_key_of(&modulus), Some(modulus.clone()));
    let mut padded = vec![0, 0];
    padded.extend_from_slice(&modulus);
    assert_eq!(public_key_of(&padded), Some(modulus.clone()));
    assert_eq!(public_key_of(&[]), None);
    assert_eq!(public_key_of(&[0]), None);
    assert_eq!(public_key_of(&[1, 0]), None);
    let hashed = Sha256::digest(b"message").to_vec();
    let signature = signer.sign(b"message").unwrap();
    assert!(verify_digest(&modulus, &hashed, &signature.0));
    assert!(!verify_digest(&modulus, &[0; 32], &signature.0));
    assert!(!verify_digest(&modulus, &hashed[1..], &signature.0));
    assert!(!verify_digest(&[], &hashed, &signature.0));
    assert!(!verify_digest(&[1, 0, 0], &hashed, &signature.0));
}

#[test]
fn the_default_key_is_the_development_key() {
    let modulus = modulus_of(DEVELOPMENT_KEYPAIR);
    assert_eq!(ArweaveSigner::default().get_public_key(), Base64(modulus.clone()));
    assert_eq!(Provider::default().public_key(), Base64(modulus.clone()));
    assert_eq!(Arweave::default().crypto.public_key(), Base64(modulus.clone()));
    assert_eq!(Arweave::default().base_url, "https://arweave.net/");
    let key = KeyPair::development().unwrap();
    assert_eq!(key.modulus_bytes(), modulus);
    let hashed = Sha256::digest(b"message").to_vec();
    let signature = key.sign_digest(&hashed).unwrap();
    assert_eq!(signature.len(), 256);
    assert!(verify_digest(&modulus, &hashed, &signature));
    let provider = Provider::with_keypair(key);
    let signature = provider.sign(b"message").unwrap();
    assert!(provider.verify(&provider.public_key().0, b"message", &signature.0));
    let digest: [u8; 32] = Sha256::digest(b"message").into();
    assert_eq!(provider.hash_sha256(b"message"), digest);
}

#[test]
fn signing_result_of_the_backend_outcome() {
    assert_eq!(signing_result(Some(vec![1, 2, 3])), Ok(Base64(vec![1, 2, 3])));
    assert_eq!(signing_result(None), Err(Error::SigningFailed));
}

#[test]
fn created_transactions_carry_small_payloads_inline() {
    let client = Arweave::default();
    let config = SubmitConfig::default();
    let tx = client
        .create_transaction(
            Base64(vec![4, 5]),
            vec![Tag::from_utf8_strs("App-Name", "Test")],
            b"hello".to_vec(),
            Base64(vec![9, 9]),
            3,
            500000,
            Base64(vec![6]),
            &config,
        )
        .unwrap();
    let expected = Tx {
        format: 1,
        id: Base64(vec![]),
        last_tx: Base64(vec![6]),
        owner: client.crypto.public_key(),
        tags: vec![Tag::from_utf8_strs("App-Name", "Test")],
        target: Base64(vec![4, 5]),
        quantity: 3,
        data_root: Base64(vec![]),
        data: Base64(b"hello".to_vec()),
        data_size: 5,
        reward: 500000,
        signature: Base64(vec![]),
    };
    assert_eq!(tx, expected);
    let signed = client.sign_transaction(tx).unwrap();
    assert_eq!(client.verify_transaction(&signed), Ok(()));
}

#[test]
fn created_transactions_commit_to_large_payloads() {
    let client = Arweave::default();
    let config = SubmitConfig { max_tx_data: 5, ..SubmitConfig::default() };
    let tx = client
        .create_transaction(
            Base64(vec![]),
            vec![],
            b"hello".to_vec(),
            Base64(vec![9, 9]),
            0,
            1,
            Base64(vec![]),
            &config,
        )
        .unwrap();
    assert_eq!(tx.format, 2);
    assert_eq!(tx.data, Base64(vec![]));
    assert_eq!(tx.data_root, Base64(vec![9, 9]));
    assert_eq!(tx.data_size, 5);
    assert_eq!(tx.owner, client.crypto.public_key());
    let below = client
        .create_transaction(
            Base64(vec![]),
            vec![],
            b"hell".to_vec(),
            Base64(vec![9, 9]),
            0,
            1,
            Base64(vec![]),
            &config,
        )
        .unwrap();
    assert_eq!(below.format, 1);
    assert_eq!(below.data, Base64(b"hell".to_vec()));
    assert_eq!(below.data_root, Base64(vec![]));
}

#[test]
fn a_client_without_a_key_creates_no_transaction() {
    let client = Arweave {
        base_url: "https://arweave.net/".to_string(),
        crypto: Provider::without_key(),
    };
    let created = client.create_transaction(
        Base64(vec![]),
        vec![],
        vec![],
        Base64(vec![]),
        0,
        1,
        Base64(vec![]),
        &SubmitConfig::default(),
    );
    assert_eq!(created, Err(Error::KeyUnavailable));
}
