use hedera::error::{ErrorKind, KeyError, RecoveryError};
use hedera::key::{PublicKey, SecretKey, Signature};
use hedera::mnemonic;

const RFC_SECRET: &str = "9d61b19deffd5a60ba844af492ec2cc44449c5697b326919703bac031cae7f60";
const RFC_PUBLIC: &str = "d75a980182b10ab7d54bfed3c964073a0ee172f3daa62325af021a68f707511a";
const RFC_SIGNATURE: &str = "e5564300c360ac729086e2cc806e828a84877f1eb8e5d974d873e065224901555fb8821590a33bacc61e39701cf9b46bd25bf5f0595bbe24655141438e7a100b";

fn zero_phrase() -> String {
    let mut words = vec!["babab"; 16];
    words.push("kinom");
    words.join(" ")
}

#[test]
fn public_key_of_a_known_secret() {
    let secret = SecretKey::from_str(RFC_SECRET).unwrap();
    assert_eq!(secret.public().to_string(), RFC_PUBLIC);
    assert_eq!(secret.to_string(), RFC_SECRET);
}

#[test]
fn public_key_is_the_same_on_every_call() {
    let secret = SecretKey::from_str(RFC_SECRET).unwrap();
    let first = secret.public();
    let second = secret.public();
    assert_eq!(first, second);
    assert_eq!(first.as_bytes(), second.as_bytes());
    assert_eq!(first.as_bytes().len(), 32);
}

#[test]
fn signature_of_the_empty_message() {
    let secret = SecretKey::from_str(RFC_SECRET).unwrap();
    let signature = secret.sign(&[]).unwrap();
    assert_eq!(signature.to_string(), RFC_SIGNATURE);
    assert_eq!(signature.as_bytes().len(), 64);
    let again = secret.sign(&[]).unwrap();
    assert_eq!(signature, again);
    let other = secret.sign(&[1]).unwrap();
    assert_ne!(signature, other);
}

#[test]
fn signature_from_backend_checks_the_length() {
    assert!(Signature::from_backend(Ok(vec![7u8; 64])).is_some());
    assert!(Signature::from_backend(Ok(vec![7u8; 63])).is_none());
    assert!(Signature::from_backend(Ok(Vec::new())).is_none());
    assert!(Signature::from_backend(Err(openssl::error::ErrorStack::get())).is_none());
}

#[test]
fn secret_key_from_parts_takes_what_the_backend_returned() {
    let secret = SecretKey::from_str(RFC_SECRET).unwrap();
    let public = secret.public();
    let made = SecretKey::from_parts(secret.as_bytes().to_vec(), Ok(public.as_bytes().to_vec()));
    assert!(made.unwrap() == secret);
    let failure = || Err(openssl::error::ErrorStack::get());
    assert!(SecretKey::from_parts(secret.as_bytes().to_vec(), failure()).is_none());
    assert!(SecretKey::from_parts(vec![1u8; 31], failure()).is_none());
    assert!(SecretKey::from_parts(Vec::new(), failure()).is_none());
}

#[test]
fn key_text_is_read_in_exactly_one_form() {
    assert_eq!(PublicKey::from_str(RFC_PUBLIC).unwrap().to_string(), RFC_PUBLIC);
    let upper = RFC_PUBLIC.to_uppercase();
    assert_eq!(PublicKey::from_str(&upper), Err(ErrorKind::Parse));
    assert_eq!(PublicKey::from_str(&RFC_PUBLIC[..62]), Err(ErrorKind::Parse));
    assert_eq!(PublicKey::from_str(""), Err(ErrorKind::Parse));
    let longer = format!("{}00", RFC_PUBLIC);
    assert_eq!(PublicKey::from_str(&longer), Err(ErrorKind::Parse));
    let bad = format!("{}zz", &RFC_PUBLIC[..62]);
    assert_eq!(PublicKey::from_str(&bad), Err(ErrorKind::Parse));
    assert!(SecretKey::from_str(&upper) == Err(ErrorKind::Parse));
    assert!(SecretKey::from_str("9d61") == Err(ErrorKind::Parse));
    assert!(SecretKey::from_str("") == Err(ErrorKind::Parse));
}

#[test]
fn key_bytes_round_trip() {
    let bytes: Vec<u8> = (0u8..32).collect();
    let key = PublicKey::from_bytes(&bytes).unwrap();
    assert_eq!(key.as_bytes(), &bytes[..]);
    assert_eq!(
        key.to_string(),
        "000102030405060708090a0b0c0d0e0f101112131415161718191a1b1c1d1e1f"
    );
    assert_eq!(key.duplicate(), key);
    assert!(PublicKey::from_bytes(&bytes[..31]).is_none());
    assert!(SecretKey::from_bytes(&bytes[..31]) == Err(KeyError::Length));
    assert!(SecretKey::from_bytes(&[]) == Err(KeyError::Length));
    assert!(SecretKey::from_bytes(&[0u8; 33]) == Err(KeyError::Length));
    let secret = SecretKey::from_bytes(&bytes).unwrap();
    assert_eq!(secret.as_bytes(), &bytes[..]);
    assert!(secret.duplicate() == secret);
}

#[test]
fn phrase_of_zero_entropy() {
    let text = mnemonic::encode(&[0u8; 32]).unwrap();
    assert_eq!(String::from_utf8(text.clone()).unwrap(), zero_phrase());
    assert_eq!(text.len(), 101);
    assert_eq!(mnemonic::decode(&text), Some(vec![0u8; 32]));
}

#[test]
fn phrase_needs_32_bytes() {
    assert_eq!(mnemonic::encode(&[0u8; 31]), None);
    assert_eq!(mnemonic::encode(&[0u8; 33]), None);
    assert_eq!(mnemonic::encode(&[]), None);
}

#[test]
fn words_of_the_list() {
    let mut out = Vec::new();
    mnemonic::push_word(&mut out, 0);
    assert_eq!(out, b"babab");
    let mut out = Vec::new();
    mnemonic::push_word(&mut out, 0xffff);
    assert_eq!(out, b"zuzuz");
    let mut out = b"x ".to_vec();
    mnemonic::push_word(&mut out, 0x6668);
    assert_eq!(out, b"x kinom");
    assert_eq!(mnemonic::word_place(b"babab"), Some(0));
    assert_eq!(mnemonic::word_place(b"zuzuz"), Some(0xffff));
    assert_eq!(mnemonic::word_place(b"kinom"), Some(0x6668));
    assert_eq!(mnemonic::word_place(b"kinow"), None);
    assert_eq!(mnemonic::word_place(b"kino"), None);
    assert_eq!(mnemonic::word_place(b"KINOM"), None);
    assert_eq!(mnemonic::word_place(b"abbab"), None);
}

#[test]
fn every_word_has_its_own_place() {
    for x in 0..=u16::MAX {
        let mut out = Vec::new();
        mnemonic::push_word(&mut out, x);
        assert_eq!(mnemonic::word_place(&out), Some(x));
    }
}

#[test]
fn phrase_is_refused_on_a_wrong_checksum_or_shape() {
    let good = zero_phrase();
    assert!(mnemonic::decode(good.as_bytes()).is_some());
    let wrong_sum = good.replace("kinom", "kinop");
    assert_eq!(mnemonic::decode(wrong_sum.as_bytes()), None);
    let short = good[..good.len() - 6].to_string();
    assert_eq!(mnemonic::decode(short.as_bytes()), None);
    let long = format!("{} babab", good);
    assert_eq!(mnemonic::decode(long.as_bytes()), None);
    let doubled = good.replacen(' ', "  ", 1);
    assert_eq!(mnemonic::decode(doubled.as_bytes()), None);
    let padded = format!(" {}", good);
    assert_eq!(mnemonic::decode(padded.as_bytes()), None);
    assert_eq!(mnemonic::decode(b""), None);
}

#[test]
fn recovery_rejects_garbage() {
    assert!(SecretKey::from_mnemonic("not a real phrase", "") == Err(RecoveryError::InvalidPhrase));
    assert!(SecretKey::from_mnemonic("", "") == Err(RecoveryError::InvalidPhrase));
    assert!(SecretKey::from_mnemonic("", "secret") == Err(RecoveryError::InvalidPhrase));
    let wrong_sum = zero_phrase().replace("kinom", "kinop");
    assert!(SecretKey::from_mnemonic(&wrong_sum, "") == Err(RecoveryError::InvalidPhrase));
}

#[test]
fn generated_key_is_recovered_from_its_phrase() {
    for passphrase in ["", "hunter2", "pass phrase with spaces", "\u{17e}lut\u{fd}"] {
        let (key, phrase) = SecretKey::generate(passphrase).unwrap();
        let recovered = SecretKey::from_mnemonic(&phrase, passphrase);
        assert!(recovered == Ok(key));
        assert_eq!(phrase.split(' ').count(), 17);
    }
}

#[test]
fn generation_draws_fresh_entropy() {
    let (first, first_phrase) = SecretKey::generate("").unwrap();
    let (second, second_phrase) = SecretKey::generate("").unwrap();
    assert!(first != second);
    assert_ne!(first_phrase, second_phrase);
}

#[test]
fn passphrase_changes_the_key() {
    let entropy = [0x5au8; 32];
    let (plain, phrase) = SecretKey::from_entropy(&entropy, "").unwrap();
    let (guarded, same_phrase) = SecretKey::from_entropy(&entropy, "hunter2").unwrap();
    let (other, _) = SecretKey::from_entropy(&entropy, "hunter3").unwrap();
    assert_eq!(phrase, same_phrase);
    assert!(plain != guarded);
    assert!(guarded != other);
    assert!(SecretKey::from_mnemonic(&phrase, "hunter2") == Ok(guarded));
    assert!(SecretKey::from_mnemonic(&phrase, "") == Ok(plain));
}

#[test]
fn derivation_is_fixed_by_phrase_and_passphrase() {
    let (key, phrase) = SecretKey::from_entropy(&[0u8; 32], "").unwrap();
    assert_eq!(phrase, zero_phrase());
    let (again, _) = SecretKey::from_entropy(&[0u8; 32], "").unwrap();
    assert!(key == again);
    let derived = SecretKey::derive(phrase.as_bytes(), b"").unwrap();
    assert!(derived == key);
    assert_ne!(key.as_bytes(), &[0u8; 32][..]);
    assert_ne!(key.as_bytes(), phrase.as_bytes());
    assert!(SecretKey::from_entropy(&[0u8; 16], "") == Err(KeyError::Length));
    assert!(SecretKey::from_entropy(&[], "hunter2") == Err(KeyError::Length));
}

#[test]
fn derivation_matches_known_answers() {
    let words = b"abandon abandon abandon abandon abandon abandon abandon abandon abandon \
                  abandon abandon about";
    let key = SecretKey::derive(words, b"TREZOR").unwrap();
    assert_eq!(
        key.to_string(),
        "c55257c360c07c72029aebc1b53c05ed0362ada38ead3e3e9efa3708e5349553"
    );
    let (key, _) = SecretKey::from_entropy(&[0u8; 32], "").unwrap();
    assert_eq!(
        key.to_string(),
        "2eb62a7b8d12f9ada2b3c2c977322b8b94fcd02749d3143323c6922a217318b8"
    );
    assert!(SecretKey::from_mnemonic(&zero_phrase(), "") == Ok(key));
}

#[test]
fn a_backend_answer_counts_when_it_has_the_length_asked_for() {
    use_delivered(Ok(vec![1, 2, 3]), 3, Some(vec![1, 2, 3]));
    use_delivered(Ok(Vec::new()), 0, Some(Vec::new()));
    use_delivered(Ok(vec![1, 2, 3]), 4, None);
    use_delivered(Ok(vec![1, 2, 3]), 2, None);
    use_delivered(Err(openssl::error::ErrorStack::get()), 0, None);
    use_delivered(Err(openssl::error::ErrorStack::get()), 32, None);
}

fn use_delivered(
    answer: Result<Vec<u8>, openssl::error::ErrorStack>,
    len: usize,
    expected: Option<Vec<u8>>,
) {
    assert_eq!(hedera::backend::delivered(answer, len), expected);
}

#[test]
fn public_keys_compare_by_their_bytes() {
    let key = PublicKey::from_str(RFC_PUBLIC).unwrap();
    assert!(key.same_as(&key.duplicate()));
    assert!(key.same_as(&SecretKey::from_str(RFC_SECRET).unwrap().public()));
    let mut bytes = key.as_bytes().to_vec();
    bytes[31] ^= 1;
    assert!(!key.same_as(&PublicKey::from_bytes(&bytes).unwrap()));
    bytes[31] ^= 1;
    bytes[0] ^= 0x80;
    assert!(!key.same_as(&PublicKey::from_bytes(&bytes).unwrap()));
}
