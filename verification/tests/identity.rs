use do_ssh::identity::creation_notice;
use do_ssh::identity::load_or_create;
use do_ssh::identity::load_with;
use do_ssh::identity::persisted;
use do_ssh::identity::plan_generate;
use do_ssh::identity::IdentityError;
use do_ssh::identity::KeyFileRead;
use do_ssh::identity::LoadStep;
use do_ssh::identity::SecretSeed;
use do_ssh::identity::SEED_LEN;

fn seed_of(byte: u8) -> SecretSeed {
    match SecretSeed::from_bytes(&[byte; 32]) {
        Ok(seed) => seed,
        Err(error) => panic!("{:?}", error),
    }
}

fn failure(step: LoadStep) -> IdentityError {
    match step {
        LoadStep::Failed { error } => error,
        LoadStep::Ready { .. } => panic!("expected a failure, got a seed"),
        LoadStep::Create { .. } => panic!("expected a failure, got a request to create"),
    }
}

fn hex(text: &str) -> Vec<u8> {
    (0..text.len() / 2).map(|i| u8::from_str_radix(&text[2 * i..2 * i + 2], 16).unwrap()).collect()
}

#[test]
fn seed_is_32_bytes() {
    assert_eq!(SEED_LEN, 32);
    let bytes: Vec<u8> = (0u8..32).collect();
    let seed = SecretSeed::from_bytes(&bytes).ok().unwrap();
    assert_eq!(seed.to_bytes().to_vec(), bytes);
}

#[test]
fn seed_of_any_other_length_is_corrupt() {
    for len in [0usize, 1, 10, 31, 33, 64, 1000] {
        let bytes = vec![7u8; len];
        match SecretSeed::from_bytes(&bytes) {
            Err(error) => assert_eq!(error, IdentityError::Corrupt { len }),
            Ok(_) => panic!("{} bytes taken for a seed", len),
        }
    }
}

#[test]
fn key_file_with_a_seed_is_loaded() {
    let bytes: Vec<u8> = (100u8..132).collect();
    for allow_create in [false, true] {
        match load_or_create(KeyFileRead::Found { bytes: bytes.clone() }, allow_create) {
            LoadStep::Ready { seed } => assert_eq!(seed.to_bytes().to_vec(), bytes),
            _ => panic!("expected the seed of the file"),
        }
    }
}

#[test]
fn missing_key_file_without_create_is_not_found() {
    let error = failure(load_or_create(KeyFileRead::Missing, false));
    assert_eq!(error, IdentityError::NotFound);
}

#[test]
fn missing_key_file_without_create_fails_the_same_way_each_time() {
    for _ in 0..5 {
        assert_eq!(failure(load_or_create(KeyFileRead::Missing, false)), IdentityError::NotFound);
    }
    for byte in [0u8, 1, 255] {
        let step = load_with(KeyFileRead::Missing, false, seed_of(byte));
        assert_eq!(failure(step), IdentityError::NotFound);
    }
}

#[test]
fn key_file_of_ten_bytes_is_corrupt_whatever_the_create_flag() {
    for allow_create in [false, true] {
        let step = load_or_create(KeyFileRead::Found { bytes: vec![0u8; 10] }, allow_create);
        assert_eq!(failure(step), IdentityError::Corrupt { len: 10 });
        let step =
            load_with(KeyFileRead::Found { bytes: vec![0u8; 10] }, allow_create, seed_of(9));
        assert_eq!(failure(step), IdentityError::Corrupt { len: 10 });
    }
}

#[test]
fn empty_key_file_is_corrupt() {
    let step = load_or_create(KeyFileRead::Found { bytes: Vec::new() }, true);
    assert_eq!(failure(step), IdentityError::Corrupt { len: 0 });
}

#[test]
fn missing_key_file_with_create_asks_for_a_new_seed() {
    match load_or_create(KeyFileRead::Missing, true) {
        LoadStep::Create { seed } => assert_eq!(seed.to_bytes().len(), 32),
        _ => panic!("expected a request to create"),
    }
}

#[test]
fn new_seed_is_the_one_handed_in() {
    match load_with(KeyFileRead::Missing, true, seed_of(42)) {
        LoadStep::Create { seed } => assert_eq!(seed.to_bytes(), [42u8; 32]),
        _ => panic!("expected a request to create"),
    }
}

#[test]
fn handed_in_seed_is_unused_where_the_file_has_one() {
    match load_with(KeyFileRead::Found { bytes: vec![1u8; 32] }, true, seed_of(42)) {
        LoadStep::Ready { seed } => assert_eq!(seed.to_bytes(), [1u8; 32]),
        _ => panic!("expected the seed of the file"),
    }
}

#[test]
fn unreadable_key_file_is_an_error_whatever_the_create_flag() {
    for allow_create in [false, true] {
        let read = KeyFileRead::Unreadable { message: "Permission denied (os error 13)".to_string() };
        assert_eq!(
            failure(load_or_create(read, allow_create)),
            IdentityError::ReadFailed { message: "Permission denied (os error 13)".to_string() }
        );
    }
}

#[test]
fn generated_seeds_differ() {
    let one = SecretSeed::generate();
    let other = SecretSeed::generate();
    assert!(one.to_bytes() != other.to_bytes());
    assert!(one.to_bytes() != [0u8; 32]);
}

#[test]
fn written_seed_is_the_identity() {
    match persisted(seed_of(3), Ok(())) {
        Ok(seed) => assert_eq!(seed.to_bytes(), [3u8; 32]),
        Err(error) => panic!("{:?}", error),
    }
}

#[test]
fn unwritten_seed_is_no_identity() {
    match persisted(seed_of(3), Err("No space left on device (os error 28)".to_string())) {
        Err(error) => assert_eq!(
            error,
            IdentityError::PersistFailed {
                message: "No space left on device (os error 28)".to_string()
            }
        ),
        Ok(_) => panic!("a seed that was not written was accepted"),
    }
}

#[test]
fn existing_key_file_is_kept_unless_overwriting_is_asked_for() {
    match plan_generate(true, false) {
        Err(error) => assert_eq!(error, IdentityError::AlreadyExists),
        Ok(_) => panic!("an existing key file would have been replaced"),
    }
    assert!(plan_generate(true, true).is_ok());
    assert!(plan_generate(false, false).is_ok());
    assert!(plan_generate(false, true).is_ok());
}

#[test]
fn identity_errors_are_worded() {
    assert_eq!(
        IdentityError::NotFound.message(),
        "key file not found, and creating one is disabled"
    );
    assert_eq!(IdentityError::Corrupt { len: 10 }.message(), "key file corrupt: 10 bytes, not 32");
    assert_eq!(IdentityError::ReadFailed { message: "r".to_string() }.message(), "r");
    assert_eq!(IdentityError::PersistFailed { message: "p".to_string() }.message(), "p");
    assert_eq!(
        IdentityError::AlreadyExists.message(),
        "The keyfile already exists and will not be overwritten."
    );
}

#[test]
fn creation_notice_names_the_file() {
    assert_eq!(creation_notice("key.priv"), "Generating new key at key.priv");
    assert_eq!(creation_notice(""), "Generating new key at ");
}

#[test]
fn identity_is_the_ed25519_public_key_of_the_seed() {
    let seed = hex("9d61b19deffd5a60ba844af492ec2cc44449c5697b326919703bac031cae7f60");
    let public = hex("d75a980182b10ab7d54bfed3c964073a0ee172f3daa62325af021a68f707511a");
    let seed = SecretSeed::from_bytes(&seed).ok().unwrap();
    assert_eq!(seed.identity().to_bytes().to_vec(), public);
}

#[test]
fn identity_depends_on_the_seed_alone() {
    assert_eq!(seed_of(1).identity(), seed_of(1).identity());
    assert!(seed_of(1).identity() != seed_of(2).identity());
    assert!(seed_of(1).identity().to_bytes() != seed_of(1).to_bytes());
}

#[test]
fn identity_agrees_with_the_transport() {
    let seed = seed_of(77);
    let key = iroh::SecretKey::from_bytes(&seed.to_bytes());
    assert_eq!(&seed.identity().to_bytes(), key.public().as_bytes());
}
