use rsvelte_profile::digest::{digest, digest_outcome, Outcome, DIGEST_SEED};

fn of(bytes: &[u8]) -> u64 {
    let mut acc = DIGEST_SEED;
    digest(&mut acc, bytes);
    acc
}

fn after(outcomes: &[Outcome]) -> u64 {
    let mut acc = DIGEST_SEED;
    for outcome in outcomes {
        digest_outcome(&mut acc, outcome);
    }
    acc
}

#[test]
fn known_digests() {
    assert_eq!(of(b""), 0xcbf2_9ce4_8422_2325);
    assert_eq!(of(b"a"), 0xaf63_dc4c_8601_ec8c);
    assert_eq!(of(b"foobar"), 0x8594_4171_f739_67e8);
}

#[test]
fn a_digest_can_be_taken_in_pieces() {
    let mut acc = of(b"foo");
    digest(&mut acc, b"bar");
    assert_eq!(acc, of(b"foobar"));
}

#[test]
fn every_byte_and_their_order_count() {
    assert_ne!(of(b"foobar"), of(b"foobaz"));
    assert_ne!(of(b"foobar"), of(b"fooabr"));
}

#[test]
fn an_outcome_contributes_its_texts() {
    let both = Outcome::Compiled { js: b"foo".to_vec(), css: Some(b"bar".to_vec()) };
    assert_eq!(after(&[both]), of(b"foobar"));
    let js = Outcome::Compiled { js: b"foobar".to_vec(), css: None };
    assert_eq!(after(&[js]), of(b"foobar"));
}

#[test]
fn a_failure_contributes() {
    assert_eq!(after(&[Outcome::Failed]), of(b"<err>"));
    assert_ne!(after(&[Outcome::Failed]), after(&[]));
    let empty = Outcome::Compiled { js: Vec::new(), css: None };
    assert_ne!(after(&[Outcome::Failed]), after(&[empty]));
}
