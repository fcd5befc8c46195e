use checkpoint_conf::error::ConfigErrorKind;
use checkpoint_conf::multisig::{select_signers, MultisigCheckpointSyncerConf};
use checkpoint_conf::storage::CheckpointSyncerConf;

const A1: &str = "0x1111111111111111111111111111111111111111";
const A2: &str = "0x2222222222222222222222222222222222222222";
const A3: &str = "0x3333333333333333333333333333333333333333";

fn s3(region: &str) -> CheckpointSyncerConf {
    CheckpointSyncerConf::S3 { bucket: "b".to_string(), region: region.to_string() }
}

#[test]
fn failed_storage_entry_is_skipped() {
    let mut m = MultisigCheckpointSyncerConf::new();
    m.insert(A1.to_string(), s3("us-east-1"));
    m.insert(A2.to_string(), s3("us-east-1"));
    m.insert(A3.to_string(), s3("us-west-2"));
    // the second signer's storage could not be built
    let built = vec![true, false, true];
    let r = m.signers(&built).unwrap();
    assert_eq!(r.len(), 2);
    assert_eq!(r[0], (vec![0x11u8; 20], 0));
    assert_eq!(r[1], (vec![0x33u8; 20], 2));
}

#[test]
fn bad_address_of_built_entry_fails() {
    let mut m = MultisigCheckpointSyncerConf::new();
    m.insert(A1.to_string(), s3("us-east-1"));
    m.insert("not-an-address".to_string(), s3("us-east-1"));
    let e = m.signers(&vec![true, true]).unwrap_err();
    assert_eq!(e.kind, ConfigErrorKind::AddressParseFailure);
    assert_eq!(e.message(), "not-an-address: key is not an address");
    assert_eq!(select_signers(&vec![true, true], &vec![Some(vec![1u8; 20]), None]), Err(1));
    assert_eq!(m.signers(&vec![true, false]).unwrap().len(), 1);
}

#[test]
fn address_without_prefix_parses() {
    let mut m = MultisigCheckpointSyncerConf::new();
    m.insert("abcdefabcdefabcdefabcdefabcdefabcdefabcd".to_string(), s3("us-east-1"));
    let r = m.signers(&vec![true]).unwrap();
    let mut want = vec![0u8; 20];
    for i in 0..20 {
        want[i] = [0xab, 0xcd, 0xef][i % 3];
    }
    assert_eq!(r[0].0, want);
}

#[test]
fn insert_replaces_same_key() {
    let mut m = MultisigCheckpointSyncerConf::new();
    m.insert(A1.to_string(), s3("us-east-1"));
    m.insert(A1.to_string(), s3("eu-west-1"));
    assert_eq!(m.entries().len(), 1);
    match &m.entries()[0].1 {
        CheckpointSyncerConf::S3 { region, .. } => assert_eq!(region, "eu-west-1"),
        other => panic!("unexpected {:?}", other),
    }
}

#[test]
fn select_with_nothing_built_is_empty() {
    let r = select_signers(&vec![false, false], &vec![None, Some(vec![1u8; 20])]).unwrap();
    assert!(r.is_empty());
}
