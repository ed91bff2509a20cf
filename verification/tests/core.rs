//! Tests of the pointer model and the batch request shapes.

use lfs::pointer::Pointer;
use lfs::protocol::pull_plan;
use lfs::protocol::push_plan;
use lfs::protocol::build_request;
use lfs::protocol::HashAlgo;
use lfs::protocol::Operation;
use lfs::protocol::TransferAdapter;

fn counting_hash() -> Vec<u8> {
    let mut h: Vec<u8> = Vec::new();
    let mut b: u8 = 0;
    while h.len() < 32 {
        h.push(b);
        b += 1;
    }
    h
}

#[test]
fn hex_of_counting_hash() {
    let p = Pointer::new(counting_hash(), 10);
    let expected = b"000102030405060708090a0b0c0d0e0f101112131415161718191a1b1c1d1e1f";
    assert_eq!(p.hex(), expected.to_vec());
}

#[test]
fn path_is_sharded_by_leading_digits() {
    let p = Pointer::new(counting_hash(), 10);
    let expected =
        b"00/01/000102030405060708090a0b0c0d0e0f101112131415161718191a1b1c1d1e1f";
    assert_eq!(p.path(), expected.to_vec());
}

#[test]
fn path_is_pure_in_the_identifier() {
    let a = Pointer::new(vec![0xab; 32], 1);
    let b = Pointer::new(vec![0xab; 32], 2);
    assert_eq!(a.path(), b.path());
    assert_eq!(a.hex(), b.hex());
}

#[test]
fn distinct_identifiers_give_distinct_paths() {
    let a = Pointer::new(vec![0xab; 32], 1);
    let b = Pointer::new(vec![0xac; 32], 1);
    assert_ne!(a.hex(), b.hex());
    assert_ne!(a.path(), b.path());
}

#[test]
fn pointer_accessors() {
    let p = Pointer::new(vec![0xff; 32], 123);
    assert_eq!(p.size(), 123);
    assert_eq!(p.hash().clone(), vec![0xff; 32]);
    assert_eq!(p.hex(), vec![b'f'; 64]);
}

#[test]
fn empty_pull_plans_no_request() {
    let pointers: Vec<Pointer> = Vec::new();
    assert!(pull_plan(&pointers).is_none());
}

#[test]
fn empty_push_plans_no_request() {
    let pointers: Vec<Pointer> = Vec::new();
    assert!(push_plan(&pointers).is_none());
}

#[test]
fn pull_plan_builds_download_request() {
    let pointers = vec![Pointer::new(vec![0x11; 32], 5), Pointer::new(vec![0x22; 32], 7)];
    let req = pull_plan(&pointers).unwrap();
    assert!(matches!(req.operation, Operation::Download));
    assert!(matches!(req.hash_algo, HashAlgo::Sha256));
    assert_eq!(req.transfers.len(), 1);
    assert!(matches!(req.transfers[0], TransferAdapter::Basic));
    assert_eq!(req.objects.len(), 2);
    assert_eq!(req.objects[0].oid, pointers[0].hex());
    assert_eq!(req.objects[0].size, 5);
    assert_eq!(req.objects[1].oid, pointers[1].hex());
    assert_eq!(req.objects[1].size, 7);
}

#[test]
fn push_plan_builds_upload_request() {
    let pointers = vec![Pointer::new(vec![0x33; 32], 9)];
    let req = push_plan(&pointers).unwrap();
    assert!(matches!(req.operation, Operation::Upload));
    assert_eq!(req.objects.len(), 1);
    assert_eq!(req.objects[0].oid, pointers[0].hex());
    assert_eq!(req.objects[0].size, 9);
}

#[test]
fn build_request_preserves_input_order() {
    let pointers = vec![
        Pointer::new(vec![0x01; 32], 1),
        Pointer::new(vec![0x02; 32], 2),
        Pointer::new(vec![0x03; 32], 3),
    ];
    let req = build_request(Operation::Upload, &pointers);
    assert_eq!(req.objects.len(), 3);
    for (i, p) in pointers.iter().enumerate() {
        assert_eq!(req.objects[i].oid, p.hex());
    }
}
