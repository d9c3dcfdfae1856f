use yubihsm_proto::algorithm::Algorithm;
use yubihsm_proto::capability::Capability;
use yubihsm_proto::domain::Domain;
use yubihsm_proto::error::Error;
use yubihsm_proto::object_info::{ObjectDescriptor, ObjectInfo, ProviderNames, OBJECT_LABEL_SIZE};
use yubihsm_proto::object_type::ObjectType;
use yubihsm_proto::return_code::ReturnCode;

fn label(text: &[u8]) -> [u8; 41] {
    let mut out = [0u8; 41];
    out[..text.len()].copy_from_slice(text);
    out
}

fn descriptor() -> ObjectDescriptor {
    ObjectDescriptor {
        capabilities: [0, 0, 0, 0, 0, 0, 0, 0x21],
        id: 0x0102,
        len: 896,
        domains: 0x8011,
        object_type: 0x03,
        algorithm: 9,
        sequence: 2,
        origin: 1,
        label: label(b"signing key"),
        delegated_capabilities: [0; 8],
    }
}

fn answered(names: &[&str]) -> ProviderNames {
    ProviderNames {
        status: ReturnCode::Success,
        names: names.iter().map(|n| n.as_bytes().to_vec()).collect(),
    }
}

fn failed(status: ReturnCode) -> ProviderNames {
    ProviderNames { status, names: Vec::new() }
}

fn numbers(doms: &[Domain]) -> Vec<u8> {
    doms.iter().map(|d| d.get()).collect()
}

#[test]
fn descriptor_decodes_every_field() {
    let info = ObjectInfo::try_from_descriptor(
        &descriptor(),
        &answered(&["asymmetric_sign_pkcs", "get_opaque"]),
        &answered(&["export_wrapped"]),
    )
    .unwrap();
    assert_eq!(info.capabilities.len(), 2);
    assert!(info.capabilities.contains(&Capability::AsymmetricSignPkcs));
    assert!(info.capabilities.contains(&Capability::GetOpaque));
    assert_eq!(info.id, 0x0102);
    assert_eq!(info.length, 896);
    assert_eq!(numbers(&info.domains), vec![1, 5, 16]);
    assert_eq!(info.object_type, ObjectType::Asymmetric);
    assert_eq!(info.algorithm, Some(Algorithm::Rsa2048));
    assert_eq!(info.sequence, 2);
    assert_eq!(info.origin, 1);
    assert_eq!(info.label, "signing key");
    assert_eq!(info.delegated_capabilities, vec![Capability::ExportWrapped]);
}

#[test]
fn algorithm_code_zero_is_no_algorithm() {
    let mut d = descriptor();
    d.algorithm = 0;
    d.object_type = 0x01;
    let info = ObjectInfo::try_from_descriptor(&d, &answered(&[]), &answered(&[])).unwrap();
    assert_eq!(info.algorithm, None);
    assert_eq!(info.object_type, ObjectType::Opaque);
}

#[test]
fn every_algorithm_code_decodes_to_its_algorithm() {
    for code in 1u32..=47 {
        let mut d = descriptor();
        d.algorithm = code;
        assert!(d.has_known_codes());
        let info = ObjectInfo::try_from_descriptor(&d, &answered(&[]), &answered(&[])).unwrap();
        assert_eq!(info.algorithm, Some(Algorithm::from_code(code)));
        assert_eq!(info.algorithm.unwrap().code(), code);
    }
}

#[test]
fn known_codes_are_told_apart() {
    assert!(descriptor().has_known_codes());
    let mut d = descriptor();
    d.algorithm = 0;
    assert!(d.has_known_codes());
    d.algorithm = 48;
    assert!(!d.has_known_codes());
    d.algorithm = 9;
    d.object_type = 0;
    assert!(!d.has_known_codes());
    d.object_type = 0x83;
    assert!(d.has_known_codes());
}

#[test]
fn failed_capabilities_fail_the_decode() {
    let r = ObjectInfo::try_from_descriptor(
        &descriptor(),
        &failed(ReturnCode::InvalidParams),
        &answered(&["audit"]),
    );
    assert_eq!(r.err(), Some(Error::Provider(ReturnCode::InvalidParams)));
}

#[test]
fn failed_delegated_capabilities_fail_the_decode() {
    let r = ObjectInfo::try_from_descriptor(
        &descriptor(),
        &answered(&["audit"]),
        &failed(ReturnCode::BufferTooSmall),
    );
    assert_eq!(r.err(), Some(Error::Provider(ReturnCode::BufferTooSmall)));
}

#[test]
fn first_failing_field_gives_the_error() {
    let bad = ProviderNames { status: ReturnCode::Success, names: vec![vec![0xff]] };
    let r = ObjectInfo::try_from_descriptor(&descriptor(), &bad, &failed(ReturnCode::Memory));
    assert_eq!(r.err(), Some(Error::InvalidUtf8));
    let r = ObjectInfo::try_from_descriptor(&descriptor(), &failed(ReturnCode::Memory), &bad);
    assert_eq!(r.err(), Some(Error::Provider(ReturnCode::Memory)));
    let r = ObjectInfo::try_from_descriptor(&descriptor(), &answered(&[]), &bad);
    assert_eq!(r.err(), Some(Error::InvalidUtf8));
}

#[test]
fn unrecognised_capability_does_not_fail_the_decode() {
    let info = ObjectInfo::try_from_descriptor(
        &descriptor(),
        &answered(&["get_opaque", "something_new"]),
        &answered(&[]),
    )
    .unwrap();
    assert_eq!(info.capabilities, vec![Capability::GetOpaque, Capability::Unknown]);
    assert_eq!(info.delegated_capabilities, vec![]);
}

#[test]
fn label_ends_at_first_nul() {
    assert_eq!(OBJECT_LABEL_SIZE, 41);
    let mut d = descriptor();
    d.label = label(b"abc\0def");
    let info = ObjectInfo::try_from_descriptor(&d, &answered(&[]), &answered(&[])).unwrap();
    assert_eq!(info.label, "abc");
    d.label = [0; 41];
    let info = ObjectInfo::try_from_descriptor(&d, &answered(&[]), &answered(&[])).unwrap();
    assert_eq!(info.label, "");
}

#[test]
fn label_of_full_length() {
    let mut d = descriptor();
    d.label = label(&[b'x'; 40]);
    let info = ObjectInfo::try_from_descriptor(&d, &answered(&[]), &answered(&[])).unwrap();
    assert_eq!(info.label, "x".repeat(40));
    d.label = [b'y'; 41];
    let info = ObjectInfo::try_from_descriptor(&d, &answered(&[]), &answered(&[])).unwrap();
    assert_eq!(info.label, "y".repeat(41));
}

#[test]
fn label_that_is_not_utf8_is_read_lossily() {
    let mut d = descriptor();
    d.label = label(&[b'k', 0xff, b'y']);
    let info = ObjectInfo::try_from_descriptor(&d, &answered(&[]), &answered(&[])).unwrap();
    assert_eq!(info.label, "k\u{fffd}y");
    d.label = label("schlüssel".as_bytes());
    let info = ObjectInfo::try_from_descriptor(&d, &answered(&[]), &answered(&[])).unwrap();
    assert_eq!(info.label, "schlüssel");
}

#[test]
fn domains_of_descriptor() {
    let mut d = descriptor();
    d.domains = 0;
    let info = ObjectInfo::try_from_descriptor(&d, &answered(&[]), &answered(&[])).unwrap();
    assert!(info.domains.is_empty());
    d.domains = 0xffff;
    let info = ObjectInfo::try_from_descriptor(&d, &answered(&[]), &answered(&[])).unwrap();
    assert_eq!(numbers(&info.domains), (1..=16).collect::<Vec<u8>>());
}

#[test]
fn object_info_clones() {
    let info = ObjectInfo::try_from_descriptor(
        &descriptor(),
        &answered(&["audit"]),
        &answered(&["reset"]),
    )
    .unwrap();
    let copy = info.clone();
    assert_eq!(copy.capabilities, info.capabilities);
    assert_eq!(copy.id, info.id);
    assert_eq!(copy.length, info.length);
    assert_eq!(copy.domains, info.domains);
    assert_eq!(copy.object_type, info.object_type);
    assert_eq!(copy.algorithm, info.algorithm);
    assert_eq!(copy.sequence, info.sequence);
    assert_eq!(copy.origin, info.origin);
    assert_eq!(copy.label, info.label);
    assert_eq!(copy.delegated_capabilities, info.delegated_capabilities);
}
