use yubihsm_proto::algorithm::Algorithm;
use yubihsm_proto::command::CommandType;
use yubihsm_proto::device::{DeviceInfo, DeviceOption, DeviceOptionValue, PublicKey};

#[test]
fn option_values() {
    assert_eq!(DeviceOptionValue::Disabled.byte(), 0x00);
    assert_eq!(DeviceOptionValue::Enabled.byte(), 0x01);
    assert_eq!(DeviceOptionValue::Fixed.byte(), 0x02);
    assert_eq!(u8::from(DeviceOptionValue::Fixed), 0x02);
}

#[test]
fn option_tags() {
    assert_eq!(DeviceOption::ForceAudit(DeviceOptionValue::Enabled).tag(), 0x01);
    assert_eq!(DeviceOption::CommandAudit(Vec::new()).tag(), 0x03);
    assert_eq!(u8::from(&DeviceOption::ForceAudit(DeviceOptionValue::Disabled)), 0x01);
    assert_eq!(u8::from(DeviceOption::CommandAudit(Vec::new())), 0x03);
}

#[test]
fn force_audit_is_one_byte() {
    assert_eq!(DeviceOption::ForceAudit(DeviceOptionValue::Disabled).to_bytes(), vec![0x00]);
    assert_eq!(DeviceOption::ForceAudit(DeviceOptionValue::Enabled).to_bytes(), vec![0x01]);
    assert_eq!(DeviceOption::ForceAudit(DeviceOptionValue::Fixed).to_bytes(), vec![0x02]);
}

#[test]
fn command_audit_is_pairs_in_order() {
    let opt = DeviceOption::CommandAudit(vec![
        (CommandType::SignPkcs1, DeviceOptionValue::Enabled),
        (CommandType::Echo, DeviceOptionValue::Disabled),
        (CommandType::GetLogs, DeviceOptionValue::Fixed),
    ]);
    assert_eq!(opt.to_bytes(), vec![0x47, 0x01, 0x01, 0x00, 0x4d, 0x02]);
}

#[test]
fn command_audit_keeps_repeats() {
    let opt = DeviceOption::CommandAudit(vec![
        (CommandType::Blink, DeviceOptionValue::Enabled),
        (CommandType::Blink, DeviceOptionValue::Disabled),
    ]);
    assert_eq!(opt.to_bytes(), vec![0x6b, 0x01, 0x6b, 0x00]);
}

#[test]
fn empty_command_audit_is_empty() {
    assert_eq!(DeviceOption::CommandAudit(Vec::new()).to_bytes(), Vec::<u8>::new());
}

#[test]
fn device_info_holds_its_fields() {
    let info = DeviceInfo {
        major_version: 2,
        minor_version: 0,
        patch_version: 1,
        serial: 7_550_123,
        log_capacity: 62,
        log_used: 3,
        algorithms: vec![Algorithm::Rsa2048, Algorithm::EcP256],
    };
    let copy = info.clone();
    assert_eq!(copy.major_version, 2);
    assert_eq!(copy.minor_version, 0);
    assert_eq!(copy.patch_version, 1);
    assert_eq!(copy.serial, 7_550_123);
    assert_eq!(copy.log_capacity, 62);
    assert_eq!(copy.log_used, 3);
    assert_eq!(copy.algorithms, vec![Algorithm::Rsa2048, Algorithm::EcP256]);
}

#[test]
fn public_keys_compare_by_content() {
    assert_eq!(PublicKey::Rsa(vec![1, 2, 3]), PublicKey::Rsa(vec![1, 2, 3]));
    assert_ne!(PublicKey::Rsa(vec![1, 2, 3]), PublicKey::Edc(vec![1, 2, 3]));
    assert_ne!(PublicKey::Ecc(vec![1], vec![2]), PublicKey::Ecc(vec![2], vec![1]));
}
