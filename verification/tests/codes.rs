use yubihsm_proto::algorithm::Algorithm;
use yubihsm_proto::object_type::ObjectType;
use yubihsm_proto::return_code::ReturnCode;

const RETURN_CODES: [ReturnCode; 30] = [
    ReturnCode::Success,
    ReturnCode::Memory,
    ReturnCode::InitError,
    ReturnCode::NetError,
    ReturnCode::ConnectorNotFound,
    ReturnCode::InvalidParams,
    ReturnCode::WrongLength,
    ReturnCode::BufferTooSmall,
    ReturnCode::CryptogramMismatch,
    ReturnCode::AuthSessionError,
    ReturnCode::MacMismatch,
    ReturnCode::DeviceOk,
    ReturnCode::DeviceInvCommand,
    ReturnCode::DeviceInvData,
    ReturnCode::DeviceInvSession,
    ReturnCode::DeviceAuthFail,
    ReturnCode::DeviceSessionsFull,
    ReturnCode::DeviceSessionFailed,
    ReturnCode::DeviceStorageFailed,
    ReturnCode::DeviceWrongLength,
    ReturnCode::DeviceInvPermission,
    ReturnCode::DeviceLogFull,
    ReturnCode::DeviceObjNotFound,
    ReturnCode::DeviceIdIllegal,
    ReturnCode::DeviceInvalidOtp,
    ReturnCode::DeviceDemoMode,
    ReturnCode::DeviceCmdUnexecuted,
    ReturnCode::GenericError,
    ReturnCode::DeviceObjectExists,
    ReturnCode::ConnectorError,
];

const ALGORITHMS: [Algorithm; 47] = [
    Algorithm::RsaPkcs1Sha1,
    Algorithm::RsaPkcs1Sha256,
    Algorithm::RsaPkcs1Sha384,
    Algorithm::RsaPkcs1Sha512,
    Algorithm::RsaPssSha1,
    Algorithm::RsaPssSha256,
    Algorithm::RsaPssSha384,
    Algorithm::RsaPssSha512,
    Algorithm::Rsa2048,
    Algorithm::Rsa3072,
    Algorithm::Rsa4096,
    Algorithm::EcP256,
    Algorithm::EcP384,
    Algorithm::EcP521,
    Algorithm::EcK256,
    Algorithm::EcBp256,
    Algorithm::EcBp384,
    Algorithm::EcBp512,
    Algorithm::HmacSha1,
    Algorithm::HmacSha256,
    Algorithm::HmacSha384,
    Algorithm::HmacSha512,
    Algorithm::EcEcdsaSha1,
    Algorithm::EcEcdh,
    Algorithm::RsaOaepSha1,
    Algorithm::RsaOaepSha256,
    Algorithm::RsaOaepSha384,
    Algorithm::RsaOaepSha512,
    Algorithm::Aes128CcmWrap,
    Algorithm::OpaqueData,
    Algorithm::OpaqueX509Cert,
    Algorithm::Mgf1Sha1,
    Algorithm::Mgf1Sha256,
    Algorithm::Mgf1Sha384,
    Algorithm::Mgf1Sha512,
    Algorithm::TemplSsh,
    Algorithm::YubicoOtpAes128,
    Algorithm::YubicoAesAuth,
    Algorithm::YubicoOtpAes192,
    Algorithm::YubicoOtpAes256,
    Algorithm::Aes192CcmWrap,
    Algorithm::Aes256CcmWrap,
    Algorithm::EcEcdsaSha256,
    Algorithm::EcEcdsaSha384,
    Algorithm::EcEcdsaSha512,
    Algorithm::EcEd25519,
    Algorithm::EcP224,
];

const OBJECT_TYPES: [(ObjectType, u32); 8] = [
    (ObjectType::Opaque, 0x01),
    (ObjectType::AuthKey, 0x02),
    (ObjectType::Asymmetric, 0x03),
    (ObjectType::WrapKey, 0x04),
    (ObjectType::HmacKey, 0x05),
    (ObjectType::Template, 0x06),
    (ObjectType::OtpAeadKey, 0x07),
    (ObjectType::Public, 0x83),
];

#[test]
fn return_codes_count_down_from_zero() {
    for (i, rc) in RETURN_CODES.iter().enumerate() {
        assert_eq!(rc.code(), -(i as i32));
        assert_eq!(i32::from(*rc), -(i as i32));
    }
    assert_eq!(ReturnCode::Success.code(), 0);
    assert_eq!(ReturnCode::MacMismatch.code(), -10);
    assert_eq!(ReturnCode::DeviceObjNotFound.code(), -22);
    assert_eq!(ReturnCode::ConnectorError.code(), -29);
}

#[test]
fn return_code_round_trips() {
    for rc in RETURN_CODES.iter() {
        assert!(ReturnCode::is_known(rc.code()));
        assert_eq!(ReturnCode::from_code(rc.code()), *rc);
        assert_eq!(ReturnCode::try_from_code(rc.code()), Some(*rc));
    }
}

#[test]
fn return_code_outside_the_set_is_not_known() {
    for code in [1, 2, 100, -30, -31, -1000, i32::MAX, i32::MIN] {
        assert!(!ReturnCode::is_known(code));
        assert_eq!(ReturnCode::try_from_code(code), None);
    }
    let known = (i32::from(i16::MIN)..=i32::from(i16::MAX))
        .filter(|c| ReturnCode::is_known(*c))
        .count();
    assert_eq!(known, 30);
}

#[test]
fn only_success_is_success() {
    for rc in RETURN_CODES.iter() {
        assert_eq!(rc.is_success(), *rc == ReturnCode::Success);
    }
}

#[test]
fn return_code_names_are_variant_names() {
    for rc in RETURN_CODES.iter() {
        assert_eq!(rc.name(), format!("{:?}", rc));
    }
}

#[test]
fn return_code_describe_appends_name() {
    assert_eq!(
        ReturnCode::MacMismatch.describe(b"Unable to verify MAC"),
        "Unable to verify MAC (ReturnCode::MacMismatch)"
    );
    assert_eq!(ReturnCode::Success.describe(b"Success"), "Success (ReturnCode::Success)");
    assert_eq!(ReturnCode::Memory.describe(b""), " (ReturnCode::Memory)");
}

#[test]
fn return_code_describe_reads_lossily() {
    assert_eq!(
        ReturnCode::NetError.describe(&[b'n', 0xff, b't']),
        "n\u{fffd}t (ReturnCode::NetError)"
    );
    assert_eq!(
        ReturnCode::NetError.describe("Verbindung gestört".as_bytes()),
        "Verbindung gestört (ReturnCode::NetError)"
    );
}

#[test]
fn algorithm_codes_count_up_from_one() {
    for (i, alg) in ALGORITHMS.iter().enumerate() {
        assert_eq!(alg.code(), i as u32 + 1);
        assert_eq!(u32::from(*alg), i as u32 + 1);
    }
    assert_eq!(Algorithm::RsaPkcs1Sha1.code(), 1);
    assert_eq!(Algorithm::EcP256.code(), 12);
    assert_eq!(Algorithm::Aes128CcmWrap.code(), 29);
    assert_eq!(Algorithm::EcEd25519.code(), 46);
    assert_eq!(Algorithm::EcP224.code(), 47);
}

#[test]
fn algorithm_round_trips() {
    for alg in ALGORITHMS.iter() {
        assert!(Algorithm::is_known(alg.code()));
        assert_eq!(Algorithm::from_code(alg.code()), *alg);
        assert_eq!(Algorithm::try_from_code(alg.code()), Some(*alg));
    }
    for code in 1u32..=47 {
        assert_eq!(Algorithm::from_code(code).code(), code);
    }
}

#[test]
fn algorithm_outside_the_set_is_not_known() {
    for code in [0u32, 48, 49, 0x83, 1000, u32::MAX] {
        assert!(!Algorithm::is_known(code));
        assert_eq!(Algorithm::try_from_code(code), None);
    }
}

#[test]
fn algorithm_name_comes_from_provider() {
    assert_eq!(
        Algorithm::name_from_provider(ReturnCode::Success, b"rsa-pkcs1-sha256"),
        Some(String::from("rsa-pkcs1-sha256"))
    );
    assert_eq!(
        Algorithm::name_from_provider(ReturnCode::Success, &[0xc3, 0x28]),
        Some(String::from("\u{fffd}("))
    );
    assert_eq!(Algorithm::name_from_provider(ReturnCode::InvalidParams, b"rsa-pkcs1-sha256"), None);
    assert_eq!(Algorithm::name_from_provider(ReturnCode::GenericError, b""), None);
}

#[test]
fn object_type_codes() {
    for (ty, code) in OBJECT_TYPES.iter() {
        assert_eq!(ty.code(), *code);
        assert_eq!(u32::from(*ty), *code);
        assert!(ObjectType::is_known(*code));
        assert_eq!(ObjectType::from_code(*code), *ty);
        assert_eq!(ObjectType::try_from_code(*code), Some(*ty));
    }
}

#[test]
fn object_type_outside_the_set_is_not_known() {
    for code in [0u32, 8, 0x80, 0x82, 0x84, u32::MAX] {
        assert!(!ObjectType::is_known(code));
        assert_eq!(ObjectType::try_from_code(code), None);
    }
    let known = (0u32..=0xffff).filter(|c| ObjectType::is_known(*c)).count();
    assert_eq!(known, 8);
}
