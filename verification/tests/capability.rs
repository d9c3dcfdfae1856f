use yubihsm_proto::capability::{Capability, MAX_CAPABILITIES};
use yubihsm_proto::error::Error;
use yubihsm_proto::return_code::ReturnCode;

const CAPABILITIES: [(Capability, &str); 47] = [
    (Capability::GetOpaque, "get_opaque"),
    (Capability::PutOpaque, "put_opaque"),
    (Capability::PutAuthKey, "put_authkey"),
    (Capability::PutAsymmetric, "put_asymmetric"),
    (Capability::AsymmetricGen, "asymmetric_gen"),
    (Capability::AsymmetricSignPkcs, "asymmetric_sign_pkcs"),
    (Capability::AsymmetricSignPss, "asymmetric_sign_pss"),
    (Capability::AsymmetricSignEcdsa, "asymmetric_sign_ecdsa"),
    (Capability::AsymmetricSignEddsa, "asymmetric_sign_eddsa"),
    (Capability::AsymmetricDecryptPkcs, "asymmetric_decrypt_pkcs"),
    (Capability::AsymmetricDecryptOaep, "asymmetric_decrypt_oaep"),
    (Capability::AsymmetricDecryptEcdh, "asymmetric_decrypt_ecdh"),
    (Capability::ExportWrapped, "export_wrapped"),
    (Capability::ImportWrapped, "import_wrapped"),
    (Capability::PutWrapkey, "put_wrapkey"),
    (Capability::GenerateWrapkey, "generate_wrapkey"),
    (Capability::ExportUnderWrap, "export_under_wrap"),
    (Capability::PutOption, "put_option"),
    (Capability::GetOption, "get_option"),
    (Capability::GetRandomness, "get_randomness"),
    (Capability::PutHmackey, "put_hmackey"),
    (Capability::HmackeyGenerate, "hmackey_generate"),
    (Capability::HmacData, "hmac_data"),
    (Capability::HmacVerify, "hmac_verify"),
    (Capability::Audit, "audit"),
    (Capability::SshCertify, "ssh_certify"),
    (Capability::GetTemplate, "get_template"),
    (Capability::PutTemplate, "put_template"),
    (Capability::Reset, "reset"),
    (Capability::OtpDecrypt, "otp_decrypt"),
    (Capability::OtpAeadCreate, "otp_aead_create"),
    (Capability::OtpAeadRandom, "otp_aead_random"),
    (Capability::OtpAeadRewrapFrom, "otp_aead_rewrap_from"),
    (Capability::OtpAeadRewrapTo, "otp_aead_rewrap_to"),
    (Capability::Attest, "attest"),
    (Capability::PutOtpAeadKey, "put_otp_aead_key"),
    (Capability::GenerateOtpAeadKey, "generate_otp_aead_key"),
    (Capability::WrapData, "wrap_data"),
    (Capability::UnwrapData, "unwrap_data"),
    (Capability::DeleteOpaque, "delete_opaque"),
    (Capability::DeleteAuthkey, "delete_authkey"),
    (Capability::DeleteAsymmetric, "delete_asymmetric"),
    (Capability::DeleteWrapKey, "delete_wrapkey"),
    (Capability::DeleteHmacKey, "delete_hmackey"),
    (Capability::DeleteTemplate, "delete_template"),
    (Capability::DeleteOtpAeadKey, "delete_otp_aead_key"),
    (Capability::Unknown, "unknown"),
];

fn names(list: &[&str]) -> Vec<Vec<u8>> {
    list.iter().map(|n| n.as_bytes().to_vec()).collect()
}

#[test]
fn capability_names() {
    for (cap, name) in CAPABILITIES.iter() {
        assert_eq!(cap.name(), *name);
        assert_eq!(cap.name_string(), String::from(*name));
    }
}

#[test]
fn capability_from_name() {
    for (cap, name) in CAPABILITIES.iter() {
        assert_eq!(Capability::from_name(name), *cap);
        assert_eq!(Capability::from(*name), *cap);
    }
}

#[test]
fn capability_name_round_trips() {
    for (cap, _) in CAPABILITIES.iter() {
        assert_eq!(Capability::from_name(cap.name()), *cap);
        assert_eq!(Capability::from_name(&cap.name_string()), *cap);
    }
}

#[test]
fn unrecognised_name_is_unknown() {
    assert_eq!(Capability::from_name("not_a_real_capability"), Capability::Unknown);
    assert_eq!(Capability::from_name(""), Capability::Unknown);
    assert_eq!(Capability::from_name("unknown"), Capability::Unknown);
    assert_eq!(Capability::from_name("Audit"), Capability::Unknown);
    assert_eq!(Capability::from_name("audit "), Capability::Unknown);
    assert_eq!(Capability::from_name("get_opaque,put_opaque"), Capability::Unknown);
    assert_eq!(Capability::from_name("get_opaqu"), Capability::Unknown);
    assert_eq!(Capability::from_name("get_opaque\0"), Capability::Unknown);
}

#[test]
fn names_join_with_commas() {
    assert_eq!(Capability::join_names(&[]), "");
    assert_eq!(Capability::join_names(&[Capability::Audit]), "audit");
    assert_eq!(
        Capability::join_names(&[Capability::AsymmetricSignPkcs, Capability::GetOpaque]),
        "asymmetric_sign_pkcs,get_opaque"
    );
    assert_eq!(
        Capability::join_names(&[Capability::Reset, Capability::Reset, Capability::Unknown]),
        "reset,reset,unknown"
    );
}

#[test]
fn all_names_join_in_order() {
    let caps: Vec<Capability> = CAPABILITIES.iter().map(|(c, _)| *c).collect();
    let expected: Vec<&str> = CAPABILITIES.iter().map(|(_, n)| *n).collect();
    assert_eq!(Capability::join_names(&caps), expected.join(","));
}

#[test]
fn provider_names_decode_to_capabilities() {
    assert_eq!(
        Capability::try_from_names(
            ReturnCode::Success,
            &names(&["asymmetric_sign_pkcs", "get_opaque"])
        ),
        Ok(vec![Capability::AsymmetricSignPkcs, Capability::GetOpaque])
    );
    assert_eq!(Capability::try_from_names(ReturnCode::Success, &[]), Ok(vec![]));
}

#[test]
fn unrecognised_provider_name_does_not_fail_the_decode() {
    assert_eq!(
        Capability::try_from_names(
            ReturnCode::Success,
            &names(&["audit", "brand_new_capability", "reset"])
        ),
        Ok(vec![Capability::Audit, Capability::Unknown, Capability::Reset])
    );
}

#[test]
fn provider_failure_is_an_error() {
    assert_eq!(
        Capability::try_from_names(ReturnCode::InvalidParams, &names(&["audit"])),
        Err(Error::Provider(ReturnCode::InvalidParams))
    );
    assert_eq!(
        Capability::try_from_names(ReturnCode::BufferTooSmall, &[]),
        Err(Error::Provider(ReturnCode::BufferTooSmall))
    );
}

#[test]
fn provider_failure_comes_before_bad_names() {
    assert_eq!(
        Capability::try_from_names(ReturnCode::GenericError, &[vec![0xff]]),
        Err(Error::Provider(ReturnCode::GenericError))
    );
}

#[test]
fn name_that_is_not_utf8_is_an_error() {
    assert_eq!(
        Capability::try_from_names(ReturnCode::Success, &[b"audit".to_vec(), vec![0xff, 0xfe]]),
        Err(Error::InvalidUtf8)
    );
    assert_eq!(
        Capability::try_from_names(ReturnCode::Success, &[vec![0xc3, 0x28]]),
        Err(Error::InvalidUtf8)
    );
    assert_eq!(
        Capability::try_from_names(ReturnCode::Success, &[vec![0xed, 0xa0, 0x80]]),
        Err(Error::InvalidUtf8)
    );
}

#[test]
fn name_in_utf8_beyond_ascii_is_unknown() {
    assert_eq!(
        Capability::try_from_names(ReturnCode::Success, &["prüfung".as_bytes().to_vec()]),
        Ok(vec![Capability::Unknown])
    );
}

#[test]
fn as_many_names_as_there_is_room_for() {
    assert_eq!(MAX_CAPABILITIES, 64);
    let many: Vec<Vec<u8>> = (0..64).map(|_| b"audit".to_vec()).collect();
    assert_eq!(
        Capability::try_from_names(ReturnCode::Success, &many),
        Ok(vec![Capability::Audit; 64])
    );
}
