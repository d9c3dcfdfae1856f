use crate::error::Error;
use crate::return_code::ReturnCode;
use crate::text::{str_eq, utf8_strict};
use vstd::prelude::*;
use vstd::std_specs::convert::FromSpecImpl;
use vstd::string::StringExecFns;
use vstd::utf8::{decode_utf8, valid_utf8};

verus! {

/// A permission that an object or an authentication key can hold. `Unknown`
/// stands for a permission whose name this library does not recognise.
#[derive(Clone, Copy, Debug, PartialEq, Eq, Structural)]
pub enum Capability {
    GetOpaque,
    PutOpaque,
    PutAuthKey,
    PutAsymmetric,
    AsymmetricGen,
    AsymmetricSignPkcs,
    AsymmetricSignPss,
    AsymmetricSignEcdsa,
    AsymmetricSignEddsa,
    AsymmetricDecryptPkcs,
    AsymmetricDecryptOaep,
    AsymmetricDecryptEcdh,
    ExportWrapped,
    ImportWrapped,
    PutWrapkey,
    GenerateWrapkey,
    ExportUnderWrap,
    PutOption,
    GetOption,
    GetRandomness,
    PutHmackey,
    HmackeyGenerate,
    HmacData,
    HmacVerify,
    Audit,
    SshCertify,
    GetTemplate,
    PutTemplate,
    Reset,
    OtpDecrypt,
    OtpAeadCreate,
    OtpAeadRandom,
    OtpAeadRewrapFrom,
    OtpAeadRewrapTo,
    Attest,
    PutOtpAeadKey,
    GenerateOtpAeadKey,
    WrapData,
    UnwrapData,
    DeleteOpaque,
    DeleteAuthkey,
    DeleteAsymmetric,
    DeleteWrapKey,
    DeleteHmacKey,
    DeleteTemplate,
    DeleteOtpAeadKey,
    Unknown,
}

impl Capability {
    /// The name of the capability in the device protocol.
    pub open spec fn spec_name(self) -> Seq<char> {
        match self {
            Capability::GetOpaque => "get_opaque"@,
            Capability::PutOpaque => "put_opaque"@,
            Capability::PutAuthKey => "put_authkey"@,
            Capability::PutAsymmetric => "put_asymmetric"@,
            Capability::AsymmetricGen => "asymmetric_gen"@,
            Capability::AsymmetricSignPkcs => "asymmetric_sign_pkcs"@,
            Capability::AsymmetricSignPss => "asymmetric_sign_pss"@,
            Capability::AsymmetricSignEcdsa => "asymmetric_sign_ecdsa"@,
            Capability::AsymmetricSignEddsa => "asymmetric_sign_eddsa"@,
            Capability::AsymmetricDecryptPkcs => "asymmetric_decrypt_pkcs"@,
            Capability::AsymmetricDecryptOaep => "asymmetric_decrypt_oaep"@,
            Capability::AsymmetricDecryptEcdh => "asymmetric_decrypt_ecdh"@,
            Capability::ExportWrapped => "export_wrapped"@,
            Capability::ImportWrapped => "import_wrapped"@,
            Capability::PutWrapkey => "put_wrapkey"@,
            Capability::GenerateWrapkey => "generate_wrapkey"@,
            Capability::ExportUnderWrap => "export_under_wrap"@,
            Capability::PutOption => "put_option"@,
            Capability::GetOption => "get_option"@,
            Capability::GetRandomness => "get_randomness"@,
            Capability::PutHmackey => "put_hmackey"@,
            Capability::HmackeyGenerate => "hmackey_generate"@,
            Capability::HmacData => "hmac_data"@,
            Capability::HmacVerify => "hmac_verify"@,
            Capability::Audit => "audit"@,
            Capability::SshCertify => "ssh_certify"@,
            Capability::GetTemplate => "get_template"@,
            Capability::PutTemplate => "put_template"@,
            Capability::Reset => "reset"@,
            Capability::OtpDecrypt => "otp_decrypt"@,
            Capability::OtpAeadCreate => "otp_aead_create"@,
            Capability::OtpAeadRandom => "otp_aead_random"@,
            Capability::OtpAeadRewrapFrom => "otp_aead_rewrap_from"@,
            Capability::OtpAeadRewrapTo => "otp_aead_rewrap_to"@,
            Capability::Attest => "attest"@,
            Capability::PutOtpAeadKey => "put_otp_aead_key"@,
            Capability::GenerateOtpAeadKey => "generate_otp_aead_key"@,
            Capability::WrapData => "wrap_data"@,
            Capability::UnwrapData => "unwrap_data"@,
            Capability::DeleteOpaque => "delete_opaque"@,
            Capability::DeleteAuthkey => "delete_authkey"@,
            Capability::DeleteAsymmetric => "delete_asymmetric"@,
            Capability::DeleteWrapKey => "delete_wrapkey"@,
            Capability::DeleteHmacKey => "delete_hmackey"@,
            Capability::DeleteTemplate => "delete_template"@,
            Capability::DeleteOtpAeadKey => "delete_otp_aead_key"@,
            Capability::Unknown => "unknown"@,
        }
    }

    /// The capability with a given name; `Unknown` for a name that no
    /// capability has.
    pub open spec fn spec_from_name(name: Seq<char>) -> Capability {
        if exists|c: Capability| c.spec_name() == name {
            choose|c: Capability| c.spec_name() == name
        } else {
            Capability::Unknown
        }
    }

    /// The name of the capability in the device protocol: lower case, words
    /// joined by underscores.
    pub fn name(self) -> (name: &'static str)
        ensures
            name@ == self.spec_name(),
    {
        match self {
            Capability::GetOpaque => "get_opaque",
            Capability::PutOpaque => "put_opaque",
            Capability::PutAuthKey => "put_authkey",
            Capability::PutAsymmetric => "put_asymmetric",
            Capability::AsymmetricGen => "asymmetric_gen",
            Capability::AsymmetricSignPkcs => "asymmetric_sign_pkcs",
            Capability::AsymmetricSignPss => "asymmetric_sign_pss",
            Capability::AsymmetricSignEcdsa => "asymmetric_sign_ecdsa",
            Capability::AsymmetricSignEddsa => "asymmetric_sign_eddsa",
            Capability::AsymmetricDecryptPkcs => "asymmetric_decrypt_pkcs",
            Capability::AsymmetricDecryptOaep => "asymmetric_decrypt_oaep",
            Capability::AsymmetricDecryptEcdh => "asymmetric_decrypt_ecdh",
            Capability::ExportWrapped => "export_wrapped",
            Capability::ImportWrapped => "import_wrapped",
            Capability::PutWrapkey => "put_wrapkey",
            Capability::GenerateWrapkey => "generate_wrapkey",
            Capability::ExportUnderWrap => "export_under_wrap",
            Capability::PutOption => "put_option",
            Capability::GetOption => "get_option",
            Capability::GetRandomness => "get_randomness",
            Capability::PutHmackey => "put_hmackey",
            Capability::HmackeyGenerate => "hmackey_generate",
            Capability::HmacData => "hmac_data",
            Capability::HmacVerify => "hmac_verify",
            Capability::Audit => "audit",
            Capability::SshCertify => "ssh_certify",
            Capability::GetTemplate => "get_template",
            Capability::PutTemplate => "put_template",
            Capability::Reset => "reset",
            Capability::OtpDecrypt => "otp_decrypt",
            Capability::OtpAeadCreate => "otp_aead_create",
            Capability::OtpAeadRandom => "otp_aead_random",
            Capability::OtpAeadRewrapFrom => "otp_aead_rewrap_from",
            Capability::OtpAeadRewrapTo => "otp_aead_rewrap_to",
            Capability::Attest => "attest",
            Capability::PutOtpAeadKey => "put_otp_aead_key",
            Capability::GenerateOtpAeadKey => "generate_otp_aead_key",
            Capability::WrapData => "wrap_data",
            Capability::UnwrapData => "unwrap_data",
            Capability::DeleteOpaque => "delete_opaque",
            Capability::DeleteAuthkey => "delete_authkey",
            Capability::DeleteAsymmetric => "delete_asymmetric",
            Capability::DeleteWrapKey => "delete_wrapkey",
            Capability::DeleteHmacKey => "delete_hmackey",
            Capability::DeleteTemplate => "delete_template",
            Capability::DeleteOtpAeadKey => "delete_otp_aead_key",
            Capability::Unknown => "unknown",
        }
    }

    /// The capability with a given name. A name that no capability has gives
    /// `Unknown`, never an error.
    pub fn from_name(name: &str) -> (c: Capability)
        ensures
            c == Self::spec_from_name(name@),
            c != Capability::Unknown ==> c.spec_name() == name@,
            c == Capability::Unknown ==> forall|k: Capability|
                k != Capability::Unknown ==> k.spec_name() != name@,
    {
        let c = if str_eq(name, "get_opaque") {
            Capability::GetOpaque
        } else if str_eq(name, "put_opaque") {
            Capability::PutOpaque
        } else if str_eq(name, "put_authkey") {
            Capability::PutAuthKey
        } else if str_eq(name, "put_asymmetric") {
            Capability::PutAsymmetric
        } else if str_eq(name, "asymmetric_gen") {
            Capability::AsymmetricGen
        } else if str_eq(name, "asymmetric_sign_pkcs") {
            Capability::AsymmetricSignPkcs
        } else if str_eq(name, "asymmetric_sign_pss") {
            Capability::AsymmetricSignPss
        } else if str_eq(name, "asymmetric_sign_ecdsa") {
            Capability::AsymmetricSignEcdsa
        } else if str_eq(name, "asymmetric_sign_eddsa") {
            Capability::AsymmetricSignEddsa
        } else if str_eq(name, "asymmetric_decrypt_pkcs") {
            Capability::AsymmetricDecryptPkcs
        } else if str_eq(name, "asymmetric_decrypt_oaep") {
            Capability::AsymmetricDecryptOaep
        } else if str_eq(name, "asymmetric_decrypt_ecdh") {
            Capability::AsymmetricDecryptEcdh
        } else if str_eq(name, "export_wrapped") {
            Capability::ExportWrapped
        } else if str_eq(name, "import_wrapped") {
            Capability::ImportWrapped
        } else if str_eq(name, "put_wrapkey") {
            Capability::PutWrapkey
        } else if str_eq(name, "generate_wrapkey") {
            Capability::GenerateWrapkey
        } else if str_eq(name, "export_under_wrap") {
            Capability::ExportUnderWrap
        } else if str_eq(name, "put_option") {
            Capability::PutOption
        } else if str_eq(name, "get_option") {
            Capability::GetOption
        } else if str_eq(name, "get_randomness") {
            Capability::GetRandomness
        } else if str_eq(name, "put_hmackey") {
            Capability::PutHmackey
        } else if str_eq(name, "hmackey_generate") {
            Capability::HmackeyGenerate
        } else if str_eq(name, "hmac_data") {
            Capability::HmacData
        } else if str_eq(name, "hmac_verify") {
            Capability::HmacVerify
        } else if str_eq(name, "audit") {
            Capability::Audit
        } else if str_eq(name, "ssh_certify") {
            Capability::SshCertify
        } else if str_eq(name, "get_template") {
            Capability::GetTemplate
        } else if str_eq(name, "put_template") {
            Capability::PutTemplate
        } else if str_eq(name, "reset") {
            Capability::Reset
        } else if str_eq(name, "otp_decrypt") {
            Capability::OtpDecrypt
        } else if str_eq(name, "otp_aead_create") {
            Capability::OtpAeadCreate
        } else if str_eq(name, "otp_aead_random") {
            Capability::OtpAeadRandom
        } else if str_eq(name, "otp_aead_rewrap_from") {
            Capability::OtpAeadRewrapFrom
        } else if str_eq(name, "otp_aead_rewrap_to") {
            Capability::OtpAeadRewrapTo
        } else if str_eq(name, "attest") {
            Capability::Attest
        } else if str_eq(name, "put_otp_aead_key") {
            Capability::PutOtpAeadKey
        } else if str_eq(name, "generate_otp_aead_key") {
            Capability::GenerateOtpAeadKey
        } else if str_eq(name, "wrap_data") {
            Capability::WrapData
        } else if str_eq(name, "unwrap_data") {
            Capability::UnwrapData
        } else if str_eq(name, "delete_opaque") {
            Capability::DeleteOpaque
        } else if str_eq(name, "delete_authkey") {
            Capability::DeleteAuthkey
        } else if str_eq(name, "delete_asymmetric") {
            Capability::DeleteAsymmetric
        } else if str_eq(name, "delete_wrapkey") {
            Capability::DeleteWrapKey
        } else if str_eq(name, "delete_hmackey") {
            Capability::DeleteHmacKey
        } else if str_eq(name, "delete_template") {
            Capability::DeleteTemplate
        } else if str_eq(name, "delete_otp_aead_key") {
            Capability::DeleteOtpAeadKey
        } else {
            Capability::Unknown
        };
        proof {
            if c != Capability::Unknown {
                assert(c.spec_name() == name@);
                let other = choose|k: Capability| k.spec_name() == name@;
                lemma_names_distinct(c, other);
            } else {
                assert forall|k: Capability| k != Capability::Unknown implies k.spec_name()
                    != name@ by {}
                if exists|k: Capability| k.spec_name() == name@ {
                    let other = choose|k: Capability| k.spec_name() == name@;
                    assert(other == Capability::Unknown);
                }
            }
        }
        c
    }
}

/// The most names that the provider is asked for in one call.
pub const MAX_CAPABILITIES: usize = 64;

/// The names of a list of capabilities, joined by commas: the form in which
/// the provider takes a set of capabilities.
pub open spec fn joined_names(caps: Seq<Capability>) -> Seq<char>
    decreases caps.len(),
{
    if caps.len() == 0 {
        Seq::empty()
    } else if caps.len() == 1 {
        caps[0].spec_name()
    } else {
        joined_names(caps.drop_last()) + seq![','] + caps.last().spec_name()
    }
}

/// Whether every name in a list is valid UTF-8.
pub open spec fn names_valid(names: Seq<Vec<u8>>) -> bool {
    forall|i: int| 0 <= i < names.len() ==> valid_utf8(#[trigger] names[i]@)
}

/// The capabilities that a list of UTF-8 names stands for, name by name.
pub open spec fn capabilities_of(names: Seq<Vec<u8>>) -> Seq<Capability> {
    Seq::new(names.len(), |i: int| Capability::spec_from_name(decode_utf8(names[i]@)))
}

/// What the provider's answer to a request for names comes to: the error
/// that carries its status where that is not `Success`, the error for a name
/// that is not UTF-8, else the capability of each name.
pub open spec fn names_result(status: ReturnCode, names: Seq<Vec<u8>>) -> Result<
    Seq<Capability>,
    Error,
> {
    if status != ReturnCode::Success {
        Err(Error::Provider(status))
    } else if !names_valid(names) {
        Err(Error::InvalidUtf8)
    } else {
        Ok(capabilities_of(names))
    }
}

impl Capability {
    /// The name of the capability as an owned string.
    pub fn name_string(self) -> (name: String)
        ensures
            name@ == self.spec_name(),
    {
        String::from_str(self.name())
    }

    /// The names of the capabilities, in the order given, joined by commas.
    /// The provider turns this one string into the bitfield of the set.
    pub fn join_names(caps: &[Capability]) -> (joined: String)
        ensures
            joined@ == joined_names(caps@),
    {
        let mut joined = String::new();
        let mut i: usize = 0;
        while i < caps.len()
            invariant
                i <= caps.len(),
                joined@ == joined_names(caps@.take(i as int)),
            decreases caps.len() - i,
        {
            proof {
                reveal_strlit(",");
                assert(caps@.take(i + 1).drop_last() =~= caps@.take(i as int));
                assert(caps@.take(i + 1).last() == caps@[i as int]);
                assert(","@ =~= seq![',']);
                if i == 0 {
                    assert(joined@ + caps@[0].spec_name() =~= caps@[0].spec_name());
                    assert(caps@.take(1)[0] == caps@[0]);
                }
            }
            if i > 0 {
                joined.append(",");
            }
            joined.append(caps[i].name());
            i = i + 1;
        }
        proof {
            assert(caps@.take(i as int) =~= caps@);
        }
        joined
    }

    /// Reads what the provider answered when asked for the names in a
    /// capability bitfield: the status of the call and the names it wrote.
    /// A status other than `Success` is an error that carries the status; a
    /// name that is not UTF-8 is an error; otherwise each name gives its
    /// capability, an unrecognised one `Unknown`. More names than the
    /// provider was given room for cannot come back and are not accepted.
    pub fn try_from_names(status: ReturnCode, names: &[Vec<u8>]) -> (r: Result<
        Vec<Capability>,
        Error,
    >)
        requires
            status == ReturnCode::Success ==> names.len() <= MAX_CAPABILITIES,
        ensures
            match names_result(status, names@) {
                Ok(caps) => r is Ok && r->Ok_0@ == caps,
                Err(e) => r == Err::<Vec<Capability>, Error>(e),
            },
    {
        if status != ReturnCode::Success {
            return Err(Error::Provider(status));
        }
        let mut out: Vec<Capability> = Vec::new();
        let mut i: usize = 0;
        while i < names.len()
            invariant
                i <= names.len(),
                status == ReturnCode::Success,
                names_valid(names@.take(i as int)),
                out@ == capabilities_of(names@.take(i as int)),
            decreases names.len() - i,
        {
            match utf8_strict(names[i].as_slice()) {
                Some(text) => {
                    let ghost before = out@;
                    out.push(Capability::from_name(text));
                    proof {
                        let a = names@.take(i as int);
                        let b = names@.take(i + 1);
                        assert forall|k: int| 0 <= k < b.len() implies valid_utf8(
                            #[trigger] b[k]@,
                        ) by {
                            if k < i {
                                assert(a[k] == b[k]);
                            }
                        }
                        assert(out@ =~= capabilities_of(b)) by {
                            assert forall|k: int| 0 <= k < b.len() implies out@[k]
                                == capabilities_of(b)[k] by {
                                if k < i {
                                    assert(a[k] == b[k]);
                                    assert(before[k] == capabilities_of(a)[k]);
                                }
                            }
                        }
                    }
                },
                None => {
                    proof {
                        assert(!valid_utf8(names@[i as int]@));
                    }
                    return Err(Error::InvalidUtf8);
                },
            }
            i = i + 1;
        }
        proof {
            assert(names@.take(i as int) =~= names@);
        }
        Ok(out)
    }
}

impl<'a> From<&'a str> for Capability {
    fn from(name: &'a str) -> (r: Capability) {
        Capability::from_name(name)
    }
}

impl<'a> FromSpecImpl<&'a str> for Capability {
    open spec fn obeys_from_spec() -> bool {
        true
    }

    open spec fn from_spec(name: &'a str) -> Capability {
        Capability::spec_from_name(name@)
    }
}

/// No two capabilities share a name.
pub proof fn lemma_names_distinct(a: Capability, b: Capability)
    requires
        a.spec_name() == b.spec_name(),
    ensures
        a == b,
{
    let x = a.spec_name();
    let y = b.spec_name();
    reveal_strlit("get_opaque");
    reveal_strlit("put_opaque");
    reveal_strlit("put_authkey");
    reveal_strlit("put_asymmetric");
    reveal_strlit("asymmetric_gen");
    reveal_strlit("asymmetric_sign_pkcs");
    reveal_strlit("asymmetric_sign_pss");
    reveal_strlit("asymmetric_sign_ecdsa");
    reveal_strlit("asymmetric_sign_eddsa");
    reveal_strlit("asymmetric_decrypt_pkcs");
    reveal_strlit("asymmetric_decrypt_oaep");
    reveal_strlit("asymmetric_decrypt_ecdh");
    reveal_strlit("export_wrapped");
    reveal_strlit("import_wrapped");
    reveal_strlit("put_wrapkey");
    reveal_strlit("generate_wrapkey");
    reveal_strlit("export_under_wrap");
    reveal_strlit("put_option");
    reveal_strlit("get_option");
    reveal_strlit("get_randomness");
    reveal_strlit("put_hmackey");
    reveal_strlit("hmackey_generate");
    reveal_strlit("hmac_data");
    reveal_strlit("hmac_verify");
    reveal_strlit("audit");
    reveal_strlit("ssh_certify");
    reveal_strlit("get_template");
    reveal_strlit("put_template");
    reveal_strlit("reset");
    reveal_strlit("otp_decrypt");
    reveal_strlit("otp_aead_create");
    reveal_strlit("otp_aead_random");
    reveal_strlit("otp_aead_rewrap_from");
    reveal_strlit("otp_aead_rewrap_to");
    reveal_strlit("attest");
    reveal_strlit("put_otp_aead_key");
    reveal_strlit("generate_otp_aead_key");
    reveal_strlit("wrap_data");
    reveal_strlit("unwrap_data");
    reveal_strlit("delete_opaque");
    reveal_strlit("delete_authkey");
    reveal_strlit("delete_asymmetric");
    reveal_strlit("delete_wrapkey");
    reveal_strlit("delete_hmackey");
    reveal_strlit("delete_template");
    reveal_strlit("delete_otp_aead_key");
    reveal_strlit("unknown");
    assert(x.len() == y.len());
    assert(x[0] == y[0]);
    assert(x[7] == y[7]);
    assert(x[9] == y[9]);
    assert(x[17] == y[17]);
    assert(x[19] == y[19]);
}

/// Reading the name of a capability gives the capability back.
pub proof fn lemma_name_round_trip(c: Capability)
    ensures
        Capability::spec_from_name(c.spec_name()) == c,
{
    let other = choose|k: Capability| k.spec_name() == c.spec_name();
    lemma_names_distinct(c, other);
}

} // verus!
