use crate::return_code::ReturnCode;
use crate::text::{lossy_text, utf8_lossy};
use vstd::prelude::*;
use vstd::std_specs::convert::FromSpecImpl;

verus! {

/// The algorithms that the device knows, for keys, signatures, wrapping,
/// one-time passwords and stored data.
#[derive(Clone, Copy, Debug, PartialEq, Eq, Structural)]
pub enum Algorithm {
    RsaPkcs1Sha1,
    RsaPkcs1Sha256,
    RsaPkcs1Sha384,
    RsaPkcs1Sha512,
    RsaPssSha1,
    RsaPssSha256,
    RsaPssSha384,
    RsaPssSha512,
    Rsa2048,
    Rsa3072,
    Rsa4096,
    EcP256,
    EcP384,
    EcP521,
    EcK256,
    EcBp256,
    EcBp384,
    EcBp512,
    HmacSha1,
    HmacSha256,
    HmacSha384,
    HmacSha512,
    EcEcdsaSha1,
    EcEcdh,
    RsaOaepSha1,
    RsaOaepSha256,
    RsaOaepSha384,
    RsaOaepSha512,
    Aes128CcmWrap,
    OpaqueData,
    OpaqueX509Cert,
    Mgf1Sha1,
    Mgf1Sha256,
    Mgf1Sha384,
    Mgf1Sha512,
    TemplSsh,
    YubicoOtpAes128,
    YubicoAesAuth,
    YubicoOtpAes192,
    YubicoOtpAes256,
    Aes192CcmWrap,
    Aes256CcmWrap,
    EcEcdsaSha256,
    EcEcdsaSha384,
    EcEcdsaSha512,
    EcEd25519,
    EcP224,
}

impl Algorithm {
    /// The numeric code that the device uses for this algorithm.
    pub open spec fn spec_code(self) -> u32 {
        match self {
            Algorithm::RsaPkcs1Sha1 => 1,
            Algorithm::RsaPkcs1Sha256 => 2,
            Algorithm::RsaPkcs1Sha384 => 3,
            Algorithm::RsaPkcs1Sha512 => 4,
            Algorithm::RsaPssSha1 => 5,
            Algorithm::RsaPssSha256 => 6,
            Algorithm::RsaPssSha384 => 7,
            Algorithm::RsaPssSha512 => 8,
            Algorithm::Rsa2048 => 9,
            Algorithm::Rsa3072 => 10,
            Algorithm::Rsa4096 => 11,
            Algorithm::EcP256 => 12,
            Algorithm::EcP384 => 13,
            Algorithm::EcP521 => 14,
            Algorithm::EcK256 => 15,
            Algorithm::EcBp256 => 16,
            Algorithm::EcBp384 => 17,
            Algorithm::EcBp512 => 18,
            Algorithm::HmacSha1 => 19,
            Algorithm::HmacSha256 => 20,
            Algorithm::HmacSha384 => 21,
            Algorithm::HmacSha512 => 22,
            Algorithm::EcEcdsaSha1 => 23,
            Algorithm::EcEcdh => 24,
            Algorithm::RsaOaepSha1 => 25,
            Algorithm::RsaOaepSha256 => 26,
            Algorithm::RsaOaepSha384 => 27,
            Algorithm::RsaOaepSha512 => 28,
            Algorithm::Aes128CcmWrap => 29,
            Algorithm::OpaqueData => 30,
            Algorithm::OpaqueX509Cert => 31,
            Algorithm::Mgf1Sha1 => 32,
            Algorithm::Mgf1Sha256 => 33,
            Algorithm::Mgf1Sha384 => 34,
            Algorithm::Mgf1Sha512 => 35,
            Algorithm::TemplSsh => 36,
            Algorithm::YubicoOtpAes128 => 37,
            Algorithm::YubicoAesAuth => 38,
            Algorithm::YubicoOtpAes192 => 39,
            Algorithm::YubicoOtpAes256 => 40,
            Algorithm::Aes192CcmWrap => 41,
            Algorithm::Aes256CcmWrap => 42,
            Algorithm::EcEcdsaSha256 => 43,
            Algorithm::EcEcdsaSha384 => 44,
            Algorithm::EcEcdsaSha512 => 45,
            Algorithm::EcEd25519 => 46,
            Algorithm::EcP224 => 47,
        }
    }

    /// Whether a numeric code is the code of some algorithm.
    pub open spec fn known(code: u32) -> bool {
        exists|v: Algorithm| v.spec_code() == code
    }

    /// The algorithm with a given code, where there is one.
    pub open spec fn spec_from_code(code: u32) -> Option<Algorithm> {
        if Self::known(code) {
            Some(choose|v: Algorithm| v.spec_code() == code)
        } else {
            None
        }
    }

    /// The numeric code that the device uses for this algorithm.
    pub fn code(self) -> (code: u32)
        ensures
            code == self.spec_code(),
            Self::spec_from_code(code) == Some(self),
    {
        proof {
            lemma_algorithm_round_trip(self);
        }
        match self {
            Algorithm::RsaPkcs1Sha1 => 1,
            Algorithm::RsaPkcs1Sha256 => 2,
            Algorithm::RsaPkcs1Sha384 => 3,
            Algorithm::RsaPkcs1Sha512 => 4,
            Algorithm::RsaPssSha1 => 5,
            Algorithm::RsaPssSha256 => 6,
            Algorithm::RsaPssSha384 => 7,
            Algorithm::RsaPssSha512 => 8,
            Algorithm::Rsa2048 => 9,
            Algorithm::Rsa3072 => 10,
            Algorithm::Rsa4096 => 11,
            Algorithm::EcP256 => 12,
            Algorithm::EcP384 => 13,
            Algorithm::EcP521 => 14,
            Algorithm::EcK256 => 15,
            Algorithm::EcBp256 => 16,
            Algorithm::EcBp384 => 17,
            Algorithm::EcBp512 => 18,
            Algorithm::HmacSha1 => 19,
            Algorithm::HmacSha256 => 20,
            Algorithm::HmacSha384 => 21,
            Algorithm::HmacSha512 => 22,
            Algorithm::EcEcdsaSha1 => 23,
            Algorithm::EcEcdh => 24,
            Algorithm::RsaOaepSha1 => 25,
            Algorithm::RsaOaepSha256 => 26,
            Algorithm::RsaOaepSha384 => 27,
            Algorithm::RsaOaepSha512 => 28,
            Algorithm::Aes128CcmWrap => 29,
            Algorithm::OpaqueData => 30,
            Algorithm::OpaqueX509Cert => 31,
            Algorithm::Mgf1Sha1 => 32,
            Algorithm::Mgf1Sha256 => 33,
            Algorithm::Mgf1Sha384 => 34,
            Algorithm::Mgf1Sha512 => 35,
            Algorithm::TemplSsh => 36,
            Algorithm::YubicoOtpAes128 => 37,
            Algorithm::YubicoAesAuth => 38,
            Algorithm::YubicoOtpAes192 => 39,
            Algorithm::YubicoOtpAes256 => 40,
            Algorithm::Aes192CcmWrap => 41,
            Algorithm::Aes256CcmWrap => 42,
            Algorithm::EcEcdsaSha256 => 43,
            Algorithm::EcEcdsaSha384 => 44,
            Algorithm::EcEcdsaSha512 => 45,
            Algorithm::EcEd25519 => 46,
            Algorithm::EcP224 => 47,
        }
    }

    /// The algorithm with a given code, or `None` for a code that the closed set
    /// does not hold.
    pub fn try_from_code(code: u32) -> (r: Option<Algorithm>)
        ensures
            r == Self::spec_from_code(code),
            r is Some <==> Self::known(code),
            r matches Some(v) ==> v.spec_code() == code,
    {
        let r = if code == 1 {
            Some(Algorithm::RsaPkcs1Sha1)
        } else if code == 2 {
            Some(Algorithm::RsaPkcs1Sha256)
        } else if code == 3 {
            Some(Algorithm::RsaPkcs1Sha384)
        } else if code == 4 {
            Some(Algorithm::RsaPkcs1Sha512)
        } else if code == 5 {
            Some(Algorithm::RsaPssSha1)
        } else if code == 6 {
            Some(Algorithm::RsaPssSha256)
        } else if code == 7 {
            Some(Algorithm::RsaPssSha384)
        } else if code == 8 {
            Some(Algorithm::RsaPssSha512)
        } else if code == 9 {
            Some(Algorithm::Rsa2048)
        } else if code == 10 {
            Some(Algorithm::Rsa3072)
        } else if code == 11 {
            Some(Algorithm::Rsa4096)
        } else if code == 12 {
            Some(Algorithm::EcP256)
        } else if code == 13 {
            Some(Algorithm::EcP384)
        } else if code == 14 {
            Some(Algorithm::EcP521)
        } else if code == 15 {
            Some(Algorithm::EcK256)
        } else if code == 16 {
            Some(Algorithm::EcBp256)
        } else if code == 17 {
            Some(Algorithm::EcBp384)
        } else if code == 18 {
            Some(Algorithm::EcBp512)
        } else if code == 19 {
            Some(Algorithm::HmacSha1)
        } else if code == 20 {
            Some(Algorithm::HmacSha256)
        } else if code == 21 {
            Some(Algorithm::HmacSha384)
        } else if code == 22 {
            Some(Algorithm::HmacSha512)
        } else if code == 23 {
            Some(Algorithm::EcEcdsaSha1)
        } else if code == 24 {
            Some(Algorithm::EcEcdh)
        } else if code == 25 {
            Some(Algorithm::RsaOaepSha1)
        } else if code == 26 {
            Some(Algorithm::RsaOaepSha256)
        } else if code == 27 {
            Some(Algorithm::RsaOaepSha384)
        } else if code == 28 {
            Some(Algorithm::RsaOaepSha512)
        } else if code == 29 {
            Some(Algorithm::Aes128CcmWrap)
        } else if code == 30 {
            Some(Algorithm::OpaqueData)
        } else if code == 31 {
            Some(Algorithm::OpaqueX509Cert)
        } else if code == 32 {
            Some(Algorithm::Mgf1Sha1)
        } else if code == 33 {
            Some(Algorithm::Mgf1Sha256)
        } else if code == 34 {
            Some(Algorithm::Mgf1Sha384)
        } else if code == 35 {
            Some(Algorithm::Mgf1Sha512)
        } else if code == 36 {
            Some(Algorithm::TemplSsh)
        } else if code == 37 {
            Some(Algorithm::YubicoOtpAes128)
        } else if code == 38 {
            Some(Algorithm::YubicoAesAuth)
        } else if code == 39 {
            Some(Algorithm::YubicoOtpAes192)
        } else if code == 40 {
            Some(Algorithm::YubicoOtpAes256)
        } else if code == 41 {
            Some(Algorithm::Aes192CcmWrap)
        } else if code == 42 {
            Some(Algorithm::Aes256CcmWrap)
        } else if code == 43 {
            Some(Algorithm::EcEcdsaSha256)
        } else if code == 44 {
            Some(Algorithm::EcEcdsaSha384)
        } else if code == 45 {
            Some(Algorithm::EcEcdsaSha512)
        } else if code == 46 {
            Some(Algorithm::EcEd25519)
        } else if code == 47 {
            Some(Algorithm::EcP224)
        } else {
            None
        };
        proof {
            match r {
                Some(v) => {
                    assert(v.spec_code() == code);
                    lemma_algorithm_round_trip(v);
                },
                None => {
                    assert forall|v: Algorithm| v.spec_code() != code by {}
                },
            }
        }
        r
    }

    /// Whether a numeric code is the code of some algorithm.
    pub fn is_known(code: u32) -> (b: bool)
        ensures
            b == Self::known(code),
    {
        Self::try_from_code(code).is_some()
    }

    /// The algorithm with a given code. A code outside the closed set is a
    /// mismatch between device and library that no caller can mend, so it is
    /// not accepted here: test with `is_known` first.
    pub fn from_code(code: u32) -> (v: Algorithm)
        requires
            Self::known(code),
        ensures
            v.spec_code() == code,
            Some(v) == Self::spec_from_code(code),
    {
        match Self::try_from_code(code) {
            Some(v) => v,
            None => {
                proof {
                    assert(false);
                }
                Algorithm::RsaPkcs1Sha1
            },
        }
    }
    /// Reads what the provider answered when asked for the name of an
    /// algorithm: the status of the call and the name it pointed to. The
    /// algorithm has a name only where the status is `Success`; the name is
    /// then read as UTF-8, lossily.
    pub fn name_from_provider(status: ReturnCode, name: &[u8]) -> (text: Option<String>)
        ensures
            status == ReturnCode::Success ==> text is Some && text->Some_0@ == lossy_text(name@),
            status != ReturnCode::Success ==> text is None,
    {
        if status == ReturnCode::Success {
            Some(utf8_lossy(name))
        } else {
            None
        }
    }
}

impl From<Algorithm> for u32 {
    fn from(alg: Algorithm) -> (r: u32) {
        alg.code()
    }
}

impl FromSpecImpl<Algorithm> for u32 {
    open spec fn obeys_from_spec() -> bool {
        true
    }

    open spec fn from_spec(alg: Algorithm) -> u32 {
        alg.spec_code()
    }
}

/// No two values share a code.
pub proof fn lemma_algorithm_injective(a: Algorithm, b: Algorithm)
    requires
        a.spec_code() == b.spec_code(),
    ensures
        a == b,
{
}

/// Decoding the code of a value gives the value back.
pub proof fn lemma_algorithm_round_trip(v: Algorithm)
    ensures
        Algorithm::known(v.spec_code()),
        Algorithm::spec_from_code(v.spec_code()) == Some(v),
{
    let other = choose|o: Algorithm| o.spec_code() == v.spec_code();
    lemma_algorithm_injective(v, other);
}

/// Encoding what a known code decodes to gives the code back.
pub proof fn lemma_algorithm_code_round_trip(code: u32)
    requires
        Algorithm::known(code),
    ensures
        Algorithm::spec_from_code(code)->Some_0.spec_code() == code,
{
}

} // verus!
