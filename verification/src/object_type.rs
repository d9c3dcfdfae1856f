use vstd::prelude::*;
use vstd::std_specs::convert::FromSpecImpl;

verus! {

/// The kinds of object that the device stores.
#[derive(Clone, Copy, Debug, PartialEq, Eq, Structural)]
pub enum ObjectType {
    Asymmetric,
    AuthKey,
    HmacKey,
    Opaque,
    OtpAeadKey,
    Public,
    Template,
    WrapKey,
}

impl ObjectType {
    /// The numeric code that the device uses for this object type.
    pub open spec fn spec_code(self) -> u32 {
        match self {
            ObjectType::Asymmetric => 3,
            ObjectType::AuthKey => 2,
            ObjectType::HmacKey => 5,
            ObjectType::Opaque => 1,
            ObjectType::OtpAeadKey => 7,
            ObjectType::Public => 0x83,
            ObjectType::Template => 6,
            ObjectType::WrapKey => 4,
        }
    }

    /// Whether a numeric code is the code of some object type.
    pub open spec fn known(code: u32) -> bool {
        exists|v: ObjectType| v.spec_code() == code
    }

    /// The object type with a given code, where there is one.
    pub open spec fn spec_from_code(code: u32) -> Option<ObjectType> {
        if Self::known(code) {
            Some(choose|v: ObjectType| v.spec_code() == code)
        } else {
            None
        }
    }

    /// The numeric code that the device uses for this object type.
    pub fn code(self) -> (code: u32)
        ensures
            code == self.spec_code(),
            Self::spec_from_code(code) == Some(self),
    {
        proof {
            lemma_object_type_round_trip(self);
        }
        match self {
            ObjectType::Asymmetric => 3,
            ObjectType::AuthKey => 2,
            ObjectType::HmacKey => 5,
            ObjectType::Opaque => 1,
            ObjectType::OtpAeadKey => 7,
            ObjectType::Public => 0x83,
            ObjectType::Template => 6,
            ObjectType::WrapKey => 4,
        }
    }

    /// The object type with a given code, or `None` for a code that the closed set
    /// does not hold.
    pub fn try_from_code(code: u32) -> (r: Option<ObjectType>)
        ensures
            r == Self::spec_from_code(code),
            r is Some <==> Self::known(code),
            r matches Some(v) ==> v.spec_code() == code,
    {
        let r = if code == 3 {
            Some(ObjectType::Asymmetric)
        } else if code == 2 {
            Some(ObjectType::AuthKey)
        } else if code == 5 {
            Some(ObjectType::HmacKey)
        } else if code == 1 {
            Some(ObjectType::Opaque)
        } else if code == 7 {
            Some(ObjectType::OtpAeadKey)
        } else if code == 0x83 {
            Some(ObjectType::Public)
        } else if code == 6 {
            Some(ObjectType::Template)
        } else if code == 4 {
            Some(ObjectType::WrapKey)
        } else {
            None
        };
        proof {
            match r {
                Some(v) => {
                    assert(v.spec_code() == code);
                    lemma_object_type_round_trip(v);
                },
                None => {
                    assert forall|v: ObjectType| v.spec_code() != code by {}
                },
            }
        }
        r
    }

    /// Whether a numeric code is the code of some object type.
    pub fn is_known(code: u32) -> (b: bool)
        ensures
            b == Self::known(code),
    {
        Self::try_from_code(code).is_some()
    }

    /// The object type with a given code. A code outside the closed set is a
    /// mismatch between device and library that no caller can mend, so it is
    /// not accepted here: test with `is_known` first.
    pub fn from_code(code: u32) -> (v: ObjectType)
        requires
            Self::known(code),
        ensures
            v.spec_code() == code,
            Some(v) == Self::spec_from_code(code),
    {
        match Self::try_from_code(code) {
            Some(v) => v,
            None => {
                proof {
                    assert(false);
                }
                ObjectType::Asymmetric
            },
        }
    }
}

impl From<ObjectType> for u32 {
    fn from(ty: ObjectType) -> (r: u32) {
        ty.code()
    }
}

impl FromSpecImpl<ObjectType> for u32 {
    open spec fn obeys_from_spec() -> bool {
        true
    }

    open spec fn from_spec(ty: ObjectType) -> u32 {
        ty.spec_code()
    }
}

/// No two values share a code.
pub proof fn lemma_object_type_injective(a: ObjectType, b: ObjectType)
    requires
        a.spec_code() == b.spec_code(),
    ensures
        a == b,
{
}

/// Decoding the code of a value gives the value back.
pub proof fn lemma_object_type_round_trip(v: ObjectType)
    ensures
        ObjectType::known(v.spec_code()),
        ObjectType::spec_from_code(v.spec_code()) == Some(v),
{
    let other = choose|o: ObjectType| o.spec_code() == v.spec_code();
    lemma_object_type_injective(v, other);
}

/// Encoding what a known code decodes to gives the code back.
pub proof fn lemma_object_type_code_round_trip(code: u32)
    requires
        ObjectType::known(code),
    ensures
        ObjectType::spec_from_code(code)->Some_0.spec_code() == code,
{
}

} // verus!
