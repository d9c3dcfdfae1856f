use crate::text::{lossy_text, utf8_lossy};
use vstd::prelude::*;
use vstd::std_specs::convert::FromSpecImpl;
use vstd::string::StringExecFns;

verus! {

/// The status with which an exchange with the device or its connector ends.
/// Only `Success` says that nothing went wrong.
#[derive(Clone, Copy, Debug, PartialEq, Eq, Structural)]
pub enum ReturnCode {
    Success,
    Memory,
    InitError,
    NetError,
    ConnectorNotFound,
    InvalidParams,
    WrongLength,
    BufferTooSmall,
    CryptogramMismatch,
    AuthSessionError,
    MacMismatch,
    DeviceOk,
    DeviceInvCommand,
    DeviceInvData,
    DeviceInvSession,
    DeviceAuthFail,
    DeviceSessionsFull,
    DeviceSessionFailed,
    DeviceStorageFailed,
    DeviceWrongLength,
    DeviceInvPermission,
    DeviceLogFull,
    DeviceObjNotFound,
    DeviceIdIllegal,
    DeviceInvalidOtp,
    DeviceDemoMode,
    DeviceCmdUnexecuted,
    GenericError,
    DeviceObjectExists,
    ConnectorError,
}

impl ReturnCode {
    /// The numeric code that the device uses for this status.
    pub open spec fn spec_code(self) -> int {
        match self {
            ReturnCode::Success => 0,
            ReturnCode::Memory => -1,
            ReturnCode::InitError => -2,
            ReturnCode::NetError => -3,
            ReturnCode::ConnectorNotFound => -4,
            ReturnCode::InvalidParams => -5,
            ReturnCode::WrongLength => -6,
            ReturnCode::BufferTooSmall => -7,
            ReturnCode::CryptogramMismatch => -8,
            ReturnCode::AuthSessionError => -9,
            ReturnCode::MacMismatch => -10,
            ReturnCode::DeviceOk => -11,
            ReturnCode::DeviceInvCommand => -12,
            ReturnCode::DeviceInvData => -13,
            ReturnCode::DeviceInvSession => -14,
            ReturnCode::DeviceAuthFail => -15,
            ReturnCode::DeviceSessionsFull => -16,
            ReturnCode::DeviceSessionFailed => -17,
            ReturnCode::DeviceStorageFailed => -18,
            ReturnCode::DeviceWrongLength => -19,
            ReturnCode::DeviceInvPermission => -20,
            ReturnCode::DeviceLogFull => -21,
            ReturnCode::DeviceObjNotFound => -22,
            ReturnCode::DeviceIdIllegal => -23,
            ReturnCode::DeviceInvalidOtp => -24,
            ReturnCode::DeviceDemoMode => -25,
            ReturnCode::DeviceCmdUnexecuted => -26,
            ReturnCode::GenericError => -27,
            ReturnCode::DeviceObjectExists => -28,
            ReturnCode::ConnectorError => -29,
        }
    }

    /// Whether a numeric code is the code of some status.
    pub open spec fn known(code: int) -> bool {
        exists|v: ReturnCode| v.spec_code() == code
    }

    /// The status with a given code, where there is one.
    pub open spec fn spec_from_code(code: int) -> Option<ReturnCode> {
        if Self::known(code) {
            Some(choose|v: ReturnCode| v.spec_code() == code)
        } else {
            None
        }
    }

    /// The numeric code that the device uses for this status.
    pub fn code(self) -> (code: i32)
        ensures
            code == self.spec_code(),
            Self::spec_from_code(code as int) == Some(self),
    {
        proof {
            lemma_return_code_round_trip(self);
        }
        match self {
            ReturnCode::Success => 0,
            ReturnCode::Memory => -1,
            ReturnCode::InitError => -2,
            ReturnCode::NetError => -3,
            ReturnCode::ConnectorNotFound => -4,
            ReturnCode::InvalidParams => -5,
            ReturnCode::WrongLength => -6,
            ReturnCode::BufferTooSmall => -7,
            ReturnCode::CryptogramMismatch => -8,
            ReturnCode::AuthSessionError => -9,
            ReturnCode::MacMismatch => -10,
            ReturnCode::DeviceOk => -11,
            ReturnCode::DeviceInvCommand => -12,
            ReturnCode::DeviceInvData => -13,
            ReturnCode::DeviceInvSession => -14,
            ReturnCode::DeviceAuthFail => -15,
            ReturnCode::DeviceSessionsFull => -16,
            ReturnCode::DeviceSessionFailed => -17,
            ReturnCode::DeviceStorageFailed => -18,
            ReturnCode::DeviceWrongLength => -19,
            ReturnCode::DeviceInvPermission => -20,
            ReturnCode::DeviceLogFull => -21,
            ReturnCode::DeviceObjNotFound => -22,
            ReturnCode::DeviceIdIllegal => -23,
            ReturnCode::DeviceInvalidOtp => -24,
            ReturnCode::DeviceDemoMode => -25,
            ReturnCode::DeviceCmdUnexecuted => -26,
            ReturnCode::GenericError => -27,
            ReturnCode::DeviceObjectExists => -28,
            ReturnCode::ConnectorError => -29,
        }
    }

    /// The status with a given code, or `None` for a code that the closed set
    /// does not hold.
    pub fn try_from_code(code: i32) -> (r: Option<ReturnCode>)
        ensures
            r == Self::spec_from_code(code as int),
            r is Some <==> Self::known(code as int),
            r matches Some(v) ==> v.spec_code() == code,
    {
        let r = if code == 0 {
            Some(ReturnCode::Success)
        } else if code == -1 {
            Some(ReturnCode::Memory)
        } else if code == -2 {
            Some(ReturnCode::InitError)
        } else if code == -3 {
            Some(ReturnCode::NetError)
        } else if code == -4 {
            Some(ReturnCode::ConnectorNotFound)
        } else if code == -5 {
            Some(ReturnCode::InvalidParams)
        } else if code == -6 {
            Some(ReturnCode::WrongLength)
        } else if code == -7 {
            Some(ReturnCode::BufferTooSmall)
        } else if code == -8 {
            Some(ReturnCode::CryptogramMismatch)
        } else if code == -9 {
            Some(ReturnCode::AuthSessionError)
        } else if code == -10 {
            Some(ReturnCode::MacMismatch)
        } else if code == -11 {
            Some(ReturnCode::DeviceOk)
        } else if code == -12 {
            Some(ReturnCode::DeviceInvCommand)
        } else if code == -13 {
            Some(ReturnCode::DeviceInvData)
        } else if code == -14 {
            Some(ReturnCode::DeviceInvSession)
        } else if code == -15 {
            Some(ReturnCode::DeviceAuthFail)
        } else if code == -16 {
            Some(ReturnCode::DeviceSessionsFull)
        } else if code == -17 {
            Some(ReturnCode::DeviceSessionFailed)
        } else if code == -18 {
            Some(ReturnCode::DeviceStorageFailed)
        } else if code == -19 {
            Some(ReturnCode::DeviceWrongLength)
        } else if code == -20 {
            Some(ReturnCode::DeviceInvPermission)
        } else if code == -21 {
            Some(ReturnCode::DeviceLogFull)
        } else if code == -22 {
            Some(ReturnCode::DeviceObjNotFound)
        } else if code == -23 {
            Some(ReturnCode::DeviceIdIllegal)
        } else if code == -24 {
            Some(ReturnCode::DeviceInvalidOtp)
        } else if code == -25 {
            Some(ReturnCode::DeviceDemoMode)
        } else if code == -26 {
            Some(ReturnCode::DeviceCmdUnexecuted)
        } else if code == -27 {
            Some(ReturnCode::GenericError)
        } else if code == -28 {
            Some(ReturnCode::DeviceObjectExists)
        } else if code == -29 {
            Some(ReturnCode::ConnectorError)
        } else {
            None
        };
        proof {
            match r {
                Some(v) => {
                    assert(v.spec_code() == code);
                    lemma_return_code_round_trip(v);
                },
                None => {
                    assert forall|v: ReturnCode| v.spec_code() != code by {}
                },
            }
        }
        r
    }

    /// Whether a numeric code is the code of some status.
    pub fn is_known(code: i32) -> (b: bool)
        ensures
            b == Self::known(code as int),
    {
        Self::try_from_code(code).is_some()
    }

    /// The status with a given code. A code outside the closed set is a
    /// mismatch between device and library that no caller can mend, so it is
    /// not accepted here: test with `is_known` first.
    pub fn from_code(code: i32) -> (v: ReturnCode)
        requires
            Self::known(code as int),
        ensures
            v.spec_code() == code,
            Some(v) == Self::spec_from_code(code as int),
    {
        match Self::try_from_code(code) {
            Some(v) => v,
            None => {
                proof {
                    assert(false);
                }
                ReturnCode::Success
            },
        }
    }
    /// The name of the status: that of its variant.
    pub open spec fn spec_name(self) -> Seq<char> {
        match self {
            ReturnCode::Success => "Success"@,
            ReturnCode::Memory => "Memory"@,
            ReturnCode::InitError => "InitError"@,
            ReturnCode::NetError => "NetError"@,
            ReturnCode::ConnectorNotFound => "ConnectorNotFound"@,
            ReturnCode::InvalidParams => "InvalidParams"@,
            ReturnCode::WrongLength => "WrongLength"@,
            ReturnCode::BufferTooSmall => "BufferTooSmall"@,
            ReturnCode::CryptogramMismatch => "CryptogramMismatch"@,
            ReturnCode::AuthSessionError => "AuthSessionError"@,
            ReturnCode::MacMismatch => "MacMismatch"@,
            ReturnCode::DeviceOk => "DeviceOk"@,
            ReturnCode::DeviceInvCommand => "DeviceInvCommand"@,
            ReturnCode::DeviceInvData => "DeviceInvData"@,
            ReturnCode::DeviceInvSession => "DeviceInvSession"@,
            ReturnCode::DeviceAuthFail => "DeviceAuthFail"@,
            ReturnCode::DeviceSessionsFull => "DeviceSessionsFull"@,
            ReturnCode::DeviceSessionFailed => "DeviceSessionFailed"@,
            ReturnCode::DeviceStorageFailed => "DeviceStorageFailed"@,
            ReturnCode::DeviceWrongLength => "DeviceWrongLength"@,
            ReturnCode::DeviceInvPermission => "DeviceInvPermission"@,
            ReturnCode::DeviceLogFull => "DeviceLogFull"@,
            ReturnCode::DeviceObjNotFound => "DeviceObjNotFound"@,
            ReturnCode::DeviceIdIllegal => "DeviceIdIllegal"@,
            ReturnCode::DeviceInvalidOtp => "DeviceInvalidOtp"@,
            ReturnCode::DeviceDemoMode => "DeviceDemoMode"@,
            ReturnCode::DeviceCmdUnexecuted => "DeviceCmdUnexecuted"@,
            ReturnCode::GenericError => "GenericError"@,
            ReturnCode::DeviceObjectExists => "DeviceObjectExists"@,
            ReturnCode::ConnectorError => "ConnectorError"@,
        }
    }

    /// How a status reads with the device's description of it: the
    /// description, then the name of the status in round brackets.
    pub open spec fn spec_describe(self, description: Seq<char>) -> Seq<char> {
        description + " (ReturnCode::"@ + self.spec_name() + ")"@
    }

    /// Whether the status says that nothing went wrong.
    pub fn is_success(self) -> (b: bool)
        ensures
            b == (self == ReturnCode::Success),
    {
        self == ReturnCode::Success
    }

    /// The name of the status: that of its variant.
    pub fn name(self) -> (name: &'static str)
        ensures
            name@ == self.spec_name(),
    {
        match self {
            ReturnCode::Success => "Success",
            ReturnCode::Memory => "Memory",
            ReturnCode::InitError => "InitError",
            ReturnCode::NetError => "NetError",
            ReturnCode::ConnectorNotFound => "ConnectorNotFound",
            ReturnCode::InvalidParams => "InvalidParams",
            ReturnCode::WrongLength => "WrongLength",
            ReturnCode::BufferTooSmall => "BufferTooSmall",
            ReturnCode::CryptogramMismatch => "CryptogramMismatch",
            ReturnCode::AuthSessionError => "AuthSessionError",
            ReturnCode::MacMismatch => "MacMismatch",
            ReturnCode::DeviceOk => "DeviceOk",
            ReturnCode::DeviceInvCommand => "DeviceInvCommand",
            ReturnCode::DeviceInvData => "DeviceInvData",
            ReturnCode::DeviceInvSession => "DeviceInvSession",
            ReturnCode::DeviceAuthFail => "DeviceAuthFail",
            ReturnCode::DeviceSessionsFull => "DeviceSessionsFull",
            ReturnCode::DeviceSessionFailed => "DeviceSessionFailed",
            ReturnCode::DeviceStorageFailed => "DeviceStorageFailed",
            ReturnCode::DeviceWrongLength => "DeviceWrongLength",
            ReturnCode::DeviceInvPermission => "DeviceInvPermission",
            ReturnCode::DeviceLogFull => "DeviceLogFull",
            ReturnCode::DeviceObjNotFound => "DeviceObjNotFound",
            ReturnCode::DeviceIdIllegal => "DeviceIdIllegal",
            ReturnCode::DeviceInvalidOtp => "DeviceInvalidOtp",
            ReturnCode::DeviceDemoMode => "DeviceDemoMode",
            ReturnCode::DeviceCmdUnexecuted => "DeviceCmdUnexecuted",
            ReturnCode::GenericError => "GenericError",
            ReturnCode::DeviceObjectExists => "DeviceObjectExists",
            ReturnCode::ConnectorError => "ConnectorError",
        }
    }

    /// Renders the status for a reader. `description` is the text that the
    /// device library gives for this status, as bytes; it is read as UTF-8,
    /// lossily, and followed by the name of the status in round brackets.
    pub fn describe(self, description: &[u8]) -> (text: String)
        ensures
            text@ == self.spec_describe(lossy_text(description@)),
    {
        let mut text = utf8_lossy(description);
        text.append(" (ReturnCode::");
        text.append(self.name());
        text.append(")");
        text
    }
}

impl From<ReturnCode> for i32 {
    fn from(rc: ReturnCode) -> (r: i32) {
        rc.code()
    }
}

impl FromSpecImpl<ReturnCode> for i32 {
    open spec fn obeys_from_spec() -> bool {
        true
    }

    open spec fn from_spec(rc: ReturnCode) -> i32 {
        rc.spec_code() as i32
    }
}

/// No two values share a code.
pub proof fn lemma_return_code_injective(a: ReturnCode, b: ReturnCode)
    requires
        a.spec_code() == b.spec_code(),
    ensures
        a == b,
{
}

/// Decoding the code of a value gives the value back.
pub proof fn lemma_return_code_round_trip(v: ReturnCode)
    ensures
        ReturnCode::known(v.spec_code()),
        ReturnCode::spec_from_code(v.spec_code()) == Some(v),
{
    let other = choose|o: ReturnCode| o.spec_code() == v.spec_code();
    lemma_return_code_injective(v, other);
}

/// Encoding what a known code decodes to gives the code back.
pub proof fn lemma_return_code_code_round_trip(code: int)
    requires
        ReturnCode::known(code),
    ensures
        ReturnCode::spec_from_code(code)->Some_0.spec_code() == code,
{
}

} // verus!
