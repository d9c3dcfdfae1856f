use vstd::prelude::*;
use vstd::std_specs::convert::FromSpecImpl;

verus! {

/// The operations of the device protocol.
#[derive(Clone, Copy, Debug, PartialEq, Eq, Structural)]
pub enum CommandType {
    Echo,
    CreateSession,
    AuthSession,
    SessionMessage,
    GetDeviceInfo,
    Bsl,
    Reset,
    CloseSession,
    StorageStatistics,
    PutOpaque,
    GetOpaque,
    PutAuthKey,
    PutAsymmetricKey,
    GenerateAsymmetricKey,
    SignPkcs1,
    ListObjects,
    DecryptPkcs1,
    ExportWrapped,
    ImportWrapped,
    PutWrapKey,
    GetLogs,
    GetObjectInfo,
    PutOption,
    GetOption,
    GetPsuedoRandom,
    PutHmacKey,
    HmacData,
    GetPubkey,
    SignPss,
    SignEcdsa,
    DecryptEcdh,
    DeleteObject,
    DecryptOaep,
    GenerateHmacKey,
    GenerateWrapKey,
    VerifyHmac,
    SshCertify,
    PutTemplate,
    GetTemplate,
    OtpDecrypt,
    OtpAeadCreate,
    OtpAeadRandom,
    OtpAeadRewrap,
    AttestAsymmetric,
    PutOtpAeadKey,
    GenerateOtpAeadKey,
    SetLogIndex,
    WrapData,
    UnwrapData,
    SignEddsa,
    Blink,
    Error,
}

/// A command byte as it stands in a frame or in an audit record: a request,
/// the response to one, or a byte that names no operation.
#[derive(Clone, Copy, Debug, PartialEq, Eq, Structural)]
pub enum Command {
    Request(CommandType),
    Response(CommandType),
    Unknown,
}

/// The bit that marks a command byte as a response.
pub const RESPONSE_FLAG: u8 = 0x80;

impl CommandType {
    /// The opcode of the operation.
    pub open spec fn spec_opcode(self) -> u8 {
        match self {
            CommandType::Echo => 0x01,
            CommandType::CreateSession => 0x03,
            CommandType::AuthSession => 0x04,
            CommandType::SessionMessage => 0x05,
            CommandType::GetDeviceInfo => 0x06,
            CommandType::Bsl => 0x07,
            CommandType::Reset => 0x08,
            CommandType::CloseSession => 0x40,
            CommandType::StorageStatistics => 0x41,
            CommandType::PutOpaque => 0x42,
            CommandType::GetOpaque => 0x43,
            CommandType::PutAuthKey => 0x44,
            CommandType::PutAsymmetricKey => 0x45,
            CommandType::GenerateAsymmetricKey => 0x46,
            CommandType::SignPkcs1 => 0x47,
            CommandType::ListObjects => 0x48,
            CommandType::DecryptPkcs1 => 0x49,
            CommandType::ExportWrapped => 0x4a,
            CommandType::ImportWrapped => 0x4b,
            CommandType::PutWrapKey => 0x4c,
            CommandType::GetLogs => 0x4d,
            CommandType::GetObjectInfo => 0x4e,
            CommandType::PutOption => 0x4f,
            CommandType::GetOption => 0x50,
            CommandType::GetPsuedoRandom => 0x51,
            CommandType::PutHmacKey => 0x52,
            CommandType::HmacData => 0x53,
            CommandType::GetPubkey => 0x54,
            CommandType::SignPss => 0x55,
            CommandType::SignEcdsa => 0x56,
            CommandType::DecryptEcdh => 0x57,
            CommandType::DeleteObject => 0x58,
            CommandType::DecryptOaep => 0x59,
            CommandType::GenerateHmacKey => 0x5a,
            CommandType::GenerateWrapKey => 0x5b,
            CommandType::VerifyHmac => 0x5c,
            CommandType::SshCertify => 0x5d,
            CommandType::PutTemplate => 0x5e,
            CommandType::GetTemplate => 0x5f,
            CommandType::OtpDecrypt => 0x60,
            CommandType::OtpAeadCreate => 0x61,
            CommandType::OtpAeadRandom => 0x62,
            CommandType::OtpAeadRewrap => 0x63,
            CommandType::AttestAsymmetric => 0x64,
            CommandType::PutOtpAeadKey => 0x65,
            CommandType::GenerateOtpAeadKey => 0x66,
            CommandType::SetLogIndex => 0x67,
            CommandType::WrapData => 0x68,
            CommandType::UnwrapData => 0x69,
            CommandType::SignEddsa => 0x6a,
            CommandType::Blink => 0x6b,
            CommandType::Error => 0x7f,
        }
    }

    /// The operation with a given opcode, where there is one.
    pub open spec fn spec_from_opcode(code: u8) -> Option<CommandType> {
        if exists|ty: CommandType| ty.spec_opcode() == code {
            Some(choose|ty: CommandType| ty.spec_opcode() == code)
        } else {
            None
        }
    }

    /// The opcode of the operation; the top bit is never set.
    pub fn opcode(self) -> (code: u8)
        ensures
            code == self.spec_opcode(),
            code < 0x80,
    {
        match self {
            CommandType::Echo => 0x01,
            CommandType::CreateSession => 0x03,
            CommandType::AuthSession => 0x04,
            CommandType::SessionMessage => 0x05,
            CommandType::GetDeviceInfo => 0x06,
            CommandType::Bsl => 0x07,
            CommandType::Reset => 0x08,
            CommandType::CloseSession => 0x40,
            CommandType::StorageStatistics => 0x41,
            CommandType::PutOpaque => 0x42,
            CommandType::GetOpaque => 0x43,
            CommandType::PutAuthKey => 0x44,
            CommandType::PutAsymmetricKey => 0x45,
            CommandType::GenerateAsymmetricKey => 0x46,
            CommandType::SignPkcs1 => 0x47,
            CommandType::ListObjects => 0x48,
            CommandType::DecryptPkcs1 => 0x49,
            CommandType::ExportWrapped => 0x4a,
            CommandType::ImportWrapped => 0x4b,
            CommandType::PutWrapKey => 0x4c,
            CommandType::GetLogs => 0x4d,
            CommandType::GetObjectInfo => 0x4e,
            CommandType::PutOption => 0x4f,
            CommandType::GetOption => 0x50,
            CommandType::GetPsuedoRandom => 0x51,
            CommandType::PutHmacKey => 0x52,
            CommandType::HmacData => 0x53,
            CommandType::GetPubkey => 0x54,
            CommandType::SignPss => 0x55,
            CommandType::SignEcdsa => 0x56,
            CommandType::DecryptEcdh => 0x57,
            CommandType::DeleteObject => 0x58,
            CommandType::DecryptOaep => 0x59,
            CommandType::GenerateHmacKey => 0x5a,
            CommandType::GenerateWrapKey => 0x5b,
            CommandType::VerifyHmac => 0x5c,
            CommandType::SshCertify => 0x5d,
            CommandType::PutTemplate => 0x5e,
            CommandType::GetTemplate => 0x5f,
            CommandType::OtpDecrypt => 0x60,
            CommandType::OtpAeadCreate => 0x61,
            CommandType::OtpAeadRandom => 0x62,
            CommandType::OtpAeadRewrap => 0x63,
            CommandType::AttestAsymmetric => 0x64,
            CommandType::PutOtpAeadKey => 0x65,
            CommandType::GenerateOtpAeadKey => 0x66,
            CommandType::SetLogIndex => 0x67,
            CommandType::WrapData => 0x68,
            CommandType::UnwrapData => 0x69,
            CommandType::SignEddsa => 0x6a,
            CommandType::Blink => 0x6b,
            CommandType::Error => 0x7f,
        }
    }

    /// The operation with a given opcode, or `None` where no operation has it.
    pub fn from_opcode(code: u8) -> (r: Option<CommandType>)
        ensures
            r == Self::spec_from_opcode(code),
            match r {
                Some(ty) => ty.spec_opcode() == code,
                None => forall|ty: CommandType| ty.spec_opcode() != code,
            },
    {
        let r = match code {
            0x01 => Some(CommandType::Echo),
            0x03 => Some(CommandType::CreateSession),
            0x04 => Some(CommandType::AuthSession),
            0x05 => Some(CommandType::SessionMessage),
            0x06 => Some(CommandType::GetDeviceInfo),
            0x07 => Some(CommandType::Bsl),
            0x08 => Some(CommandType::Reset),
            0x40 => Some(CommandType::CloseSession),
            0x41 => Some(CommandType::StorageStatistics),
            0x42 => Some(CommandType::PutOpaque),
            0x43 => Some(CommandType::GetOpaque),
            0x44 => Some(CommandType::PutAuthKey),
            0x45 => Some(CommandType::PutAsymmetricKey),
            0x46 => Some(CommandType::GenerateAsymmetricKey),
            0x47 => Some(CommandType::SignPkcs1),
            0x48 => Some(CommandType::ListObjects),
            0x49 => Some(CommandType::DecryptPkcs1),
            0x4a => Some(CommandType::ExportWrapped),
            0x4b => Some(CommandType::ImportWrapped),
            0x4c => Some(CommandType::PutWrapKey),
            0x4d => Some(CommandType::GetLogs),
            0x4e => Some(CommandType::GetObjectInfo),
            0x4f => Some(CommandType::PutOption),
            0x50 => Some(CommandType::GetOption),
            0x51 => Some(CommandType::GetPsuedoRandom),
            0x52 => Some(CommandType::PutHmacKey),
            0x53 => Some(CommandType::HmacData),
            0x54 => Some(CommandType::GetPubkey),
            0x55 => Some(CommandType::SignPss),
            0x56 => Some(CommandType::SignEcdsa),
            0x57 => Some(CommandType::DecryptEcdh),
            0x58 => Some(CommandType::DeleteObject),
            0x59 => Some(CommandType::DecryptOaep),
            0x5a => Some(CommandType::GenerateHmacKey),
            0x5b => Some(CommandType::GenerateWrapKey),
            0x5c => Some(CommandType::VerifyHmac),
            0x5d => Some(CommandType::SshCertify),
            0x5e => Some(CommandType::PutTemplate),
            0x5f => Some(CommandType::GetTemplate),
            0x60 => Some(CommandType::OtpDecrypt),
            0x61 => Some(CommandType::OtpAeadCreate),
            0x62 => Some(CommandType::OtpAeadRandom),
            0x63 => Some(CommandType::OtpAeadRewrap),
            0x64 => Some(CommandType::AttestAsymmetric),
            0x65 => Some(CommandType::PutOtpAeadKey),
            0x66 => Some(CommandType::GenerateOtpAeadKey),
            0x67 => Some(CommandType::SetLogIndex),
            0x68 => Some(CommandType::WrapData),
            0x69 => Some(CommandType::UnwrapData),
            0x6a => Some(CommandType::SignEddsa),
            0x6b => Some(CommandType::Blink),
            0x7f => Some(CommandType::Error),
            _ => None,
        };
        proof {
            match r {
                Some(ty) => {
                    assert(ty.spec_opcode() == code);
                    let other = choose|t: CommandType| t.spec_opcode() == code;
                    lemma_opcode_injective(ty, other);
                },
                None => {
                    assert forall|ty: CommandType| ty.spec_opcode() != code by {}
                },
            }
        }
        r
    }
}

impl Command {
    /// The command byte: the opcode for a request, the opcode with the
    /// response flag for a response, and the opcode of `Error` for `Unknown`.
    pub open spec fn spec_byte(self) -> u8 {
        match self {
            Command::Request(ty) => ty.spec_opcode(),
            Command::Response(ty) => ty.spec_opcode() | RESPONSE_FLAG,
            Command::Unknown => CommandType::Error.spec_opcode(),
        }
    }

    /// What a numeric command code stands for. The opcode of `Error` is the
    /// response `Error`; any other opcode is a request; any other opcode with
    /// the response flag is a response; every other value is `Unknown`.
    pub open spec fn spec_from_code(code: u32) -> Command {
        if code == CommandType::Error.spec_opcode() {
            Command::Response(CommandType::Error)
        } else if code < 0x80 {
            match CommandType::spec_from_opcode(code as u8) {
                Some(ty) => Command::Request(ty),
                None => Command::Unknown,
            }
        } else if code < 0xff {
            match CommandType::spec_from_opcode((code - 0x80) as u8) {
                Some(ty) => Command::Response(ty),
                None => Command::Unknown,
            }
        } else {
            Command::Unknown
        }
    }

    /// The command byte of this command.
    pub fn byte(self) -> (b: u8)
        ensures
            b == self.spec_byte(),
            self matches Command::Request(ty) ==> b == ty.spec_opcode() && b < 0x80,
            self matches Command::Response(ty) ==> b == ty.spec_opcode() | 0x80 && b >= 0x80,
    {
        match self {
            Command::Request(ty) => ty.opcode(),
            Command::Response(ty) => {
                let c: u8 = ty.opcode();
                assert(c | 0x80 >= 0x80) by (bit_vector);
                c | RESPONSE_FLAG
            },
            Command::Unknown => CommandType::Error.opcode(),
        }
    }

    /// Reads a numeric command code. Never fails: a code that names no
    /// request and no response gives `Unknown`.
    pub fn from_code(code: u32) -> (cmd: Command)
        ensures
            cmd == Self::spec_from_code(code),
    {
        if code == 0x7f {
            Command::Response(CommandType::Error)
        } else if code < 0x80 {
            match CommandType::from_opcode(code as u8) {
                Some(ty) => Command::Request(ty),
                None => Command::Unknown,
            }
        } else if code < 0xff {
            match CommandType::from_opcode((code - 0x80) as u8) {
                Some(ty) => Command::Response(ty),
                None => Command::Unknown,
            }
        } else {
            Command::Unknown
        }
    }

    /// Reads a command byte, as `from_code` reads a wider code.
    pub fn from_byte(b: u8) -> (cmd: Command)
        ensures
            cmd == Self::spec_from_code(b as u32),
    {
        Command::from_code(b as u32)
    }
}

impl From<CommandType> for u8 {
    fn from(ty: CommandType) -> (code: u8) {
        ty.opcode()
    }
}

impl FromSpecImpl<CommandType> for u8 {
    open spec fn obeys_from_spec() -> bool {
        true
    }

    open spec fn from_spec(ty: CommandType) -> u8 {
        ty.spec_opcode()
    }
}

impl From<Command> for u8 {
    fn from(cmd: Command) -> (b: u8) {
        cmd.byte()
    }
}

impl FromSpecImpl<Command> for u8 {
    open spec fn obeys_from_spec() -> bool {
        true
    }

    open spec fn from_spec(cmd: Command) -> u8 {
        cmd.spec_byte()
    }
}

impl From<u32> for Command {
    fn from(code: u32) -> (cmd: Command) {
        Command::from_code(code)
    }
}

impl FromSpecImpl<u32> for Command {
    open spec fn obeys_from_spec() -> bool {
        true
    }

    open spec fn from_spec(code: u32) -> Command {
        Command::spec_from_code(code)
    }
}

impl From<u8> for Command {
    fn from(b: u8) -> (cmd: Command) {
        Command::from_byte(b)
    }
}

impl FromSpecImpl<u8> for Command {
    open spec fn obeys_from_spec() -> bool {
        true
    }

    open spec fn from_spec(b: u8) -> Command {
        Command::spec_from_code(b as u32)
    }
}

/// Reading the byte of a request or a response of any operation but `Error`
/// gives the command back.
pub proof fn lemma_command_round_trip(cmd: Command)
    requires
        cmd != Command::Unknown,
        cmd != Command::Request(CommandType::Error),
        cmd != Command::Response(CommandType::Error),
    ensures
        Command::spec_from_code(cmd.spec_byte() as u32) == cmd,
{
    match cmd {
        Command::Request(ty) => {
            lemma_opcode_round_trip(ty);
        },
        Command::Response(ty) => {
            let c = ty.spec_opcode();
            lemma_opcode_round_trip(ty);
            assert(c < 0x7f ==> (c | 0x80) >= 0x80 && (c | 0x80) < 0xff && ((c | 0x80) - 0x80) as u8
                == c) by (bit_vector);
        },
        Command::Unknown => {},
    }
}

/// A request and a response never share a byte, but for `Error`, whose
/// request byte reads as the response.
pub proof fn lemma_response_flag(ty: CommandType)
    ensures
        Command::Request(ty).spec_byte() & RESPONSE_FLAG == 0,
        Command::Response(ty).spec_byte() & RESPONSE_FLAG == RESPONSE_FLAG,
        Command::Response(ty).spec_byte() & 0x7f == ty.spec_opcode(),
{
    let c = ty.spec_opcode();
    assert(c < 0x80 ==> c & 0x80 == 0 && (c | 0x80) & 0x80 == 0x80 && (c | 0x80) & 0x7f == c)
        by (bit_vector);
}

/// No two operations share an opcode.
pub proof fn lemma_opcode_injective(a: CommandType, b: CommandType)
    requires
        a.spec_opcode() == b.spec_opcode(),
    ensures
        a == b,
{
}

/// Every opcode is below `0x80`, so the response flag is free in it.
pub proof fn lemma_opcode_below_flag(ty: CommandType)
    ensures
        ty.spec_opcode() < 0x80,
        ty.spec_opcode() & RESPONSE_FLAG == 0,
{
    let c = ty.spec_opcode();
    assert(c < 0x80 ==> c & 0x80 == 0) by (bit_vector);
}

/// Decoding the opcode of an operation gives the operation back.
pub proof fn lemma_opcode_round_trip(ty: CommandType)
    ensures
        CommandType::spec_from_opcode(ty.spec_opcode()) == Some(ty),
{
    let other = choose|t: CommandType| t.spec_opcode() == ty.spec_opcode();
    lemma_opcode_injective(ty, other);
}

} // verus!
