use crate::algorithm::Algorithm;
use crate::command::CommandType;
use vstd::prelude::*;
use vstd::std_specs::convert::FromSpecImpl;

verus! {

/// What a device says of itself: its firmware version, its serial number,
/// how many audit records it can hold and how many it holds, and the
/// algorithms it supports.
#[derive(Clone, Debug)]
pub struct DeviceInfo {
    pub major_version: u8,
    pub minor_version: u8,
    pub patch_version: u8,
    pub serial: u32,
    pub log_capacity: u8,
    pub log_used: u8,
    pub algorithms: Vec<Algorithm>,
}

/// The public half of an asymmetric key on the device. For RSA, the modulus;
/// for an elliptic curve, the two coordinates of the point; for an Edwards
/// curve, the compressed point.
#[derive(Clone, Debug, PartialEq, Eq)]
pub enum PublicKey {
    Rsa(Vec<u8>),
    Ecc(Vec<u8>, Vec<u8>),
    Edc(Vec<u8>),
}

/// The value of a device option.
#[derive(Clone, Copy, Debug, PartialEq, Eq, Structural)]
pub enum DeviceOptionValue {
    /// The option is off.
    Disabled,
    /// The option is on.
    Enabled,
    /// The option is on and cannot be turned off.
    Fixed,
}

/// An option of the whole device.
#[derive(Clone, Debug)]
pub enum DeviceOption {
    /// Whether the device refuses commands once its audit log is full.
    ForceAudit(DeviceOptionValue),
    /// Which commands are logged: one value for each command named.
    CommandAudit(Vec<(CommandType, DeviceOptionValue)>),
}

impl DeviceOptionValue {
    /// The byte that stands for the value.
    pub open spec fn spec_byte(self) -> u8 {
        match self {
            DeviceOptionValue::Disabled => 0x00,
            DeviceOptionValue::Enabled => 0x01,
            DeviceOptionValue::Fixed => 0x02,
        }
    }

    /// The byte that stands for the value.
    pub fn byte(self) -> (b: u8)
        ensures
            b == self.spec_byte(),
    {
        match self {
            DeviceOptionValue::Disabled => 0x00,
            DeviceOptionValue::Enabled => 0x01,
            DeviceOptionValue::Fixed => 0x02,
        }
    }
}

/// The bytes of a list of command settings: for each pair, in the order
/// given, the opcode of the command and then the byte of the value.
pub open spec fn audit_bytes(vals: Seq<(CommandType, DeviceOptionValue)>) -> Seq<u8> {
    Seq::new(
        2 * vals.len(),
        |i: int|
            if i % 2 == 0 {
                vals[i / 2].0.spec_opcode()
            } else {
                vals[i / 2].1.spec_byte()
            },
    )
}

impl DeviceOption {
    /// The tag that tells the device which option is meant.
    pub open spec fn spec_tag(&self) -> u8 {
        match self {
            DeviceOption::ForceAudit(_) => 0x01,
            DeviceOption::CommandAudit(_) => 0x03,
        }
    }

    /// The value of the option as the device takes it: one byte for
    /// `ForceAudit`, two bytes for each command of `CommandAudit`.
    pub open spec fn spec_bytes(&self) -> Seq<u8> {
        match self {
            DeviceOption::ForceAudit(val) => seq![val.spec_byte()],
            DeviceOption::CommandAudit(vals) => audit_bytes(vals@),
        }
    }

    /// The tag that tells the device which option is meant.
    pub fn tag(&self) -> (t: u8)
        ensures
            t == self.spec_tag(),
    {
        match self {
            DeviceOption::ForceAudit(_) => 0x01,
            DeviceOption::CommandAudit(_) => 0x03,
        }
    }

    /// The value of the option as the device takes it, without the tag.
    pub fn to_bytes(&self) -> (out: Vec<u8>)
        ensures
            out@ == self.spec_bytes(),
    {
        let mut out: Vec<u8> = Vec::new();
        match self {
            DeviceOption::ForceAudit(val) => {
                out.push(val.byte());
                assert(out@ =~= seq![val.spec_byte()]);
            },
            DeviceOption::CommandAudit(vals) => {
                let mut i: usize = 0;
                while i < vals.len()
                    invariant
                        i <= vals.len(),
                        out@ == audit_bytes(vals@.take(i as int)),
                    decreases vals.len() - i,
                {
                    let ghost before = out@;
                    let pair: (CommandType, DeviceOptionValue) = vals[i];
                    out.push(pair.0.opcode());
                    out.push(pair.1.byte());
                    proof {
                        let a = vals@.take(i as int);
                        let b = vals@.take(i + 1);
                        assert(out@.len() == 2 * b.len());
                        assert forall|k: int| 0 <= k < out@.len() implies out@[k] == audit_bytes(
                            b,
                        )[k] by {
                            if k < 2 * i {
                                assert(out@[k] == before[k]);
                                assert(a[k / 2] == b[k / 2]);
                            } else {
                                assert(k / 2 == i);
                                assert(b[i as int] == pair);
                            }
                        }
                        assert(out@ =~= audit_bytes(b));
                    }
                    i = i + 1;
                }
                proof {
                    assert(vals@.take(i as int) =~= vals@);
                }
            },
        }
        out
    }
}

impl<'a> From<&'a DeviceOption> for u8 {
    fn from(opt: &'a DeviceOption) -> (r: u8) {
        opt.tag()
    }
}

impl<'a> FromSpecImpl<&'a DeviceOption> for u8 {
    open spec fn obeys_from_spec() -> bool {
        true
    }

    open spec fn from_spec(opt: &'a DeviceOption) -> u8 {
        opt.spec_tag()
    }
}

impl From<DeviceOption> for u8 {
    fn from(opt: DeviceOption) -> (r: u8) {
        opt.tag()
    }
}

impl FromSpecImpl<DeviceOption> for u8 {
    open spec fn obeys_from_spec() -> bool {
        true
    }

    open spec fn from_spec(opt: DeviceOption) -> u8 {
        opt.spec_tag()
    }
}

impl From<DeviceOptionValue> for u8 {
    fn from(val: DeviceOptionValue) -> (r: u8) {
        val.byte()
    }
}

impl FromSpecImpl<DeviceOptionValue> for u8 {
    open spec fn obeys_from_spec() -> bool {
        true
    }

    open spec fn from_spec(val: DeviceOptionValue) -> u8 {
        val.spec_byte()
    }
}

} // verus!
