use crate::algorithm::Algorithm;
use crate::capability::{names_result, Capability, MAX_CAPABILITIES};
use crate::domain::{domains_of, numbers, Domain, DomainParam};
use crate::error::Error;
use crate::object_type::ObjectType;
use crate::return_code::ReturnCode;
use crate::text::{c_len, c_string_text, lossy_text};
use vstd::prelude::*;

verus! {

/// The size of the label buffer of a descriptor: forty bytes and a NUL.
pub const OBJECT_LABEL_SIZE: usize = 41;

/// The descriptor of a stored object as the device lays it out. The two
/// capability fields are bitfields that only the provider can read; the type
/// and the algorithm are numeric codes; the label is a NUL-terminated buffer.
#[derive(Clone, Copy, Debug, PartialEq, Eq)]
pub struct ObjectDescriptor {
    pub capabilities: [u8; 8],
    pub id: u16,
    pub len: u16,
    pub domains: u16,
    pub object_type: u32,
    pub algorithm: u32,
    pub sequence: u8,
    pub origin: u8,
    pub label: [u8; 41],
    pub delegated_capabilities: [u8; 8],
}

/// What the provider answered when asked for the names in a capability
/// bitfield: the status of the call, and the names it wrote, as bytes.
#[derive(Clone, Debug)]
pub struct ProviderNames {
    pub status: ReturnCode,
    pub names: Vec<Vec<u8>>,
}

/// What the device holds on a stored object: a snapshot, built only from a
/// descriptor that the device sent.
#[derive(Debug)]
pub struct ObjectInfo {
    pub capabilities: Vec<Capability>,
    pub id: u16,
    pub length: u16,
    pub domains: Vec<Domain>,
    pub object_type: ObjectType,
    pub algorithm: Option<Algorithm>,
    pub sequence: u8,
    pub origin: u8,
    pub label: String,
    pub delegated_capabilities: Vec<Capability>,
    _priv: (),
}

/// What an `ObjectInfo` holds, as plain values; the domains by their numbers.
pub struct ObjectInfoView {
    pub capabilities: Seq<Capability>,
    pub id: u16,
    pub length: u16,
    pub domains: Seq<int>,
    pub object_type: ObjectType,
    pub algorithm: Option<Algorithm>,
    pub sequence: u8,
    pub origin: u8,
    pub label: Seq<char>,
    pub delegated_capabilities: Seq<Capability>,
}

impl View for ObjectInfo {
    type V = ObjectInfoView;

    closed spec fn view(&self) -> ObjectInfoView {
        ObjectInfoView {
            capabilities: self.capabilities@,
            id: self.id,
            length: self.length,
            domains: numbers(self.domains@),
            object_type: self.object_type,
            algorithm: self.algorithm,
            sequence: self.sequence,
            origin: self.origin,
            label: self.label@,
            delegated_capabilities: self.delegated_capabilities@,
        }
    }
}

impl Clone for ObjectInfo {
    fn clone(&self) -> (copy: ObjectInfo)
        ensures
            copy@ == self@,
    {
        let copy = ObjectInfo {
            capabilities: self.capabilities.clone(),
            id: self.id,
            length: self.length,
            domains: self.domains.clone(),
            object_type: self.object_type,
            algorithm: self.algorithm,
            sequence: self.sequence,
            origin: self.origin,
            label: self.label.clone(),
            delegated_capabilities: self.delegated_capabilities.clone(),
            _priv: (),
        };
        proof {
            assert(copy.capabilities@ =~= self.capabilities@);
            assert(copy.domains@ =~= self.domains@);
            assert(copy.delegated_capabilities@ =~= self.delegated_capabilities@);
        }
        copy
    }
}

impl ObjectDescriptor {
    /// Whether the type code is that of an object type, and the algorithm
    /// code is 0 or that of an algorithm.
    pub open spec fn known_codes(&self) -> bool {
        &&& ObjectType::known(self.object_type)
        &&& self.algorithm == 0 || Algorithm::known(self.algorithm)
    }

    /// Whether the type code is that of an object type, and the algorithm
    /// code is 0 or that of an algorithm. A descriptor that fails this
    /// comes from a device that this library does not know.
    pub fn has_known_codes(&self) -> (b: bool)
        ensures
            b == self.known_codes(),
    {
        ObjectType::is_known(self.object_type) && (self.algorithm == 0 || Algorithm::is_known(
            self.algorithm,
        ))
    }
}

/// What a descriptor decodes to, given the capabilities that the provider
/// read from its two bitfields. The algorithm is absent for code 0; the
/// domains are those of the mask, in rising order; the label is the text
/// before the first NUL, read lossily.
pub open spec fn described(
    o: ObjectDescriptor,
    capabilities: Seq<Capability>,
    delegated: Seq<Capability>,
) -> ObjectInfoView {
    ObjectInfoView {
        capabilities,
        id: o.id,
        length: o.len,
        domains: domains_of(o.domains),
        object_type: ObjectType::spec_from_code(o.object_type)->Some_0,
        algorithm: if o.algorithm == 0 {
            None
        } else {
            Algorithm::spec_from_code(o.algorithm)
        },
        sequence: o.sequence,
        origin: o.origin,
        label: lossy_text(o.label@.take(c_len(o.label@) as int)),
        delegated_capabilities: delegated,
    }
}

/// What decoding a descriptor comes to: the error of the first capability
/// field that the provider could not read, else the decoded object.
pub open spec fn descriptor_result(
    o: ObjectDescriptor,
    capabilities: ProviderNames,
    delegated: ProviderNames,
) -> Result<ObjectInfoView, Error> {
    match names_result(capabilities.status, capabilities.names@) {
        Err(e) => Err(e),
        Ok(caps) => match names_result(delegated.status, delegated.names@) {
            Err(e) => Err(e),
            Ok(dels) => Ok(described(o, caps, dels)),
        },
    }
}

impl ObjectInfo {
    /// Decodes the descriptor of a stored object. `capabilities` and
    /// `delegated` are the provider's answers for the two capability fields
    /// of the descriptor. Either every field decodes, or the whole decode
    /// fails with the error of the first capability field that did not. A
    /// type or algorithm code that the library does not know is not
    /// accepted: test with `has_known_codes` first.
    pub fn try_from_descriptor(
        o: &ObjectDescriptor,
        capabilities: &ProviderNames,
        delegated: &ProviderNames,
    ) -> (r: Result<ObjectInfo, Error>)
        requires
            o.known_codes(),
            capabilities.status == ReturnCode::Success ==> capabilities.names.len()
                <= MAX_CAPABILITIES,
            delegated.status == ReturnCode::Success ==> delegated.names.len() <= MAX_CAPABILITIES,
        ensures
            match descriptor_result(*o, *capabilities, *delegated) {
                Ok(info) => r is Ok && r->Ok_0@ == info,
                Err(e) => r == Err::<ObjectInfo, Error>(e),
            },
    {
        let caps = match Capability::try_from_names(
            capabilities.status,
            capabilities.names.as_slice(),
        ) {
            Ok(caps) => caps,
            Err(e) => {
                return Err(e);
            },
        };
        let domains = DomainParam(o.domains).to_domains();
        let object_type = ObjectType::from_code(o.object_type);
        let algorithm = if o.algorithm == 0 {
            None
        } else {
            Some(Algorithm::from_code(o.algorithm))
        };
        let label = c_string_text(o.label.as_slice());
        let dels = match Capability::try_from_names(delegated.status, delegated.names.as_slice()) {
            Ok(dels) => dels,
            Err(e) => {
                return Err(e);
            },
        };
        Ok(
            ObjectInfo {
                capabilities: caps,
                id: o.id,
                length: o.len,
                domains,
                object_type,
                algorithm,
                sequence: o.sequence,
                origin: o.origin,
                label,
                delegated_capabilities: dels,
                _priv: (),
            },
        )
    }
}

} // verus!
