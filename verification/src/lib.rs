//! Protocol types for talking to a YubiHSM 2: the closed enumerations of the
//! device protocol with their numeric codes, the domain and capability set
//! codecs, the audit-log and object-descriptor records, the wire frame and
//! the lifecycle of an authenticated session.

pub mod algorithm;
pub mod capability;
pub mod command;
pub mod device;
pub mod domain;
pub mod error;
pub mod frame;
pub mod log;
pub mod object_info;
pub mod object_type;
pub mod return_code;
pub mod session;
pub mod text;

pub use algorithm::Algorithm;
pub use capability::Capability;
pub use command::{Command, CommandType};
pub use device::{DeviceInfo, DeviceOption, DeviceOptionValue, PublicKey};
pub use domain::{Domain, DomainParam};
pub use error::Error;
pub use frame::Frame;
pub use log::{Log, LogEntry, RawLogEntry};
pub use object_info::{ObjectDescriptor, ObjectInfo, ProviderNames};
pub use object_type::ObjectType;
pub use return_code::ReturnCode;
pub use session::{
    Session, SessionAction, SessionError, SessionEvent, SessionKeys, SessionState, TransportError,
};
