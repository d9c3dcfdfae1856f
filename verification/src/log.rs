use crate::command::Command;
use vstd::prelude::*;
use vstd::slice::slice_to_vec;

verus! {

/// The length of the digest that chains an audit record to the one before it.
pub const LOG_DIGEST_SIZE: usize = 16;

/// An audit record as the device lays it out: the two commands are command
/// bytes, the digest is sixteen bytes.
#[derive(Clone, Copy, Debug, PartialEq, Eq)]
pub struct RawLogEntry {
    pub number: u16,
    pub command: u8,
    pub length: u16,
    pub session_key: u16,
    pub target_key: u16,
    pub second_key: u16,
    pub result: u8,
    pub systick: u32,
    pub digest: [u8; 16],
}

/// One record of the audit log: which command ran, with what result, on data
/// of what length, under which keys (0 where a key does not apply), at which
/// tick of the device, and the digest that chains it to the record before.
#[derive(Clone, Debug)]
pub struct LogEntry {
    pub index: u16,
    pub command: Command,
    pub data_length: u16,
    pub session_key: u16,
    pub target_key: u16,
    pub second_key: u16,
    pub result: Command,
    pub systick: u32,
    digest: Vec<u8>,
}

/// The audit log: how many boots and authentications went unlogged, and the
/// records, in the device's order.
#[derive(Clone, Debug)]
pub struct Log {
    pub unlogged_boots: u16,
    pub unlogged_auths: u16,
    pub(crate) log_entries: Vec<LogEntry>,
}

/// What an audit record holds, as plain values.
pub struct LogEntryView {
    pub index: u16,
    pub command: Command,
    pub data_length: u16,
    pub session_key: u16,
    pub target_key: u16,
    pub second_key: u16,
    pub result: Command,
    pub systick: u32,
    pub digest: Seq<u8>,
}

/// What an audit log holds, as plain values.
pub struct LogView {
    pub unlogged_boots: u16,
    pub unlogged_auths: u16,
    pub entries: Seq<LogEntryView>,
}

/// What a record in the device's layout decodes to: each number as it is,
/// each command byte read as a command, the digest byte for byte.
pub open spec fn decoded(raw: RawLogEntry) -> LogEntryView {
    LogEntryView {
        index: raw.number,
        command: Command::spec_from_code(raw.command as u32),
        data_length: raw.length,
        session_key: raw.session_key,
        target_key: raw.target_key,
        second_key: raw.second_key,
        result: Command::spec_from_code(raw.result as u32),
        systick: raw.systick,
        digest: raw.digest@,
    }
}

/// The byte that fills the digest of a record written back in the device's
/// layout: the first byte of the record's digest, 0 where it has none.
pub open spec fn digest_fill(digest: Seq<u8>) -> u8 {
    if digest.len() > 0 {
        digest[0]
    } else {
        0
    }
}

/// What a record is written back as in the device's layout. The numbers are
/// kept; both command bytes are 0; every digest byte is `digest_fill`.
pub open spec fn encodes(entry: LogEntryView, raw: RawLogEntry) -> bool {
    &&& raw.number == entry.index
    &&& raw.command == 0
    &&& raw.length == entry.data_length
    &&& raw.session_key == entry.session_key
    &&& raw.target_key == entry.target_key
    &&& raw.second_key == entry.second_key
    &&& raw.result == 0
    &&& raw.systick == entry.systick
    &&& forall|i: int| 0 <= i < 16 ==> raw.digest@[i] == digest_fill(entry.digest)
}

impl View for LogEntry {
    type V = LogEntryView;

    closed spec fn view(&self) -> LogEntryView {
        LogEntryView {
            index: self.index,
            command: self.command,
            data_length: self.data_length,
            session_key: self.session_key,
            target_key: self.target_key,
            second_key: self.second_key,
            result: self.result,
            systick: self.systick,
            digest: self.digest@,
        }
    }
}

impl View for Log {
    type V = LogView;

    closed spec fn view(&self) -> LogView {
        LogView {
            unlogged_boots: self.unlogged_boots,
            unlogged_auths: self.unlogged_auths,
            entries: Seq::new(self.log_entries@.len(), |i: int| self.log_entries@[i]@),
        }
    }
}

impl LogEntry {
    /// The digest that chains this record to the one before it. The library
    /// carries it and does not interpret it.
    pub fn digest(&self) -> (digest: &[u8])
        ensures
            digest@ == self@.digest,
    {
        self.digest.as_slice()
    }

    /// Decodes a record from the device's layout.
    pub fn from_raw(raw: &RawLogEntry) -> (entry: LogEntry)
        ensures
            entry@ == decoded(*raw),
            entry@.digest.len() == LOG_DIGEST_SIZE,
    {
        LogEntry {
            index: raw.number,
            command: Command::from_byte(raw.command),
            data_length: raw.length,
            session_key: raw.session_key,
            target_key: raw.target_key,
            second_key: raw.second_key,
            result: Command::from_byte(raw.result),
            systick: raw.systick,
            digest: slice_to_vec(raw.digest.as_slice()),
        }
    }

    /// Writes the record in the device's layout. The numbers are kept. The
    /// two command bytes are written as 0 whatever the record holds, and
    /// every byte of the digest is the first byte of the record's digest (0
    /// where the record has none): what comes out is a placeholder for the
    /// device to fill, and does not decode to the record it came from.
    pub fn to_raw(&self) -> (raw: RawLogEntry)
        ensures
            encodes(self@, raw),
    {
        let fill: u8 = if self.digest.len() > 0 {
            self.digest[0]
        } else {
            0
        };
        RawLogEntry {
            number: self.index,
            command: 0,
            length: self.data_length,
            session_key: self.session_key,
            target_key: self.target_key,
            second_key: self.second_key,
            result: 0,
            systick: self.systick,
            digest: [fill; 16],
        }
    }
}

impl Log {
    /// The records of the log, in the device's order.
    pub fn log_entries(&self) -> (entries: &[LogEntry])
        ensures
            entries@.len() == self@.entries.len(),
            forall|i: int| 0 <= i < entries@.len() ==> (#[trigger] entries@[i])@ == self@.entries[i],
    {
        self.log_entries.as_slice()
    }

    /// Builds the log from what the device reported: the two counts and the
    /// records in its layout, each decoded in place.
    pub fn from_raw(unlogged_boots: u16, unlogged_auths: u16, raw: &[RawLogEntry]) -> (log: Log)
        ensures
            log@.unlogged_boots == unlogged_boots,
            log@.unlogged_auths == unlogged_auths,
            log@.entries == Seq::new(raw@.len(), |i: int| decoded(raw@[i])),
    {
        let mut entries: Vec<LogEntry> = Vec::new();
        let mut i: usize = 0;
        while i < raw.len()
            invariant
                i <= raw.len(),
                entries@.len() == i,
                forall|k: int| 0 <= k < i ==> (#[trigger] entries@[k])@ == decoded(raw@[k]),
            decreases raw.len() - i,
        {
            entries.push(LogEntry::from_raw(&raw[i]));
            i = i + 1;
        }
        let log = Log { unlogged_boots, unlogged_auths, log_entries: entries };
        proof {
            assert(log@.entries =~= Seq::new(raw@.len(), |i: int| decoded(raw@[i])));
        }
        log
    }
}

} // verus!
