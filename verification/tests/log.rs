use yubihsm_proto::command::{Command, CommandType};
use yubihsm_proto::log::{Log, LogEntry, RawLogEntry, LOG_DIGEST_SIZE};

fn raw(number: u16, command: u8, result: u8, digest: [u8; 16]) -> RawLogEntry {
    RawLogEntry {
        number,
        command,
        length: 0x0102,
        session_key: 0x0001,
        target_key: 0x1234,
        second_key: 0,
        result,
        systick: 0xdead_beef,
        digest,
    }
}

const DIGEST: [u8; 16] = [9, 1, 2, 3, 4, 5, 6, 7, 8, 9, 10, 11, 12, 13, 14, 15];

#[test]
fn log_entry_decodes_every_field() {
    let entry = LogEntry::from_raw(&raw(7, 0x47, 0xc7, DIGEST));
    assert_eq!(entry.index, 7);
    assert_eq!(entry.command, Command::Request(CommandType::SignPkcs1));
    assert_eq!(entry.data_length, 0x0102);
    assert_eq!(entry.session_key, 0x0001);
    assert_eq!(entry.target_key, 0x1234);
    assert_eq!(entry.second_key, 0);
    assert_eq!(entry.result, Command::Response(CommandType::SignPkcs1));
    assert_eq!(entry.systick, 0xdead_beef);
    assert_eq!(entry.digest(), &DIGEST[..]);
    assert_eq!(entry.digest().len(), LOG_DIGEST_SIZE);
}

#[test]
fn log_entry_decodes_odd_command_bytes() {
    let entry = LogEntry::from_raw(&raw(1, 0x00, 0x7f, [0; 16]));
    assert_eq!(entry.command, Command::Unknown);
    assert_eq!(entry.result, Command::Response(CommandType::Error));
    let entry = LogEntry::from_raw(&raw(1, 0xff, 0x02, [0; 16]));
    assert_eq!(entry.command, Command::Unknown);
    assert_eq!(entry.result, Command::Unknown);
}

#[test]
fn log_entry_writes_placeholders() {
    let entry = LogEntry::from_raw(&raw(7, 0x47, 0xc7, DIGEST));
    let back = entry.to_raw();
    assert_eq!(back.number, 7);
    assert_eq!(back.command, 0);
    assert_eq!(back.length, 0x0102);
    assert_eq!(back.session_key, 0x0001);
    assert_eq!(back.target_key, 0x1234);
    assert_eq!(back.second_key, 0);
    assert_eq!(back.result, 0);
    assert_eq!(back.systick, 0xdead_beef);
    assert_eq!(back.digest, [9u8; 16]);
}

#[test]
fn log_entry_does_not_round_trip() {
    let first = raw(7, 0x47, 0xc7, DIGEST);
    let back = LogEntry::from_raw(&first).to_raw();
    assert_ne!(back, first);
    let again = LogEntry::from_raw(&back);
    assert_eq!(again.command, Command::Unknown);
    assert_eq!(again.result, Command::Unknown);
    assert_eq!(again.digest(), &[9u8; 16][..]);
}

#[test]
fn log_entry_with_zero_digest_writes_zero_digest() {
    let back = LogEntry::from_raw(&raw(2, 0x01, 0x81, [0; 16])).to_raw();
    assert_eq!(back.digest, [0u8; 16]);
}

#[test]
fn log_holds_counts_and_entries_in_order() {
    let raws = [raw(1, 0x01, 0x81, DIGEST), raw(2, 0x4d, 0xcd, [1; 16]), raw(3, 0x67, 0xe7, [2; 16])];
    let log = Log::from_raw(3, 5, &raws);
    assert_eq!(log.unlogged_boots, 3);
    assert_eq!(log.unlogged_auths, 5);
    let entries = log.log_entries();
    assert_eq!(entries.len(), 3);
    assert_eq!(entries[0].index, 1);
    assert_eq!(entries[0].command, Command::Request(CommandType::Echo));
    assert_eq!(entries[1].index, 2);
    assert_eq!(entries[1].command, Command::Request(CommandType::GetLogs));
    assert_eq!(entries[1].result, Command::Response(CommandType::GetLogs));
    assert_eq!(entries[2].index, 3);
    assert_eq!(entries[2].command, Command::Request(CommandType::SetLogIndex));
    assert_eq!(entries[2].digest(), &[2u8; 16][..]);
}

#[test]
fn empty_log() {
    let log = Log::from_raw(0, 0, &[]);
    assert_eq!(log.unlogged_boots, 0);
    assert_eq!(log.unlogged_auths, 0);
    assert!(log.log_entries().is_empty());
}
