use crate::announce::{announced_name, is_announcement, parse_announcement};
use crate::error::TransferError;
use crate::naming::{derive_storage_name, storage_name, Timestamp};
use crate::text::{append_signed_decimal, signed_decimal};
use chrono::{Datelike, Local, Timelike};
use vstd::prelude::*;
use vstd::string::StringExecFns;

verus! {

/// Joins a host and a port to `<host>:<port>`, the port in base ten.
pub fn make_address_str(addr: &String, port: &i32) -> (address: String)
    ensures
        address@ == addr@ + seq![':'] + signed_decimal(*port as int),
{
    proof {
        reveal_strlit(":");
    }
    let mut address = addr.clone();
    address.append(":");
    append_signed_decimal(&mut address, *port as i64);
    assert(address@ =~= addr@ + seq![':'] + signed_decimal(*port as int));
    address
}

/// Reads the local wall-clock time with `chrono::Local::now` and takes its
/// calendar fields apart with chrono's `Datelike::{year, month, day}` and
/// `Timelike::{hour, minute, second}`.
///
/// Trusted, not proved: that the fields lie in the ranges that chrono
/// documents for them (month 1 to 12, day 1 to 31, hour 0 to 23, minute and
/// second 0 to 59). Nothing is said of which time it is. chrono panics where
/// the system clock stands before 1970 or the system's time zone data cannot
/// be used.
#[verifier::external_body]
pub(crate) fn local_now() -> (now: Timestamp)
    ensures
        now.on_calendar(),
{
    let now = Local::now();
    Timestamp {
        year: now.year(),
        month: now.month(),
        day: now.day(),
        hour: now.hour(),
        minute: now.minute(),
        second: now.second(),
    }
}

/// Names the file that the receiver stores for a transfer announced just
/// now: the storage name of `ip` and `filename` at the local time of the
/// call, whichever time that is.
pub fn format_filename(ip: &String, filename: &String) -> (name: String)
    ensures
        exists|now: Timestamp|
            now.on_calendar() && name@ == #[trigger] storage_name(ip@, filename@, now),
{
    let now = local_now();
    derive_storage_name(ip.as_str(), filename.as_str(), &now)
}

/// Takes the announced name out of a message of the form
/// `filename:<name>:filename`, and turns every other message down.
pub fn verify_filename(filename: String) -> (result: Result<String, TransferError>)
    ensures
        match result {
            Ok(name) => is_announcement(filename@) && name@ == announced_name(filename@),
            Err(error) => !is_announcement(filename@) && error == TransferError::Validation,
        },
{
    parse_announcement(filename.as_str())
}

} // verus!
