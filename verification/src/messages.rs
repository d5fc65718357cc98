//! The report lines, stated character for character: one spec function
//! per message, and a verified builder for each.

use vstd::prelude::*;
use vstd::string::*;
use crate::model::Protocol;
use crate::numbers::{dec_digits, u64_to_dec};

verus! {

/// The label a protocol is reported under.
pub open spec fn protocol_label(p: Protocol) -> Seq<char> {
    match p {
        Protocol::Tcp => "TCP"@,
        Protocol::Udp => "UDP"@,
    }
}

pub open spec fn msg_parse_fail(suffix: Seq<char>) -> Seq<char> {
    "Cannot parse port '"@ + suffix + "' as number"@
}

pub open spec fn msg_enum_fail() -> Seq<char> {
    "Cannot get socket info"@
}

pub open spec fn msg_port_killed(port: u16, proto: Protocol) -> Seq<char> {
    "Process holding port :"@ + dec_digits(port as nat) + " ("@ + protocol_label(proto)
        + ") killed successfully!"@
}

pub open spec fn msg_port_not_found(port: u16) -> Seq<char> {
    "Process that holds port :"@ + dec_digits(port as nat) + " could not be found."@
}

pub open spec fn msg_pid_killed(pid: u64) -> Seq<char> {
    "Process with pid "@ + dec_digits(pid as nat) + " killed successfully!"@
}

pub open spec fn msg_pid_not_found(pid: u64) -> Seq<char> {
    "Cannot get process with pid "@ + dec_digits(pid as nat)
}

pub open spec fn msg_name_killed(name: Seq<char>) -> Seq<char> {
    "Process with name '"@ + name + "' killed successfully!"@
}

pub open spec fn msg_name_not_found(name: Seq<char>) -> Seq<char> {
    "Cannot find process with name '"@ + name + "'"@
}

pub open spec fn msg_kill_fail() -> Seq<char> {
    "Cannot kill process"@
}

pub open spec fn msg_list_fail() -> Seq<char> {
    "Cannot collect process list"@
}

pub fn protocol_label_str(p: Protocol) -> (r: &'static str)
    ensures
        r@ == protocol_label(p),
{
    match p {
        Protocol::Tcp => "TCP",
        Protocol::Udp => "UDP",
    }
}

pub fn build_parse_fail(suffix: &str) -> (r: String)
    ensures
        r@ == msg_parse_fail(suffix@),
{
    let mut s = String::from_str("Cannot parse port '");
    s.append(suffix);
    s.append("' as number");
    s
}

pub fn build_enum_fail() -> (r: String)
    ensures
        r@ == msg_enum_fail(),
{
    String::from_str("Cannot get socket info")
}

pub fn build_port_killed(port: u16, proto: Protocol) -> (r: String)
    ensures
        r@ == msg_port_killed(port, proto),
{
    let mut s = String::from_str("Process holding port :");
    s.append(u64_to_dec(port as u64).as_str());
    s.append(" (");
    s.append(protocol_label_str(proto));
    s.append(") killed successfully!");
    s
}

pub fn build_port_not_found(port: u16) -> (r: String)
    ensures
        r@ == msg_port_not_found(port),
{
    let mut s = String::from_str("Process that holds port :");
    s.append(u64_to_dec(port as u64).as_str());
    s.append(" could not be found.");
    s
}

pub fn build_pid_killed(pid: u64) -> (r: String)
    ensures
        r@ == msg_pid_killed(pid),
{
    let mut s = String::from_str("Process with pid ");
    s.append(u64_to_dec(pid).as_str());
    s.append(" killed successfully!");
    s
}

pub fn build_pid_not_found(pid: u64) -> (r: String)
    ensures
        r@ == msg_pid_not_found(pid),
{
    let mut s = String::from_str("Cannot get process with pid ");
    s.append(u64_to_dec(pid).as_str());
    s
}

pub fn build_name_killed(name: &str) -> (r: String)
    ensures
        r@ == msg_name_killed(name@),
{
    let mut s = String::from_str("Process with name '");
    s.append(name);
    s.append("' killed successfully!");
    s
}

pub fn build_name_not_found(name: &str) -> (r: String)
    ensures
        r@ == msg_name_not_found(name@),
{
    let mut s = String::from_str("Cannot find process with name '");
    s.append(name);
    s.append("'");
    s
}

pub fn build_kill_fail() -> (r: String)
    ensures
        r@ == msg_kill_fail(),
{
    String::from_str("Cannot kill process")
}

pub fn build_list_fail() -> (r: String)
    ensures
        r@ == msg_list_fail(),
{
    String::from_str("Cannot collect process list")
}

} // verus!
