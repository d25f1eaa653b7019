//! Text forms: addresses as they label gauges, flows as they are named.

use crate::loss::TcpConnection;
use crate::packet::IpAddress;
use crate::rates::NetworkMetrics;
use vstd::prelude::*;
use vstd::string::StringExecFns;

verus! {

/// The character of a digit, decimal or hexadecimal (lower case).
pub open spec fn digit_char(digit: int) -> char {
    if digit == 0 {
        '0'
    } else if digit == 1 {
        '1'
    } else if digit == 2 {
        '2'
    } else if digit == 3 {
        '3'
    } else if digit == 4 {
        '4'
    } else if digit == 5 {
        '5'
    } else if digit == 6 {
        '6'
    } else if digit == 7 {
        '7'
    } else if digit == 8 {
        '8'
    } else if digit == 9 {
        '9'
    } else if digit == 10 {
        'a'
    } else if digit == 11 {
        'b'
    } else if digit == 12 {
        'c'
    } else if digit == 13 {
        'd'
    } else if digit == 14 {
        'e'
    } else {
        'f'
    }
}

/// `value` in decimal, without leading zeros.
pub open spec fn decimal(value: nat) -> Seq<char>
    decreases value,
{
    if value < 10 {
        seq![digit_char(value as int)]
    } else {
        decimal(value / 10).push(digit_char((value % 10) as int))
    }
}

/// `value` in lower-case hexadecimal, without leading zeros.
pub open spec fn hexadecimal(value: nat) -> Seq<char>
    decreases value,
{
    if value < 16 {
        seq![digit_char(value as int)]
    } else {
        hexadecimal(value / 16).push(digit_char((value % 16) as int))
    }
}

/// Octet `index` of an IPv4 address, counted from the left.
pub open spec fn octet(addr: u32, index: nat) -> nat {
    if index == 0 {
        (addr / 0x100_0000) as nat
    } else if index == 1 {
        (addr / 0x1_0000 % 0x100) as nat
    } else if index == 2 {
        (addr / 0x100 % 0x100) as nat
    } else {
        (addr % 0x100) as nat
    }
}

/// Group `index` of an IPv6 address, counted from the left, for the first
/// four groups.
pub open spec fn leading_group(addr: u128, index: nat) -> nat {
    if index == 0 {
        (addr / 0x1_0000_0000_0000_0000_0000_0000_0000) as nat
    } else if index == 1 {
        (addr / 0x1_0000_0000_0000_0000_0000_0000 % 0x1_0000) as nat
    } else if index == 2 {
        (addr / 0x1_0000_0000_0000_0000_0000 % 0x1_0000) as nat
    } else {
        (addr / 0x1_0000_0000_0000_0000 % 0x1_0000) as nat
    }
}

/// Dotted-decimal form of an IPv4 address.
pub open spec fn ipv4_text_of(addr: u32) -> Seq<char> {
    decimal(octet(addr, 0)) + seq!['.'] + decimal(octet(addr, 1)) + seq!['.'] + decimal(
        octet(addr, 2),
    ) + seq!['.'] + decimal(octet(addr, 3))
}

/// Label form of an IPv6 address: its first four groups, then `::`.
pub open spec fn ipv6_label_of(addr: u128) -> Seq<char> {
    hexadecimal(leading_group(addr, 0)) + seq![':'] + hexadecimal(leading_group(addr, 1)) + seq![
        ':',
    ] + hexadecimal(leading_group(addr, 2)) + seq![':'] + hexadecimal(leading_group(addr, 3))
        + seq![':', ':']
}

/// Text form of an address of either family.
pub open spec fn address_text_of(ip: IpAddress) -> Seq<char> {
    match ip {
        IpAddress::V4(addr) => ipv4_text_of(addr),
        IpAddress::V6(addr) => ipv6_label_of(addr),
    }
}

/// Name of a flow from `src_ip:src_port` to `dst_ip:dst_port`.
pub open spec fn flow_key_of(src_ip: u32, src_port: u16, dst_ip: u32, dst_port: u16) -> Seq<char> {
    ipv4_text_of(src_ip) + seq![':'] + decimal(src_port as nat) + seq!['-'] + ipv4_text_of(dst_ip)
        + seq![':'] + decimal(dst_port as nat)
}

/// The digit as a string of one character.
fn digit_str(digit: u32) -> (s: &'static str)
    requires
        digit < 16,
    ensures
        s@ == seq![digit_char(digit as int)],
{
    proof {
        reveal_strlit("0");
        reveal_strlit("1");
        reveal_strlit("2");
        reveal_strlit("3");
        reveal_strlit("4");
        reveal_strlit("5");
        reveal_strlit("6");
        reveal_strlit("7");
        reveal_strlit("8");
        reveal_strlit("9");
        reveal_strlit("a");
        reveal_strlit("b");
        reveal_strlit("c");
        reveal_strlit("d");
        reveal_strlit("e");
        reveal_strlit("f");
    }
    let s = match digit {
        0 => "0",
        1 => "1",
        2 => "2",
        3 => "3",
        4 => "4",
        5 => "5",
        6 => "6",
        7 => "7",
        8 => "8",
        9 => "9",
        10 => "a",
        11 => "b",
        12 => "c",
        13 => "d",
        14 => "e",
        _ => "f",
    };
    s
}

/// Appends `value` in decimal to `out`.
fn push_decimal(out: &mut String, value: u32)
    ensures
        final(out)@ == old(out)@ + decimal(value as nat),
    decreases value,
{
    if value >= 10 {
        push_decimal(out, value / 10);
    }
    out.append(digit_str(value % 10));
}

/// Appends `value` in hexadecimal to `out`.
fn push_hexadecimal(out: &mut String, value: u32)
    ensures
        final(out)@ == old(out)@ + hexadecimal(value as nat),
    decreases value,
{
    if value >= 16 {
        push_hexadecimal(out, value / 16);
    }
    out.append(digit_str(value % 16));
}

/// Appends a separator to `out`.
fn push_separator(out: &mut String, separator: char)
    requires
        separator == '.' || separator == ':' || separator == '-',
    ensures
        final(out)@ == old(out)@ + seq![separator],
{
    proof {
        reveal_strlit(".");
        reveal_strlit(":");
        reveal_strlit("-");
    }
    let s = if separator == '.' {
        "."
    } else if separator == ':' {
        ":"
    } else {
        "-"
    };
    out.append(s);
}

/// Appends the dotted-decimal form of `addr` to `out`.
fn push_ipv4(out: &mut String, addr: u32)
    ensures
        final(out)@ == old(out)@ + ipv4_text_of(addr),
{
    push_decimal(out, addr / 0x100_0000);
    push_separator(out, '.');
    push_decimal(out, addr / 0x1_0000 % 0x100);
    push_separator(out, '.');
    push_decimal(out, addr / 0x100 % 0x100);
    push_separator(out, '.');
    push_decimal(out, addr % 0x100);
}

/// Dotted-decimal form of an IPv4 address: `0x0A00_0005` is `10.0.0.5`.
pub fn ipv4_text(addr: u32) -> (text: String)
    ensures
        text@ == ipv4_text_of(addr),
{
    let mut text = String::new();
    push_ipv4(&mut text, addr);
    text
}

/// Label form of an IPv6 address: the first four of its eight groups in
/// hexadecimal, then `::`. Addresses of one /64 share their label.
pub fn ipv6_label(addr: u128) -> (text: String)
    ensures
        text@ == ipv6_label_of(addr),
{
    let mut text = String::new();
    push_hexadecimal(&mut text, (addr / 0x1_0000_0000_0000_0000_0000_0000_0000) as u32);
    push_separator(&mut text, ':');
    push_hexadecimal(&mut text, (addr / 0x1_0000_0000_0000_0000_0000_0000 % 0x1_0000) as u32);
    push_separator(&mut text, ':');
    push_hexadecimal(&mut text, (addr / 0x1_0000_0000_0000_0000_0000 % 0x1_0000) as u32);
    push_separator(&mut text, ':');
    push_hexadecimal(&mut text, (addr / 0x1_0000_0000_0000_0000 % 0x1_0000) as u32);
    push_separator(&mut text, ':');
    push_separator(&mut text, ':');
    text
}

/// Text form of an address: dotted decimal for IPv4, the label form for IPv6.
pub fn address_text(ip: IpAddress) -> (text: String)
    ensures
        text@ == address_text_of(ip),
{
    match ip {
        IpAddress::V4(addr) => ipv4_text(addr),
        IpAddress::V6(addr) => ipv6_label(addr),
    }
}

fn flow_key(src_ip: u32, src_port: u16, dst_ip: u32, dst_port: u16) -> (key: String)
    ensures
        key@ == flow_key_of(src_ip, src_port, dst_ip, dst_port),
{
    let mut key = String::new();
    push_ipv4(&mut key, src_ip);
    push_separator(&mut key, ':');
    push_decimal(&mut key, src_port as u32);
    push_separator(&mut key, '-');
    push_ipv4(&mut key, dst_ip);
    push_separator(&mut key, ':');
    push_decimal(&mut key, dst_port as u32);
    key
}

impl TcpConnection {
    /// Name of the flow: `src:sport-dst:dport`.
    pub fn key(&self) -> (key: String)
        ensures
            key@ == flow_key_of(self.src_ip, self.src_port, self.dst_ip, self.dst_port),
    {
        flow_key(self.src_ip, self.src_port, self.dst_ip, self.dst_port)
    }

    /// Name of the flow in the other direction: `dst:dport-src:sport`.
    pub fn reverse_key(&self) -> (key: String)
        ensures
            key@ == flow_key_of(self.dst_ip, self.dst_port, self.src_ip, self.src_port),
    {
        flow_key(self.dst_ip, self.dst_port, self.src_ip, self.src_port)
    }
}

impl NetworkMetrics {
    /// Text form of `ip` as it labels the gauges, for a local address; none
    /// for any other.
    pub fn get_local_ip_string(&self, ip: IpAddress) -> (label: Option<String>)
        ensures
            label is Some <==> self@.networks.spec_is_local(ip),
            label matches Some(text) ==> text@ == address_text_of(ip),
    {
        if self.is_local_ip(ip) {
            Some(address_text(ip))
        } else {
            None
        }
    }
}

} // verus!
