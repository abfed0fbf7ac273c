//! What the device asks of its wireless station, and the decisions that
//! precede an association.

use vstd::prelude::*;
use vstd::string::StringExecFns;

verus! {

/// Why a call on the station failed.
#[derive(Copy, Clone, Debug, PartialEq, Eq, Structural)]
pub enum WifiError {
    /// No network name was given.
    MissingName,
    /// The station itself failed.
    Driver,
}

/// How the station proves itself to the access point.
#[derive(Copy, Clone, Debug, PartialEq, Eq, Structural)]
pub enum AuthMethod {
    /// An open network: no proof is asked.
    Open,
    WPA2Personal,
}

/// What a wireless station offers.
pub trait WifiStation {
    /// Joins the network `ssid`; returns once the station is associated
    /// and has an address, or has failed.
    fn connect(&mut self, ssid: &str, password: &str) -> Result<(), WifiError>;

    fn disconnect(&mut self) -> Result<(), WifiError>;

    fn is_connected(&self) -> Result<bool, WifiError>;

    /// The hardware address of the station, as it identifies the device.
    fn get_mac_address(&self) -> Result<String, WifiError>;

    fn get_ip_address(&self) -> Result<String, WifiError>;
}

/// How to join the network `ssid` with `password`: a network without a
/// name cannot be joined, one without a password is open, and every other
/// one is joined with WPA2.
pub open spec fn spec_auth_method(ssid: Seq<char>, password: Seq<char>) -> Result<
    AuthMethod,
    WifiError,
> {
    if ssid.len() == 0 {
        Err(WifiError::MissingName)
    } else if password.len() == 0 {
        Ok(AuthMethod::Open)
    } else {
        Ok(AuthMethod::WPA2Personal)
    }
}

/// How to join the network `ssid` with `password`; see `spec_auth_method`.
pub fn auth_method(ssid: &str, password: &str) -> (result: Result<AuthMethod, WifiError>)
    ensures
        result == spec_auth_method(ssid@, password@),
{
    if ssid.is_empty() {
        Err(WifiError::MissingName)
    } else if password.is_empty() {
        Ok(AuthMethod::Open)
    } else {
        Ok(AuthMethod::WPA2Personal)
    }
}

/// The upper-case hexadecimal digit for `value`, which is below 16.
pub open spec fn hex_digit(value: int) -> char {
    if value == 0 {
        '0'
    } else if value == 1 {
        '1'
    } else if value == 2 {
        '2'
    } else if value == 3 {
        '3'
    } else if value == 4 {
        '4'
    } else if value == 5 {
        '5'
    } else if value == 6 {
        '6'
    } else if value == 7 {
        '7'
    } else if value == 8 {
        '8'
    } else if value == 9 {
        '9'
    } else if value == 10 {
        'A'
    } else if value == 11 {
        'B'
    } else if value == 12 {
        'C'
    } else if value == 13 {
        'D'
    } else if value == 14 {
        'E'
    } else {
        'F'
    }
}

/// A hardware address in writing: every byte as two upper-case hexadecimal
/// digits, and a colon between one byte and the next.
pub open spec fn spec_format_mac(mac: Seq<u8>) -> Seq<char>
    decreases mac.len(),
{
    if mac.len() == 0 {
        Seq::<char>::empty()
    } else {
        let byte = mac.last();
        let digits = seq![hex_digit(byte as int / 16), hex_digit(byte as int % 16)];
        if mac.len() == 1 {
            digits
        } else {
            spec_format_mac(mac.drop_last()) + seq![':'] + digits
        }
    }
}

fn hex_text(value: u8) -> (digit: &'static str)
    requires
        value < 16,
    ensures
        digit@ == seq![hex_digit(value as int)],
{
    proof {
        reveal_strlit("0");
        reveal_strlit("1");
        reveal_strlit("2");
        reveal_strlit("3");
        reveal_strlit("4");
        reveal_strlit("5");
        reveal_strlit("6");
        reveal_strlit("7");
        reveal_strlit("8");
        reveal_strlit("9");
        reveal_strlit("A");
        reveal_strlit("B");
        reveal_strlit("C");
        reveal_strlit("D");
        reveal_strlit("E");
        reveal_strlit("F");
    }
    let digit = if value == 0 {
        "0"
    } else if value == 1 {
        "1"
    } else if value == 2 {
        "2"
    } else if value == 3 {
        "3"
    } else if value == 4 {
        "4"
    } else if value == 5 {
        "5"
    } else if value == 6 {
        "6"
    } else if value == 7 {
        "7"
    } else if value == 8 {
        "8"
    } else if value == 9 {
        "9"
    } else if value == 10 {
        "A"
    } else if value == 11 {
        "B"
    } else if value == 12 {
        "C"
    } else if value == 13 {
        "D"
    } else if value == 14 {
        "E"
    } else {
        "F"
    };
    assert(digit@ =~= seq![hex_digit(value as int)]);
    digit
}

/// Writes the hardware address `mac` out; see `spec_format_mac`.
pub fn format_mac(mac: &[u8]) -> (text: String)
    ensures
        text@ == spec_format_mac(mac@),
{
    let mut text = String::new();
    let mut i: usize = 0;
    proof {
        reveal_strlit(":");
        assert(mac@.take(0) =~= Seq::<u8>::empty());
    }
    while i < mac.len()
        invariant
            i <= mac.len(),
            ":"@ == seq![':'],
            text@ == spec_format_mac(mac@.take(i as int)),
        decreases mac.len() - i,
    {
        let byte = mac[i];
        let ghost before = text@;
        if i > 0 {
            text.append(":");
        }
        text.append(hex_text(byte / 16));
        text.append(hex_text(byte % 16));
        proof {
            let next = mac@.take(i as int + 1);
            assert(next.drop_last() =~= mac@.take(i as int));
            assert(next.last() == byte);
            let digits = seq![hex_digit(byte as int / 16), hex_digit(byte as int % 16)];
            if i > 0 {
                assert(text@ =~= before + seq![':'] + digits);
            } else {
                assert(before =~= Seq::<char>::empty());
                assert(text@ =~= digits);
            }
        }
        i += 1;
    }
    assert(mac@.take(i as int) =~= mac@);
    text
}

} // verus!
