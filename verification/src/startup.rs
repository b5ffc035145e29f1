//! Whether the port text lets the service start.

use crate::text::{
    decimal, digit_char, is_digit, law_numeral_reads_back, lemma_decimal_denotes,
    lemma_decimal_length, parse_u16, parsed_u16, str_equals, trim, trimmed, u64_to_string,
};
use vstd::prelude::*;
use vstd::string::StringSliceAdditionalSpecFns;
use vstd::utf8::{encode_utf8, is_ascii_chars, is_ascii_chars_encode_utf8};

verus! {

/// The verdict on a port text: whether the service may start, and the fault if not.
#[derive(Debug)]
pub struct StartAvailable {
    pub allowed: bool,
    pub error: Option<String>,
}

impl StartAvailable {
    /// The fault's message, if there is a fault.
    pub open spec fn fault(self) -> Option<Seq<char>> {
        match self.error {
            Some(message) => Some(message@),
            None => None,
        }
    }
}

/// The fault of a port text whose trimmed form is `inner`, if it has one. The text is
/// one to five bytes long, its trimmed form denotes a number, and the text is that
/// number's numeral: not `0`, and neither signed, padded nor spaced.
pub open spec fn port_fault(port: Seq<char>, inner: Seq<char>) -> Option<Seq<char>> {
    let length = encode_utf8(port).len();
    if length > 5 || length < 1 {
        Some("Invalid Port Length."@)
    } else if parsed_u16(inner) is None {
        Some("Invalid Characters in Port."@)
    } else if port == "0"@ {
        Some("Port cannot be 0."@)
    } else if port != decimal(parsed_u16(inner)->0 as nat) {
        Some("Port cannot begin with a 0."@)
    } else {
        None
    }
}

/// The fault of a port text, if it has one.
pub open spec fn startup_fault(port: Seq<char>) -> Option<Seq<char>> {
    port_fault(port, trimmed(port))
}

/// Checks a port text whose trimmed form is `inner`.
pub fn check_port(port: &str, inner: &str) -> (verdict: StartAvailable)
    ensures
        verdict.fault() == port_fault(port@, inner@),
        verdict.allowed == (port_fault(port@, inner@) is None),
{
    let length = port.as_bytes().len();
    let error = if length > 5 || length < 1 {
        Some("Invalid Port Length.".to_owned())
    } else {
        match parse_u16(inner) {
            None => Some("Invalid Characters in Port.".to_owned()),
            Some(number) => {
                let numeral = u64_to_string(number as u64);
                if str_equals(port, "0") {
                    Some("Port cannot be 0.".to_owned())
                } else if !str_equals(port, numeral.as_str()) {
                    Some("Port cannot begin with a 0.".to_owned())
                } else {
                    None
                }
            },
        }
    };
    StartAvailable { allowed: error.is_none(), error }
}

/// Checks whether the service may start on the port that `port` names.
pub fn check_startup_capability(port: &String) -> (verdict: StartAvailable)
    ensures
        verdict.fault() == startup_fault(port@),
        verdict.allowed == (startup_fault(port@) is None),
{
    check_port(port.as_str(), trim(port.as_str()))
}

/// A port text that lets the service start is the numeral, without sign, padding or
/// leading zero, of a port from 1 to 65535.
pub proof fn law_startable_port_is_canonical(port: Seq<char>, inner: Seq<char>)
    requires
        port_fault(port, inner) is None,
    ensures
        exists|number: nat| 1 <= number <= 65535 && port == decimal(number),
{
    let number = parsed_u16(inner)->0 as nat;
    reveal_strlit("0");
    assert("0"@ =~= decimal(0));
    assert(1 <= number <= 65535 && port == decimal(number));
}

/// The numeral of a port from 1 to 65535 lets the service start.
pub proof fn law_plain_numeral_may_start(number: nat)
    requires
        1 <= number <= 65535,
    ensures
        startup_fault(decimal(number)) is None,
{
    let s = decimal(number);
    law_numeral_reads_back(number);
    lemma_decimal_denotes(number);
    lemma_decimal_denotes(0);
    lemma_decimal_length(number);
    assert forall|i: int| 0 <= i < s.len() implies '\0' <= #[trigger] s[i] <= '\u{7f}' by {
        assert(is_digit(s[i]));
        let d = choose|d: int| 0 <= d < 10 && s[i] == digit_char(d);
    }
    assert(is_ascii_chars(s));
    is_ascii_chars_encode_utf8(s);
    reveal_strlit("0");
    assert("0"@ =~= decimal(0));
}

/// The port texts that let the service start are exactly the numerals of the ports
/// from 1 to 65535.
pub proof fn law_start_needs_a_plain_numeral(port: Seq<char>)
    ensures
        startup_fault(port) is None <==> exists|number: nat|
            1 <= number <= 65535 && port == decimal(number),
{
    if startup_fault(port) is None {
        law_startable_port_is_canonical(port, trimmed(port));
    }
    if exists|number: nat| 1 <= number <= 65535 && port == decimal(number) {
        let number = choose|number: nat| 1 <= number <= 65535 && port == decimal(number);
        law_plain_numeral_may_start(number);
    }
}

} // verus!
