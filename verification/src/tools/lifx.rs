//! Controlling LIFX smart lights over the LAN protocol: action and argument
//! validation, MAC formatting and message building are verified; the UDP
//! exchange, packet packing and the floating-point colour conversions belong
//! to the embedding application.

use vstd::prelude::*;

verus! {

use std::sync::Arc;
use crate::ToolResult;
use crate::security::SecurityPolicy;
use crate::text::{dec_spec, join_lines, join_lines_spec, push_str, str_eq, u64_to_string, views_of};

pub struct LifxConfig {
    pub enabled: bool,
    pub timeout_secs: u64,
    pub broadcast_addr: String,
}

pub struct LifxTool {
    pub security: Arc<SecurityPolicy>,
    pub config: LifxConfig,
    pub description: String,
}

pub open spec fn lifx_description() -> Seq<char> {
    "Control LIFX smart lights on the local network via the LIFX LAN protocol. Actions: \"discover\" (find lights), \"state\" (query a light), \"power\" (turn on/off), \"color\" (set color/brightness/temperature). Use discover first to find light IPs, then target them by IP address."@
}

/// The lowercase hexadecimal digit for `d` in `0 ..= 15`.
pub open spec fn hex_digit(d: int) -> char {
    if d == 0 {
        '0'
    } else if d == 1 {
        '1'
    } else if d == 2 {
        '2'
    } else if d == 3 {
        '3'
    } else if d == 4 {
        '4'
    } else if d == 5 {
        '5'
    } else if d == 6 {
        '6'
    } else if d == 7 {
        '7'
    } else if d == 8 {
        '8'
    } else if d == 9 {
        '9'
    } else if d == 10 {
        'a'
    } else if d == 11 {
        'b'
    } else if d == 12 {
        'c'
    } else if d == 13 {
        'd'
    } else if d == 14 {
        'e'
    } else {
        'f'
    }
}

/// Two lowercase hexadecimal digits of a byte.
pub open spec fn byte_hex(b: int) -> Seq<char> {
    seq![hex_digit(b / 16), hex_digit(b % 16)]
}

/// The MAC address of a device target: its six low-order bytes, least
/// significant first, as colon-separated hexadecimal pairs.
pub open spec fn mac_spec(target: u64) -> Seq<char> {
    let t = target as int;
    byte_hex(t % 256) + ":"@ + byte_hex((t / 256) % 256) + ":"@ + byte_hex((t / 65536) % 256)
        + ":"@ + byte_hex((t / 16777216) % 256) + ":"@ + byte_hex((t / 4294967296) % 256) + ":"@
        + byte_hex((t / 1099511627776) % 256)
}

fn hex_digit_char(d: u64) -> (c: char)
    requires
        d < 16,
    ensures
        c == hex_digit(d as int),
{
    if d == 0 {
        '0'
    } else if d == 1 {
        '1'
    } else if d == 2 {
        '2'
    } else if d == 3 {
        '3'
    } else if d == 4 {
        '4'
    } else if d == 5 {
        '5'
    } else if d == 6 {
        '6'
    } else if d == 7 {
        '7'
    } else if d == 8 {
        '8'
    } else if d == 9 {
        '9'
    } else if d == 10 {
        'a'
    } else if d == 11 {
        'b'
    } else if d == 12 {
        'c'
    } else if d == 13 {
        'd'
    } else if d == 14 {
        'e'
    } else {
        'f'
    }
}

fn push_byte_hex(out: &mut String, b: u64)
    requires
        b < 256,
    ensures
        final(out)@ == old(out)@ + byte_hex(b as int),
{
    crate::text::push_char(out, hex_digit_char(b / 16));
    crate::text::push_char(out, hex_digit_char(b % 16));
    proof {
        assert(final(out)@ =~= old(out)@ + byte_hex(b as int));
    }
}

impl LifxTool {
    pub fn new(security: Arc<SecurityPolicy>, config: LifxConfig) -> (r: LifxTool)
        ensures
            r.security == security,
            r.config == config,
            r.description@ == lifx_description(),
    {
        let description =
            "Control LIFX smart lights on the local network via the LIFX LAN protocol. Actions: \"discover\" (find lights), \"state\" (query a light), \"power\" (turn on/off), \"color\" (set color/brightness/temperature). Use discover first to find light IPs, then target them by IP address.".to_owned();
        LifxTool { security, config, description }
    }

    pub fn name(&self) -> (r: &str)
        ensures
            r@ == "lifx"@,
    {
        "lifx"
    }

    pub fn description(&self) -> (r: &str)
        ensures
            r@ == self.description@,
    {
        self.description.as_str()
    }

    /// Formats a device target as a MAC address, proved against `mac_spec`.
    pub fn format_mac(target: u64) -> (r: String)
        ensures
            r@ == mac_spec(target),
    {
        let mut out = String::new();
        push_byte_hex(&mut out, target % 256);
        push_str(&mut out, ":");
        push_byte_hex(&mut out, (target / 256) % 256);
        push_str(&mut out, ":");
        push_byte_hex(&mut out, (target / 65536) % 256);
        push_str(&mut out, ":");
        push_byte_hex(&mut out, (target / 16777216) % 256);
        push_str(&mut out, ":");
        push_byte_hex(&mut out, (target / 4294967296) % 256);
        push_str(&mut out, ":");
        push_byte_hex(&mut out, (target / 1099511627776) % 256);
        proof {
            assert(out@ =~= mac_spec(target));
        }
        out
    }

    /// The power argument must be `on` (full level) or `off` (zero).
    pub fn power_level(power: &str) -> (r: Result<u16, ToolResult>)
        ensures
            match r {
                Ok(level) => (power@ == "on"@ && level == 65535) || (power@ == "off"@ && level
                    == 0),
                Err(result) => {
                    &&& power@ != "on"@ && power@ != "off"@
                    &&& !result.success
                    &&& result.output@.len() == 0
                    &&& result.error matches Some(e) && e@ == ("Invalid power value '"@ + power@
                        + "'. Expected 'on' or 'off'"@)
                },
            },
    {
        if str_eq(power, "on") {
            Ok(65535)
        } else if str_eq(power, "off") {
            Ok(0)
        } else {
            let mut msg = String::new();
            push_str(&mut msg, "Invalid power value '");
            push_str(&mut msg, power);
            push_str(&mut msg, "'. Expected 'on' or 'off'");
            Err(ToolResult::failure(msg))
        }
    }

    /// The colour temperature must lie in `1500 ..= 9000` kelvin.
    pub fn validate_kelvin(kelvin: u16) -> (r: Option<ToolResult>)
        ensures
            match r {
                None => 1500 <= kelvin <= 9000,
                Some(result) => {
                    &&& !(1500 <= kelvin <= 9000)
                    &&& !result.success
                    &&& result.output@.len() == 0
                    &&& result.error matches Some(e) && e@ == ("Invalid kelvin "@ + dec_spec(
                        kelvin as int,
                    ) + ": must be between 1500 and 9000"@)
                },
            },
    {
        if 1500 <= kelvin && kelvin <= 9000 {
            None
        } else {
            let mut msg = String::new();
            push_str(&mut msg, "Invalid kelvin ");
            let digits = u64_to_string(kelvin as u64);
            push_str(&mut msg, digits.as_str());
            push_str(&mut msg, ": must be between 1500 and 9000");
            Some(ToolResult::failure(msg))
        }
    }

    /// The result for an action other than the four known ones.
    pub fn unknown_action_result(action: &str) -> (r: ToolResult)
        ensures
            !r.success,
            r.output@.len() == 0,
            r.error matches Some(e) && e@ == ("Unknown action '"@ + action@
                + "'. Valid actions: discover, state, power, color"@),
    {
        let mut msg = String::new();
        push_str(&mut msg, "Unknown action '");
        push_str(&mut msg, action);
        push_str(&mut msg, "'. Valid actions: discover, state, power, color");
        ToolResult::failure(msg)
    }

    /// The successful output of a power change.
    pub fn power_success(target_ip: &str, power: &str) -> (r: ToolResult)
        ensures
            r.success,
            r.error is None,
            r.output@ == "Light at "@ + target_ip@ + " powered "@ + power@,
    {
        let mut out = String::new();
        push_str(&mut out, "Light at ");
        push_str(&mut out, target_ip);
        push_str(&mut out, " powered ");
        push_str(&mut out, power);
        ToolResult::ok(out)
    }

    /// The failure reported when a light does not answer a query.
    pub fn no_response_result(target_ip: &str) -> (r: ToolResult)
        ensures
            !r.success,
            r.output@.len() == 0,
            r.error matches Some(e) && e@ == ("No response from light at "@ + target_ip@),
    {
        let mut msg = String::new();
        push_str(&mut msg, "No response from light at ");
        push_str(&mut msg, target_ip);
        ToolResult::failure(msg)
    }

    /// The successful output of a discovery that found nothing.
    pub fn no_lights_result() -> (r: ToolResult)
        ensures
            r.success,
            r.error is None,
            r.output@ == "No LIFX lights found on the network."@,
    {
        ToolResult::ok("No LIFX lights found on the network.".to_owned())
    }

    /// The successful output of a discovery: the count and one line per
    /// light.
    pub fn discovery_output(lines: &Vec<String>) -> (r: String)
        ensures
            r@ == "Found "@ + dec_spec(lines@.len() as int) + " LIFX light(s):\n"@
                + join_lines_spec(views_of(lines@)),
    {
        let mut out = String::new();
        push_str(&mut out, "Found ");
        let count = u64_to_string(lines.len() as u64);
        push_str(&mut out, count.as_str());
        push_str(&mut out, " LIFX light(s):\n");
        let joined = join_lines(lines);
        push_str(&mut out, joined.as_str());
        out
    }
}

} // verus!
