//! The bearer guard in front of every route, and what the process reads off its environment.

use vstd::prelude::*;
use vstd::utf8::*;
use crate::text::begins_with;
use crate::text::decimal;
use crate::text::opt_str;
use crate::text::parse_port;
use crate::text::port_value;
use crate::text::same_text;
use crate::text::strip_prefix;
use crate::text::trim;
use crate::text::trimmed;
use crate::text::white_space;

verus! {

/// Default loopback port for the research sidecar.
pub const DEFAULT_PORT: u16 = 7995;

/// The sub-command that serves the tools over stdin and stdout instead of a port.
pub const MCP_SUBCOMMAND: &'static str = "mcp";

/// Whether two runs of bytes are equal, found out without stopping at the first difference.
pub fn constant_time_eq(a: &[u8], b: &[u8]) -> (r: bool)
    ensures
        r == (a@ == b@),
{
    if a.len() != b.len() {
        return false;
    }
    let mut difference: u8 = 0;
    let mut i: usize = 0;
    while i < a.len()
        invariant
            i <= a@.len(),
            a@.len() == b@.len(),
            difference == 0 <==> forall|j: int| 0 <= j < i ==> a@[j] == b@[j],
        decreases a@.len() - i,
    {
        let x: u8 = a[i];
        let y: u8 = b[i];
        proof {
            let d = difference;
            assert((d | (x ^ y)) == 0 <==> d == 0 && x == y) by (bit_vector);
        }
        difference = difference | (x ^ y);
        i += 1;
    }
    proof {
        if difference == 0 {
            assert(a@ =~= b@);
        }
    }
    difference == 0
}

/// The token that an `Authorization` header presents.
pub open spec fn presented(header: Seq<char>) -> Option<Seq<char>> {
    if begins_with(header, "Bearer "@) {
        Some(trimmed(header.subrange("Bearer "@.len() as int, header.len() as int)))
    } else {
        None
    }
}

/// Whether a request gets through the guard.
pub open spec fn admitted(expected: Option<Seq<char>>, header: Option<Seq<char>>) -> bool {
    match (expected, header) {
        (Some(token), Some(value)) => presented(value) == Some(token),
        _ => false,
    }
}

/// Whether a request gets through the guard: it presents the expected token as its bearer. Where
/// no token is expected, none gets through.
pub fn require_ext_token(expected: Option<&str>, header: Option<&str>) -> (r: bool)
    ensures
        r == admitted(opt_str(expected), opt_str(header)),
{
    let token: &str = match expected {
        Some(token) => token,
        None => {
            return false;
        },
    };
    let value: &str = match header {
        Some(value) => value,
        None => {
            return false;
        },
    };
    match strip_prefix(value, "Bearer ") {
        Some(rest) => {
            let got: &str = trim(rest);
            proof {
                encode_utf8_decode_utf8(got@);
                encode_utf8_decode_utf8(token@);
            }
            constant_time_eq(got.as_bytes(), token.as_bytes())
        },
        None => false,
    }
}

/// The port that a setting, or none, stands for.
pub open spec fn listening_port(value: Option<Seq<char>>) -> u16 {
    match value {
        Some(text) => match port_value(trimmed(text)) {
            Some(port) => port,
            None => DEFAULT_PORT,
        },
        None => DEFAULT_PORT,
    }
}

/// Whether a first argument, or none, asks for the tools over stdin and stdout.
pub open spec fn asks_for_mcp(argument: Option<Seq<char>>) -> bool {
    argument == Some(MCP_SUBCOMMAND@)
}

/// The port to listen on: the one that the environment names, or the default one.
pub fn listen_port(value: Option<&str>) -> (r: u16)
    ensures
        r == (match opt_str(value) {
            Some(text) => match port_value(trimmed(text)) {
                Some(port) => port,
                None => DEFAULT_PORT,
            },
            None => DEFAULT_PORT,
        }),
        r == listening_port(opt_str(value)),
{
    match value {
        Some(text) => match parse_port(trim(text)) {
            Some(port) => port,
            None => DEFAULT_PORT,
        },
        None => DEFAULT_PORT,
    }
}

/// Whether the process is to serve the tools over stdin and stdout, by its first argument.
pub fn serves_mcp(argument: Option<&str>) -> (r: bool)
    ensures
        r == (opt_str(argument) == Some(MCP_SUBCOMMAND@)),
        r == asks_for_mcp(opt_str(argument)),
{
    match argument {
        Some(text) => same_text(text, MCP_SUBCOMMAND),
        None => false,
    }
}

/// Without a token the guard rejects every request.
pub proof fn law_guard_fails_closed(header: Option<Seq<char>>)
    ensures
        !admitted(None, header),
{
}

/// A request without a bearer gets through under no token.
pub proof fn law_only_bearers_are_admitted(expected: Option<Seq<char>>, header: Option<Seq<char>>)
    requires
        header is None || !begins_with(header->0, "Bearer "@),
    ensures
        !admitted(expected, header),
{
}

/// The expected token gets through, with any white space around it, and no other token does.
pub proof fn law_exactly_the_token_is_admitted(token: Seq<char>, given: Seq<char>)
    requires
        trimmed(token) == token,
    ensures
        admitted(Some(token), Some("Bearer "@ + given)) <==> trimmed(given) == token,
        admitted(Some(token), Some("Bearer "@ + token)),
{
    let prefix = "Bearer "@;
    assert((prefix + given).subrange(0, prefix.len() as int) =~= prefix);
    assert((prefix + given).subrange(prefix.len() as int, (prefix + given).len() as int) =~= given);
    assert((prefix + token).subrange(0, prefix.len() as int) =~= prefix);
    assert((prefix + token).subrange(prefix.len() as int, (prefix + token).len() as int) =~= token);
}

/// The port that the environment names is the one to listen on, white space around it aside; a text
/// that names none, and no text at all, leave it at 7995.
pub proof fn law_the_named_port_is_listened_on(
    port: u16,
    before: Seq<char>,
    after: Seq<char>,
    text: Seq<char>,
)
    requires
        forall|i: int| 0 <= i < before.len() ==> white_space(#[trigger] before[i]),
        forall|i: int| 0 <= i < after.len() ==> white_space(#[trigger] after[i]),
        port_value(trimmed(text)) is None,
    ensures
        listening_port(Some(before + decimal(port as nat) + after)) == port,
        listening_port(Some(text)) == 7995,
        listening_port(None) == 7995,
{
    crate::text::law_decimal_text_counts_to_its_number(port as nat);
    crate::text::law_port_text_reads_back(port);
    let digits = decimal(port as nat);
    assert('0' <= digits[0] <= '9' && '0' <= digits[digits.len() - 1] <= '9');
    crate::text::law_trimming_takes_off_the_ends(before, digits, after);
}

/// The tools are served over stdin and stdout where the first argument is `mcp`, and only there.
pub proof fn law_only_mcp_asks_for_the_tools(argument: Seq<char>)
    ensures
        asks_for_mcp(Some("mcp"@)),
        argument != "mcp"@ ==> !asks_for_mcp(Some(argument)),
        !asks_for_mcp(None),
{
}

/// A request is let in exactly where there is a token and its header is `Bearer `, then that token, with
/// nothing but white space around it.
pub proof fn law_admission_is_by_the_whole_token(
    token: Seq<char>,
    header: Seq<char>,
    before: Seq<char>,
    after: Seq<char>,
)
    requires
        forall|i: int| 0 <= i < before.len() ==> white_space(#[trigger] before[i]),
        forall|i: int| 0 <= i < after.len() ==> white_space(#[trigger] after[i]),
        token.len() > 0 ==> !white_space(token[0]) && !white_space(token.last()),
    ensures
        admitted(Some(token), Some("Bearer "@ + before + token + after)),
        admitted(Some(token), Some(header)) ==> begins_with(header, "Bearer "@) && trimmed(
            header.subrange(7, header.len() as int),
        ) == token,
        begins_with(header, "Bearer "@) && trimmed(header.subrange(7, header.len() as int)) == token
            ==> admitted(Some(token), Some(header)),
        !admitted(Some(token), None),
        !admitted(None, Some(header)),
        !admitted(None, None),
{
    reveal_strlit("Bearer ");
    let value = "Bearer "@ + before + token + after;
    crate::text::law_trimming_takes_off_the_ends(before, token, after);
    assert(value.subrange(7, value.len() as int) =~= before + token + after);
    assert(value.subrange(0, 7) =~= "Bearer "@);
}

} // verus!
