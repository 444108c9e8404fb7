//! Research: the Rust surface in front of the autoresearch engine.
//!
//! The engine runs experiments in git-versioned workspaces and keeps their history. This library
//! decides what is asked of it and what is made of its answers: the `/api/research/*` data path
//! (`api`), the research tools (`mcp`, `mcp_stdio`), the preparation of the next variant of a
//! campaign (`reasoning`), the lifecycle of improvement runs (`improvement`), and the engine's
//! own installation and start (`engine_payload`, `engine_runtime`). Requests, files and processes
//! are left to its callers.

pub mod api;
pub mod engine_payload;
pub mod engine_runtime;
pub mod failure;
pub mod guard;
pub mod improvement;
pub mod json;
pub mod mcp;
pub mod mcp_stdio;
pub mod reasoning;
pub mod reply;
pub mod text;

pub use crate::engine_payload::EmbeddedFile;
pub use crate::engine_runtime::EngineSupervisor;
pub use crate::mcp::dispatch;
pub use crate::mcp::tool_specs;
pub use crate::mcp::ResearchToolSpec;
pub use crate::mcp::SERVER_NAME;
use vstd::prelude::*;
use crate::reply::is_success;
use crate::reply::success;
use crate::text::begins_with;
use crate::text::blank;
use crate::text::law_blank_is_empty_after_trimming;
use crate::text::law_trimming_is_idempotent;
use crate::text::lemma_without_trailing_keeps;
use crate::text::nonempty_spec;
use crate::text::opt_str;
use crate::text::starts_with;
use crate::text::trim;
use crate::text::trim_end_char;
use crate::text::trimmed;
use crate::text::without_trailing;

verus! {

/// Loopback port the research engine binds to.
pub const RESEARCH_PORT: u16 = 8087;

/// `host:port` the engine binds to.
pub const RESEARCH_ADDR: &'static str = "127.0.0.1:8087";

/// Whether a text names the scheme of HTTP or HTTPS.
pub open spec fn has_scheme(s: Seq<char>) -> bool {
    begins_with(s, "http://"@) || begins_with(s, "https://"@)
}

/// The base URL that an upstream override stands for; blank ones stand for none.
pub open spec fn base_url(upstream: Option<Seq<char>>) -> Seq<char> {
    match nonempty_spec(upstream) {
        Some(up) => if has_scheme(up) {
            without_trailing(up, '/')
        } else {
            "http://"@ + up
        },
        None => "http://"@ + RESEARCH_ADDR@,
    }
}

/// Whether a text names the scheme of HTTP or HTTPS.
pub fn names_scheme(s: &str) -> (r: bool)
    ensures
        r == has_scheme(s@),
{
    starts_with(s, "http://") || starts_with(s, "https://")
}

/// Base URL of the autoresearch engine. `upstream` is the override: a bare `host:port` or a
/// full `http(s)://…` URL, with surrounding white space ignored. Without one it is the loopback
/// address `RESEARCH_ADDR`.
pub fn research_base_url(upstream: Option<&str>) -> (r: String)
    ensures
        r@ == base_url(opt_str(upstream)),
{
    if let Some(given) = upstream {
        let up: &str = trim(given);
        if !up.is_empty() {
            if names_scheme(up) {
                return trim_end_char(up, '/').to_owned();
            }
            let mut url: String = "http://".to_owned();
            url.append(up);
            return url;
        }
    }
    let mut url: String = "http://".to_owned();
    url.append(RESEARCH_ADDR);
    url
}

/// The URL of the engine's liveness probe.
pub fn health_url(upstream: Option<&str>) -> (r: String)
    ensures
        r@ == base_url(opt_str(upstream)) + "/health"@,
        r@ == health_address(opt_str(upstream)),
{
    let mut url: String = research_base_url(upstream);
    url.append("/health");
    url
}

/// Whether the engine is running, by the status with which it answered its liveness probe: none
/// where it did not answer.
pub fn is_running_now(health: Option<u16>) -> (r: bool)
    ensures
        r == (health matches Some(status) && success(status)),
        r == running(health),
{
    match health {
        Some(status) => is_success(status),
        None => false,
    }
}

/// Where the engine is asked for its health.
pub open spec fn health_address(upstream: Option<Seq<char>>) -> Seq<char> {
    base_url(upstream) + "/health"@
}

/// Whether an answer to that, or none, means that the engine runs.
pub open spec fn running(health: Option<u16>) -> bool {
    health matches Some(status) && success(status)
}

/// Whether a text has something other than slashes behind its scheme.
pub open spec fn goes_on(s: Seq<char>) -> bool {
    exists|i: int| "http://"@.len() <= i < s.len() && #[trigger] s[i] != '/'
}

/// Every base URL names its scheme, unless the override is a scheme with nothing but slashes
/// behind it.
pub proof fn law_base_url_names_its_scheme(upstream: Option<Seq<char>>)
    requires
        nonempty_spec(upstream) matches Some(up) ==> (has_scheme(up) ==> goes_on(up)),
    ensures
        has_scheme(base_url(upstream)),
{
    reveal_strlit("http://");
    reveal_strlit("https://");
    match nonempty_spec(upstream) {
        Some(up) => {
            if has_scheme(up) {
                let i = choose|i: int| "http://"@.len() <= i < up.len() && #[trigger] up[i] != '/';
                lemma_without_trailing_keeps(up, '/', i);
                if begins_with(up, "https://"@) {
                    assert(up[7] == up.subrange(0, 8)[7]);
                }
                let url = without_trailing(up, '/');
                assert(url.subrange(0, 7) =~= up.subrange(0, 7));
                if begins_with(up, "https://"@) {
                    assert(url.subrange(0, 8) =~= up.subrange(0, 8));
                }
            } else {
                assert(("http://"@ + up).subrange(0, 7) =~= "http://"@);
            }
        },
        None => {
            assert(("http://"@ + RESEARCH_ADDR@).subrange(0, 7) =~= "http://"@);
        },
    }
}

/// White space around an override changes nothing, and a blank one is none.
pub proof fn law_white_space_around_an_override_is_ignored(upstream: Seq<char>)
    ensures
        base_url(Some(trimmed(upstream))) == base_url(Some(upstream)),
        blank(upstream) ==> base_url(Some(upstream)) == base_url(None),
{
    law_trimming_is_idempotent(upstream);
    law_blank_is_empty_after_trimming(upstream);
}

/// An override that says how it is spoken to is kept, without the slashes at its end; any other is a
/// host that is spoken to in HTTP; and without one the engine is on the loopback of this machine.
pub proof fn law_the_base_url_is_the_override_or_loopback(upstream: Seq<char>, given: Seq<char>)
    requires
        given == trimmed(upstream),
    ensures
        base_url(None) == "http://127.0.0.1:8087"@,
        given.len() == 0 ==> base_url(Some(upstream)) == "http://127.0.0.1:8087"@,
        given.len() > 0 && (begins_with(given, "http://"@) || begins_with(given, "https://"@))
            ==> base_url(Some(upstream)) == without_trailing(given, '/'),
        given.len() > 0 && !begins_with(given, "http://"@) && !begins_with(given, "https://"@)
            ==> base_url(Some(upstream)) == "http://"@ + given,
        RESEARCH_PORT == 8087,
{
    reveal_strlit("http://");
    reveal_strlit("127.0.0.1:8087");
    reveal_strlit("http://127.0.0.1:8087");
    assert("http://"@ + "127.0.0.1:8087"@ =~= "http://127.0.0.1:8087"@);
}

/// The engine runs where its health was asked for and answered with success; it is asked for at its own
/// address.
pub proof fn law_health_is_a_success(upstream: Option<Seq<char>>, status: u16)
    ensures
        health_address(upstream) == base_url(upstream) + "/health"@,
        running(Some(status)) <==> 200 <= status <= 299,
        !running(None),
{
}

} // verus!
