//! The range-seekable local server's wire logic: probing for a free port,
//! parsing `Range: bytes=start-end` headers, and planning the status line,
//! headers, and body window of each response. Binding sockets and shipping
//! bytes are the embedding program's work; every decision is made here.

use vstd::prelude::*;
use vstd::string::StringExecFns;
use crate::delivery::DeliveryError;
use crate::numerals::{all_digits, dec_digits, dec_value, parse_u64, u64_to_string};

verus! {

/// First port the delivery server tries to bind.
pub const BASE_PORT: u16 = 8000;

/// Last port tried; past it, port probing reports exhaustion.
pub const MAX_PORT: u16 = 9000;

/// The port-probing cursor: starts at `BASE_PORT` and moves up one port per
/// bind failure until `MAX_PORT`, past which probing reports exhaustion as a
/// hard error.
#[derive(Clone, Copy, Debug, PartialEq, Eq, Structural)]
pub struct PortProber {
    pub next_port: u16,
}

impl PortProber {
    pub fn new() -> (p: PortProber)
        ensures
            p.next_port == BASE_PORT,
    {
        PortProber { next_port: BASE_PORT }
    }

    /// The port to try binding next.
    pub fn current(&self) -> (port: u16)
        ensures
            port == self.next_port,
    {
        self.next_port
    }

    /// Move to the next candidate after a bind failure. Returns the new
    /// candidate, or the exhaustion error once the probing range is spent.
    pub fn on_bind_failure(&mut self) -> (r: Result<u16, DeliveryError>)
        ensures
            old(self).next_port >= MAX_PORT ==> r == Result::<u16, DeliveryError>::Err(
                DeliveryError::NoAvailablePort,
            ) && *final(self) == *old(self),
            old(self).next_port < MAX_PORT ==> final(self).next_port == old(self).next_port + 1
                && r == Result::<u16, DeliveryError>::Ok(final(self).next_port),
    {
        if self.next_port >= MAX_PORT {
            Err(DeliveryError::NoAvailablePort)
        } else {
            self.next_port = self.next_port + 1;
            Ok(self.next_port)
        }
    }
}

/// The allowed caller origin: the known front-end origin for the current
/// build mode.
pub fn cors_origin(dev_mode: bool) -> (origin: &'static str)
    ensures
        dev_mode ==> origin@ == "http://localhost:1420"@,
        !dev_mode ==> origin@ == "http://tauri.localhost"@,
{
    if dev_mode {
        "http://localhost:1420"
    } else {
        "http://tauri.localhost"
    }
}

/// The methods the delivery server allows cross-origin.
pub fn cors_allow_methods() -> (methods: &'static str)
    ensures
        methods@ == "GET, OPTIONS"@,
{
    "GET, OPTIONS"
}

/// Position of the first `-` in `s` at or after `i`, or `s.len()` when none
/// follows.
pub open spec fn dash_from(s: Seq<u8>, i: int) -> int
    decreases s.len() - i when 0 <= i
{
    if i >= s.len() {
        s.len() as int
    } else if s[i] == 45u8 {
        i
    } else {
        dash_from(s, i + 1)
    }
}

proof fn lemma_dash_from(s: Seq<u8>, i: int)
    requires
        0 <= i <= s.len(),
    ensures
        i <= dash_from(s, i) <= s.len(),
        forall|k: int| i <= k < dash_from(s, i) ==> s[k] != 45u8,
        dash_from(s, i) < s.len() ==> s[dash_from(s, i)] == 45u8,
    decreases s.len() - i,
{
    if i < s.len() && s[i] != 45u8 {
        lemma_dash_from(s, i + 1);
    }
}

proof fn lemma_dash_from_unique(s: Seq<u8>, i: int, j: int)
    requires
        0 <= i <= j <= s.len(),
        forall|k: int| i <= k < j ==> s[k] != 45u8,
        j == s.len() || s[j] == 45u8,
    ensures
        dash_from(s, i) == j,
    decreases j - i,
{
    if i < j {
        lemma_dash_from_unique(s, i + 1, j);
    }
}

/// The numeral a range bound parses to, with the given default for an empty,
/// malformed, or overflowing numeral: each bound goes through an unsigned
/// decimal parse and falls back on its default.
pub open spec fn bound_or(s: Seq<u8>, default: int) -> int {
    if s.len() > 0 && all_digits(s) && dec_value(s) <= u64::MAX {
        dec_value(s) as int
    } else {
        default
    }
}

/// The view of the header value `bytes=start-end` against a file of
/// `file_size` bytes: present exactly when the value carries the `bytes=`
/// prefix and exactly one dash; a missing or malformed start defaults to 0,
/// a missing or malformed end to the last byte.
pub open spec fn spec_parse_range(h: Seq<u8>, file_size: int) -> Option<(int, int)> {
    if h.len() >= 6 && h.subrange(0, 6) == "bytes="@.map_values(|c: char| c as u8) {
        let rest = h.subrange(6, h.len() as int);
        let d = dash_from(rest, 0);
        if d < rest.len() && dash_from(rest, d + 1) == rest.len() {
            Some(
                (
                    bound_or(rest.subrange(0, d), 0),
                    bound_or(rest.subrange(d + 1, rest.len() as int), file_size - 1),
                ),
            )
        } else {
            None
        }
    } else {
        None
    }
}

/// Parse a `Range` header value. Follows `spec_parse_range` exactly.
pub fn parse_range_header(value: &[u8], file_size: u64) -> (r: Option<(u64, u64)>)
    requires
        file_size >= 1,
    ensures
        match r {
            Some((s, e)) => spec_parse_range(value@, file_size as int) == Some(
                (s as int, e as int),
            ),
            None => spec_parse_range(value@, file_size as int) is None,
        },
{
    proof {
        reveal_strlit("bytes=");
    }
    if value.len() < 6 {
        return None;
    }
    if !(value[0] == 98 && value[1] == 121 && value[2] == 116 && value[3] == 101 && value[4]
        == 115 && value[5] == 61) {
        proof {
            let p = "bytes="@.map_values(|c: char| c as u8);
            assert(p.len() == 6);
            assert(p[0] == 98u8 && p[1] == 121u8 && p[2] == 116u8 && p[3] == 101u8 && p[4] == 115u8
                && p[5] == 61u8);
            assert(value@.subrange(0, 6) != p);
        }
        return None;
    }
    proof {
        let p = "bytes="@.map_values(|c: char| c as u8);
        assert(p.len() == 6);
        assert(p[0] == 98u8 && p[1] == 121u8 && p[2] == 116u8 && p[3] == 101u8 && p[4] == 115u8
            && p[5] == 61u8);
        assert(value@.subrange(0, 6) =~= p);
    }
    let rest = &value[6..value.len()];
    let ghost rs = rest@;
    proof {
        assert(rs =~= value@.subrange(6, value@.len() as int));
    }
    // Find the first dash.
    let mut d: usize = 0;
    while d < rest.len() && rest[d] != 45
        invariant
            0 <= d <= rs.len(),
            rest@ == rs,
            forall|k: int| 0 <= k < d ==> rs[k] != 45u8,
        decreases rs.len() - d,
    {
        d = d + 1;
    }
    proof {
        lemma_dash_from_unique(rs, 0, d as int);
    }
    if d >= rest.len() {
        return None;
    }
    // Reject a second dash: the syntax carries exactly one.
    let mut k: usize = d + 1;
    while k < rest.len() && rest[k] != 45
        invariant
            d + 1 <= k <= rs.len(),
            rest@ == rs,
            forall|m: int| d + 1 <= m < k ==> rs[m] != 45u8,
        decreases rs.len() - k,
    {
        k = k + 1;
    }
    if k < rest.len() {
        proof {
            lemma_dash_from(rs, d as int + 1);
            assert(rs[k as int] == 45u8);
            assert(dash_from(rs, d as int + 1) <= k < rs.len());
        }
        return None;
    }
    proof {
        lemma_dash_from_unique(rs, d as int + 1, rs.len() as int);
    }
    let left = &rest[0..d];
    let right = &rest[d + 1..rest.len()];
    proof {
        assert(left@ =~= rs.subrange(0, d as int));
        assert(right@ =~= rs.subrange(d as int + 1, rs.len() as int));
    }
    let start = match parse_u64(left) {
        Some(v) => v,
        None => 0,
    };
    let end = match parse_u64(right) {
        Some(v) => v,
        None => file_size - 1,
    };
    Some((start, end))
}

/// Everything the server needs to answer one request: the status, the body
/// window into the artifact, and the `Content-Range` header when partial
/// content is served. Cross-origin headers accompany every response; a body
/// carries `Content-Type: video/mp4`.
pub struct ResponsePlan {
    pub status: u16,
    pub body_start: u64,
    pub body_len: u64,
    pub content_range: Option<String>,
}

/// The satisfiable range of a request, if it asked for one: the parsed
/// bounds, provided they select a non-empty window inside the file.
pub open spec fn spec_satisfiable_range(header: Option<Seq<u8>>, file_size: int) -> Option<
    (int, int),
> {
    match header {
        None => None,
        Some(h) => match spec_parse_range(h, file_size) {
            Some((s, e)) => if s <= e < file_size {
                Some((s, e))
            } else {
                None
            },
            None => None,
        },
    }
}

/// Plan the response to one request against a non-empty artifact file.
/// An options probe is answered empty with success (204). A request whose
/// `Range` header selects a satisfiable window gets partial content: 206,
/// that window as the body, and `Content-Range: bytes start-end/total`. Any
/// other request gets the full artifact with 200.
pub fn plan_request(is_options: bool, range_header: Option<&[u8]>, file_size: u64) -> (plan:
    ResponsePlan)
    requires
        file_size >= 1,
    ensures
        is_options ==> {
            &&& plan.status == 204
            &&& plan.body_len == 0
            &&& plan.content_range is None
        },
        !is_options ==> {
            let h = match range_header {
                Some(v) => Some(v@),
                None => None,
            };
            match spec_satisfiable_range(h, file_size as int) {
                Some((s, e)) => {
                    &&& plan.status == 206
                    &&& plan.body_start == s
                    &&& plan.body_len == e - s + 1
                    &&& plan.content_range is Some
                    &&& plan.content_range->Some_0@ == "bytes "@ + dec_digits(s as nat) + "-"@
                        + dec_digits(e as nat) + "/"@ + dec_digits(file_size as nat)
                },
                None => {
                    &&& plan.status == 200
                    &&& plan.body_start == 0
                    &&& plan.body_len == file_size
                    &&& plan.content_range is None
                },
            }
        },
{
    if is_options {
        return ResponsePlan { status: 204, body_start: 0, body_len: 0, content_range: None };
    }
    let full = ResponsePlan { status: 200, body_start: 0, body_len: file_size, content_range: None };
    match range_header {
        None => full,
        Some(value) => {
            match parse_range_header(value, file_size) {
                Some((s, e)) => {
                    if s <= e && e < file_size {
                        let mut cr = "bytes ".to_owned();
                        let start_digits = u64_to_string(s);
                        cr.append(start_digits.as_str());
                        cr.append("-");
                        let end_digits = u64_to_string(e);
                        cr.append(end_digits.as_str());
                        cr.append("/");
                        let total_digits = u64_to_string(file_size);
                        cr.append(total_digits.as_str());
                        ResponsePlan {
                            status: 206,
                            body_start: s,
                            body_len: e - s + 1,
                            content_range: Some(cr),
                        }
                    } else {
                        full
                    }
                },
                None => full,
            }
        },
    }
}

/// Copy the planned body window out of the artifact bytes.
pub fn response_body(data: &[u8], plan: &ResponsePlan) -> (body: Vec<u8>)
    requires
        plan.body_start + plan.body_len <= data@.len(),
    ensures
        body@ == data@.subrange(
            plan.body_start as int,
            plan.body_start as int + plan.body_len as int,
        ),
{
    let mut out: Vec<u8> = Vec::new();
    let dlen: usize = data.len();
    proof {
        assert(plan.body_start <= dlen && plan.body_len <= dlen);
    }
    let start = plan.body_start as usize;
    let len = plan.body_len as usize;
    let mut i: usize = 0;
    while i < len
        invariant
            0 <= i <= len,
            dlen == data@.len(),
            start + len <= dlen,
            start == plan.body_start as int,
            len == plan.body_len as int,
            out@ =~= data@.subrange(start as int, start as int + i as int),
        decreases len - i,
    {
        out.push(data[start + i]);
        i = i + 1;
    }
    proof {
        assert(out@ =~= data@.subrange(
            plan.body_start as int,
            plan.body_start as int + plan.body_len as int,
        ));
    }
    out
}

} // verus!
