//! The HTTP control surface: the request-line grammar, the immutable router
//! over the two routes of the default build, and the dispatch that turns a
//! matched route into a posted intent and a status code. The sockets that
//! carry the bytes live outside this crate.

use vstd::prelude::*;
use crate::intent::ActuatorIntent;
use crate::signal::ActuatorSignal;

verus! {

/// The index of the first occurrence of `b` in `s` at or after `from`, or
/// `s.len()` if there is none.
pub open spec fn first_index_of(s: Seq<u8>, b: u8, from: int) -> int
    decreases s.len() - from
        when 0 <= from <= s.len()
{
    if from >= s.len() {
        s.len() as int
    } else if s[from] == b {
        from
    } else {
        first_index_of(s, b, from + 1)
    }
}

/// Find the first occurrence of a byte, scanning from `from`.
fn find_byte(s: &[u8], b: u8, from: usize) -> (r: usize)
    requires
        from <= s@.len(),
    ensures
        r == first_index_of(s@, b, from as int),
{
    let n = s.len();
    let mut i: usize = from;
    while i < n
        invariant
            from <= i <= n,
            n == s@.len(),
            first_index_of(s@, b, from as int) == first_index_of(s@, b, i as int),
        decreases n - i,
    {
        if s[i] == b {
            return i;
        }
        i = i + 1;
    }
    n
}

/// Copy the bytes of `s` in `[from, to)` into a fresh vector.
fn copy_range(s: &[u8], from: usize, to: usize) -> (r: Vec<u8>)
    requires
        from <= to <= s@.len(),
    ensures
        r@ == s@.subrange(from as int, to as int),
{
    let mut r: Vec<u8> = Vec::new();
    let mut i: usize = from;
    while i < to
        invariant
            from <= i <= to <= s@.len(),
            r@ == s@.subrange(from as int, i as int),
        decreases to - i,
    {
        r.push(s[i]);
        proof {
            assert(s@.subrange(from as int, i as int + 1) =~= s@.subrange(
                from as int,
                i as int,
            ).push(s@[i as int]));
        }
        i = i + 1;
    }
    r
}

/// The method and target of a well-formed request line, or `None`. A line
/// is well-formed when it reads `method SP target SP version CRLF` with all
/// three parts non-empty: the first space ends the method, the second ends
/// the target, and the first carriage return — followed by a line feed —
/// ends the line after the version.
pub open spec fn spec_parse_request_line(s: Seq<u8>) -> Option<(Seq<u8>, Seq<u8>)> {
    let i = first_index_of(s, 32u8, 0);
    if i == 0 || i >= s.len() {
        None
    } else {
        let j = first_index_of(s, 32u8, i + 1);
        let e = first_index_of(s, 13u8, 0);
        if j >= s.len() || j <= i + 1 || j + 1 >= e || e + 1 >= s.len() || s[e + 1] != 10u8 {
            None
        } else {
            Some((s.subrange(0, i), s.subrange(i + 1, j)))
        }
    }
}

/// The method and target of one parsed request.
pub struct RequestLine {
    pub method: Vec<u8>,
    pub target: Vec<u8>,
}

/// Parse the request line at the head of a received buffer; a buffer whose
/// head is not a well-formed request line parses to nothing.
pub fn parse_request_line(s: &[u8]) -> (r: Option<RequestLine>)
    ensures
        (match r {
            Some(rl) => spec_parse_request_line(s@) == Some((rl.method@, rl.target@)),
            None => spec_parse_request_line(s@) is None,
        }),
{
    let n = s.len();
    let i = find_byte(s, 32, 0);
    if i == 0 || i >= n {
        return None;
    }
    let j = find_byte(s, 32, i + 1);
    let e = find_byte(s, 13, 0);
    if j >= n || j <= i + 1 || e >= n || j + 1 >= e || e + 1 >= n {
        return None;
    }
    if s[e + 1] != 10 {
        return None;
    }
    let method = copy_range(s, 0, i);
    let target = copy_range(s, i + 1, j);
    Some(RequestLine { method, target })
}

/// The bytes of the one accepted method.
pub open spec fn get_method() -> Seq<u8> {
    seq![71u8, 69u8, 84u8]
}

/// The bytes of the route that turns the actuator on.
pub open spec fn on_target() -> Seq<u8> {
    seq![47u8, 111u8, 110u8]
}

/// The bytes of the route that turns the actuator off.
pub open spec fn off_target() -> Seq<u8> {
    seq![47u8, 111u8, 102u8, 102u8]
}

/// The immutable routing table, as a mapping from method and target to the
/// intent the matched handler posts: `GET /on` posts `TurnOn`, `GET /off`
/// posts `TurnOff`, and anything else matches no route.
pub open spec fn spec_route(method: Seq<u8>, target: Seq<u8>) -> Option<ActuatorIntent> {
    if method == get_method() && target == on_target() {
        Some(ActuatorIntent::TurnOn)
    } else if method == get_method() && target == off_target() {
        Some(ActuatorIntent::TurnOff)
    } else {
        None
    }
}

fn matches_get(m: &[u8]) -> (r: bool)
    ensures
        r == (m@ == get_method()),
{
    let r = m.len() == 3 && m[0] == 71u8 && m[1] == 69u8 && m[2] == 84u8;
    proof {
        if r {
            assert(m@ =~= get_method());
        } else if m@ == get_method() {
            assert(m@.len() == 3);
            assert(m@[0] == 71u8 && m@[1] == 69u8 && m@[2] == 84u8);
        }
    }
    r
}

fn matches_on(t: &[u8]) -> (r: bool)
    ensures
        r == (t@ == on_target()),
{
    let r = t.len() == 3 && t[0] == 47u8 && t[1] == 111u8 && t[2] == 110u8;
    proof {
        if r {
            assert(t@ =~= on_target());
        } else if t@ == on_target() {
            assert(t@.len() == 3);
            assert(t@[0] == 47u8 && t@[1] == 111u8 && t@[2] == 110u8);
        }
    }
    r
}

fn matches_off(t: &[u8]) -> (r: bool)
    ensures
        r == (t@ == off_target()),
{
    let r = t.len() == 4 && t[0] == 47u8 && t[1] == 111u8 && t[2] == 102u8 && t[3] == 102u8;
    proof {
        if r {
            assert(t@ =~= off_target());
        } else if t@ == off_target() {
            assert(t@.len() == 4);
            assert(t@[0] == 47u8 && t@[1] == 111u8 && t@[2] == 102u8 && t@[3] == 102u8);
        }
    }
    r
}

/// Look a parsed request up in the routing table.
pub fn route(method: &[u8], target: &[u8]) -> (r: Option<ActuatorIntent>)
    ensures
        r == spec_route(method@, target@),
{
    if matches_get(method) {
        if matches_on(target) {
            Some(ActuatorIntent::TurnOn)
        } else if matches_off(target) {
            Some(ActuatorIntent::TurnOff)
        } else {
            None
        }
    } else {
        None
    }
}

/// The intent a raw request carries: the routed intent of its request line,
/// or nothing when the line is malformed or matches no route.
pub open spec fn spec_request_intent(s: Seq<u8>) -> Option<ActuatorIntent> {
    match spec_parse_request_line(s) {
        Some(p) => spec_route(p.0, p.1),
        None => None,
    }
}

/// Parse and dispatch one raw request: a request that matches a route posts
/// that route's intent — overwriting whatever was pending, by the cell's
/// latest-wins rule — and is answered 200; any other request posts nothing
/// and is answered 404.
pub fn handle_request(sig: &mut ActuatorSignal, raw: &[u8]) -> (status: u16)
    ensures
        status == 200 || status == 404,
        (status == 200) == (spec_request_intent(raw@) is Some),
        final(sig).pending() == (match spec_request_intent(raw@) {
            Some(intent) => Some(intent),
            None => old(sig).pending(),
        }),
{
    match parse_request_line(raw) {
        Some(rl) => match route(rl.method.as_slice(), rl.target.as_slice()) {
            Some(intent) => {
                sig.post(intent);
                200
            },
            None => 404,
        },
        None => 404,
    }
}

/// The bytes of the success response: a status line and no body.
pub open spec fn ok_response() -> Seq<u8> {
    seq![
        72u8, 84u8, 84u8, 80u8, 47u8, 49u8, 46u8, 49u8, 32u8, 50u8, 48u8, 48u8, 32u8, 79u8, 75u8,
        13u8, 10u8, 13u8, 10u8,
    ]
}

/// The bytes of the no-match response: a status line and no body.
pub open spec fn not_found_response() -> Seq<u8> {
    seq![
        72u8, 84u8, 84u8, 80u8, 47u8, 49u8, 46u8, 49u8, 32u8, 52u8, 48u8, 52u8, 32u8, 78u8, 111u8,
        116u8, 32u8, 70u8, 111u8, 117u8, 110u8, 100u8, 13u8, 10u8, 13u8, 10u8,
    ]
}

/// Render the response for a dispatch outcome.
pub fn render_response(status: u16) -> (r: Vec<u8>)
    requires
        status == 200 || status == 404,
    ensures
        status == 200 ==> r@ == ok_response(),
        status == 404 ==> r@ == not_found_response(),
{
    let mut r: Vec<u8> = Vec::new();
    r.push(72u8);
    r.push(84u8);
    r.push(84u8);
    r.push(80u8);
    r.push(47u8);
    r.push(49u8);
    r.push(46u8);
    r.push(49u8);
    r.push(32u8);
    if status == 200 {
        r.push(50u8);
        r.push(48u8);
        r.push(48u8);
        r.push(32u8);
        r.push(79u8);
        r.push(75u8);
    } else {
        r.push(52u8);
        r.push(48u8);
        r.push(52u8);
        r.push(32u8);
        r.push(78u8);
        r.push(111u8);
        r.push(116u8);
        r.push(32u8);
        r.push(70u8);
        r.push(111u8);
        r.push(117u8);
        r.push(110u8);
        r.push(100u8);
    }
    r.push(13);
    r.push(10);
    r.push(13);
    r.push(10);
    proof {
        if status == 200 {
            assert(r@ =~= ok_response());
        } else {
            assert(r@ =~= not_found_response());
        }
    }
    r
}

} // verus!
