//! Route construction: percent-encoding of identifiers as single path
//! segments, and the simulation routes built from them, including the
//! synthesized public share URL.

use vstd::prelude::*;
use vstd::string::StrSliceExecFns;
use vstd::string::StringExecFns;
use vstd::string::StringSliceAdditionalSpecFns;

verus! {

/// Unreserved path-segment bytes, kept verbatim: ASCII letters, digits,
/// `-`, `.`, `_`, `~`. Every other byte is percent-escaped.
pub open spec fn is_unreserved(b: u8) -> bool {
    ||| ('a' as u8) <= b && b <= ('z' as u8)
    ||| ('A' as u8) <= b && b <= ('Z' as u8)
    ||| ('0' as u8) <= b && b <= ('9' as u8)
    ||| b == ('-' as u8)
    ||| b == ('.' as u8)
    ||| b == ('_' as u8)
    ||| b == ('~' as u8)
}

/// The uppercase hexadecimal digit character for a value below sixteen.
pub open spec fn hex_upper(d: nat) -> char
    recommends
        d < 16,
{
    if d == 0 {
        '0'
    } else if d == 1 {
        '1'
    } else if d == 2 {
        '2'
    } else if d == 3 {
        '3'
    } else if d == 4 {
        '4'
    } else if d == 5 {
        '5'
    } else if d == 6 {
        '6'
    } else if d == 7 {
        '7'
    } else if d == 8 {
        '8'
    } else if d == 9 {
        '9'
    } else if d == 10 {
        'A'
    } else if d == 11 {
        'B'
    } else if d == 12 {
        'C'
    } else if d == 13 {
        'D'
    } else if d == 14 {
        'E'
    } else {
        'F'
    }
}

/// Percent-encoding of one byte of a path segment.
pub open spec fn encode_byte(b: u8) -> Seq<char> {
    if is_unreserved(b) {
        seq![b as char]
    } else {
        seq!['%', hex_upper((b / 16) as nat), hex_upper((b % 16) as nat)]
    }
}

/// Percent-encoding of a byte sequence (an identifier in UTF-8) as one path
/// segment.
pub open spec fn encode_segment(bs: Seq<u8>) -> Seq<char>
    decreases bs.len(),
{
    if bs.len() == 0 {
        Seq::empty()
    } else {
        encode_segment(bs.drop_last()) + encode_byte(bs.last())
    }
}

/// The number of `/` characters in a route; one more than the number of path
/// segments the route is split into.
pub open spec fn slash_count(s: Seq<char>) -> nat
    decreases s.len(),
{
    if s.len() == 0 {
        0
    } else {
        slash_count(s.drop_last()) + if s.last() == '/' {
            1nat
        } else {
            0nat
        }
    }
}

proof fn lemma_slash_count_concat(a: Seq<char>, b: Seq<char>)
    ensures
        slash_count(a + b) == slash_count(a) + slash_count(b),
    decreases b.len(),
{
    if b.len() == 0 {
        assert(a + b =~= a);
    } else {
        assert((a + b).drop_last() =~= a + b.drop_last());
        assert((a + b).last() == b.last());
        lemma_slash_count_concat(a, b.drop_last());
    }
}

proof fn lemma_encode_byte_no_slash(b: u8)
    ensures
        slash_count(encode_byte(b)) == 0,
{
    let s = encode_byte(b);
    if is_unreserved(b) {
        assert(s.last() != '/');
        assert(s.drop_last() =~= Seq::<char>::empty());
        assert(slash_count(s.drop_last()) == 0);
    } else {
        assert(s.last() == hex_upper((b % 16) as nat) && s.last() != '/');
        assert(s.drop_last() =~= seq!['%', hex_upper((b / 16) as nat)]);
        assert(s.drop_last().last() != '/');
        assert(s.drop_last().drop_last() =~= seq!['%']);
        assert(s.drop_last().drop_last().last() != '/');
        assert(s.drop_last().drop_last().drop_last() =~= Seq::<char>::empty());
        assert(slash_count(s.drop_last().drop_last().drop_last()) == 0);
        assert(slash_count(s.drop_last().drop_last()) == 0);
        assert(slash_count(s.drop_last()) == 0);
    }
}

/// Law: a percent-encoded identifier is a single path segment. Splicing it
/// into a route adds no `/`, whatever bytes the identifier contains, so the
/// number of path segments of the route is unchanged.
pub proof fn lemma_encoded_segment_adds_no_slash(prefix: Seq<char>, bs: Seq<u8>)
    ensures
        slash_count(prefix + encode_segment(bs)) == slash_count(prefix),
    decreases bs.len(),
{
    if bs.len() == 0 {
        assert(prefix + encode_segment(bs) =~= prefix);
    } else {
        lemma_encoded_segment_adds_no_slash(prefix, bs.drop_last());
        lemma_encode_byte_no_slash(bs.last());
        lemma_slash_count_concat(prefix, encode_segment(bs));
        lemma_slash_count_concat(prefix, encode_segment(bs.drop_last()));
        lemma_slash_count_concat(encode_segment(bs.drop_last()), encode_byte(bs.last()));
    }
}

fn exec_is_unreserved(b: u8) -> (r: bool)
    ensures
        r == is_unreserved(b),
{
    (b >= ('a' as u8) && b <= ('z' as u8)) || (b >= ('A' as u8) && b <= ('Z' as u8)) || (b >= ('0'
        as u8) && b <= ('9' as u8)) || b == ('-' as u8) || b == ('.' as u8) || b == ('_' as u8)
        || b == ('~' as u8)
}

fn hex_upper_byte(d: u8) -> (r: u8)
    requires
        d < 16,
    ensures
        r < 0x80,
        r as char == hex_upper(d as nat),
{
    if d < 10 {
        d + ('0' as u8)
    } else {
        d - 10 + ('A' as u8)
    }
}

/// Relies on String::from_utf8: bytes below 0x80 are valid UTF-8 and decode
/// to exactly the characters with those code points.
#[verifier::external_body]
fn ascii_to_string(v: Vec<u8>) -> (r: String)
    requires
        forall|i: int| 0 <= i < v@.len() ==> v@[i] < 0x80,
    ensures
        r@ == v@.map_values(|b: u8| b as char),
{
    match String::from_utf8(v) {
        Ok(s) => s,
        Err(_) => String::new(),
    }
}

/// Percent-encodes an identifier so that it can stand as one path segment of
/// a route.
pub fn encode_path_segment(id: &str) -> (r: String)
    ensures
        r@ == encode_segment(id.spec_bytes()),
{
    let bytes = id.as_bytes_vec();
    let n = bytes.len();
    let mut out: Vec<u8> = Vec::new();
    for i in 0..n
        invariant
            n == bytes@.len(),
            bytes@ == id.spec_bytes(),
            forall|k: int| 0 <= k < out@.len() ==> out@[k] < 0x80,
            out@.map_values(|b: u8| b as char) == encode_segment(bytes@.subrange(0, i as int)),
    {
        let ghost prev = out@;
        let b = bytes[i];
        if exec_is_unreserved(b) {
            out.push(b);
        } else {
            out.push('%' as u8);
            out.push(hex_upper_byte(b / 16));
            out.push(hex_upper_byte(b % 16));
        }
        proof {
            assert(bytes@.subrange(0, i + 1).drop_last() =~= bytes@.subrange(0, i as int));
            assert(out@.map_values(|x: u8| x as char) =~= prev.map_values(|x: u8| x as char)
                + encode_byte(b));
            assert(out@.map_values(|x: u8| x as char) =~= encode_segment(
                bytes@.subrange(0, i + 1),
            ));
        }
    }
    proof {
        assert(bytes@.subrange(0, n as int) =~= bytes@);
    }
    ascii_to_string(out)
}

/// The route of one saved simulation.
pub fn simulation_path(id: &str) -> (r: String)
    ensures
        r@ == "/simulations/"@ + encode_segment(id.spec_bytes()),
{
    let mut r = "/simulations/".to_owned();
    let seg = encode_path_segment(id);
    r.append(seg.as_str());
    r
}

/// The route of a saved simulation's metadata.
pub fn simulation_info_path(id: &str) -> (r: String)
    ensures
        r@ == "/simulations/"@ + encode_segment(id.spec_bytes()) + "/info"@,
{
    let mut r = simulation_path(id);
    r.append("/info");
    r
}

/// The route that shares a simulation publicly.
pub fn simulation_share_path(id: &str) -> (r: String)
    ensures
        r@ == "/simulations/"@ + encode_segment(id.spec_bytes()) + "/share"@,
{
    let mut r = simulation_path(id);
    r.append("/share");
    r
}

/// The route that makes a shared simulation private again.
pub fn simulation_unshare_path(id: &str) -> (r: String)
    ensures
        r@ == "/simulations/"@ + encode_segment(id.spec_bytes()) + "/unshare"@,
{
    let mut r = simulation_path(id);
    r.append("/unshare");
    r
}

/// The route that traces an existing transaction by hash.
pub fn trace_path(hash: &str) -> (r: String)
    ensures
        r@ == "/trace/"@ + encode_segment(hash.spec_bytes()),
{
    let mut r = "/trace/".to_owned();
    let seg = encode_path_segment(hash);
    r.append(seg.as_str());
    r
}

/// The public URL of a shared simulation; it is synthesized by the client,
/// not returned by the service.
pub fn shared_simulation_url(id: &str) -> (r: String)
    ensures
        r@ == "https://dashboard.tenderly.co/shared/simulation/"@ + encode_segment(
            id.spec_bytes(),
        ),
{
    let mut r = "https://dashboard.tenderly.co/shared/simulation/".to_owned();
    let seg = encode_path_segment(id);
    r.append(seg.as_str());
    r
}

} // verus!
