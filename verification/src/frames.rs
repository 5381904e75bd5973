//! The bridge's wire framing.
//!
//! Browser to peer: a binary WebSocket frame carries a 4-byte IPv4 address,
//! a 2-byte big-endian port, then the raw datagram payload. Peer to browser:
//! one WebSocket frame carries a 2-byte big-endian length, a JSON object
//! `{"address","family","port"}` describing the datagram's sender, then the
//! raw payload.

use vstd::prelude::*;
use crate::numfmt::{
    be16, be16_val, be32_of_u16, dec_bytes, dec_val, is_digit, lemma_dec_bytes_digits,
    lemma_dec_bytes_len, lemma_dec_roundtrip, pow10, push_be16, push_be32_of_u16, push_dec_u16,
    read_be16,
};

verus! {

/// An IPv4 address as its four dotted-quad octets.
#[derive(Clone, Copy, PartialEq, Eq, Structural, Debug)]
pub struct Ipv4 {
    pub a: u8,
    pub b: u8,
    pub c: u8,
    pub d: u8,
}

/// Appends every byte of `src` to `out`.
pub fn push_all(out: &mut Vec<u8>, src: &Vec<u8>)
    ensures
        final(out)@ == old(out)@ + src@,
{
    let n = src.len();
    let mut i: usize = 0;
    while i < n
        invariant
            n == src@.len(),
            i <= n,
            out@ == old(out)@ + src@.subrange(0, i as int),
        decreases n - i,
    {
        out.push(src[i]);
        assert(out@ =~= old(out)@ + src@.subrange(0, (i + 1) as int));
        i = i + 1;
    }
    assert(final(out)@ =~= old(out)@ + src@);
}

/// The bytes of `{"address":"`.
pub open spec fn rinfo_open() -> Seq<u8> {
    seq![123u8, 34, 97, 100, 100, 114, 101, 115, 115, 34, 58, 34]
}

/// The bytes of `","family":"IPv4","port":`.
pub open spec fn rinfo_mid() -> Seq<u8> {
    seq![
        34u8, 44, 34, 102, 97, 109, 105, 108, 121, 34, 58, 34, 73, 80, 118, 52, 34, 44, 34, 112,
        111, 114, 116, 34, 58,
    ]
}

/// The dotted-quad rendering of an IPv4 address, such as `192.168.0.1`.
pub open spec fn dotted_quad(ip: Ipv4) -> Seq<u8> {
    dec_bytes(ip.a as nat) + seq![46u8] + dec_bytes(ip.b as nat) + seq![46u8] + dec_bytes(
        ip.c as nat,
    ) + seq![46u8] + dec_bytes(ip.d as nat)
}

/// The sender-description JSON carried ahead of the payload:
/// `{"address":"A.B.C.D","family":"IPv4","port":N}`.
pub open spec fn rinfo_json(ip: Ipv4, port: u16) -> Seq<u8> {
    rinfo_open() + dotted_quad(ip) + rinfo_mid() + dec_bytes(port as nat) + seq![125u8]
}

/// A peer-to-browser frame: big-endian JSON length, the JSON, the payload.
pub open spec fn peer_frame(ip: Ipv4, port: u16, payload: Seq<u8>) -> Seq<u8> {
    be16(rinfo_json(ip, port).len() as u16) + rinfo_json(ip, port) + payload
}

/// The sender-description JSON never outgrows its 2-byte length prefix.
pub proof fn lemma_rinfo_json_len(ip: Ipv4, port: u16)
    ensures
        rinfo_json(ip, port).len() <= 58,
{
    assert(pow10(0) == 1);
    assert(pow10(1) == 10);
    assert(pow10(2) == 100);
    assert(pow10(3) == 1000);
    assert(pow10(4) == 10000);
    assert(pow10(5) == 100000);
    lemma_dec_bytes_len(ip.a as nat, 3);
    lemma_dec_bytes_len(ip.b as nat, 3);
    lemma_dec_bytes_len(ip.c as nat, 3);
    lemma_dec_bytes_len(ip.d as nat, 3);
    lemma_dec_bytes_len(port as nat, 5);
}

fn push_rinfo_open(out: &mut Vec<u8>)
    ensures
        final(out)@ == old(out)@ + rinfo_open(),
{
    out.push(123);
    out.push(34);
    out.push(97);
    out.push(100);
    out.push(100);
    out.push(114);
    out.push(101);
    out.push(115);
    out.push(115);
    out.push(34);
    out.push(58);
    out.push(34);
    assert(final(out)@ =~= old(out)@ + rinfo_open());
}

fn push_rinfo_mid(out: &mut Vec<u8>)
    ensures
        final(out)@ == old(out)@ + rinfo_mid(),
{
    out.push(34);
    out.push(44);
    out.push(34);
    out.push(102);
    out.push(97);
    out.push(109);
    out.push(105);
    out.push(108);
    out.push(121);
    out.push(34);
    out.push(58);
    out.push(34);
    out.push(73);
    out.push(80);
    out.push(118);
    out.push(52);
    out.push(34);
    out.push(44);
    out.push(34);
    out.push(112);
    out.push(111);
    out.push(114);
    out.push(116);
    out.push(34);
    out.push(58);
    assert(final(out)@ =~= old(out)@ + rinfo_mid());
}

/// Builds the sender-description JSON for one datagram.
pub fn build_rinfo(ip: Ipv4, port: u16) -> (r: Vec<u8>)
    ensures
        r@ == rinfo_json(ip, port),
{
    let mut out: Vec<u8> = Vec::new();
    push_rinfo_open(&mut out);
    push_dec_u16(&mut out, ip.a as u16);
    out.push(46);
    push_dec_u16(&mut out, ip.b as u16);
    out.push(46);
    push_dec_u16(&mut out, ip.c as u16);
    out.push(46);
    push_dec_u16(&mut out, ip.d as u16);
    push_rinfo_mid(&mut out);
    push_dec_u16(&mut out, port);
    out.push(125);
    assert(out@ =~= rinfo_json(ip, port));
    out
}

/// Packs one received datagram into the WebSocket frame the browser gets:
/// length-prefixed sender JSON followed by the payload, arrival order kept by
/// the caller.
pub fn build_peer_frame(ip: Ipv4, port: u16, payload: &Vec<u8>) -> (r: Vec<u8>)
    ensures
        r@ == peer_frame(ip, port, payload@),
{
    let rinfo = build_rinfo(ip, port);
    proof {
        lemma_rinfo_json_len(ip, port);
    }
    let mut out: Vec<u8> = Vec::new();
    push_be16(&mut out, rinfo.len() as u16);
    push_all(&mut out, &rinfo);
    push_all(&mut out, payload);
    assert(out@ =~= peer_frame(ip, port, payload@));
    out
}

/// The first frame of a session: the allocated UDP port, 4 bytes big-endian.
pub fn announce_port_frame(port: u16) -> (r: Vec<u8>)
    ensures
        r@ == be32_of_u16(port),
{
    let mut out: Vec<u8> = Vec::new();
    push_be32_of_u16(&mut out, port);
    out
}

/// Length of the run of ASCII digits in `s` starting at `i`.
pub open spec fn digits_run(s: Seq<u8>, i: int) -> int
    decreases s.len() - i,
        when i <= s.len()
{
    if 0 <= i < s.len() && is_digit(s[i]) {
        1 + digits_run(s, i + 1)
    } else {
        0
    }
}

/// A strict decimal field read at `i`: at least one digit, no leading zero,
/// value at most `max`. Yields the value and the position after the digits.
pub open spec fn num_at(s: Seq<u8>, i: int, max: nat) -> Option<(nat, int)> {
    let k = digits_run(s, i);
    if k >= 1 && (k == 1 || s[i] != 48) && dec_val(s.subrange(i, i + k)) <= max {
        Some((dec_val(s.subrange(i, i + k)), i + k))
    } else {
        None
    }
}

/// Whether `lit` occurs in `s` at position `i`.
pub open spec fn lit_at(s: Seq<u8>, i: int, lit: Seq<u8>) -> bool {
    0 <= i && i + lit.len() <= s.len() && s.subrange(i, i + lit.len()) == lit
}

/// Reads the sender-description JSON back, exactly as the bridge writes it:
/// the address, family and port of the datagram's source.
pub open spec fn parse_rinfo(s: Seq<u8>) -> Option<(Ipv4, u16)> {
    if !lit_at(s, 0, rinfo_open()) {
        None
    } else {
        match num_at(s, rinfo_open().len() as int, 255) {
            None => None,
            Some((a, i1)) => if !lit_at(s, i1, seq![46u8]) {
                None
            } else {
                match num_at(s, i1 + 1, 255) {
                    None => None,
                    Some((b, i2)) => if !lit_at(s, i2, seq![46u8]) {
                        None
                    } else {
                        match num_at(s, i2 + 1, 255) {
                            None => None,
                            Some((c, i3)) => if !lit_at(s, i3, seq![46u8]) {
                                None
                            } else {
                                match num_at(s, i3 + 1, 255) {
                                    None => None,
                                    Some((d, i4)) => if !lit_at(s, i4, rinfo_mid()) {
                                        None
                                    } else {
                                        match num_at(s, i4 + rinfo_mid().len(), 65535) {
                                            None => None,
                                            Some((p, i5)) => if lit_at(s, i5, seq![125u8]) && i5
                                                + 1 == s.len() {
                                                Some(
                                                    (
                                                        Ipv4 {
                                                            a: a as u8,
                                                            b: b as u8,
                                                            c: c as u8,
                                                            d: d as u8,
                                                        },
                                                        p as u16,
                                                    ),
                                                )
                                            } else {
                                                None
                                            },
                                        }
                                    },
                                }
                            },
                        }
                    },
                }
            },
        }
    }
}

/// Splits a peer-to-browser frame into the sender it describes and the raw
/// payload it carries.
pub open spec fn decode_peer_frame(f: Seq<u8>) -> Option<(Ipv4, u16, Seq<u8>)> {
    if f.len() < 2 {
        None
    } else {
        let l = (f[0] as int) * 256 + f[1] as int;
        if f.len() < 2 + l {
            None
        } else {
            match parse_rinfo(f.subrange(2, 2 + l)) {
                None => None,
                Some((ip, port)) => Some((ip, port, f.subrange(2 + l, f.len() as int))),
            }
        }
    }
}

proof fn lemma_digits_run_exact(s: Seq<u8>, i: int, k: int)
    requires
        0 <= i,
        0 <= k,
        i + k <= s.len(),
        forall|j: int| i <= j < i + k ==> is_digit(#[trigger] s[j]),
        i + k == s.len() || !is_digit(s[i + k]),
    ensures
        digits_run(s, i) == k,
    decreases k,
{
    if k > 0 {
        lemma_digits_run_exact(s, i + 1, k - 1);
    }
}

/// Where the rendering of `n` sits at `i` with a non-digit (or the end)
/// right after it, the strict decimal field reads `n` back.
proof fn lemma_num_at_dec(s: Seq<u8>, i: int, n: nat, max: nat)
    requires
        n <= max,
        0 <= i,
        i + dec_bytes(n).len() <= s.len(),
        s.subrange(i, i + dec_bytes(n).len()) == dec_bytes(n),
        i + dec_bytes(n).len() == s.len() || !is_digit(s[i + dec_bytes(n).len()]),
    ensures
        num_at(s, i, max) == Some((n, i + dec_bytes(n).len() as int)),
{
    let k = dec_bytes(n).len() as int;
    lemma_dec_bytes_digits(n);
    assert forall|j: int| i <= j < i + k implies is_digit(#[trigger] s[j]) by {
        assert(s[j] == s.subrange(i, i + k)[j - i]);
    }
    lemma_digits_run_exact(s, i, k);
    lemma_dec_roundtrip(n);
    if k > 1 {
        assert(s[i] == dec_bytes(n)[0]);
        assert(n != 0);
    }
}

#[verifier::rlimit(100)]
proof fn lemma_parse_rinfo_of_json(ip: Ipv4, port: u16)
    ensures
        parse_rinfo(rinfo_json(ip, port)) == Some((ip, port)),
{
    let s = rinfo_json(ip, port);
    let da = dec_bytes(ip.a as nat);
    let db = dec_bytes(ip.b as nat);
    let dc = dec_bytes(ip.c as nat);
    let dd = dec_bytes(ip.d as nat);
    let dp = dec_bytes(port as nat);
    lemma_dec_bytes_digits(ip.a as nat);
    lemma_dec_bytes_digits(ip.b as nat);
    lemma_dec_bytes_digits(ip.c as nat);
    lemma_dec_bytes_digits(ip.d as nat);
    lemma_dec_bytes_digits(port as nat);
    let i0: int = 12;
    let i1 = i0 + da.len();
    let i2 = i1 + 1 + db.len();
    let i3 = i2 + 1 + dc.len();
    let i4 = i3 + 1 + dd.len();
    let i5 = i4 + 25;
    let i6 = i5 + dp.len();
    assert(s.len() == i6 + 1);
    assert(s.subrange(0, 12) =~= rinfo_open());
    assert(lit_at(s, 0, rinfo_open()));
    assert(s.subrange(i0, i1) =~= da);
    assert(s[i1] == 46);
    lemma_num_at_dec(s, i0, ip.a as nat, 255);
    assert(s.subrange(i1, i1 + 1) =~= seq![46u8]);
    assert(lit_at(s, i1, seq![46u8]));
    assert(s.subrange(i1 + 1, i2) =~= db);
    assert(s[i2] == 46);
    lemma_num_at_dec(s, i1 + 1, ip.b as nat, 255);
    assert(s.subrange(i2, i2 + 1) =~= seq![46u8]);
    assert(lit_at(s, i2, seq![46u8]));
    assert(s.subrange(i2 + 1, i3) =~= dc);
    assert(s[i3] == 46);
    lemma_num_at_dec(s, i2 + 1, ip.c as nat, 255);
    assert(s.subrange(i3, i3 + 1) =~= seq![46u8]);
    assert(lit_at(s, i3, seq![46u8]));
    assert(s.subrange(i3 + 1, i4) =~= dd);
    assert(s[i4] == 34);
    lemma_num_at_dec(s, i3 + 1, ip.d as nat, 255);
    assert(s.subrange(i4, i4 + 25) =~= rinfo_mid());
    assert(lit_at(s, i4, rinfo_mid()));
    assert(s.subrange(i5, i6) =~= dp);
    assert(s[i6] == 125);
    lemma_num_at_dec(s, i5, port as nat, 65535);
    assert(s.subrange(i6, i6 + 1) =~= seq![125u8]);
    assert(lit_at(s, i6, seq![125u8]));
}

/// A datagram from `(ip, port)` carrying `payload`, once framed for the
/// browser, reads back as exactly that sender and payload.
pub proof fn lemma_peer_frame_roundtrip(ip: Ipv4, port: u16, payload: Seq<u8>)
    ensures
        decode_peer_frame(peer_frame(ip, port, payload)) == Some((ip, port, payload)),
{
    let j = rinfo_json(ip, port);
    let l = j.len() as int;
    lemma_rinfo_json_len(ip, port);
    let f = peer_frame(ip, port, payload);
    assert(f[0] == 0 && f[1] == l as u8);
    assert((f[0] as int) * 256 + f[1] as int == l);
    assert(f.subrange(2, 2 + l) =~= j);
    assert(f.subrange(2 + l, f.len() as int) =~= payload);
    lemma_parse_rinfo_of_json(ip, port);
}

/// What the browser-to-peer pump received on the WebSocket.
pub enum WsEvent {
    /// A binary frame.
    Binary(Vec<u8>),
    /// A text frame; reserved for future control signaling.
    Text(String),
    /// Some other message kind (ping, pong, close handshake).
    Other,
    /// The WebSocket reported an error or closed.
    Failed,
}

/// What the pump does with one WebSocket event.
pub enum PumpAction {
    /// Send the payload as one UDP datagram to the decoded destination.
    Forward(Ipv4, u16, Vec<u8>),
    /// Drop the message; the session stays open.
    Ignore,
    /// Tear the session down.
    Stop,
}

/// Decides what one WebSocket event means for the session. A binary frame of
/// at least 6 bytes is forwarded: destination from bytes 0-5, payload from
/// byte 6 on, unmodified. A shorter binary frame, a text frame, or any other
/// message is dropped and the session stays open; a WebSocket failure ends
/// the session.
pub fn browser_frame_action(ev: WsEvent) -> (r: PumpAction)
    ensures
        match ev {
            WsEvent::Binary(d) => if d@.len() < 6 {
                r == PumpAction::Ignore
            } else {
                r matches PumpAction::Forward(ip, port, payload) && ip == (Ipv4 {
                    a: d@[0],
                    b: d@[1],
                    c: d@[2],
                    d: d@[3],
                }) && port == be16_val(d@[4], d@[5]) && payload@ == d@.subrange(
                    6,
                    d@.len() as int,
                )
            },
            WsEvent::Text(_) => r == PumpAction::Ignore,
            WsEvent::Other => r == PumpAction::Ignore,
            WsEvent::Failed => r == PumpAction::Stop,
        },
{
    match ev {
        WsEvent::Binary(d) => {
            if d.len() < 6 {
                PumpAction::Ignore
            } else {
                let ip = Ipv4 { a: d[0], b: d[1], c: d[2], d: d[3] };
                let port = read_be16(d[4], d[5]);
                let n = d.len();
                let mut payload: Vec<u8> = Vec::new();
                let mut i: usize = 6;
                while i < n
                    invariant
                        6 <= i <= n,
                        n == d@.len(),
                        payload@ == d@.subrange(6, i as int),
                    decreases n - i,
                {
                    payload.push(d[i]);
                    assert(payload@ =~= d@.subrange(6, (i + 1) as int));
                    i = i + 1;
                }
                assert(payload@ =~= d@.subrange(6, d@.len() as int));
                PumpAction::Forward(ip, port, payload)
            }
        },
        WsEvent::Text(_) => PumpAction::Ignore,
        WsEvent::Other => PumpAction::Ignore,
        WsEvent::Failed => PumpAction::Stop,
    }
}

} // verus!
