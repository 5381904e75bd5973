//! The outbound JSON-RPC envelope: `{"jsonrpc":"2.0","method":M,"params":P,"id":1}`.
//! The id is fixed at 1: the shared relay socket carries one call at a time,
//! so there is no id space to multiplex.

use vstd::prelude::*;
use vstd::slice::slice_to_vec;
use vstd::string::StringSliceAdditionalSpecFns;
use crate::frames::push_all;

verus! {

/// Lowercase hex digit for a value below 16.
pub open spec fn hex_digit(n: u8) -> u8 {
    if n < 10 {
        (48 + n) as u8
    } else {
        (87 + n) as u8
    }
}

/// How one byte of a method name appears inside a JSON string: quote and
/// backslash escaped, control bytes as `\u00XX`, everything else verbatim.
pub open spec fn escape_byte(b: u8) -> Seq<u8> {
    if b == 34 {
        seq![92u8, 34]
    } else if b == 92 {
        seq![92u8, 92]
    } else if b < 32 {
        seq![92u8, 117, 48, 48, hex_digit(b / 16), hex_digit(b % 16)]
    } else {
        seq![b]
    }
}

/// The JSON string-escaping of `s`, byte for byte.
pub open spec fn json_escaped(s: Seq<u8>) -> Seq<u8>
    decreases s.len(),
{
    if s.len() == 0 {
        Seq::empty()
    } else {
        escape_byte(s[0]) + json_escaped(s.drop_first())
    }
}

proof fn lemma_json_escaped_snoc(t: Seq<u8>, x: u8)
    ensures
        json_escaped(t.push(x)) == json_escaped(t) + escape_byte(x),
    decreases t.len(),
{
    if t.len() == 0 {
        assert(t.push(x).drop_first() =~= Seq::<u8>::empty());
        assert(t.push(x)[0] == x);
        assert(t =~= Seq::<u8>::empty());
        assert(json_escaped(Seq::<u8>::empty()) =~= Seq::<u8>::empty());
        assert(json_escaped(t.push(x)) =~= json_escaped(t) + escape_byte(x));
    } else {
        lemma_json_escaped_snoc(t.drop_first(), x);
        assert(t.push(x).drop_first() =~= t.drop_first().push(x));
        assert(t.push(x)[0] == t[0]);
        assert(json_escaped(t.push(x)) =~= json_escaped(t) + escape_byte(x));
    }
}

fn push_escape_byte(out: &mut Vec<u8>, b: u8)
    ensures
        final(out)@ == old(out)@ + escape_byte(b),
{
    if b == 34 {
        out.push(92);
        out.push(34);
    } else if b == 92 {
        out.push(92);
        out.push(92);
    } else if b < 32 {
        out.push(92);
        out.push(117);
        out.push(48);
        out.push(48);
        let hi = b / 16;
        let lo = b % 16;
        out.push(if hi < 10 { 48 + hi } else { 87 + hi });
        out.push(if lo < 10 { 48 + lo } else { 87 + lo });
    } else {
        out.push(b);
    }
    assert(final(out)@ =~= old(out)@ + escape_byte(b));
}

/// Appends the JSON string-escaping of `s` to `out`.
pub fn push_json_escaped(out: &mut Vec<u8>, s: &Vec<u8>)
    ensures
        final(out)@ == old(out)@ + json_escaped(s@),
{
    let n = s.len();
    let mut i: usize = 0;
    while i < n
        invariant
            n == s@.len(),
            i <= n,
            out@ == old(out)@ + json_escaped(s@.subrange(0, i as int)),
        decreases n - i,
    {
        push_escape_byte(out, s[i]);
        proof {
            lemma_json_escaped_snoc(s@.subrange(0, i as int), s@[i as int]);
            assert(s@.subrange(0, (i + 1) as int) =~= s@.subrange(0, i as int).push(s@[i as int]));
        }
        i = i + 1;
    }
    assert(s@.subrange(0, n as int) =~= s@);
}

/// The bytes of `{"jsonrpc":"2.0","method":"`.
pub open spec fn env_open() -> Seq<u8> {
    seq![
        123u8, 34, 106, 115, 111, 110, 114, 112, 99, 34, 58, 34, 50, 46, 48, 34, 44, 34, 109, 101,
        116, 104, 111, 100, 34, 58, 34,
    ]
}

/// The bytes of `","params":`.
pub open spec fn env_mid() -> Seq<u8> {
    seq![34u8, 44, 34, 112, 97, 114, 97, 109, 115, 34, 58]
}

/// The bytes of `,"id":1}`.
pub open spec fn env_close() -> Seq<u8> {
    seq![44u8, 34, 105, 100, 34, 58, 49, 125]
}

/// The envelope for one call: method name escaped into a JSON string, the
/// params rendered by the caller spliced in verbatim, id fixed at 1.
pub open spec fn envelope_bytes(method: Seq<u8>, params: Seq<u8>) -> Seq<u8> {
    env_open() + json_escaped(method) + env_mid() + params + env_close()
}

fn push_env_open(out: &mut Vec<u8>)
    ensures
        final(out)@ == old(out)@ + env_open(),
{
    out.push(123);
    out.push(34);
    out.push(106);
    out.push(115);
    out.push(111);
    out.push(110);
    out.push(114);
    out.push(112);
    out.push(99);
    out.push(34);
    out.push(58);
    out.push(34);
    out.push(50);
    out.push(46);
    out.push(48);
    out.push(34);
    out.push(44);
    out.push(34);
    out.push(109);
    out.push(101);
    out.push(116);
    out.push(104);
    out.push(111);
    out.push(100);
    out.push(34);
    out.push(58);
    out.push(34);
    assert(final(out)@ =~= old(out)@ + env_open());
}

fn push_env_mid(out: &mut Vec<u8>)
    ensures
        final(out)@ == old(out)@ + env_mid(),
{
    out.push(34);
    out.push(44);
    out.push(34);
    out.push(112);
    out.push(97);
    out.push(114);
    out.push(97);
    out.push(109);
    out.push(115);
    out.push(34);
    out.push(58);
    assert(final(out)@ =~= old(out)@ + env_mid());
}

fn push_env_close(out: &mut Vec<u8>)
    ensures
        final(out)@ == old(out)@ + env_close(),
{
    out.push(44);
    out.push(34);
    out.push(105);
    out.push(100);
    out.push(34);
    out.push(58);
    out.push(49);
    out.push(125);
    assert(final(out)@ =~= old(out)@ + env_close());
}

/// Builds the datagram for one relay call. `params_json` is the call's
/// params, already rendered as JSON.
pub fn build_envelope(method: &str, params_json: &Vec<u8>) -> (r: Vec<u8>)
    ensures
        r@ == envelope_bytes(method.spec_bytes(), params_json@),
{
    let mb = slice_to_vec(method.as_bytes());
    let mut out: Vec<u8> = Vec::new();
    push_env_open(&mut out);
    push_json_escaped(&mut out, &mb);
    push_env_mid(&mut out);
    push_all(&mut out, params_json);
    push_env_close(&mut out);
    assert(out@ =~= envelope_bytes(method.spec_bytes(), params_json@));
    out
}

/// The rendering of an absent params field: the empty JSON array.
pub fn default_params() -> (r: Vec<u8>)
    ensures
        r@ == seq![91u8, 93u8],
{
    let mut out: Vec<u8> = Vec::new();
    out.push(91);
    out.push(93);
    assert(out@ =~= seq![91u8, 93u8]);
    out
}

} // verus!
