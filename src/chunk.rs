use vstd::prelude::*;

verus! {

/// The lowercase hexadecimal digit for a value below sixteen.
pub open spec fn hex_digit(d: nat) -> u8 {
    if d < 10 {
        (48 + d) as u8
    } else {
        (87 + d) as u8
    }
}

/// `n` written in lowercase hexadecimal, without leading zeros ("0" for zero).
pub open spec fn hex_of(n: nat) -> Seq<u8>
    decreases n,
{
    if n < 16 {
        seq![hex_digit(n)]
    } else {
        hex_of(n / 16).push(hex_digit(n % 16))
    }
}

pub open spec fn crlf() -> Seq<u8> {
    seq![13u8, 10u8]
}

/// One chunk of chunked transfer-encoding: size in hex, CRLF, payload, CRLF.
pub open spec fn frame_of(payload: Seq<u8>) -> Seq<u8> {
    hex_of(payload.len()) + crlf() + payload + crlf()
}

/// The zero-length chunk that ends a chunked body: "0\r\n\r\n".
pub open spec fn terminator() -> Seq<u8> {
    seq![48u8, 13u8, 10u8, 13u8, 10u8]
}

fn push_hex(n: usize, out: &mut Vec<u8>)
    ensures
        final(out)@ == old(out)@ + hex_of(n as nat),
    decreases n,
{
    if n < 16 {
        let d: u8 = n as u8;
        out.push(if d < 10 { 48 + d } else { 87 + d });
        assert(final(out)@ =~= old(out)@ + hex_of(n as nat));
    } else {
        push_hex(n / 16, out);
        let d: u8 = (n % 16) as u8;
        out.push(if d < 10 { 48 + d } else { 87 + d });
        assert(final(out)@ =~= old(out)@ + hex_of(n as nat));
    }
}

/// Frames `payload` as one chunk of a chunked body.
pub fn chunk_frame(payload: &[u8]) -> (r: Vec<u8>)
    ensures
        r@ == frame_of(payload@),
{
    let mut out: Vec<u8> = Vec::new();
    push_hex(payload.len(), &mut out);
    out.push(13);
    out.push(10);
    let mut i: usize = 0;
    while i < payload.len()
        invariant
            i <= payload@.len(),
            out@ == hex_of(payload@.len()) + crlf() + payload@.subrange(0, i as int),
        decreases payload@.len() - i,
    {
        out.push(payload[i]);
        i = i + 1;
        assert(out@ =~= hex_of(payload@.len()) + crlf() + payload@.subrange(0, i as int));
    }
    out.push(13);
    out.push(10);
    assert(out@ =~= frame_of(payload@));
    out
}

/// The bytes that end a chunked body.
pub fn last_chunk() -> (r: Vec<u8>)
    ensures
        r@ == terminator(),
{
    let r: Vec<u8> = vec![48, 13, 10, 13, 10];
    assert(r@ =~= terminator());
    r
}

} // verus!
