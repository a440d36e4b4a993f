//! Audio clips between the window and the desktop process travel as
//! standard base64 text (RFC 4648 alphabet, `=` padding).
use vstd::prelude::*;
use base64::Engine;

verus! {

/// The base64 digit for a 6-bit value.
pub open spec fn b64_digit(v: int) -> char {
    if v < 26 {
        ('A' as int + v) as char
    } else if v < 52 {
        ('a' as int + (v - 26)) as char
    } else if v < 62 {
        ('0' as int + (v - 52)) as char
    } else if v == 62 {
        '+'
    } else {
        '/'
    }
}

/// Standard base64 with padding: each group of three bytes becomes four
/// digits; a last group of one or two bytes becomes two or three digits and
/// `=` up to four.
pub open spec fn base64_text(b: Seq<u8>) -> Seq<char>
    decreases b.len(),
{
    if b.len() == 0 {
        seq![]
    } else {
        let x = b[0] as int;
        let y = if b.len() > 1 { b[1] as int } else { 0 };
        let z = if b.len() > 2 { b[2] as int } else { 0 };
        let d0 = b64_digit(x / 4);
        let d1 = b64_digit((x % 4) * 16 + y / 16);
        let d2 = b64_digit((y % 16) * 4 + z / 64);
        let d3 = b64_digit(z % 64);
        if b.len() == 1 {
            seq![d0, d1, '=', '=']
        } else if b.len() == 2 {
            seq![d0, d1, d2, '=']
        } else {
            seq![d0, d1, d2, d3] + base64_text(b.skip(3))
        }
    }
}

/// Whether `text` is the base64 text of some bytes.
pub open spec fn is_base64_text(text: Seq<char>) -> bool {
    exists|b: Seq<u8>| base64_text(b) == text
}

/// `base64::engine::general_purpose::STANDARD.encode`: the padded standard
/// base64 text of `bytes`.
#[verifier::external_body]
fn standard_encode(bytes: &[u8]) -> (r: String)
    ensures
        r@ == base64_text(bytes@),
{
    base64::engine::general_purpose::STANDARD.encode(bytes)
}

/// The message that `base64::engine::general_purpose::STANDARD.decode`
/// gives (the `Display` of its `DecodeError`) when it rejects `text`.
pub uninterp spec fn base64_decode_message(text: Seq<char>) -> Seq<char>;

/// `base64::engine::general_purpose::STANDARD.decode` of the bytes of
/// `text`, its error given by its message. That engine requires canonical
/// padding and rejects nonzero trailing bits, so it accepts exactly the
/// texts that its encoder produces, and gives back the bytes they encode.
/// Its error (which offset and symbol it names) depends on `text` alone;
/// its wording is left to the name [`base64_decode_message`].
#[verifier::external_body]
fn standard_decode(text: &str) -> (r: Result<Vec<u8>, String>)
    ensures
        r is Ok <==> is_base64_text(text@),
        r matches Ok(b) ==> base64_text(b@) == text@,
        r matches Err(m) ==> m@ == base64_decode_message(text@),
{
    match base64::engine::general_purpose::STANDARD.decode(text.as_bytes()) {
        Ok(b) => Ok(b),
        Err(e) => Err(e.to_string()),
    }
}

/// The base64 text of an audio file's bytes; the decoder accepts it and
/// gives back exactly these bytes.
pub fn encode_audio(bytes: &[u8]) -> (r: String)
    ensures
        r@ == base64_text(bytes@),
        is_base64_text(r@),
        forall|d: Seq<u8>| #[trigger] base64_text(d) == r@ ==> d == bytes@,
{
    let r = standard_encode(bytes);
    proof {
        law_base64_round_trip(bytes@, bytes@);
        assert forall|d: Seq<u8>| #[trigger] base64_text(d) == r@ implies d == bytes@ by {
            law_base64_round_trip(bytes@, d);
        }
    }
    r
}

/// The bytes of an audio clip sent as base64 text; `Err` with the decoder's
/// message when `text` is not base64.
pub fn decode_audio(text: &str) -> (r: Result<Vec<u8>, String>)
    ensures
        r is Ok <==> is_base64_text(text@),
        r matches Ok(b) ==> base64_text(b@) == text@,
        r matches Err(m) ==> m@ == base64_decode_message(text@),
{
    standard_decode(text)
}

/// The `data:` URL that plays a WAV clip given as base64 text.
pub fn audio_data_url(base64_wav: &str) -> (r: String)
    ensures
        r@ == "data:audio/wav;base64,"@ + base64_wav@,
{
    crate::text::concat("data:audio/wav;base64,", base64_wav)
}

/// The error of a failed read of the audio file at `path`.
pub fn read_error_message(path: &str, err: &str) -> (r: String)
    ensures
        r@ == "Read "@ + path@ + ": "@ + err@,
{
    let mut r = crate::text::concat("Read ", path);
    r.append(": ");
    r.append(err);
    r
}

proof fn lemma_digit(v: int, w: int)
    requires
        0 <= v < 64,
        0 <= w < 64,
    ensures
        b64_digit(v) != '=',
        b64_digit(v) == b64_digit(w) ==> v == w,
{
}

proof fn lemma_bytes_from_digits(x: int, y: int, z: int, p: int, q: int, r: int)
    by (nonlinear_arith)
    requires
        0 <= x < 256,
        0 <= y < 256,
        0 <= z < 256,
        0 <= p < 256,
        0 <= q < 256,
        0 <= r < 256,
        x / 4 == p / 4,
        (x % 4) * 16 + y / 16 == (p % 4) * 16 + q / 16,
    ensures
        x == p,
        y / 16 == q / 16,
        (y % 16) * 4 + z / 64 == (q % 16) * 4 + r / 64 ==> y == q && z / 64 == r / 64,
        (y % 16) * 4 + z / 64 == (q % 16) * 4 + r / 64 && z % 64 == r % 64 ==> z == r,
{
}

proof fn lemma_digit_ranges(b: Seq<u8>)
    requires
        b.len() > 0,
    ensures
        ({
            let x = b[0] as int;
            let y = if b.len() > 1 { b[1] as int } else { 0 };
            let z = if b.len() > 2 { b[2] as int } else { 0 };
            &&& 0 <= x / 4 < 64
            &&& 0 <= (x % 4) * 16 + y / 16 < 64
            &&& 0 <= (y % 16) * 4 + z / 64 < 64
            &&& 0 <= z % 64 < 64
        }),
{
}

proof fn lemma_base64_injective(b: Seq<u8>, d: Seq<u8>)
    requires
        base64_text(d) == base64_text(b),
    ensures
        d == b,
    decreases b.len(),
{
    let tb = base64_text(b);
    let td = base64_text(d);
    if b.len() == 0 || d.len() == 0 {
        if b.len() != 0 {
            assert(tb.len() >= 4);
        }
        if d.len() != 0 {
            assert(td.len() >= 4);
        }
        assert(b =~= d);
        return;
    }
    lemma_digit_ranges(b);
    lemma_digit_ranges(d);
    let x = b[0] as int;
    let y = if b.len() > 1 { b[1] as int } else { 0 };
    let z = if b.len() > 2 { b[2] as int } else { 0 };
    let p = d[0] as int;
    let q = if d.len() > 1 { d[1] as int } else { 0 };
    let r = if d.len() > 2 { d[2] as int } else { 0 };
    lemma_digit(x / 4, p / 4);
    lemma_digit((x % 4) * 16 + y / 16, (p % 4) * 16 + q / 16);
    lemma_digit((y % 16) * 4 + z / 64, (q % 16) * 4 + r / 64);
    lemma_digit(z % 64, r % 64);
    assert(tb[0] == td[0]);
    assert(tb[1] == td[1]);
    assert(tb[2] == td[2]);
    assert(tb[3] == td[3]);
    // the padding tells the length of the last group
    assert((b.len() == 1) == (d.len() == 1));
    assert((b.len() == 2) == (d.len() == 2));
    lemma_bytes_from_digits(x, y, z, p, q, r);
    if b.len() >= 3 {
        let sb = base64_text(b.skip(3));
        let sd = base64_text(d.skip(3));
        assert(tb.skip(4) =~= sb);
        assert(td.skip(4) =~= sd);
        lemma_base64_injective(b.skip(3), d.skip(3));
        assert(b =~= seq![b[0], b[1], b[2]] + b.skip(3));
        assert(d =~= seq![d[0], d[1], d[2]] + d.skip(3));
    }
    assert(b =~= d);
}

/// An audio clip survives its trip as base64 text: the decoder accepts
/// what the encoder produces, and the bytes it gives back are the bytes
/// that were encoded (base64 text determines its bytes).
pub proof fn law_base64_round_trip(b: Seq<u8>, d: Seq<u8>)
    ensures
        is_base64_text(base64_text(b)),
        base64_text(d) == base64_text(b) ==> d == b,
{
    if base64_text(d) == base64_text(b) {
        lemma_base64_injective(b, d);
    }
}

} // verus!
