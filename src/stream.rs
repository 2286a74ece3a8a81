//! Framing of the multipart MJPEG stream: the chunks one tick emits.
use vstd::prelude::*;

verus! {

/// Pause between two ticks of a stream, in milliseconds (about 30 frames a
/// second at most).
pub const TICK_INTERVAL_MS: u64 = 33;

/// The character of decimal digit `d`.
pub open spec fn digit_char(d: nat) -> char {
    ((d + 48) as u8) as char
}

/// The decimal numeral of `n`, most significant digit first.
pub open spec fn decimal(n: nat) -> Seq<char>
    decreases n,
{
    if n < 10 {
        seq![digit_char(n)]
    } else {
        decimal(n / 10) + seq![digit_char(n % 10)]
    }
}

/// The part header that announces a JPEG payload of `len` bytes.
pub open spec fn part_header_text(len: nat) -> Seq<char> {
    "--frame\r\nContent-Type: image/jpeg\r\nContent-Length: "@ + decimal(len) + "\r\n\r\n"@
}

/// The text of one decimal digit.
fn digit_str(d: usize) -> (r: &'static str)
    requires
        d < 10,
    ensures
        r@ == seq![digit_char(d as nat)],
{
    proof {
        reveal_strlit("0");
        reveal_strlit("1");
        reveal_strlit("2");
        reveal_strlit("3");
        reveal_strlit("4");
        reveal_strlit("5");
        reveal_strlit("6");
        reveal_strlit("7");
        reveal_strlit("8");
        reveal_strlit("9");
    }
    match d {
        0 => "0",
        1 => "1",
        2 => "2",
        3 => "3",
        4 => "4",
        5 => "5",
        6 => "6",
        7 => "7",
        8 => "8",
        _ => "9",
    }
}

/// Appends the decimal numeral of `n` to `s`.
pub fn append_decimal(s: &mut String, n: usize)
    ensures
        final(s)@ == old(s)@ + decimal(n as nat),
    decreases n,
{
    if n >= 10 {
        append_decimal(s, n / 10);
    }
    s.append(digit_str(n % 10));
    assert(final(s)@ =~= old(s)@ + decimal(n as nat));
}

/// The part header for a payload of `len` bytes.
pub fn part_header(len: usize) -> (r: String)
    ensures
        r@ == part_header_text(len as nat),
{
    let mut s = String::from_str("--frame\r\nContent-Type: image/jpeg\r\nContent-Length: ");
    append_decimal(&mut s, len);
    s.append("\r\n\r\n");
    assert(s@ =~= part_header_text(len as nat));
    s
}

/// The bytes that close one part.
pub open spec fn part_end() -> Seq<u8> {
    seq![13u8, 10u8]
}

/// The ASCII bytes of a text made of ASCII characters.
pub open spec fn ascii_bytes(t: Seq<char>) -> Seq<u8> {
    t.map_values(|c: char| c as u8)
}

/// The chunks one tick emits for an encoded frame: the part header, the
/// payload unchanged, and the part end.
pub open spec fn tick_chunks(jpeg: Seq<u8>) -> Seq<Seq<u8>> {
    seq![ascii_bytes(part_header_text(jpeg.len())), jpeg, part_end()]
}

/// The bytes of an ASCII string.
fn ascii_to_bytes(s: &String) -> (r: Vec<u8>)
    requires
        forall|i: int| 0 <= i < s@.len() ==> (s@[i] as u32) < 128,
    ensures
        r@ == ascii_bytes(s@),
{
    let n = s.unicode_len();
    let mut r: Vec<u8> = Vec::new();
    let mut i: usize = 0;
    while i < n
        invariant
            n == s@.len(),
            i <= n,
            forall|k: int| 0 <= k < s@.len() ==> (s@[k] as u32) < 128,
            r@ =~= ascii_bytes(s@.subrange(0, i as int)),
        decreases n - i,
    {
        let c = s.get_char(i);
        r.push(c as u8);
        i = i + 1;
        assert(r@ =~= ascii_bytes(s@.subrange(0, i as int)));
    }
    assert(s@.subrange(0, n as int) =~= s@);
    r
}

/// Every character of a decimal numeral is an ASCII digit.
proof fn decimal_is_ascii(n: nat)
    ensures
        forall|i: int| 0 <= i < decimal(n).len() ==> (decimal(n)[i] as u32) < 128,
    decreases n,
{
    if n >= 10 {
        decimal_is_ascii(n / 10);
        let a = decimal(n / 10);
        let b = seq![digit_char(n % 10)];
        assert forall|i: int| 0 <= i < decimal(n).len() implies (decimal(n)[i] as u32) < 128 by {
            if i < a.len() {
                assert(decimal(n)[i] == a[i]);
            } else {
                assert(decimal(n)[i] == b[i - a.len()]);
            }
        }
    }
}

/// What one tick emits: nothing when encoding failed (the tick is skipped and
/// the stream goes on), else the three chunks of one part.
pub fn chunks_for_tick(encoded: Option<Vec<u8>>) -> (r: Vec<Vec<u8>>)
    ensures
        encoded.is_none() ==> r@.len() == 0,
        encoded.is_some() ==> r@.len() == 3 && r@.map_values(|c: Vec<u8>| c@) == tick_chunks(
            encoded.unwrap()@,
        ),
{
    match encoded {
        None => Vec::new(),
        Some(jpeg) => {
            let header = part_header(jpeg.len());
            proof {
                reveal_strlit("--frame\r\nContent-Type: image/jpeg\r\nContent-Length: ");
                reveal_strlit("\r\n\r\n");
                decimal_is_ascii(jpeg@.len());
                let p = "--frame\r\nContent-Type: image/jpeg\r\nContent-Length: "@;
                let d = decimal(jpeg@.len());
                let q = "\r\n\r\n"@;
                assert forall|i: int| 0 <= i < header@.len() implies (header@[i] as u32) < 128 by {
                    if i < p.len() {
                        assert(header@[i] == p[i]);
                    } else if i < p.len() + d.len() {
                        assert(header@[i] == d[i - p.len()]);
                    } else {
                        assert(header@[i] == q[i - p.len() - d.len()]);
                    }
                }
            }
            let head = ascii_to_bytes(&header);
            let end: Vec<u8> = vec![13u8, 10u8];
            let ghost payload = jpeg@;
            let mut r: Vec<Vec<u8>> = Vec::new();
            r.push(head);
            r.push(jpeg);
            r.push(end);
            assert(r@.map_values(|c: Vec<u8>| c@) =~= tick_chunks(payload));
            r
        },
    }
}

} // verus!
