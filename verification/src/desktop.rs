//! Data of the desktop front end: stored entities, settings, and the
//! encoding of screenshots for display.

use vstd::prelude::*;

use crate::fmt::{decimal, push_char, push_decimal, push_str, string_of};

verus! {

/// A stored plugin.
#[derive(Debug, Clone, PartialEq, Eq)]
pub struct Plugin {
    pub id: i32,
    pub name: String,
    pub version: String,
    pub description: Option<String>,
    pub author: Option<String>,
    pub zip_path: String,
    pub installed_at: String,
    pub is_enabled: bool,
}

/// A stored workflow.
#[derive(Debug, Clone, PartialEq, Eq)]
pub struct Workflow {
    pub id: i32,
    pub plugin_id: i32,
    pub name: String,
    pub description: Option<String>,
    pub script: String,
    pub created_at: String,
    pub updated_at: String,
    pub last_run_at: Option<String>,
    pub run_count: i32,
}

/// A stored task run.
#[derive(Debug, Clone, PartialEq, Eq)]
pub struct Task {
    pub id: i32,
    pub workflow_id: i32,
    pub status: String,
    pub started_at: String,
    pub finished_at: Option<String>,
    pub error_message: Option<String>,
}

/// Settings of the desktop application.
#[derive(Debug, Clone, PartialEq, Eq)]
pub struct Settings {
    pub database_url: String,
    pub engine_binary_path: String,
    pub engine_port: u16,
    pub engine_timeout_ms: u64,
    pub debug_enabled: bool,
    pub debug_highlight: bool,
    pub debug_highlight_duration_ms: u64,
    pub debug_screenshot_on_step: bool,
    pub debug_screenshot_dir: String,
    pub debug_slow_motion_ms: u64,
}

impl Settings {
    /// The default settings, with the given database URL.
    pub fn defaults_for(database_url: String) -> (r: Settings)
        ensures
            r.database_url == database_url,
            r.engine_binary_path@ == Seq::<char>::empty(),
            r.engine_port == 50051,
            r.engine_timeout_ms == 30000,
            !r.debug_enabled,
            r.debug_highlight,
            r.debug_highlight_duration_ms == 500,
            !r.debug_screenshot_on_step,
            r.debug_screenshot_dir@ == "./debug_screenshots"@,
            r.debug_slow_motion_ms == 0,
    {
        Settings {
            database_url,
            engine_binary_path: String::new(),
            engine_port: 50051,
            engine_timeout_ms: 30000,
            debug_enabled: false,
            debug_highlight: true,
            debug_highlight_duration_ms: 500,
            debug_screenshot_on_step: false,
            debug_screenshot_dir: string_of("./debug_screenshots"),
            debug_slow_motion_ms: 0,
        }
    }
}

// ---------------------------------------------------------------------
// Base64
// ---------------------------------------------------------------------

/// The character of a base64 digit.
pub open spec fn b64_char(v: u64) -> char {
    if v < 26 {
        (v + 65) as char
    } else if v < 52 {
        (v - 26 + 97) as char
    } else if v < 62 {
        (v - 52 + 48) as char
    } else if v == 62 {
        '+'
    } else {
        '/'
    }
}

/// The number of 3-byte chunks of `n` bytes, counting a partial one.
pub open spec fn chunk_count(n: nat) -> nat {
    (n + 2) / 3
}

/// The four characters that encode chunk `j` of `data`.
pub open spec fn encode_chunk(data: Seq<u8>, j: int) -> Seq<char> {
    let start = 3 * j;
    let n = if data.len() - start < 3 {
        data.len() - start
    } else {
        3
    };
    let b0 = data[start] as u64;
    let b1 = if n > 1 {
        data[start + 1] as u64
    } else {
        0
    };
    let b2 = if n > 2 {
        data[start + 2] as u64
    } else {
        0
    };
    seq![
        b64_char(b0 >> 2),
        b64_char(((b0 & 3) << 4) | (b1 >> 4)),
        if n > 1 {
            b64_char(((b1 & 15) << 2) | (b2 >> 6))
        } else {
            '='
        },
        if n > 2 {
            b64_char(b2 & 63)
        } else {
            '='
        },
    ]
}

/// The encoding of the first `k` chunks of `data`.
pub open spec fn base64_upto(data: Seq<u8>, k: nat) -> Seq<char>
    decreases k,
{
    if k == 0 {
        Seq::empty()
    } else {
        base64_upto(data, (k - 1) as nat) + encode_chunk(data, k - 1)
    }
}

/// Standard base64 (with padding) of a byte sequence.
pub open spec fn base64(data: Seq<u8>) -> Seq<char> {
    base64_upto(data, chunk_count(data.len()))
}

proof fn lemma_base64_upto_len(data: Seq<u8>, k: nat)
    ensures
        base64_upto(data, k).len() == 4 * k,
    decreases k,
{
    if k > 0 {
        lemma_base64_upto_len(data, (k - 1) as nat);
    }
}

/// Base64 text is four characters for every three bytes, a partial chunk
/// counting as a whole one.
pub proof fn law_base64_length(data: Seq<u8>)
    ensures
        base64(data).len() == 4 * ((data.len() + 2) / 3),
{
    lemma_base64_upto_len(data, chunk_count(data.len()));
}

proof fn lemma_b64_char_not_pad(v: u64)
    ensures
        b64_char(v) != '=',
{
}

/// Character `i` of the encoding of the first `k` chunks is character
/// `i % 4` of chunk `i / 4`.
proof fn lemma_base64_upto_index(data: Seq<u8>, k: nat, i: int)
    requires
        0 <= i < 4 * k,
    ensures
        base64_upto(data, k)[i] == encode_chunk(data, i / 4)[i % 4],
    decreases k,
{
    lemma_base64_upto_len(data, (k - 1) as nat);
    if i < 4 * (k - 1) {
        lemma_base64_upto_index(data, (k - 1) as nat, i);
    } else {
        assert(i / 4 == k - 1);
    }
}

/// Base64 text ends with as many `=` as the last chunk lacks bytes (none
/// when the length is a multiple of three, else one or two), and holds no
/// other `=`.
pub proof fn law_base64_padding(data: Seq<u8>)
    ensures
        forall|i: int|
            0 <= i < base64(data).len() ==> (base64(data)[i] == '=' <==> i >= base64(data).len()
                - (3 - data.len() % 3) % 3),
{
    let n = data.len();
    let k = chunk_count(n);
    law_base64_length(data);
    assert forall|i: int| 0 <= i < base64(data).len() implies (base64(data)[i] == '=' <==> i
        >= base64(data).len() - (3 - n % 3) % 3) by {
        lemma_base64_upto_index(data, k, i);
        let j = i / 4;
        let r = i % 4;
        assert(0 <= j < k);
        assert(3 * k <= n + 2 && n + 2 < 3 * k + 3);
        let start = 3 * j;
        let left = n - start;
        let b0 = data[start] as u64;
        lemma_b64_char_not_pad(b0 >> 2);
        if j + 1 < k {
            assert(left >= 3);
            assert(i < 4 * k - 4);
            let b1 = data[start + 1] as u64;
            let b2 = data[start + 2] as u64;
            lemma_b64_char_not_pad(((b0 & 3) << 4) | (b1 >> 4));
            lemma_b64_char_not_pad(((b1 & 15) << 2) | (b2 >> 6));
            lemma_b64_char_not_pad(b2 & 63);
        } else {
            assert(j == k - 1);
            assert(1 <= left <= 3);
            assert(i == 4 * (k - 1) + r);
            let b1 = if left > 1 { data[start + 1] as u64 } else { 0 };
            let b2 = if left > 2 { data[start + 2] as u64 } else { 0 };
            lemma_b64_char_not_pad(((b0 & 3) << 4) | (b1 >> 4));
            lemma_b64_char_not_pad(((b1 & 15) << 2) | (b2 >> 6));
            lemma_b64_char_not_pad(b2 & 63);
            assert(left == 3 ==> n % 3 == 0);
            assert(left == 2 ==> n % 3 == 2);
            assert(left == 1 ==> n % 3 == 1);
        }
    }
}

/// The value of a base64 digit character.
pub open spec fn b64_value(c: char) -> u64 {
    let x = c as int;
    if 65 <= x <= 90 {
        (x - 65) as u64
    } else if 97 <= x <= 122 {
        (x - 71) as u64
    } else if 48 <= x <= 57 {
        (x + 4) as u64
    } else if c == '+' {
        62
    } else {
        63
    }
}

/// The bytes that four base64 characters encode; `=` marks missing bytes.
pub open spec fn decode_quad(q: Seq<char>) -> Seq<u8> {
    let v0 = b64_value(q[0]);
    let v1 = b64_value(q[1]);
    let v2 = b64_value(q[2]);
    let v3 = b64_value(q[3]);
    let x0 = ((v0 << 2) | (v1 >> 4)) as u8;
    let x1 = (((v1 & 15) << 4) | (v2 >> 2)) as u8;
    let x2 = (((v2 & 3) << 6) | v3) as u8;
    if q[2] == '=' {
        seq![x0]
    } else if q[3] == '=' {
        seq![x0, x1]
    } else {
        seq![x0, x1, x2]
    }
}

/// The bytes that the first `k` groups of four characters encode.
pub open spec fn base64_decode_upto(text: Seq<char>, k: nat) -> Seq<u8>
    decreases k,
{
    if k == 0 {
        Seq::empty()
    } else {
        base64_decode_upto(text, (k - 1) as nat) + decode_quad(
            text.subrange(4 * (k - 1), 4 * k as int),
        )
    }
}

/// Standard base64 decoding of padded text.
pub open spec fn base64_decode(text: Seq<char>) -> Seq<u8> {
    base64_decode_upto(text, text.len() / 4)
}

proof fn lemma_b64_value(v: u64)
    requires
        v < 64,
    ensures
        b64_value(b64_char(v)) == v,
{
}

proof fn lemma_chunk_bits(b0: u64, b1: u64, b2: u64)
    requires
        b0 < 256,
        b1 < 256,
        b2 < 256,
    ensures
        (b0 >> 2) < 64,
        (((b0 & 3) << 4) | (b1 >> 4)) < 64,
        (((b1 & 15) << 2) | (b2 >> 6)) < 64,
        (b2 & 63) < 64,
        (((b0 >> 2) << 2) | ((((b0 & 3) << 4) | (b1 >> 4)) >> 4)) == b0,
        ((((((b0 & 3) << 4) | (b1 >> 4)) & 15) << 4) | ((((b1 & 15) << 2) | (b2 >> 6)) >> 2))
            == b1,
        ((((((b1 & 15) << 2) | (b2 >> 6)) & 3) << 6) | (b2 & 63)) == b2,
{
    assert((b0 >> 2) < 64) by (bit_vector)
        requires
            b0 < 256,
    ;
    assert((((b0 & 3) << 4) | (b1 >> 4)) < 64) by (bit_vector)
        requires
            b1 < 256,
    ;
    assert((((b1 & 15) << 2) | (b2 >> 6)) < 64) by (bit_vector)
        requires
            b2 < 256,
    ;
    assert((b2 & 63) < 64) by (bit_vector);
    assert((((b0 >> 2) << 2) | ((((b0 & 3) << 4) | (b1 >> 4)) >> 4)) == b0) by (bit_vector)
        requires
            b0 < 256,
            b1 < 256,
    ;
    assert(((((((b0 & 3) << 4) | (b1 >> 4)) & 15) << 4) | ((((b1 & 15) << 2) | (b2 >> 6))
        >> 2)) == b1) by (bit_vector)
        requires
            b1 < 256,
            b2 < 256,
    ;
    assert(((((((b1 & 15) << 2) | (b2 >> 6)) & 3) << 6) | (b2 & 63)) == b2) by (bit_vector)
        requires
            b2 < 256,
    ;
}

/// Each chunk decodes to the bytes it encodes.
proof fn lemma_decode_chunk(data: Seq<u8>, j: int)
    requires
        0 <= j,
        3 * j < data.len(),
    ensures
        decode_quad(encode_chunk(data, j)) == data.subrange(
            3 * j,
            if data.len() - 3 * j < 3 {
                data.len() as int
            } else {
                3 * j + 3
            },
        ),
{
    let start = 3 * j;
    let left = if data.len() - start < 3 {
        data.len() - start
    } else {
        3
    };
    let b0 = data[start] as u64;
    let b1 = if left > 1 {
        data[start + 1] as u64
    } else {
        0
    };
    let b2 = if left > 2 {
        data[start + 2] as u64
    } else {
        0
    };
    lemma_chunk_bits(b0, b1, b2);
    let v0 = b0 >> 2;
    let v1 = ((b0 & 3) << 4) | (b1 >> 4);
    let v2 = ((b1 & 15) << 2) | (b2 >> 6);
    let v3 = b2 & 63;
    lemma_b64_value(v0);
    lemma_b64_value(v1);
    lemma_b64_value(v2);
    lemma_b64_value(v3);
    lemma_b64_char_not_pad(v2);
    lemma_b64_char_not_pad(v3);
    let q = encode_chunk(data, j);
    assert(b64_value(q[0]) == v0);
    assert(b64_value(q[1]) == v1);
    if left == 1 {
        assert(decode_quad(q) =~= data.subrange(start, start + 1));
    } else if left == 2 {
        assert(b64_value(q[2]) == v2);
        assert(decode_quad(q) =~= data.subrange(start, start + 2));
    } else {
        assert(b64_value(q[2]) == v2);
        assert(b64_value(q[3]) == v3);
        assert(decode_quad(q) =~= data.subrange(start, start + 3));
    }
}

proof fn lemma_decode_upto(data: Seq<u8>, m: nat)
    requires
        m <= chunk_count(data.len()),
    ensures
        base64_decode_upto(base64(data), m) == data.subrange(
            0,
            if 3 * m < data.len() {
                3 * m as int
            } else {
                data.len() as int
            },
        ),
    decreases m,
{
    let n = data.len();
    let k = chunk_count(n);
    let text = base64(data);
    law_base64_length(data);
    if m == 0 {
        assert(data.subrange(0, 0) =~= Seq::<u8>::empty());
    } else {
        lemma_decode_upto(data, (m - 1) as nat);
        let j = m - 1;
        assert(text.subrange(4 * j, 4 * m as int) =~= encode_chunk(data, j)) by {
            assert forall|t: int| 0 <= t < 4 implies text.subrange(4 * j, 4 * m as int)[t]
                == encode_chunk(data, j)[t] by {
                lemma_base64_upto_index(data, k, 4 * j + t);
                assert((4 * j + t) / 4 == j);
                assert((4 * j + t) % 4 == t);
            }
        }
        assert(3 * j < n);
        lemma_decode_chunk(data, j);
        let lo = 3 * j;
        let hi = if n - 3 * j < 3 {
            n as int
        } else {
            3 * j + 3
        };
        assert(data.subrange(0, lo) + data.subrange(lo, hi) =~= data.subrange(0, hi));
    }
}

/// Decoding base64 text gives back the bytes it encodes.
pub proof fn law_base64_round_trip(data: Seq<u8>)
    ensures
        base64_decode(base64(data)) == data,
{
    let n = data.len();
    let k = chunk_count(n);
    law_base64_length(data);
    assert(base64(data).len() / 4 == k);
    lemma_decode_upto(data, k);
    assert(3 * k >= n);
    assert(data.subrange(0, n as int) =~= data);
}

/// The base64 alphabet: digits 0 to 25 are `A` to `Z`, 26 to 51 are `a`
/// to `z`, 52 to 61 are `0` to `9`, 62 is `+` and 63 is `/`.
pub proof fn law_base64_alphabet(v: u64)
    requires
        v < 64,
    ensures
        v < 26 ==> b64_char(v) as int == 'A' as int + v,
        26 <= v < 52 ==> b64_char(v) as int == 'a' as int + (v - 26),
        52 <= v < 62 ==> b64_char(v) as int == '0' as int + (v - 52),
        v == 62 ==> b64_char(v) == '+',
        v == 63 ==> b64_char(v) == '/',
{
}

fn b64_digit(v: u64) -> (c: char)
    requires
        v < 64,
    ensures
        c == b64_char(v),
{
    if v < 26 {
        ((v as u8) + 65) as char
    } else if v < 52 {
        ((v as u8) - 26 + 97) as char
    } else if v < 62 {
        ((v as u8) - 52 + 48) as char
    } else if v == 62 {
        '+'
    } else {
        '/'
    }
}

/// Base64 encoding of bytes, with padding.
pub fn base64_encode(data: &[u8]) -> (r: String)
    ensures
        r@ == base64(data@),
{
    let mut out = String::new();
    let n = data.len();
    let chunks: usize = n / 3 + if n % 3 > 0 {
        1
    } else {
        0
    };
    assert(chunks == chunk_count(n as nat));
    let mut k: usize = 0;
    while k < chunks
        invariant
            n == data@.len(),
            chunks == chunk_count(n as nat),
            k <= chunks,
            out@ == base64_upto(data@, k as nat),
        decreases chunks - k,
    {
        let i = 3 * k;
        let rem = n - i;
        let b0 = data[i] as u64;
        let b1: u64 = if rem > 1 {
            data[i + 1] as u64
        } else {
            0
        };
        let b2: u64 = if rem > 2 {
            data[i + 2] as u64
        } else {
            0
        };
        let ghost before = out@;
        assert(b0 >> 2 < 64 && ((b0 & 3) << 4) | (b1 >> 4) < 64 && ((b1 & 15) << 2) | (b2 >> 6)
            < 64 && b2 & 63 < 64) by (bit_vector)
            requires
                b0 < 256,
                b1 < 256,
                b2 < 256,
        ;
        push_char(&mut out, b64_digit(b0 >> 2));
        push_char(&mut out, b64_digit(((b0 & 3) << 4) | (b1 >> 4)));
        if rem > 1 {
            push_char(&mut out, b64_digit(((b1 & 15) << 2) | (b2 >> 6)));
        } else {
            push_char(&mut out, '=');
        }
        if rem > 2 {
            push_char(&mut out, b64_digit(b2 & 63));
        } else {
            push_char(&mut out, '=');
        }
        assert(out@ =~= before + encode_chunk(data@, k as int));
        k = k + 1;
    }
    out
}

/// A data URL that shows PNG bytes in a web view.
pub fn png_data_url(data: &[u8]) -> (r: String)
    ensures
        r@ == "data:image/png;base64,"@ + base64(data@),
{
    let mut r = string_of("data:image/png;base64,");
    let encoded = base64_encode(data);
    push_str(&mut r, encoded.as_str());
    r
}

/// The address of the engine listening on a local port.
pub fn engine_url(port: u16) -> (r: String)
    ensures
        r@ == "http://localhost:"@ + decimal(port as nat),
{
    let mut r = string_of("http://localhost:");
    push_decimal(&mut r, port as u64);
    r
}

/// How many times readiness of a started engine is polled.
pub const READY_POLLS: u32 = 30;

/// What to do after readiness poll `attempt` (counted from 0).
#[derive(Debug, Clone, Copy, PartialEq, Eq, Structural)]
pub enum ReadyDecision {
    /// The engine answered: it is ready.
    Ready,
    /// Poll again; `report` asks to log that the engine is awaited.
    PollAgain { report: bool },
    /// The engine did not become ready in time.
    GiveUp,
}

/// Decides what follows readiness poll `attempt` whose answer was
/// `answered`: ready on an answer; otherwise poll again (reporting every
/// tenth attempt) until the polls are used up.
pub fn after_ready_poll(attempt: u32, answered: bool) -> (r: ReadyDecision)
    requires
        attempt < READY_POLLS,
    ensures
        answered ==> r == ReadyDecision::Ready,
        !answered && attempt + 1 < READY_POLLS ==> r == (ReadyDecision::PollAgain {
            report: attempt % 10 == 0,
        }),
        !answered && attempt + 1 == READY_POLLS ==> r == ReadyDecision::GiveUp,
{
    if answered {
        ReadyDecision::Ready
    } else if attempt + 1 < READY_POLLS {
        ReadyDecision::PollAgain { report: attempt % 10 == 0 }
    } else {
        ReadyDecision::GiveUp
    }
}

} // verus!
