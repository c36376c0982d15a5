//! The model of one retained native sample: a locked pixel buffer together
//! with its dimensions, plus the borrowed view over its bytes and the
//! four-character-code helpers used when naming pixel formats.

use vstd::prelude::*;

verus! {

/// The number of bytes per pixel of the negotiated format. Every backend in
/// this crate negotiates a packed 32-bit format (RGB32/ARGB), so a sample's
/// byte length is always `width * height * 4`.
pub const BYTES_PER_PIXEL: u64 = 4;

/// One retained native sample: `id` names the underlying native buffer
/// handle (one retained reference per `SampleBuffer` value), `data` holds
/// the locked bytes. Ownership of a `SampleBuffer` value stands for holding
/// that single retained reference; the mailbox's accounting is in terms of
/// these ids.
pub struct SampleBuffer {
    pub id: u64,
    pub width: u32,
    pub height: u32,
    pub data: Vec<u8>,
}

/// The mathematical image of a `SampleBuffer`.
pub struct SampleView {
    pub id: u64,
    pub width: u32,
    pub height: u32,
    pub data: Seq<u8>,
}

impl View for SampleBuffer {
    type V = SampleView;

    open spec fn view(&self) -> SampleView {
        SampleView { id: self.id, width: self.width, height: self.height, data: self.data@ }
    }
}

impl SampleView {
    /// A sample is well formed when its byte length matches its dimensions
    /// under the packed 32-bit pixel format.
    pub open spec fn wf(self) -> bool {
        self.data.len() == self.width * self.height * BYTES_PER_PIXEL
    }
}

impl SampleBuffer {
    /// Takes ownership of one retained native buffer reference, described by
    /// its id, dimensions and locked bytes.
    pub fn new(id: u64, width: u32, height: u32, data: Vec<u8>) -> (s: Self)
        requires
            data@.len() == width * height * BYTES_PER_PIXEL,
        ensures
            s@ == (SampleView { id, width, height, data: data@ }),
            s@.wf(),
    {
        SampleBuffer { id, width, height, data }
    }

    /// The sample's dimensions, as the native buffer reports them.
    pub fn size_usize(&self) -> (r: (usize, usize))
        ensures
            r.0 == self.width as usize,
            r.1 == self.height as usize,
    {
        (self.width as usize, self.height as usize)
    }

    /// Borrows the locked pixel data; the borrow ties the view's lifetime to
    /// the sample, so the bytes can never be read after the sample (and with
    /// it the native lock) is gone.
    pub fn pixels(&self) -> (p: Pixels<'_>)
        ensures
            p.data@ == self@.data,
            p.width == self.width as usize,
            p.height == self.height as usize,
    {
        Pixels { data: self.data.as_slice(), width: self.width as usize, height: self.height as usize }
    }
}

/// Holds a borrowed view of the locked pixel data of a frame; the native
/// unlock happens only once the owning sample goes away, which the borrow
/// makes impossible while a `Pixels` value is alive.
pub struct Pixels<'a> {
    pub data: &'a [u8],
    pub width: usize,
    pub height: usize,
}

/// The packed little-endian 32-bit word starting at byte `4 * i`.
pub open spec fn le_word_at(bytes: Seq<u8>, i: int) -> u32
    recommends
        0 <= i,
        4 * i + 3 < bytes.len(),
{
    (bytes[4 * i] + bytes[4 * i + 1] * 0x100 + bytes[4 * i + 2] * 0x10000 + bytes[4 * i + 3]
        * 0x1000000) as u32
}

/// A byte string read as packed little-endian 32-bit words; bytes past the
/// last whole word do not appear.
pub open spec fn words_of(bytes: Seq<u8>) -> Seq<u32> {
    Seq::new((bytes.len() / 4) as nat, |i: int| le_word_at(bytes, i))
}

/// The uppercase hexadecimal digit for a value below sixteen.
pub open spec fn hex_digit(n: u32) -> char
    recommends
        n < 16,
{
    if n == 0 {
        '0'
    } else if n == 1 {
        '1'
    } else if n == 2 {
        '2'
    } else if n == 3 {
        '3'
    } else if n == 4 {
        '4'
    } else if n == 5 {
        '5'
    } else if n == 6 {
        '6'
    } else if n == 7 {
        '7'
    } else if n == 8 {
        '8'
    } else if n == 9 {
        '9'
    } else if n == 10 {
        'A'
    } else if n == 11 {
        'B'
    } else if n == 12 {
        'C'
    } else if n == 13 {
        'D'
    } else if n == 14 {
        'E'
    } else {
        'F'
    }
}

/// `0x` followed by the eight uppercase hexadecimal digits of a 32-bit
/// value.
pub open spec fn hex_chars(v: u32) -> Seq<char> {
    seq![
        '0',
        'x',
        hex_digit((v >> 28) & 0xF),
        hex_digit((v >> 24) & 0xF),
        hex_digit((v >> 20) & 0xF),
        hex_digit((v >> 16) & 0xF),
        hex_digit((v >> 12) & 0xF),
        hex_digit((v >> 8) & 0xF),
        hex_digit((v >> 4) & 0xF),
        hex_digit(v & 0xF),
    ]
}

/// One byte shown as a character: itself when it is ASCII, the replacement
/// character otherwise.
pub open spec fn lossy_char(b: u8) -> char {
    if b < 128 {
        b as char
    } else {
        '\u{FFFD}'
    }
}

/// What [`fourcc_to_string`] answers for a given code, as a character
/// sequence.
pub open spec fn fourcc_string(v: u32) -> Seq<char> {
    if v == 32 {
        seq!['A', 'R', 'G', 'B']
    } else if v == 24 {
        seq!['R', 'G', 'B', ' ']
    } else if v < 0x100 {
        hex_chars(v)
    } else {
        seq![
            lossy_char((v & 0xFF) as u8),
            lossy_char(((v >> 8) & 0xFF) as u8),
            lossy_char(((v >> 16) & 0xFF) as u8),
            lossy_char(((v >> 24) & 0xFF) as u8),
        ]
    }
}

/// Relies on `String::push`: appends the given character to the end of the
/// string.
#[verifier::external_body]
fn push_char(s: &mut String, c: char)
    ensures
        final(s)@ == old(s)@.push(c),
{
    s.push(c);
}

/// The uppercase hexadecimal digit for a value below sixteen.
fn hex_digit_char(n: u32) -> (r: char)
    requires
        n < 16,
    ensures
        r == hex_digit(n),
{
    if n == 0 {
        '0'
    } else if n == 1 {
        '1'
    } else if n == 2 {
        '2'
    } else if n == 3 {
        '3'
    } else if n == 4 {
        '4'
    } else if n == 5 {
        '5'
    } else if n == 6 {
        '6'
    } else if n == 7 {
        '7'
    } else if n == 8 {
        '8'
    } else if n == 9 {
        '9'
    } else if n == 10 {
        'A'
    } else if n == 11 {
        'B'
    } else if n == 12 {
        'C'
    } else if n == 13 {
        'D'
    } else if n == 14 {
        'E'
    } else {
        'F'
    }
}

/// One byte shown as a character: itself when it is ASCII, the replacement
/// character otherwise.
fn lossy_byte_char(b: u8) -> (r: char)
    ensures
        r == lossy_char(b),
{
    if b < 128 {
        b as char
    } else {
        '\u{FFFD}'
    }
}

/// Renders a four-character pixel-format code readably. The codes are
/// stored little-endian, so the low byte is the first character. A code
/// whose upper three bytes are zero is one of the bare numeric formats: 32
/// and 24 name the packed RGB layouts, anything else of that shape is shown
/// as hexadecimal. Otherwise the four bytes are shown as characters, each
/// non-ASCII byte as the replacement character.
pub fn fourcc_to_string(px_format_u32: u32) -> (r: String)
    ensures
        r@ == fourcc_string(px_format_u32),
{
    let v = px_format_u32;
    if v == 32 {
        let r = String::from_str("ARGB");
        proof {
            reveal_strlit("ARGB");
            assert(r@ =~= fourcc_string(v));
        }
        r
    } else if v == 24 {
        let r = String::from_str("RGB ");
        proof {
            reveal_strlit("RGB ");
            assert(r@ =~= fourcc_string(v));
        }
        r
    } else if v < 0x100 {
        proof {
            assert(((v >> 28) & 0xF) < 16 && ((v >> 24) & 0xF) < 16 && ((v >> 20) & 0xF) < 16 && ((
            v >> 16) & 0xF) < 16 && ((v >> 12) & 0xF) < 16 && ((v >> 8) & 0xF) < 16 && ((v >> 4)
                & 0xF) < 16 && (v & 0xF) < 16) by (bit_vector);
        }
        let mut r = String::new();
        push_char(&mut r, '0');
        push_char(&mut r, 'x');
        push_char(&mut r, hex_digit_char((v >> 28) & 0xF));
        push_char(&mut r, hex_digit_char((v >> 24) & 0xF));
        push_char(&mut r, hex_digit_char((v >> 20) & 0xF));
        push_char(&mut r, hex_digit_char((v >> 16) & 0xF));
        push_char(&mut r, hex_digit_char((v >> 12) & 0xF));
        push_char(&mut r, hex_digit_char((v >> 8) & 0xF));
        push_char(&mut r, hex_digit_char((v >> 4) & 0xF));
        push_char(&mut r, hex_digit_char(v & 0xF));
        proof {
            assert(r@ =~= fourcc_string(v));
        }
        r
    } else {
        proof {
            assert((v & 0xFF) < 256 && ((v >> 8) & 0xFF) < 256 && ((v >> 16) & 0xFF) < 256 && ((
            v >> 24) & 0xFF) < 256) by (bit_vector);
        }
        let mut r = String::new();
        push_char(&mut r, lossy_byte_char((v & 0xFF) as u8));
        push_char(&mut r, lossy_byte_char(((v >> 8) & 0xFF) as u8));
        push_char(&mut r, lossy_byte_char(((v >> 16) & 0xFF) as u8));
        push_char(&mut r, lossy_byte_char(((v >> 24) & 0xFF) as u8));
        proof {
            assert(r@ =~= fourcc_string(v));
        }
        r
    }
}

/// The four-character code written by a four-character ASCII string, as the
/// native layer wants it: the first character in the low byte.
pub open spec fn fourcc_of_chars(s: Seq<char>) -> u32
    recommends
        s.len() == 4,
{
    ((s[0] as u8) + (s[1] as u8) * 0x100 + (s[2] as u8) * 0x10000 + (s[3] as u8)
        * 0x1000000) as u32
}

/// Packs a four-character ASCII pixel-format name into its numeric code.
pub fn str_to_u32(string: &str) -> (r: u32)
    requires
        string@.len() == 4,
        string.is_ascii(),
    ensures
        r == fourcc_of_chars(string@),
{
    proof {
        broadcast use vstd::string::is_ascii_spec_bytes;

    }
    let bytes = string.as_bytes();
    let b0 = bytes[0] as u32;
    let b1 = bytes[1] as u32;
    let b2 = bytes[2] as u32;
    let b3 = bytes[3] as u32;
    b0 + b1 * 0x100 + b2 * 0x10000 + b3 * 0x1000000
}

} // verus!
