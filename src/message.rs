use vstd::prelude::*;

verus! {

/// A colour with 8-bit red, green and blue channels.
#[derive(Debug, Clone, Copy, PartialEq, Eq, Structural)]
pub struct Color {
    pub r: u8,
    pub g: u8,
    pub b: u8,
}

impl Color {
    pub fn rgb(r: u8, g: u8, b: u8) -> (c: Color)
        ensures
            c == (Color { r, g, b }),
    {
        Color { r, g, b }
    }

    /// The border colour that windows get before any control message sets one.
    pub fn midnight_blue() -> (c: Color)
        ensures
            c == (Color { r: 25, g: 25, b: 112 }),
    {
        Color { r: 25, g: 25, b: 112 }
    }

    /// The 24-bit pixel value `0xRRGGBB` that the display server takes.
    pub fn pixel(&self) -> (p: u32)
        ensures
            p == self.r * 65536 + self.g * 256 + self.b,
    {
        self.r as u32 * 65536 + self.g as u32 * 256 + self.b as u32
    }
}

/// A control message, sent by the control tool to the window manager.
#[derive(Debug, Clone, Copy, PartialEq, Eq, Structural)]
pub enum Message {
    /// Quit the window manager.
    Quit,
    /// Close the focused window.
    CloseWindow,
    /// Move the focused window to an absolute position.
    MoveWindow { x: u32, y: u32 },
    /// Change the border width of every window.
    SetBorderWidth { width: u32 },
    /// Change the border colour of every window.
    SetBorderColor { color: Color },
}

/// Why a byte sequence is not an encoded [`Message`].
#[derive(Debug, Clone, Copy, PartialEq, Eq, Structural)]
pub enum DecodeError {
    /// The input ends before the message does.
    Truncated,
    /// The variant tag names no message.
    UnknownTag { tag: u32 },
    /// Bytes follow the end of the message.
    TrailingBytes,
}

/// The four bytes of `v`, least significant first.
pub open spec fn le_bytes(v: u32) -> Seq<u8> {
    seq![
        (v & 0xff) as u8,
        ((v >> 8u32) & 0xff) as u8,
        ((v >> 16u32) & 0xff) as u8,
        ((v >> 24u32) & 0xff) as u8,
    ]
}

/// The number whose bytes, least significant first, are `b0 b1 b2 b3`.
pub open spec fn from_le(b0: u8, b1: u8, b2: u8, b3: u8) -> u32 {
    (b0 as u32) | ((b1 as u32) << 8u32) | ((b2 as u32) << 16u32) | ((b3 as u32) << 24u32)
}

/// The number stored least significant byte first at `b[at..at + 4]`.
pub open spec fn le_at(b: Seq<u8>, at: int) -> u32 {
    from_le(b[at], b[at + 1], b[at + 2], b[at + 3])
}

/// The variant tag of each message.
pub open spec fn tag_of(m: Message) -> u32 {
    match m {
        Message::Quit => 0,
        Message::CloseWindow => 1,
        Message::MoveWindow { .. } => 2,
        Message::SetBorderWidth { .. } => 3,
        Message::SetBorderColor { .. } => 4,
    }
}

/// The wire form of a message: its tag as four little-endian bytes, then
/// each `u32` field as four little-endian bytes, or a colour as the three
/// bytes red, green, blue.
pub open spec fn encoding(m: Message) -> Seq<u8> {
    le_bytes(tag_of(m)) + match m {
        Message::Quit => Seq::empty(),
        Message::CloseWindow => Seq::empty(),
        Message::MoveWindow { x, y } => le_bytes(x) + le_bytes(y),
        Message::SetBorderWidth { width } => le_bytes(width),
        Message::SetBorderColor { color } => seq![color.r, color.g, color.b],
    }
}

/// The length of a message's wire form with the given tag, tag included.
pub open spec fn encoded_len(tag: u32) -> int {
    if tag == 2 {
        12
    } else if tag == 3 {
        8
    } else if tag == 4 {
        7
    } else {
        4
    }
}

/// The message whose tag is `tag` with its payload read from `b`.
pub open spec fn message_at(tag: u32, b: Seq<u8>) -> Message {
    if tag == 0 {
        Message::Quit
    } else if tag == 1 {
        Message::CloseWindow
    } else if tag == 2 {
        Message::MoveWindow { x: le_at(b, 4), y: le_at(b, 8) }
    } else if tag == 3 {
        Message::SetBorderWidth { width: le_at(b, 4) }
    } else {
        Message::SetBorderColor { color: Color { r: b[4], g: b[5], b: b[6] } }
    }
}

/// What decoding `b` gives.
pub open spec fn decoding(b: Seq<u8>) -> Result<Message, DecodeError> {
    if b.len() < 4 {
        Err(DecodeError::Truncated)
    } else if le_at(b, 0) > 4 {
        Err(DecodeError::UnknownTag { tag: le_at(b, 0) })
    } else if b.len() < encoded_len(le_at(b, 0)) {
        Err(DecodeError::Truncated)
    } else if b.len() > encoded_len(le_at(b, 0)) {
        Err(DecodeError::TrailingBytes)
    } else {
        Ok(message_at(le_at(b, 0), b))
    }
}

proof fn lemma_le_round_trip(v: u32)
    ensures
        from_le(le_bytes(v)[0], le_bytes(v)[1], le_bytes(v)[2], le_bytes(v)[3]) == v,
{
    assert(((v & 0xff) as u8) as u32 | ((((v >> 8u32) & 0xff) as u8) as u32) << 8u32
        | ((((v >> 16u32) & 0xff) as u8) as u32) << 16u32
        | ((((v >> 24u32) & 0xff) as u8) as u32) << 24u32 == v) by (bit_vector);
}

/// Decoding the wire form of any message gives that message back.
pub proof fn decode_encode_round_trip(m: Message)
    ensures
        decoding(encoding(m)) == Ok::<Message, DecodeError>(m),
{
    let e = encoding(m);
    lemma_le_round_trip(tag_of(m));
    assert(le_at(e, 0) == tag_of(m));
    match m {
        Message::MoveWindow { x, y } => {
            lemma_le_round_trip(x);
            lemma_le_round_trip(y);
            assert(le_at(e, 4) == x);
            assert(le_at(e, 8) == y);
        },
        Message::SetBorderWidth { width } => {
            lemma_le_round_trip(width);
            assert(le_at(e, 4) == width);
        },
        _ => {},
    }
}

proof fn lemma_bytes_round_trip(b: Seq<u8>, at: int)
    requires
        0 <= at,
        at + 4 <= b.len(),
    ensures
        le_bytes(le_at(b, at)) == b.subrange(at, at + 4),
{
    let (b0, b1, b2, b3) = (b[at], b[at + 1], b[at + 2], b[at + 3]);
    assert((((b0 as u32) | ((b1 as u32) << 8u32) | ((b2 as u32) << 16u32) | ((b3 as u32)
        << 24u32)) & 0xff) as u8 == b0) by (bit_vector);
    assert(((((b0 as u32) | ((b1 as u32) << 8u32) | ((b2 as u32) << 16u32) | ((b3 as u32)
        << 24u32)) >> 8u32) & 0xff) as u8 == b1) by (bit_vector);
    assert(((((b0 as u32) | ((b1 as u32) << 8u32) | ((b2 as u32) << 16u32) | ((b3 as u32)
        << 24u32)) >> 16u32) & 0xff) as u8 == b2) by (bit_vector);
    assert(((((b0 as u32) | ((b1 as u32) << 8u32) | ((b2 as u32) << 16u32) | ((b3 as u32)
        << 24u32)) >> 24u32) & 0xff) as u8 == b3) by (bit_vector);
    assert(le_bytes(le_at(b, at)) =~= b.subrange(at, at + 4));
}

/// The only byte sequence that decodes to a message is that message's wire
/// form.
pub proof fn decode_only_wire_form(b: Seq<u8>)
    ensures
        decoding(b) is Ok ==> encoding(decoding(b)->Ok_0) == b,
{
    if decoding(b) is Ok {
        let m = decoding(b)->Ok_0;
        lemma_bytes_round_trip(b, 0);
        let tag = le_at(b, 0);
        if tag == 2 {
            lemma_bytes_round_trip(b, 4);
            lemma_bytes_round_trip(b, 8);
        } else if tag == 3 {
            lemma_bytes_round_trip(b, 4);
        }
        assert(encoding(m) =~= b.subrange(0, 4) + b.subrange(4, b.len() as int));
        assert(b =~= b.subrange(0, 4) + b.subrange(4, b.len() as int));
    }
}

fn push_le(out: &mut Vec<u8>, v: u32)
    ensures
        final(out)@ == old(out)@ + le_bytes(v),
{
    out.push((v & 0xff) as u8);
    out.push(((v >> 8u32) & 0xff) as u8);
    out.push(((v >> 16u32) & 0xff) as u8);
    out.push(((v >> 24u32) & 0xff) as u8);
    assert(final(out)@ =~= old(out)@ + le_bytes(v));
}

fn read_le(b: &[u8], at: usize) -> (v: u32)
    requires
        at + 4 <= b@.len(),
    ensures
        v == le_at(b@, at as int),
{
    (b[at] as u32) | ((b[at + 1] as u32) << 8u32) | ((b[at + 2] as u32) << 16u32) | ((b[at
        + 3] as u32) << 24u32)
}

/// Encodes a message into its wire form.
pub fn encode(m: &Message) -> (r: Vec<u8>)
    ensures
        r@ == encoding(*m),
{
    let mut out: Vec<u8> = Vec::new();
    match m {
        Message::Quit => {
            push_le(&mut out, 0);
        },
        Message::CloseWindow => {
            push_le(&mut out, 1);
        },
        Message::MoveWindow { x, y } => {
            push_le(&mut out, 2);
            push_le(&mut out, *x);
            push_le(&mut out, *y);
        },
        Message::SetBorderWidth { width } => {
            push_le(&mut out, 3);
            push_le(&mut out, *width);
        },
        Message::SetBorderColor { color } => {
            push_le(&mut out, 4);
            out.push(color.r);
            out.push(color.g);
            out.push(color.b);
        },
    }
    assert(out@ =~= encoding(*m));
    out
}

/// Decodes one message from the whole of `b`.
pub fn decode(b: &[u8]) -> (r: Result<Message, DecodeError>)
    ensures
        r == decoding(b@),
{
    if b.len() < 4 {
        return Err(DecodeError::Truncated);
    }
    let tag = read_le(b, 0);
    if tag > 4 {
        return Err(DecodeError::UnknownTag { tag });
    }
    let needed: usize = if tag == 2 {
        12
    } else if tag == 3 {
        8
    } else if tag == 4 {
        7
    } else {
        4
    };
    if b.len() < needed {
        return Err(DecodeError::Truncated);
    }
    if b.len() > needed {
        return Err(DecodeError::TrailingBytes);
    }
    if tag == 0 {
        Ok(Message::Quit)
    } else if tag == 1 {
        Ok(Message::CloseWindow)
    } else if tag == 2 {
        Ok(Message::MoveWindow { x: read_le(b, 4), y: read_le(b, 8) })
    } else if tag == 3 {
        Ok(Message::SetBorderWidth { width: read_le(b, 4) })
    } else {
        Ok(Message::SetBorderColor { color: Color { r: b[4], g: b[5], b: b[6] } })
    }
}

} // verus!
