//! CAN frames: data, remote and error frames, their construction from raw
//! values, and their text rendering.
use vstd::prelude::*;
use crate::constants::{EXTENDED_FRAME_ID_MASK, STANDARD_FRAME_ID_MASK};

verus! {

/// Whether a CAN-ID is standard or extended.
#[derive(Debug, PartialEq, Eq, Clone, Copy, Structural)]
pub enum IdType {
    /// The CAN-ID is standard and consists of 11 bits.
    Standard,
    /// The CAN-ID is extended and consists of 29 bits.
    Extended,
}

impl IdType {
    /// The mask that covers every bit of a CAN-ID of this type.
    pub open spec fn id_mask(self) -> u32 {
        match self {
            IdType::Standard => STANDARD_FRAME_ID_MASK,
            IdType::Extended => EXTENDED_FRAME_ID_MASK,
        }
    }
}

/// A CAN frame.
#[derive(Clone, Copy, PartialEq, Eq)]
pub enum CanFrame {
    /// A frame that carries `dlc` bytes of payload; the bytes of `data` from
    /// index `dlc` on are zero filler.
    DataFrame { can_id: u32, id_type: IdType, dlc: u8, data: [u8; 8] },
    /// A frame that asks for `dlc` bytes and carries none.
    RemoteFrame { can_id: u32, id_type: IdType, dlc: u8 },
    /// A frame that signals a bus error tied to a CAN-ID.
    ErrorFrame { can_id: u32, id_type: IdType },
}

/// The smaller of two integers.
pub open spec fn min(a: int, b: int) -> int {
    if a <= b {
        a
    } else {
        b
    }
}

/// The eight bytes of a data frame built from `payload`: its first eight
/// bytes, then zeros.
pub open spec fn padded_payload(payload: Seq<u8>) -> Seq<u8> {
    Seq::new(8, |i: int| if i < payload.len() { payload[i] } else { 0u8 })
}

/// The mask of the CAN-IDs of `id_type`.
fn id_mask_of(id_type: IdType) -> (r: u32)
    ensures
        r == id_type.id_mask(),
{
    match id_type {
        IdType::Standard => STANDARD_FRAME_ID_MASK,
        IdType::Extended => EXTENDED_FRAME_ID_MASK,
    }
}

/// The digit of value `d` (below 16), as an upper-case hexadecimal numeral.
pub open spec fn digit_char(d: nat) -> char {
    seq!['0', '1', '2', '3', '4', '5', '6', '7', '8', '9', 'A', 'B', 'C', 'D', 'E', 'F'][d as int]
}

/// The lowest `n` hexadecimal digits of `v`, most significant first.
pub open spec fn hex_digits(v: nat, n: nat) -> Seq<char>
    decreases n,
{
    if n == 0 {
        Seq::empty()
    } else {
        hex_digits(v / 16, (n - 1) as nat).push(digit_char(v % 16))
    }
}

/// `v` in decimal, without leading zeros.
pub open spec fn decimal(v: nat) -> Seq<char>
    decreases v,
{
    if v < 10 {
        seq![digit_char(v)]
    } else {
        decimal(v / 10).push(digit_char(v % 10))
    }
}

/// A CAN-ID as `0x` and three (standard) or eight (extended) hexadecimal
/// digits.
pub open spec fn id_text(can_id: u32, id_type: IdType) -> Seq<char> {
    "0x"@ + hex_digits(
        can_id as nat,
        match id_type {
            IdType::Standard => 3nat,
            IdType::Extended => 8nat,
        },
    )
}

/// The name of an identifier type.
pub open spec fn id_type_text(id_type: IdType) -> Seq<char> {
    match id_type {
        IdType::Standard => "Standard"@,
        IdType::Extended => "Extended"@,
    }
}

/// Bytes as two hexadecimal digits each, separated by `, `.
pub open spec fn bytes_text(bytes: Seq<u8>) -> Seq<char>
    decreases bytes.len(),
{
    if bytes.len() == 0 {
        Seq::empty()
    } else if bytes.len() == 1 {
        hex_digits(bytes[0] as nat, 2)
    } else {
        bytes_text(bytes.drop_last()) + ", "@ + hex_digits(bytes.last() as nat, 2)
    }
}

/// The text of one digit.
fn digit_str(d: u32) -> (r: &'static str)
    requires
        d < 16,
    ensures
        r@ == seq![digit_char(d as nat)],
{
    proof {
        reveal_strlit("0");
        reveal_strlit("1");
        reveal_strlit("2");
        reveal_strlit("3");
        reveal_strlit("4");
        reveal_strlit("5");
        reveal_strlit("6");
        reveal_strlit("7");
        reveal_strlit("8");
        reveal_strlit("9");
        reveal_strlit("A");
        reveal_strlit("B");
        reveal_strlit("C");
        reveal_strlit("D");
        reveal_strlit("E");
        reveal_strlit("F");
    }
    let r = match d {
        0 => "0",
        1 => "1",
        2 => "2",
        3 => "3",
        4 => "4",
        5 => "5",
        6 => "6",
        7 => "7",
        8 => "8",
        9 => "9",
        10 => "A",
        11 => "B",
        12 => "C",
        13 => "D",
        14 => "E",
        _ => "F",
    };
    assert(r@ =~= seq![digit_char(d as nat)]);
    r
}

/// Appends the lowest `n` hexadecimal digits of `v`.
fn push_hex(text: &mut String, v: u32, n: u32)
    ensures
        final(text)@ == old(text)@ + hex_digits(v as nat, n as nat),
    decreases n,
{
    if n > 0 {
        push_hex(text, v / 16, n - 1);
        text.append(digit_str(v % 16));
        assert(text@ =~= old(text)@ + hex_digits(v as nat, n as nat));
    } else {
        assert(text@ =~= old(text)@ + hex_digits(v as nat, n as nat));
    }
}

/// Appends `v` in decimal.
fn push_decimal(text: &mut String, v: u32)
    ensures
        final(text)@ == old(text)@ + decimal(v as nat),
    decreases v,
{
    if v >= 10 {
        push_decimal(text, v / 10);
    }
    text.append(digit_str(v % 10));
    assert(text@ =~= old(text)@ + decimal(v as nat));
}

/// Appends a CAN-ID as `0x` and three or eight hexadecimal digits.
fn push_id(text: &mut String, can_id: u32, id_type: IdType)
    ensures
        final(text)@ == old(text)@ + id_text(can_id, id_type),
{
    text.append("0x");
    match id_type {
        IdType::Standard => push_hex(text, can_id, 3),
        IdType::Extended => push_hex(text, can_id, 8),
    }
    assert(text@ =~= old(text)@ + id_text(can_id, id_type));
}

/// Appends the name of an identifier type.
fn push_id_type(text: &mut String, id_type: IdType)
    ensures
        final(text)@ == old(text)@ + id_type_text(id_type),
{
    match id_type {
        IdType::Standard => text.append("Standard"),
        IdType::Extended => text.append("Extended"),
    }
}

/// Appends the first `n` bytes of `bytes`, two hexadecimal digits each,
/// separated by `, `.
fn push_bytes(text: &mut String, bytes: &[u8; 8], n: usize)
    requires
        n <= 8,
    ensures
        final(text)@ == old(text)@ + bytes_text(bytes@.take(n as int)),
{
    let mut i: usize = 0;
    while i < n
        invariant
            i <= n <= 8,
            text@ == old(text)@ + bytes_text(bytes@.take(i as int)),
        decreases n - i,
    {
        if i > 0 {
            text.append(", ");
        }
        push_hex(text, bytes[i] as u32, 2);
        proof {
            let next = bytes@.take(i + 1);
            assert(next.drop_last() =~= bytes@.take(i as int));
            assert(next.last() == bytes@[i as int]);
            assert(text@ =~= old(text)@ + bytes_text(next));
        }
        i = i + 1;
    }
}

impl CanFrame {
    /// The frame as text: its kind, its CAN-ID in hexadecimal, its identifier
    /// type, and for data and remote frames its length; a data frame lists
    /// its first `dlc` (at most eight) bytes.
    pub open spec fn rendering(self) -> Seq<char> {
        match self {
            CanFrame::DataFrame { can_id, id_type, dlc, data } => "DataFrame { can_id: "@ + id_text(
                can_id,
                id_type,
            ) + ", id_type: "@ + id_type_text(id_type) + ", dlc: "@ + decimal(dlc as nat)
                + ", data: ["@ + bytes_text(data@.take(min(dlc as int, 8))) + "] }"@,
            CanFrame::RemoteFrame { can_id, id_type, dlc } => "Remote { can_id: "@ + id_text(
                can_id,
                id_type,
            ) + ", id_type: "@ + id_type_text(id_type) + ", dlc: "@ + decimal(dlc as nat)
                + " }"@,
            CanFrame::ErrorFrame { can_id, id_type } => "ErrorFrame { can_id: "@ + id_text(
                can_id,
                id_type,
            ) + ", id_type: "@ + id_type_text(id_type) + " }"@,
        }
    }

    /// Renders the frame as text.
    pub fn render(&self) -> (r: String)
        ensures
            r@ == self.rendering(),
    {
        let mut text = String::new();
        match self {
            CanFrame::DataFrame { can_id, id_type, dlc, data } => {
                text.append("DataFrame { can_id: ");
                push_id(&mut text, *can_id, *id_type);
                text.append(", id_type: ");
                push_id_type(&mut text, *id_type);
                text.append(", dlc: ");
                push_decimal(&mut text, *dlc as u32);
                text.append(", data: [");
                let n: usize = if *dlc > 8 {
                    8
                } else {
                    *dlc as usize
                };
                push_bytes(&mut text, data, n);
                text.append("] }");
            },
            CanFrame::RemoteFrame { can_id, id_type, dlc } => {
                text.append("Remote { can_id: ");
                push_id(&mut text, *can_id, *id_type);
                text.append(", id_type: ");
                push_id_type(&mut text, *id_type);
                text.append(", dlc: ");
                push_decimal(&mut text, *dlc as u32);
                text.append(" }");
            },
            CanFrame::ErrorFrame { can_id, id_type } => {
                text.append("ErrorFrame { can_id: ");
                push_id(&mut text, *can_id, *id_type);
                text.append(", id_type: ");
                push_id_type(&mut text, *id_type);
                text.append(" }");
            },
        }
        assert(text@ =~= self.rendering());
        text
    }

    /// The frame's CAN-ID is cut to its type and its length is at most 8.
    pub open spec fn wf(self) -> bool {
        match self {
            CanFrame::DataFrame { can_id, id_type, dlc, .. } => can_id & id_type.id_mask()
                == can_id && dlc <= 8,
            CanFrame::RemoteFrame { can_id, id_type, dlc } => can_id & id_type.id_mask()
                == can_id && dlc <= 8,
            CanFrame::ErrorFrame { can_id, id_type } => can_id & id_type.id_mask() == can_id,
        }
    }

    /// Builds a data frame: the CAN-ID is cut to `id_type`, the first (at most)
    /// eight bytes of `data` are kept and the rest dropped.
    pub fn new_data_frame(can_id: u32, id_type: IdType, data: &[u8]) -> (r: CanFrame)
        ensures
            r matches CanFrame::DataFrame { can_id: c, id_type: t, dlc: n, data: d }
                && c == can_id & id_type.id_mask() && t == id_type && n == min(data@.len() as int, 8)
                && d@ == padded_payload(data@),
            r.wf(),
    {
        let canid = can_id & id_mask_of(id_type);
        let mut candata = [0u8; 8];
        let len: usize = if data.len() > 8 {
            8
        } else {
            data.len()
        };
        let mut i: usize = 0;
        while i < len
            invariant
                len == min(data@.len() as int, 8),
                0 <= i <= len,
                forall|k: int| 0 <= k < 8 ==> candata@[k] == if k < i { data@[k] } else { 0u8 },
            decreases len - i,
        {
            candata[i] = data[i];
            i = i + 1;
        }
        assert(candata@ =~= padded_payload(data@));
        let dlc = len as u8;
        proof {
            let m = id_type.id_mask();
            assert((can_id & m) & m == can_id & m) by (bit_vector);
        }
        CanFrame::DataFrame { can_id: canid, id_type, dlc, data: candata }
    }

    /// Builds a remote frame: the CAN-ID is cut to `id_type` and `dlc` is
    /// clamped to 8.
    pub fn new_remote_frame(can_id: u32, id_type: IdType, dlc: u8) -> (r: CanFrame)
        ensures
            r == (CanFrame::RemoteFrame {
                can_id: can_id & id_type.id_mask(),
                id_type,
                dlc: if dlc > 8 { 8u8 } else { dlc },
            }),
            r.wf(),
    {
        let canid = can_id & id_mask_of(id_type);
        let dlc = if dlc > 8 {
            8u8
        } else {
            dlc
        };
        proof {
            let m = id_type.id_mask();
            assert((can_id & m) & m == can_id & m) by (bit_vector);
        }
        CanFrame::RemoteFrame { can_id: canid, id_type, dlc }
    }

    /// Builds an error frame: the CAN-ID is cut to `id_type`.
    pub fn new_error_frame(can_id: u32, id_type: IdType) -> (r: CanFrame)
        ensures
            r == (CanFrame::ErrorFrame { can_id: can_id & id_type.id_mask(), id_type }),
            r.wf(),
    {
        let canid = can_id & id_mask_of(id_type);
        proof {
            let m = id_type.id_mask();
            assert((can_id & m) & m == can_id & m) by (bit_vector);
        }
        CanFrame::ErrorFrame { can_id: canid, id_type }
    }
}

} // verus!
