//! Binary packets exchanged between the client and the server.
//!
//! A packet is one channel identifier byte followed by its payload:
//! a ping or pong carries a little-endian `u64` timestamp, an object or an array
//! carries a little-endian `u16` identifier followed by raw data.
pub mod from;
pub mod into;

use super::{ARRAY_CID, OBJECT_CID, PING_CID, PONG_CID};
use vstd::bytes::*;
use vstd::prelude::*;
use vstd::slice::{slice_subrange, slice_to_vec};

verus! {

/// A packet of the binary protocol.
#[derive(Clone, Debug, PartialEq)]
pub enum Packet {
    Ping { timestamp: u64 },
    Pong { timestamp: u64 },
    Object { id: u16, data: Vec<u8> },
    Array { id: u16, data: Vec<u8> },
    Unknown,
}

/// Mathematical model of a [`Packet`].
pub enum PacketView {
    Ping { timestamp: u64 },
    Pong { timestamp: u64 },
    Object { id: u16, data: Seq<u8> },
    Array { id: u16, data: Seq<u8> },
    Unknown,
}

impl View for Packet {
    type V = PacketView;

    open spec fn view(&self) -> PacketView {
        match self {
            Packet::Ping { timestamp } => PacketView::Ping { timestamp: *timestamp },
            Packet::Pong { timestamp } => PacketView::Pong { timestamp: *timestamp },
            Packet::Object { id, data } => PacketView::Object { id: *id, data: data@ },
            Packet::Array { id, data } => PacketView::Array { id: *id, data: data@ },
            Packet::Unknown => PacketView::Unknown,
        }
    }
}

/// Header that carries no bytes, used for arrays sent without a header.
pub struct PacketEmptyHeader;

/// Reasons for which a packet cannot be read as an object or an array.
#[derive(Clone, Copy, Debug, PartialEq, Eq)]
pub enum PacketError {
    /// The object packet does not hold exactly the expected number of bytes.
    ObjectSizeIncorrect,
    /// The packet is not an object packet.
    NotAnObject,
    /// The array packet is shorter than its header or its items do not fill it evenly.
    ArraySizeIncorrect,
    /// The packet is not an array packet.
    NotAnArray,
}

/// Human readable description of an error.
pub open spec fn error_message(err: PacketError) -> Seq<char> {
    match err {
        PacketError::ObjectSizeIncorrect => "Size of object is incorrect"@,
        PacketError::NotAnObject => "Packet is not a valid object"@,
        PacketError::ArraySizeIncorrect => "Size of array is incorrect"@,
        PacketError::NotAnArray => "Packet is not a valid array"@,
    }
}

impl PacketError {
    /// Human readable description of the error.
    pub fn message(&self) -> (text: &'static str)
        ensures
            text@ == error_message(*self),
    {
        match self {
            PacketError::ObjectSizeIncorrect => "Size of object is incorrect",
            PacketError::NotAnObject => "Packet is not a valid object",
            PacketError::ArraySizeIncorrect => "Size of array is incorrect",
            PacketError::NotAnArray => "Packet is not a valid array",
        }
    }
}

/// The bytes that encode a packet.
pub open spec fn encode_packet(p: PacketView) -> Seq<u8> {
    match p {
        PacketView::Ping { timestamp } => seq![PING_CID] + spec_u64_to_le_bytes(timestamp),
        PacketView::Pong { timestamp } => seq![PONG_CID] + spec_u64_to_le_bytes(timestamp),
        PacketView::Object { id, data } => seq![OBJECT_CID] + spec_u16_to_le_bytes(id) + data,
        PacketView::Array { id, data } => seq![ARRAY_CID] + spec_u16_to_le_bytes(id) + data,
        PacketView::Unknown => Seq::empty(),
    }
}

/// The packet that a sequence of bytes encodes; `Unknown` when the bytes are not a valid packet.
pub open spec fn decode_packet(s: Seq<u8>) -> PacketView {
    if s.len() == 0 {
        PacketView::Unknown
    } else if s[0] == PING_CID || s[0] == PONG_CID {
        if s.len() != 9 {
            PacketView::Unknown
        } else if s[0] == PING_CID {
            PacketView::Ping { timestamp: spec_u64_from_le_bytes(s.subrange(1, 9)) }
        } else {
            PacketView::Pong { timestamp: spec_u64_from_le_bytes(s.subrange(1, 9)) }
        }
    } else if s[0] == OBJECT_CID || s[0] == ARRAY_CID {
        if s.len() < 3 {
            PacketView::Unknown
        } else if s[0] == OBJECT_CID {
            PacketView::Object {
                id: spec_u16_from_le_bytes(s.subrange(1, 3)),
                data: s.subrange(3, s.len() as int),
            }
        } else {
            PacketView::Array {
                id: spec_u16_from_le_bytes(s.subrange(1, 3)),
                data: s.subrange(3, s.len() as int),
            }
        }
    } else {
        PacketView::Unknown
    }
}

/// The items of an array payload: consecutive slices of `item_size` bytes each.
pub open spec fn array_items(s: Seq<u8>, item_size: nat) -> Seq<Seq<u8>>
    recommends
        item_size > 0,
{
    Seq::new(
        s.len() / item_size,
        |i: int| s.subrange(i * item_size, (i + 1) * item_size),
    )
}

/// What reading a packet as an object of `size` bytes gives.
pub open spec fn read_object(p: PacketView, size: nat) -> Result<Seq<u8>, PacketError> {
    match p {
        PacketView::Object { data, .. } => if data.len() == size {
            Ok(data)
        } else {
            Err(PacketError::ObjectSizeIncorrect)
        },
        _ => Err(PacketError::NotAnObject),
    }
}

/// What reading a packet as a header of `header_size` bytes followed by items of
/// `item_size` bytes gives.
pub open spec fn read_array_with_header(p: PacketView, header_size: nat, item_size: nat) -> Result<
    (Seq<u8>, Seq<Seq<u8>>),
    PacketError,
> {
    match p {
        PacketView::Array { data, .. } => if header_size <= data.len() && (data.len()
            - header_size) % (item_size as int) == 0 {
            Ok(
                (
                    data.subrange(0, header_size as int),
                    array_items(data.subrange(header_size as int, data.len() as int), item_size),
                ),
            )
        } else {
            Err(PacketError::ArraySizeIncorrect)
        },
        _ => Err(PacketError::NotAnArray),
    }
}

/// The models of a sequence of byte vectors.
pub open spec fn byte_vecs_view(items: Seq<Vec<u8>>) -> Seq<Seq<u8>> {
    items.map_values(|item: Vec<u8>| item@)
}

impl Packet {
    /// Identifier of an object or array packet; `None` for every other packet.
    pub fn get_id(&self) -> (id: Option<u16>)
        ensures
            id == match self@ {
                PacketView::Object { id, .. } => Some(id),
                PacketView::Array { id, .. } => Some(id),
                _ => None::<u16>,
            },
    {
        match self {
            Packet::Object { id, data: _ } => Some(*id),
            Packet::Array { id, data: _ } => Some(*id),
            _ => None,
        }
    }

    /// Object packet carrying the raw bytes of one value.
    pub fn from_object(id: u16, object: &[u8]) -> (packet: Self)
        ensures
            packet@ == (PacketView::Object { id, data: object@ }),
    {
        Packet::Object { id, data: slice_to_vec(object) }
    }

    /// Array packet carrying the raw bytes of a sequence of values, without a header.
    pub fn from_array(id: u16, array: &[u8]) -> (packet: Self)
        ensures
            packet@ == (PacketView::Array { id, data: array@ }),
    {
        let packet = Self::from_array_with_header(id, &[], array);
        assert(Seq::<u8>::empty() + array@ =~= array@);
        packet
    }

    /// Array packet carrying the raw bytes of a header followed by those of a sequence of values.
    pub fn from_array_with_header(id: u16, header: &[u8], array: &[u8]) -> (packet: Self)
        ensures
            packet@ == (PacketView::Array { id, data: header@ + array@ }),
    {
        let mut data = slice_to_vec(header);
        let mut array_data = slice_to_vec(array);
        data.append(&mut array_data);
        Packet::Array { id, data }
    }

    /// The raw bytes of the object that this packet carries, which must be `size` bytes long.
    pub fn to_object(&self, size: usize) -> (result: Result<Vec<u8>, PacketError>)
        ensures
            match result {
                Ok(bytes) => read_object(self@, size as nat) == Ok::<Seq<u8>, PacketError>(bytes@),
                Err(err) => read_object(self@, size as nat) == Err::<Seq<u8>, PacketError>(err),
            },
            result matches Ok(bytes) ==> (bytes@.len() == size && (self@ matches PacketView::Object {
                data,
                ..
            } && bytes@ == data)),
            self@ matches PacketView::Object { data, .. } && data.len() != size ==> result
                == Err::<Vec<u8>, PacketError>(PacketError::ObjectSizeIncorrect),
            !(self@ is Object) ==> result == Err::<Vec<u8>, PacketError>(PacketError::NotAnObject),
    {
        match self {
            Packet::Object { id: _, data } => {
                if size != data.len() {
                    return Err(PacketError::ObjectSizeIncorrect);
                }
                Ok(slice_to_vec(data.as_slice()))
            },
            _ => Err(PacketError::NotAnObject),
        }
    }

    /// The raw bytes of the items of an array packet without a header, `item_size` bytes each.
    pub fn to_array(&self, item_size: usize) -> (result: Result<Vec<Vec<u8>>, PacketError>)
        requires
            item_size > 0,
        ensures
            match result {
                Ok(items) => read_array_with_header(self@, 0, item_size as nat) matches Ok(
                    (_, expected),
                ) && byte_vecs_view(items@) == expected,
                Err(err) => read_array_with_header(self@, 0, item_size as nat) == Err::<
                    (Seq<u8>, Seq<Seq<u8>>),
                    PacketError,
                >(err),
            },
    {
        match self.to_array_with_header(0, item_size) {
            Ok((_, items)) => Ok(items),
            Err(err) => Err(err),
        }
    }

    /// The raw bytes of the header and of the items of an array packet.
    ///
    /// The payload must hold `header_size` header bytes followed by a whole number of
    /// items of `item_size` bytes each.
    pub fn to_array_with_header(&self, header_size: usize, item_size: usize) -> (result: Result<
        (Vec<u8>, Vec<Vec<u8>>),
        PacketError,
    >)
        requires
            item_size > 0,
        ensures
            match result {
                Ok((header, items)) => read_array_with_header(
                    self@,
                    header_size as nat,
                    item_size as nat,
                ) == Ok::<(Seq<u8>, Seq<Seq<u8>>), PacketError>((header@, byte_vecs_view(items@))),
                Err(err) => read_array_with_header(self@, header_size as nat, item_size as nat)
                    == Err::<(Seq<u8>, Seq<Seq<u8>>), PacketError>(err),
            },
    {
        match self {
            Packet::Array { id: _, data } => {
                if header_size > data.len() {
                    return Err(PacketError::ArraySizeIncorrect);
                }
                let array_size = data.len() - header_size;
                let array_length = array_size / item_size;

                proof {
                    vstd::arithmetic::div_mod::lemma_fundamental_div_mod(
                        array_size as int,
                        item_size as int,
                    );
                    vstd::arithmetic::mul::lemma_mul_inequality(
                        array_length as int,
                        array_size as int,
                        item_size as int,
                    );
                }
                assert(array_length * item_size <= array_size) by (nonlinear_arith)
                    requires
                        array_length == array_size / item_size,
                        item_size > 0,
                ;
                if item_size * array_length != array_size {
                    return Err(PacketError::ArraySizeIncorrect);
                }

                let bytes = data.as_slice();
                let header = slice_to_vec(slice_subrange(bytes, 0, header_size));
                let ghost payload = data@.subrange(header_size as int, data@.len() as int);
                let mut items: Vec<Vec<u8>> = Vec::new();
                let mut index: usize = 0;
                while index < array_length
                    invariant
                        index <= array_length,
                        item_size * array_length == array_size,
                        array_size == bytes@.len() - header_size,
                        array_size + header_size == data.len(),
                        header_size <= bytes@.len(),
                        bytes@ == data@,
                        payload == data@.subrange(header_size as int, data@.len() as int),
                        item_size > 0,
                        items@.len() == index,
                        forall|i: int|
                            0 <= i < index ==> #[trigger] items@[i]@ == payload.subrange(
                                i * item_size,
                                (i + 1) * item_size,
                            ),
                    decreases array_length - index,
                {
                    assert((index + 1) * item_size <= array_size) by (nonlinear_arith)
                        requires
                            index < array_length,
                            item_size > 0,
                            item_size * array_length == array_size,
                    ;
                    assert(index * item_size <= (index + 1) * item_size) by (nonlinear_arith);
                    assert(index * item_size + item_size == (index + 1) * item_size)
                        by (nonlinear_arith);
                    let start = header_size + index * item_size;
                    let end = start + item_size;
                    let item = slice_to_vec(slice_subrange(bytes, start, end));
                    assert(item@ =~= payload.subrange(
                        index * item_size,
                        (index + 1) * item_size,
                    ));
                    items.push(item);
                    index = index + 1;
                }
                proof {
                    assert(payload.len() / (item_size as nat) == array_length) by (nonlinear_arith)
                        requires
                            item_size * array_length == array_size,
                            payload.len() == array_size,
                            item_size > 0,
                    ;
                    assert((array_size as int) % (item_size as int) == 0) by (nonlinear_arith)
                        requires
                            item_size * array_length == array_size,
                            item_size > 0,
                    ;
                    assert(byte_vecs_view(items@) =~= array_items(payload, item_size as nat));
                }
                Ok((header, items))
            },
            _ => Err(PacketError::NotAnArray),
        }
    }
}


/// Decoding the bytes of any packet gives that packet back.
pub proof fn lemma_decode_encode(p: PacketView)
    ensures
        decode_packet(encode_packet(p)) == p,
{
    lemma_auto_spec_u64_to_from_le_bytes();
    lemma_auto_spec_u16_to_from_le_bytes();
    let s = encode_packet(p);
    match p {
        PacketView::Ping { timestamp } => {
            assert(s.subrange(1, 9) =~= spec_u64_to_le_bytes(timestamp));
        },
        PacketView::Pong { timestamp } => {
            assert(s.subrange(1, 9) =~= spec_u64_to_le_bytes(timestamp));
        },
        PacketView::Object { id, data } => {
            assert(s.subrange(1, 3) =~= spec_u16_to_le_bytes(id));
            assert(s.subrange(3, s.len() as int) =~= data);
        },
        PacketView::Array { id, data } => {
            assert(s.subrange(1, 3) =~= spec_u16_to_le_bytes(id));
            assert(s.subrange(3, s.len() as int) =~= data);
        },
        PacketView::Unknown => {},
    }
}

/// Bytes that decode to a packet are exactly the encoding of that packet.
pub proof fn lemma_encode_decode(s: Seq<u8>)
    requires
        !(decode_packet(s) is Unknown),
    ensures
        encode_packet(decode_packet(s)) == s,
{
    lemma_auto_spec_u64_to_from_le_bytes();
    lemma_auto_spec_u16_to_from_le_bytes();
    if s[0] == PING_CID || s[0] == PONG_CID {
        assert(spec_u64_to_le_bytes(spec_u64_from_le_bytes(s.subrange(1, 9))) == s.subrange(1, 9));
        assert(encode_packet(decode_packet(s)) =~= s);
    } else {
        assert(spec_u16_to_le_bytes(spec_u16_from_le_bytes(s.subrange(1, 3))) == s.subrange(1, 3));
        assert(encode_packet(decode_packet(s)) =~= s);
    }
}

/// An object packet built from some bytes reads back those bytes, at their own size.
pub proof fn lemma_object_roundtrip(id: u16, object: Seq<u8>)
    ensures
        read_object(PacketView::Object { id, data: object }, object.len()) == Ok::<
            Seq<u8>,
            PacketError,
        >(object),
{
}

/// Reading an object gives the whole payload of an object packet, and only when the payload
/// has exactly the size asked for: a payload of any other size, longer or shorter, is
/// refused as of the wrong size, and a packet that is no object is refused as such.
pub proof fn lemma_object_read_is_exact(p: PacketView, size: nat)
    ensures
        read_object(p, size) matches Ok(bytes) ==> (bytes.len() == size && (p matches PacketView::Object {
            data,
            ..
        } && bytes == data)),
        p matches PacketView::Object { data, .. } && data.len() != size ==> read_object(p, size)
            == Err::<Seq<u8>, PacketError>(PacketError::ObjectSizeIncorrect),
        !(p is Object) ==> read_object(p, size) == Err::<Seq<u8>, PacketError>(PacketError::NotAnObject),
{
}

/// An array packet built from a header and whole items reads back the header and the items.
pub proof fn lemma_array_roundtrip(id: u16, header: Seq<u8>, array: Seq<u8>, item_size: nat)
    requires
        item_size > 0,
        array.len() % item_size == 0,
    ensures
        read_array_with_header(
            PacketView::Array { id, data: header + array },
            header.len(),
            item_size,
        ) == Ok::<(Seq<u8>, Seq<Seq<u8>>), PacketError>((header, array_items(array, item_size))),
{
    let data = header + array;
    assert(data.subrange(0, header.len() as int) =~= header);
    assert(data.subrange(header.len() as int, data.len() as int) =~= array);
}

/// Reading an array packet with items that do not fill its payload evenly is refused.
pub proof fn lemma_array_uneven_refused(id: u16, header: Seq<u8>, array: Seq<u8>, item_size: nat)
    requires
        item_size > 0,
        array.len() % item_size != 0,
    ensures
        read_array_with_header(
            PacketView::Array { id, data: header + array },
            header.len(),
            item_size,
        ) == Err::<(Seq<u8>, Seq<Seq<u8>>), PacketError>(PacketError::ArraySizeIncorrect),
{
}

} // verus!
