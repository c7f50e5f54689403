//! Decoding of the fixed 37-byte state packet into per-port controller
//! snapshots.
//!
//! Byte 0 of a packet is unused padding; bytes 1..37 are four consecutive
//! 9-byte sub-packets, one per controller port, in fixed port order.

use vstd::prelude::*;
use vstd::slice::slice_index_get;
use vstd::slice::slice_subrange;

verus! {

/// The classification of a GameCube controller.
#[derive(Clone, Copy, Debug, PartialEq, Eq, Structural)]
pub enum ControllerKind {
    /// The controller is wired and likely supports rumble.
    Wired,
    /// The controller is wireless and likely does not support rumble.
    Wireless,
    /// The controller is of an unknown type.
    Unknown,
}

/// The state of a GameCube controller at a given moment in time.
///
/// Note that the hardware will likely never report either extreme of the
/// spectrum for any of the analog inputs, and this library does not do any
/// analog dead zone correction.
#[derive(Clone, Copy, Debug, PartialEq, Eq, Structural)]
pub struct Controller {
    /// The classification of this controller.
    pub kind: ControllerKind,
    /// "A" button status.
    pub a: bool,
    /// "B" button status.
    pub b: bool,
    /// "X" button status.
    pub x: bool,
    /// "Y" button status.
    pub y: bool,
    /// Directional pad up button status.
    pub up: bool,
    /// Directional pad down button status.
    pub down: bool,
    /// Directional pad left button status.
    pub left: bool,
    /// Directional pad right button status.
    pub right: bool,
    /// Digital "L" button (full depression) status.
    pub l: bool,
    /// Digital "R" button (full depression) status.
    pub r: bool,
    /// The level of depression of the analog "L" button, `0` being completely
    /// up, `255` being completely pressed in.
    pub l_analog: u8,
    /// The level of depression of the analog "R" button, `0` being completely
    /// up, `255` being completely pressed in.
    pub r_analog: u8,
    /// "Z" button status.
    pub z: bool,
    /// Start button status.
    pub start: bool,
    /// The x-axis position of the primary analog joystick.
    pub stick_x: u8,
    /// The y-axis position of the primary analog joystick.
    pub stick_y: u8,
    /// The x-axis position of the secondary ("C") analog joystick.
    pub c_stick_x: u8,
    /// The y-axis position of the secondary ("C") analog joystick.
    pub c_stick_y: u8,
}

/// The connection-kind code of a sub-packet: the upper nibble of its first
/// byte.
pub open spec fn kind_code(s: Seq<u8>) -> u8
    recommends
        s.len() >= 1,
{
    s[0] >> 4u8
}

/// The connection kind that a nonzero kind code decodes to.
pub open spec fn kind_of_code(code: u8) -> ControllerKind {
    if code == 1 {
        ControllerKind::Wired
    } else if code == 2 {
        ControllerKind::Wireless
    } else {
        ControllerKind::Unknown
    }
}

/// The snapshot fields extracted from a 9-byte sub-packet, given the already
/// decoded connection kind: byte 1 and byte 2 are LSB-first button bitmasks,
/// bytes 3..7 the stick axes, and bytes 7..9 the analog triggers, all taken
/// verbatim.
pub open spec fn port_fields(s: Seq<u8>, kind: ControllerKind) -> Controller
    recommends
        s.len() >= 9,
{
    Controller {
        kind: kind,
        a: s[1] & 0x01 != 0,
        b: s[1] & 0x02 != 0,
        x: s[1] & 0x04 != 0,
        y: s[1] & 0x08 != 0,
        left: s[1] & 0x10 != 0,
        right: s[1] & 0x20 != 0,
        down: s[1] & 0x40 != 0,
        up: s[1] & 0x80 != 0,
        start: s[2] & 0x01 != 0,
        z: s[2] & 0x02 != 0,
        r: s[2] & 0x04 != 0,
        l: s[2] & 0x08 != 0,
        stick_x: s[3],
        stick_y: s[4],
        c_stick_x: s[5],
        c_stick_y: s[6],
        l_analog: s[7],
        r_analog: s[8],
    }
}

/// Full decode of one 9-byte sub-packet: kind code `0` means the port is
/// absent and every other byte is ignored; any other code yields a snapshot.
pub open spec fn decoded_port(s: Seq<u8>) -> Option<Controller>
    recommends
        s.len() >= 9,
{
    if kind_code(s) == 0 {
        None
    } else {
        Some(port_fields(s, kind_of_code(kind_code(s))))
    }
}

/// Decode of a full 37-byte packet: byte 0 is padding, and each port's
/// snapshot comes from its own 9-byte region, in fixed port order.
pub open spec fn decoded_packet(s: Seq<u8>) -> Seq<Option<Controller>>
    recommends
        s.len() >= 37,
{
    seq![
        decoded_port(s.subrange(1, 10)),
        decoded_port(s.subrange(10, 19)),
        decoded_port(s.subrange(19, 28)),
        decoded_port(s.subrange(28, 37)),
    ]
}

impl Controller {
    /// Decodes one 9-byte sub-packet into the state of one controller port,
    /// or `None` if no controller is connected on that port.
    pub fn parse(data: &[u8]) -> (r: Option<Controller>)
        requires
            data@.len() >= 9,
        ensures
            r == decoded_port(data@),
    {
        let b0: u8 = *slice_index_get(data, 0);
        let code: u8 = b0 >> 4u8;
        if code == 0 {
            return None;
        }
        let kind: ControllerKind = if code == 1 {
            ControllerKind::Wired
        } else if code == 2 {
            ControllerKind::Wireless
        } else {
            ControllerKind::Unknown
        };
        let b1: u8 = *slice_index_get(data, 1);
        let b2: u8 = *slice_index_get(data, 2);
        Some(Controller {
            kind: kind,
            a: b1 & 0x01 != 0,
            b: b1 & 0x02 != 0,
            x: b1 & 0x04 != 0,
            y: b1 & 0x08 != 0,
            left: b1 & 0x10 != 0,
            right: b1 & 0x20 != 0,
            down: b1 & 0x40 != 0,
            up: b1 & 0x80 != 0,
            start: b2 & 0x01 != 0,
            z: b2 & 0x02 != 0,
            r: b2 & 0x04 != 0,
            l: b2 & 0x08 != 0,
            stick_x: *slice_index_get(data, 3),
            stick_y: *slice_index_get(data, 4),
            c_stick_x: *slice_index_get(data, 5),
            c_stick_y: *slice_index_get(data, 6),
            l_analog: *slice_index_get(data, 7),
            r_analog: *slice_index_get(data, 8),
        })
    }

    /// Decodes a full 37-byte packet into the states of the four controller
    /// ports.
    pub fn parse_packet(data: &[u8]) -> (r: [Option<Controller>; 4])
        requires
            data@.len() >= 37,
        ensures
            r@ == decoded_packet(data@),
    {
        let r: [Option<Controller>; 4] = [
            Controller::parse(slice_subrange(data, 1, 10)),
            Controller::parse(slice_subrange(data, 10, 19)),
            Controller::parse(slice_subrange(data, 19, 28)),
            Controller::parse(slice_subrange(data, 28, 37)),
        ];
        proof {
            assert(r@ =~= decoded_packet(data@));
        }
        r
    }
}

/// The mask contributed to a button bitmask byte by one pressed button.
pub open spec fn bit_if(pressed: bool, mask: u8) -> u8 {
    if pressed {
        mask
    } else {
        0
    }
}

/// The kind code a snapshot's connection kind is written back as.
pub open spec fn code_of_kind(kind: ControllerKind) -> u8 {
    match kind {
        ControllerKind::Wired => 1,
        ControllerKind::Wireless => 2,
        ControllerKind::Unknown => 3,
    }
}

/// The first button bitmask byte of a snapshot, LSB first: A, B, X, Y,
/// D-pad left, right, down, up.
pub open spec fn buttons_low(c: Controller) -> u8 {
    bit_if(c.a, 0x01) | bit_if(c.b, 0x02) | bit_if(c.x, 0x04) | bit_if(c.y, 0x08) | bit_if(
        c.left,
        0x10,
    ) | bit_if(c.right, 0x20) | bit_if(c.down, 0x40) | bit_if(c.up, 0x80)
}

/// The second button bitmask byte of a snapshot, LSB first: Start, Z,
/// digital R, digital L.
pub open spec fn buttons_high(c: Controller) -> u8 {
    bit_if(c.start, 0x01) | bit_if(c.z, 0x02) | bit_if(c.r, 0x04) | bit_if(c.l, 0x08)
}

/// The canonical 9-byte sub-packet encoding a snapshot: the kind code in
/// the upper nibble of byte 0, the two button bitmasks, then the stick and
/// trigger bytes verbatim.
pub open spec fn encoded_port(c: Controller) -> Seq<u8> {
    seq![
        code_of_kind(c.kind) << 4u8,
        buttons_low(c),
        buttons_high(c),
        c.stick_x,
        c.stick_y,
        c.c_stick_x,
        c.c_stick_y,
        c.l_analog,
        c.r_analog,
    ]
}

/// Law: a sub-packet whose kind code is zero decodes to an absent port,
/// regardless of the remaining eight bytes.
pub proof fn lemma_absent_port(s: Seq<u8>)
    requires
        s.len() >= 9,
        kind_code(s) == 0,
    ensures
        decoded_port(s) is None,
{
}

/// Law: a sub-packet whose kind code is `1` or `2` decodes to a snapshot
/// tagged Wired or Wireless respectively, with every button and axis field
/// following the extraction rules.
pub proof fn lemma_connected_port(s: Seq<u8>)
    requires
        s.len() >= 9,
        kind_code(s) == 1 || kind_code(s) == 2,
    ensures
        kind_code(s) == 1 ==> decoded_port(s) == Some(port_fields(s, ControllerKind::Wired)),
        kind_code(s) == 2 ==> decoded_port(s) == Some(port_fields(s, ControllerKind::Wireless)),
{
}

/// Law: a sub-packet whose kind code is neither 0, 1 nor 2 decodes to a
/// snapshot of unknown kind, with the same button and axis extraction rules
/// applied as for any connected port.
pub proof fn lemma_unknown_port(s: Seq<u8>)
    requires
        s.len() >= 9,
        kind_code(s) != 0,
        kind_code(s) != 1,
        kind_code(s) != 2,
    ensures
        decoded_port(s) == Some(port_fields(s, ControllerKind::Unknown)),
{
}

proof fn lemma_buttons_low_bits(a: bool, b: bool, x: bool, y: bool, lt: bool, rt: bool, dn: bool, up: bool)
    by (bit_vector)
    ensures
        ({
            let v = bit_if(a, 0x01) | bit_if(b, 0x02) | bit_if(x, 0x04) | bit_if(y, 0x08) | bit_if(
                lt,
                0x10,
            ) | bit_if(rt, 0x20) | bit_if(dn, 0x40) | bit_if(up, 0x80);
            (v & 0x01 != 0) == a && (v & 0x02 != 0) == b && (v & 0x04 != 0) == x && (v & 0x08 != 0)
                == y && (v & 0x10 != 0) == lt && (v & 0x20 != 0) == rt && (v & 0x40 != 0) == dn && (
            v & 0x80 != 0) == up
        }),
{
}

proof fn lemma_buttons_high_bits(st: bool, z: bool, r: bool, l: bool)
    by (bit_vector)
    ensures
        ({
            let v = bit_if(st, 0x01) | bit_if(z, 0x02) | bit_if(r, 0x04) | bit_if(l, 0x08);
            (v & 0x01 != 0) == st && (v & 0x02 != 0) == z && (v & 0x04 != 0) == r && (v & 0x08 != 0)
                == l
        }),
{
}

/// Law (round trip): decoding the canonical encoding of any snapshot
/// reproduces exactly that snapshot, whatever its kind and whatever button
/// and axis combination it holds.
pub proof fn lemma_encode_decode_round_trip(c: Controller)
    ensures
        decoded_port(encoded_port(c)) == Some(c),
{
    let s = encoded_port(c);
    assert((1u8 << 4u8) >> 4u8 == 1u8) by (bit_vector);
    assert((2u8 << 4u8) >> 4u8 == 2u8) by (bit_vector);
    assert((3u8 << 4u8) >> 4u8 == 3u8) by (bit_vector);
    assert(kind_code(s) == code_of_kind(c.kind));
    assert(kind_of_code(code_of_kind(c.kind)) == c.kind);
    lemma_buttons_low_bits(c.a, c.b, c.x, c.y, c.left, c.right, c.down, c.up);
    lemma_buttons_high_bits(c.start, c.z, c.r, c.l);
    assert(port_fields(s, c.kind) == c);
}

/// Law: a full packet always decodes to exactly four port slots, in fixed
/// port order, each taken from its own 9-byte region of the buffer.
pub proof fn lemma_packet_shape(s: Seq<u8>)
    requires
        s.len() >= 37,
    ensures
        decoded_packet(s).len() == 4,
        forall|p: int|
            0 <= p < 4 ==> decoded_packet(s)[p] == decoded_port(
                s.subrange(1 + 9 * p, 10 + 9 * p),
            ),
{
    assert forall|p: int| 0 <= p < 4 implies decoded_packet(s)[p] == decoded_port(
        s.subrange(1 + 9 * p, 10 + 9 * p),
    ) by {
        if p == 0 {
            assert(decoded_packet(s)[0] == decoded_port(s.subrange(1, 10)));
        } else if p == 1 {
            assert(decoded_packet(s)[1] == decoded_port(s.subrange(10, 19)));
        } else if p == 2 {
            assert(decoded_packet(s)[2] == decoded_port(s.subrange(19, 28)));
        } else {
            assert(decoded_packet(s)[3] == decoded_port(s.subrange(28, 37)));
        }
    }
}

/// Law: the four ports of a packet decode independently and in fixed port
/// order: two 37-byte buffers that agree on one port's own 9-byte region
/// decode that port to the same result, whatever the padding byte and the
/// other ports' bytes hold.
pub proof fn lemma_port_independence(s1: Seq<u8>, s2: Seq<u8>, port: int)
    requires
        s1.len() >= 37,
        s2.len() >= 37,
        0 <= port < 4,
        forall|i: int| 1 + 9 * port <= i < 10 + 9 * port ==> s1[i] == s2[i],
    ensures
        decoded_packet(s1)[port] == decoded_packet(s2)[port],
{
    if port == 0 {
        assert(s1.subrange(1, 10) =~= s2.subrange(1, 10));
    } else if port == 1 {
        assert(s1.subrange(10, 19) =~= s2.subrange(10, 19));
    } else if port == 2 {
        assert(s1.subrange(19, 28) =~= s2.subrange(19, 28));
    } else {
        assert(s1.subrange(28, 37) =~= s2.subrange(28, 37));
    }
}

} // verus!
