//! Frame codec for the inverter's binary TCP protocol.
//!
//! A request frame is a 4-byte magic header, the big-endian 16-bit request
//! sequence, the big-endian CRC16/MODBUS checksum of the serialized request
//! payload, the big-endian total length (payload length + 10), then the
//! payload itself.  The one supported request message has no fields, so its
//! serialized payload is empty.
//!
//! A response frame mirrors that 10-byte preamble; the rest is a
//! tag-length-value message in base-128 varint encoding:
//! each field starts with a varint tag whose low three bits are the wire
//! type (0 varint, 1 eight bytes, 2 length-delimited, 5 four bytes) and
//! whose remaining bits are the field number.  The telemetry message holds
//! the serial (field 1, length-delimited ASCII bytes), the aggregate power
//! and daily yield (fields 2 and 3, varint), and the repeated embedded port
//! and inverter readings (fields 4 and 5, length-delimited); unknown fields
//! are skipped.  A port reading holds its six registers as varint fields 1
//! to 6, an inverter reading its five as fields 1 to 5; register values
//! must fit 32 bits.  Truncated or malformed input decodes to an error,
//! and a variable number of port or inverter entries is ordinary data.

use vstd::prelude::*;

use crate::telemetry::HMSStateResponse;
use crate::telemetry::InverterModel;
use crate::telemetry::InverterState;
use crate::telemetry::PortModel;
use crate::telemetry::PortState;
use crate::telemetry::ResponseModel;
use crate::text::push_char;

verus! {

// ------------------------------------------------------------------
// checksum
// ------------------------------------------------------------------
/// The CRC16/MODBUS checksum of a byte sequence, as the crc16 crate
/// computes it.
pub uninterp spec fn crc16_modbus_of(data: Seq<u8>) -> u16;

/// Relies on crc16's `State::<MODBUS>::calculate`: the checksum is a
/// function of the bytes alone, and over no bytes it equals the MODBUS
/// initial value 0xFFFF.
#[verifier::external_body]
pub(crate) fn crc16_modbus(data: &[u8]) -> (r: u16)
    ensures
        r == crc16_modbus_of(data@),
        data@.len() == 0 ==> r == 0xFFFFu16,
{
    crc16::State::<crc16::MODBUS>::calculate(data)
}

// ------------------------------------------------------------------
// request encoding
// ------------------------------------------------------------------
/// The wire encoding of the poll request message: it has no fields, so it
/// serializes to no bytes at all.
pub fn request_payload() -> (r: Vec<u8>)
    ensures
        r@ == Seq::<u8>::empty(),
{
    Vec::new()
}

/// The request frame for a given sequence number: magic header, big-endian
/// sequence, big-endian CRC16/MODBUS of the (empty) payload, big-endian
/// total length.
pub open spec fn spec_encode(sequence: u16) -> Seq<u8> {
    seq![
        0x48u8,
        0x4du8,
        0xa3u8,
        0x03u8,
        (sequence / 0x100) as u8,
        (sequence % 0x100) as u8,
        0xffu8,
        0xffu8,
        0x00u8,
        0x0au8,
    ]
}

/// Builds the request frame: always `10 + payload length` bytes, and the
/// payload of the one supported request is empty.
pub fn encode(sequence: u16) -> (r: Vec<u8>)
    ensures
        r@ == spec_encode(sequence),
        r@.len() == 10,
{
    let payload = request_payload();
    let crc = crc16_modbus(payload.as_slice());
    let total_len: u16 = (payload.len() as u16) + 10;
    let mut message: Vec<u8> = Vec::new();
    message.push(0x48u8);
    message.push(0x4du8);
    message.push(0xa3u8);
    message.push(0x03u8);
    message.push((sequence / 0x100) as u8);
    message.push((sequence % 0x100) as u8);
    message.push((crc / 0x100) as u8);
    message.push((crc % 0x100) as u8);
    message.push((total_len / 0x100) as u8);
    message.push((total_len % 0x100) as u8);
    let mut i: usize = 0;
    while i < payload.len()
        invariant
            message@ == spec_encode(sequence) + payload@.take(i as int),
            i <= payload@.len(),
        decreases payload@.len() - i,
    {
        message.push(payload[i]);
        proof {
            assert(payload@.take(i + 1) =~= payload@.take(i as int).push(payload@[i as int]));
        }
        i = i + 1;
    }
    proof {
        assert(message@ =~= spec_encode(sequence));
    }
    message
}

// ------------------------------------------------------------------
// varints
// ------------------------------------------------------------------
/// The base-128 varint at the front of a byte sequence: its value and the
/// number of bytes it occupies, or nothing when the sequence ends inside
/// the varint or the varint runs past ten bytes.
pub open spec fn spec_varint(s: Seq<u8>) -> Option<(nat, int)>
    decreases s.len(),
{
    if s.len() == 0 {
        None
    } else if s[0] < 128 {
        Some((s[0] as nat, 1int))
    } else {
        match spec_varint(s.skip(1)) {
            None => None,
            Some((v, n)) => if n < 10 {
                Some(((s[0] - 128 + 128 * v) as nat, n + 1))
            } else {
                None
            },
        }
    }
}

pub open spec fn pow128(n: nat) -> nat
    decreases n,
{
    if n == 0 {
        1
    } else {
        128 * pow128((n - 1) as nat)
    }
}

/// A decoded varint occupies one to ten bytes of the sequence and its value
/// stays below 128 to the power of its byte count.
pub proof fn lemma_varint_bounds(s: Seq<u8>)
    ensures
        match spec_varint(s) {
            None => true,
            Some((v, n)) => 1 <= n <= 10 && n <= s.len() && v < pow128(n as nat),
        },
    decreases s.len(),
{
    assert(pow128(1) == 128) by {
        reveal_with_fuel(pow128, 2);
    }
    if s.len() > 0 && s[0] >= 128 {
        lemma_varint_bounds(s.skip(1));
        match spec_varint(s.skip(1)) {
            None => {},
            Some((v, n)) => {
                if n < 10 {
                    assert(pow128((n + 1) as nat) == 128 * pow128(n as nat));
                    assert(s[0] - 128 + 128 * v < 128 * pow128(n as nat));
                }
            },
        }
    }
}

/// The value of any varint fits in 128 bits with room to spare.
pub proof fn lemma_varint_value_fits(s: Seq<u8>)
    ensures
        match spec_varint(s) {
            None => true,
            Some((v, n)) => v < 0x40_0000_0000_0000_0000,
        },
{
    lemma_varint_bounds(s);
    if spec_varint(s) is Some {
        let (v, n) = spec_varint(s)->Some_0;
        lemma_pow128_monotone(n as nat, 10);
        assert(pow128(10) == 0x40_0000_0000_0000_0000) by {
            reveal_with_fuel(pow128, 11);
        }
    }
}

proof fn lemma_pow128_monotone(a: nat, b: nat)
    requires
        a <= b,
    ensures
        pow128(a) <= pow128(b),
    decreases b,
{
    if a < b {
        lemma_pow128_monotone(a, (b - 1) as nat);
        assert(pow128(b) == 128 * pow128((b - 1) as nat));
    }
}

/// Reads the varint at `pos` inside the window `[pos, end)` of the buffer.
fn parse_varint(buf: &[u8], pos: usize, end: usize) -> (r: Option<(u128, usize)>)
    requires
        pos <= end <= buf@.len(),
    ensures
        match r {
            None => spec_varint(buf@.subrange(pos as int, end as int)) is None,
            Some((v, n)) => spec_varint(buf@.subrange(pos as int, end as int)) == Some(
                (v as nat, n as int),
            ) && pos + n <= end && 1 <= n <= 10,
        },
    decreases end - pos,
{
    let ghost window = buf@.subrange(pos as int, end as int);
    if pos >= end {
        return None;
    }
    let b = buf[pos];
    proof {
        assert(window[0] == b);
    }
    if b < 128 {
        Some((b as u128, 1))
    } else {
        proof {
            assert(window.skip(1) =~= buf@.subrange(pos + 1, end as int));
        }
        match parse_varint(buf, pos + 1, end) {
            None => None,
            Some((v, n)) => {
                if n < 10 {
                    proof {
                        lemma_varint_value_fits(buf@.subrange(pos + 1, end as int));
                    }
                    let value: u128 = (b - 128) as u128 + 128 * v;
                    Some((value, n + 1))
                } else {
                    None
                }
            },
        }
    }
}

// ------------------------------------------------------------------
// field skipping
// ------------------------------------------------------------------
/// Total bytes that a field of the given wire type occupies in `s`, tag
/// included, when the field is skipped as unknown; `tlen` is the tag's
/// length.  Nothing when the field runs past the end of `s` or the wire
/// type does not exist.
pub open spec fn spec_field_skip(s: Seq<u8>, wire: nat, tlen: int) -> Option<int> {
    if wire == 0 {
        match spec_varint(s.skip(tlen)) {
            None => None,
            Some((v, n)) => Some(tlen + n),
        }
    } else if wire == 1 {
        if tlen + 8 <= s.len() {
            Some(tlen + 8)
        } else {
            None
        }
    } else if wire == 2 {
        match spec_varint(s.skip(tlen)) {
            None => None,
            Some((l, n)) => if tlen + n + l <= s.len() {
                Some(tlen + n + l)
            } else {
                None
            },
        }
    } else if wire == 5 {
        if tlen + 4 <= s.len() {
            Some(tlen + 4)
        } else {
            None
        }
    } else {
        None
    }
}

/// Skips an unknown field inside `[pos, end)`; `pos` points at the first
/// byte after the tag.  Returns the position after the field.
fn skip_field(buf: &[u8], tag_start: usize, pos: usize, end: usize, wire: u128) -> (r: Option<
    usize,
>)
    requires
        tag_start <= pos <= end <= buf@.len(),
    ensures
        match r {
            None => spec_field_skip(
                buf@.subrange(tag_start as int, end as int),
                wire as nat,
                pos - tag_start,
            ) is None,
            Some(q) => spec_field_skip(
                buf@.subrange(tag_start as int, end as int),
                wire as nat,
                pos - tag_start,
            ) == Some(q - tag_start) && pos <= q <= end,
        },
{
    let ghost s = buf@.subrange(tag_start as int, end as int);
    let ghost tlen = pos - tag_start;
    proof {
        assert(s.skip(tlen) =~= buf@.subrange(pos as int, end as int));
    }
    if wire == 0 {
        match parse_varint(buf, pos, end) {
            None => None,
            Some((_v, n)) => Some(pos + n),
        }
    } else if wire == 1 {
        if end - pos >= 8 {
            Some(pos + 8)
        } else {
            None
        }
    } else if wire == 2 {
        match parse_varint(buf, pos, end) {
            None => None,
            Some((l, n)) => {
                if l <= (end - (pos + n)) as u128 {
                    Some(pos + n + (l as usize))
                } else {
                    None
                }
            },
        }
    } else if wire == 5 {
        if end - pos >= 4 {
            Some(pos + 4)
        } else {
            None
        }
    } else {
        None
    }
}

// ------------------------------------------------------------------
// port readings
// ------------------------------------------------------------------
/// A port reading before any field has been seen: every register is zero.
pub open spec fn empty_port() -> PortModel {
    PortModel {
        pv_port: 0,
        pv_vol: 0,
        pv_cur: 0,
        pv_power: 0,
        pv_energy_total: 0,
        pv_daily_yield: 0,
    }
}

/// One decoded register stored into a port reading by field number.
pub open spec fn port_with(acc: PortModel, field: nat, value: u32) -> PortModel {
    if field == 1 {
        PortModel { pv_port: value, ..acc }
    } else if field == 2 {
        PortModel { pv_vol: value, ..acc }
    } else if field == 3 {
        PortModel { pv_cur: value, ..acc }
    } else if field == 4 {
        PortModel { pv_power: value, ..acc }
    } else if field == 5 {
        PortModel { pv_energy_total: value, ..acc }
    } else {
        PortModel { pv_daily_yield: value, ..acc }
    }
}

/// Parses an embedded port-reading message: varint registers at fields 1 to
/// 6, values limited to 32 bits, unknown fields skipped, later values
/// overriding earlier ones.
pub open spec fn spec_parse_port_msg(s: Seq<u8>, acc: PortModel) -> Option<PortModel>
    decreases s.len(),
{
    if s.len() == 0 {
        Some(acc)
    } else {
        match spec_varint(s) {
            None => None,
            Some((tag, tlen)) => {
                let field = tag / 8;
                let wire = tag % 8;
                if wire == 0 && 1 <= field <= 6 {
                    match spec_varint(s.skip(tlen)) {
                        None => None,
                        Some((v, vlen)) => if v <= 0xFFFF_FFFF {
                            let c = tlen + vlen;
                            // a parsed field always lies inside `s`; the
                            // guard keeps the recursion visibly decreasing
                            if 1 <= c <= s.len() {
                                spec_parse_port_msg(s.skip(c), port_with(acc, field, v as u32))
                            } else {
                                None
                            }
                        } else {
                            None
                        },
                    }
                } else {
                    match spec_field_skip(s, wire, tlen) {
                        None => None,
                        Some(c) => if 1 <= c <= s.len() {
                            spec_parse_port_msg(s.skip(c), acc)
                        } else {
                            None
                        },
                    }
                }
            },
        }
    }
}

/// Decodes the embedded port-reading message in `[start, end)`.
fn parse_port_msg(buf: &[u8], start: usize, end: usize) -> (r: Option<PortState>)
    requires
        start <= end <= buf@.len(),
    ensures
        match r {
            Some(p) => spec_parse_port_msg(buf@.subrange(start as int, end as int), empty_port())
                == Some(p.model()),
            None => spec_parse_port_msg(buf@.subrange(start as int, end as int), empty_port())
                is None,
        },
{
    let ghost seg = buf@.subrange(start as int, end as int);
    let mut p = PortState {
        pv_port: 0,
        pv_vol: 0,
        pv_cur: 0,
        pv_power: 0,
        pv_energy_total: 0,
        pv_daily_yield: 0,
    };
    let mut pos: usize = start;
    proof {
        assert(p.model() == empty_port());
    }
    while pos < end
        invariant
            start <= pos <= end <= buf@.len(),
            seg == buf@.subrange(start as int, end as int),
            spec_parse_port_msg(seg, empty_port()) == spec_parse_port_msg(
                buf@.subrange(pos as int, end as int),
                p.model(),
            ),
        decreases end - pos,
    {
        let ghost s = buf@.subrange(pos as int, end as int);
        let tag_pos = pos;
        let (tag, tlen) = match parse_varint(buf, pos, end) {
            None => {
                return None;
            },
            Some(t) => t,
        };
        let after_tag = pos + tlen;
        proof {
            assert(s.skip(tlen as int) =~= buf@.subrange(after_tag as int, end as int));
        }
        let field = tag / 8;
        let wire = tag % 8;
        if wire == 0 && 1 <= field && field <= 6 {
            let (v, vlen) = match parse_varint(buf, after_tag, end) {
                None => {
                    return None;
                },
                Some(t) => t,
            };
            if v > 0xFFFF_FFFF {
                return None;
            }
            let value = v as u32;
            let ghost before = p.model();
            if field == 1 {
                p.pv_port = value;
            } else if field == 2 {
                p.pv_vol = value;
            } else if field == 3 {
                p.pv_cur = value;
            } else if field == 4 {
                p.pv_power = value;
            } else if field == 5 {
                p.pv_energy_total = value;
            } else {
                p.pv_daily_yield = value;
            }
            pos = after_tag + vlen;
            proof {
                assert(s.skip((tlen + vlen) as int) =~= buf@.subrange(pos as int, end as int));
                assert(p.model() == port_with(before, (tag / 8) as nat, value));
            }
        } else {
            pos = match skip_field(buf, tag_pos, after_tag, end, wire) {
                None => {
                    return None;
                },
                Some(q) => q,
            };
            proof {
                assert(s.skip(pos - tag_pos) =~= buf@.subrange(pos as int, end as int));
            }
        }
    }
    proof {
        assert(buf@.subrange(pos as int, end as int).len() == 0);
    }
    Some(p)
}

// ------------------------------------------------------------------
// inverter readings
// ------------------------------------------------------------------
/// An inverter reading before any field has been seen.
pub open spec fn empty_inverter() -> InverterModel {
    InverterModel { port_id: 0, grid_voltage: 0, grid_freq: 0, pv_current_power: 0, temperature: 0 }
}

/// One decoded register stored into an inverter reading by field number.
pub open spec fn inverter_with(acc: InverterModel, field: nat, value: u32) -> InverterModel {
    if field == 1 {
        InverterModel { port_id: value, ..acc }
    } else if field == 2 {
        InverterModel { grid_voltage: value, ..acc }
    } else if field == 3 {
        InverterModel { grid_freq: value, ..acc }
    } else if field == 4 {
        InverterModel { pv_current_power: value, ..acc }
    } else {
        InverterModel { temperature: value, ..acc }
    }
}

/// Parses an embedded inverter-reading message: varint registers at fields
/// 1 to 5, values limited to 32 bits, unknown fields skipped.
pub open spec fn spec_parse_inverter_msg(s: Seq<u8>, acc: InverterModel) -> Option<InverterModel>
    decreases s.len(),
{
    if s.len() == 0 {
        Some(acc)
    } else {
        match spec_varint(s) {
            None => None,
            Some((tag, tlen)) => {
                let field = tag / 8;
                let wire = tag % 8;
                if wire == 0 && 1 <= field <= 5 {
                    match spec_varint(s.skip(tlen)) {
                        None => None,
                        Some((v, vlen)) => if v <= 0xFFFF_FFFF {
                            let c = tlen + vlen;
                            if 1 <= c <= s.len() {
                                spec_parse_inverter_msg(s.skip(c), inverter_with(acc, field, v as u32))
                            } else {
                                None
                            }
                        } else {
                            None
                        },
                    }
                } else {
                    match spec_field_skip(s, wire, tlen) {
                        None => None,
                        Some(c) => if 1 <= c <= s.len() {
                            spec_parse_inverter_msg(s.skip(c), acc)
                        } else {
                            None
                        },
                    }
                }
            },
        }
    }
}

/// Decodes the embedded inverter-reading message in `[start, end)`.
fn parse_inverter_msg(buf: &[u8], start: usize, end: usize) -> (r: Option<InverterState>)
    requires
        start <= end <= buf@.len(),
    ensures
        match r {
            Some(v) => spec_parse_inverter_msg(
                buf@.subrange(start as int, end as int),
                empty_inverter(),
            ) == Some(v.model()),
            None => spec_parse_inverter_msg(
                buf@.subrange(start as int, end as int),
                empty_inverter(),
            ) is None,
        },
{
    let ghost seg = buf@.subrange(start as int, end as int);
    let mut iv = InverterState {
        port_id: 0,
        grid_voltage: 0,
        grid_freq: 0,
        pv_current_power: 0,
        temperature: 0,
    };
    let mut pos: usize = start;
    proof {
        assert(iv.model() == empty_inverter());
    }
    while pos < end
        invariant
            start <= pos <= end <= buf@.len(),
            seg == buf@.subrange(start as int, end as int),
            spec_parse_inverter_msg(seg, empty_inverter()) == spec_parse_inverter_msg(
                buf@.subrange(pos as int, end as int),
                iv.model(),
            ),
        decreases end - pos,
    {
        let ghost s = buf@.subrange(pos as int, end as int);
        let tag_pos = pos;
        let (tag, tlen) = match parse_varint(buf, pos, end) {
            None => {
                return None;
            },
            Some(t) => t,
        };
        let after_tag = pos + tlen;
        proof {
            assert(s.skip(tlen as int) =~= buf@.subrange(after_tag as int, end as int));
        }
        let field = tag / 8;
        let wire = tag % 8;
        if wire == 0 && 1 <= field && field <= 5 {
            let (v, vlen) = match parse_varint(buf, after_tag, end) {
                None => {
                    return None;
                },
                Some(t) => t,
            };
            if v > 0xFFFF_FFFF {
                return None;
            }
            let value = v as u32;
            let ghost before = iv.model();
            if field == 1 {
                iv.port_id = value;
            } else if field == 2 {
                iv.grid_voltage = value;
            } else if field == 3 {
                iv.grid_freq = value;
            } else if field == 4 {
                iv.pv_current_power = value;
            } else {
                iv.temperature = value;
            }
            pos = after_tag + vlen;
            proof {
                assert(s.skip((tlen + vlen) as int) =~= buf@.subrange(pos as int, end as int));
                assert(iv.model() == inverter_with(before, (tag / 8) as nat, value));
            }
        } else {
            pos = match skip_field(buf, tag_pos, after_tag, end, wire) {
                None => {
                    return None;
                },
                Some(q) => q,
            };
            proof {
                assert(s.skip(pos - tag_pos) =~= buf@.subrange(pos as int, end as int));
            }
        }
    }
    proof {
        assert(buf@.subrange(pos as int, end as int).len() == 0);
    }
    Some(iv)
}

// ------------------------------------------------------------------
// the response message
// ------------------------------------------------------------------
/// All bytes are ASCII.
pub open spec fn all_ascii(s: Seq<u8>) -> bool {
    forall|i: int| 0 <= i < s.len() ==> s[i] < 128
}

/// The characters an ASCII byte sequence spells.
pub open spec fn ascii_chars(s: Seq<u8>) -> Seq<char> {
    s.map_values(|b: u8| b as char)
}

/// A telemetry record before any field has been seen.
pub open spec fn empty_response() -> ResponseModel {
    ResponseModel {
        dtu_sn: Seq::empty(),
        pv_current_power: 0,
        pv_daily_yield: 0,
        ports: Seq::empty(),
        inverters: Seq::empty(),
    }
}

/// Parses the telemetry message: serial at field 1 (length-delimited ASCII
/// bytes), aggregate power and daily yield at fields 2 and 3 (varint,
/// 32-bit), repeated embedded port readings at field 4 and inverter
/// readings at field 5, and unknown fields skipped.
pub open spec fn spec_parse_response_msg(s: Seq<u8>, acc: ResponseModel) -> Option<ResponseModel>
    decreases s.len(),
{
    if s.len() == 0 {
        Some(acc)
    } else {
        match spec_varint(s) {
            None => None,
            Some((tag, tlen)) => {
                let field = tag / 8;
                let wire = tag % 8;
                if wire == 2 && 1 <= field <= 5 && field != 2 && field != 3 {
                    match spec_varint(s.skip(tlen)) {
                        None => None,
                        Some((l, llen)) => {
                            let c = tlen + llen + l;
                            if 1 <= c <= s.len() {
                                let bytes = s.subrange(tlen + llen, c);
                                if field == 1 {
                                    if all_ascii(bytes) {
                                        spec_parse_response_msg(
                                            s.skip(c),
                                            ResponseModel { dtu_sn: ascii_chars(bytes), ..acc },
                                        )
                                    } else {
                                        None
                                    }
                                } else if field == 4 {
                                    match spec_parse_port_msg(bytes, empty_port()) {
                                        None => None,
                                        Some(p) => spec_parse_response_msg(
                                            s.skip(c),
                                            ResponseModel { ports: acc.ports.push(p), ..acc },
                                        ),
                                    }
                                } else {
                                    match spec_parse_inverter_msg(bytes, empty_inverter()) {
                                        None => None,
                                        Some(v) => spec_parse_response_msg(
                                            s.skip(c),
                                            ResponseModel {
                                                inverters: acc.inverters.push(v),
                                                ..acc
                                            },
                                        ),
                                    }
                                }
                            } else {
                                None
                            }
                        },
                    }
                } else if wire == 0 && (field == 2 || field == 3) {
                    match spec_varint(s.skip(tlen)) {
                        None => None,
                        Some((v, vlen)) => if v <= 0xFFFF_FFFF {
                            let c = tlen + vlen;
                            if 1 <= c <= s.len() {
                                spec_parse_response_msg(
                                    s.skip(c),
                                    if field == 2 {
                                        ResponseModel { pv_current_power: v as u32, ..acc }
                                    } else {
                                        ResponseModel { pv_daily_yield: v as u32, ..acc }
                                    },
                                )
                            } else {
                                None
                            }
                        } else {
                            None
                        },
                    }
                } else {
                    match spec_field_skip(s, wire, tlen) {
                        None => None,
                        Some(c) => if 1 <= c <= s.len() {
                            spec_parse_response_msg(s.skip(c), acc)
                        } else {
                            None
                        },
                    }
                }
            },
        }
    }
}

/// The whole decode: the first ten bytes mirror the request preamble and
/// are discarded; the rest is the telemetry message.
pub open spec fn spec_decode(buf: Seq<u8>) -> Option<ResponseModel> {
    if buf.len() < 10 {
        None
    } else {
        spec_parse_response_msg(buf.skip(10), empty_response())
    }
}

/// Why a response buffer failed to decode; every failure is the one
/// malformed-payload class.
#[derive(Clone, Copy, Debug, PartialEq, Eq, Structural)]
pub enum DecodeError {
    DecodeFailed,
}

/// Reads the window `[start, end)` as an ASCII string.
fn take_ascii_string(buf: &[u8], start: usize, end: usize) -> (r: Option<String>)
    requires
        start <= end <= buf@.len(),
    ensures
        match r {
            Some(s) => all_ascii(buf@.subrange(start as int, end as int)) && s@ == ascii_chars(
                buf@.subrange(start as int, end as int),
            ),
            None => !all_ascii(buf@.subrange(start as int, end as int)),
        },
{
    let ghost seg = buf@.subrange(start as int, end as int);
    let mut out = String::new();
    let mut i: usize = start;
    while i < end
        invariant
            start <= i <= end <= buf@.len(),
            seg == buf@.subrange(start as int, end as int),
            all_ascii(seg.take(i - start)),
            out@ == ascii_chars(seg.take(i - start)),
        decreases end - i,
    {
        let b = buf[i];
        if b >= 128 {
            proof {
                assert(seg[i - start] == b);
            }
            return None;
        }
        push_char(&mut out, b as char);
        proof {
            assert(seg.take(i + 1 - start) =~= seg.take(i - start).push(seg[i - start]));
            assert(ascii_chars(seg.take(i + 1 - start)) =~= ascii_chars(
                seg.take(i - start),
            ).push(b as char));
        }
        i = i + 1;
    }
    proof {
        assert(seg.take(end - start) =~= seg);
    }
    Some(out)
}

/// The model the decode loop has accumulated so far.
pub open spec fn partial_model(
    dtu_sn: Seq<char>,
    pv_current_power: u32,
    pv_daily_yield: u32,
    ports: Seq<PortState>,
    inverters: Seq<InverterState>,
) -> ResponseModel {
    ResponseModel {
        dtu_sn,
        pv_current_power,
        pv_daily_yield,
        ports: ports.map_values(|p: PortState| p.model()),
        inverters: inverters.map_values(|v: InverterState| v.model()),
    }
}

/// Decodes one response buffer into a telemetry record: exactly the
/// records that the wire grammar accepts come back as `Ok`, and every
/// truncated or malformed buffer comes back as `DecodeFailed`.
#[verifier::rlimit(80)]
pub fn decode(buf: &[u8]) -> (r: Result<HMSStateResponse, DecodeError>)
    ensures
        match r {
            Ok(rec) => spec_decode(buf@) == Some(rec.model()),
            Err(e) => spec_decode(buf@) is None && e == DecodeError::DecodeFailed,
        },
{
    if buf.len() < 10 {
        return Err(DecodeError::DecodeFailed);
    }
    let end = buf.len();
    let mut dtu_sn = String::new();
    let mut pv_current_power: u32 = 0;
    let mut pv_daily_yield: u32 = 0;
    let mut ports: Vec<PortState> = Vec::new();
    let mut inverters: Vec<InverterState> = Vec::new();
    let mut pos: usize = 10;
    proof {
        assert(partial_model(dtu_sn@, pv_current_power, pv_daily_yield, ports@, inverters@)
            =~= empty_response());
        assert(buf@.skip(10) =~= buf@.subrange(10, end as int));
    }
    while pos < end
        invariant
            10 <= pos <= end == buf@.len(),
            spec_parse_response_msg(buf@.skip(10), empty_response()) == spec_parse_response_msg(
                buf@.subrange(pos as int, end as int),
                partial_model(dtu_sn@, pv_current_power, pv_daily_yield, ports@, inverters@),
            ),
        decreases end - pos,
    {
        let ghost s = buf@.subrange(pos as int, end as int);
        let ghost acc = partial_model(dtu_sn@, pv_current_power, pv_daily_yield, ports@, inverters@);
        let tag_pos = pos;
        let (tag, tlen) = match parse_varint(buf, pos, end) {
            None => {
                return Err(DecodeError::DecodeFailed);
            },
            Some(t) => t,
        };
        let after_tag = pos + tlen;
        proof {
            assert(s.skip(tlen as int) =~= buf@.subrange(after_tag as int, end as int));
        }
        let field = tag / 8;
        let wire = tag % 8;
        if wire == 2 && 1 <= field && field <= 5 && field != 2 && field != 3 {
            let (l, llen) = match parse_varint(buf, after_tag, end) {
                None => {
                    return Err(DecodeError::DecodeFailed);
                },
                Some(t) => t,
            };
            let after_len = after_tag + llen;
            if l > (end - after_len) as u128 {
                return Err(DecodeError::DecodeFailed);
            }
            let data_end = after_len + (l as usize);
            proof {
                assert(s.subrange(
                    (tlen + llen) as int,
                    tlen + llen + l as int,
                ) =~= buf@.subrange(after_len as int, data_end as int));
                assert(s.skip(data_end - tag_pos) =~= buf@.subrange(data_end as int, end as int));
            }
            if field == 1 {
                dtu_sn = match take_ascii_string(buf, after_len, data_end) {
                    None => {
                        return Err(DecodeError::DecodeFailed);
                    },
                    Some(t) => t,
                };
            } else if field == 4 {
                let p = match parse_port_msg(buf, after_len, data_end) {
                    None => {
                        return Err(DecodeError::DecodeFailed);
                    },
                    Some(t) => t,
                };
                ports.push(p);
                proof {
                    assert(ports@.map_values(|q: PortState| q.model()) =~= acc.ports.push(
                        p.model(),
                    ));
                }
            } else {
                let v = match parse_inverter_msg(buf, after_len, data_end) {
                    None => {
                        return Err(DecodeError::DecodeFailed);
                    },
                    Some(t) => t,
                };
                inverters.push(v);
                proof {
                    assert(inverters@.map_values(|q: InverterState| q.model())
                        =~= acc.inverters.push(v.model()));
                }
            }
            pos = data_end;
        } else if wire == 0 && (field == 2 || field == 3) {
            let (v, vlen) = match parse_varint(buf, after_tag, end) {
                None => {
                    return Err(DecodeError::DecodeFailed);
                },
                Some(t) => t,
            };
            if v > 0xFFFF_FFFF {
                return Err(DecodeError::DecodeFailed);
            }
            if field == 2 {
                pv_current_power = v as u32;
            } else {
                pv_daily_yield = v as u32;
            }
            pos = after_tag + vlen;
            proof {
                assert(s.skip((tlen + vlen) as int) =~= buf@.subrange(pos as int, end as int));
            }
        } else {
            pos = match skip_field(buf, tag_pos, after_tag, end, wire) {
                None => {
                    return Err(DecodeError::DecodeFailed);
                },
                Some(q) => q,
            };
            proof {
                assert(s.skip(pos - tag_pos) =~= buf@.subrange(pos as int, end as int));
            }
        }
    }
    proof {
        assert(buf@.subrange(pos as int, end as int).len() == 0);
    }
    let rec = HMSStateResponse {
        dtu_sn,
        pv_current_power,
        pv_daily_yield,
        port_state: ports,
        inverter_state: inverters,
    };
    Ok(rec)
}

/// A buffer shorter than the ten-byte preamble never decodes: it is
/// reported as `DecodeFailed`, and the decoder never aborts on it.
pub proof fn lemma_decode_short_buffer(buf: Seq<u8>)
    requires
        buf.len() < 10,
    ensures
        spec_decode(buf) is None,
{
}

} // verus!
