//! The 48-byte NTP header: reading it from a datagram, writing it back,
//! telling requests from other packets and answering them.

use crate::addr::{PeerAddr, NTP_PORT};
use crate::frac::NtpFracValue;
use crate::state::NtpServerState;
use crate::timestamp::NtpTimestamp;
use crate::wire::{
    be_bytes_u32, be_u32, lemma_be_u32_decode_encode, lemma_be_u32_encode_decode,
    lemma_be_u32_range, lemma_be_u64_decode_encode, read_u32_be, write_u32_be,
};
use vstd::prelude::*;

verus! {

/// Length of the NTP header in bytes. Anything after it is ignored.
pub const PACKET_LEN: usize = 48;

/// Association mode of a symmetric active peer.
pub const MODE_SYMMETRIC_ACTIVE: u8 = 1;

/// Association mode of a symmetric passive peer.
pub const MODE_SYMMETRIC_PASSIVE: u8 = 2;

/// Association mode of a client.
pub const MODE_CLIENT: u8 = 3;

/// Association mode of a server.
pub const MODE_SERVER: u8 = 4;

/// Lowest protocol version that is understood.
pub const VERSION_MIN: u8 = 1;

/// Highest protocol version that is understood.
pub const VERSION_MAX: u8 = 4;

/// Why a datagram was not accepted as an NTP packet.
#[derive(Debug, Copy, Clone, PartialEq, Eq, Structural)]
pub enum ErrorKind {
    /// Fewer than 48 bytes were received.
    Truncated,
    /// The version field is outside 1 to 4.
    UnsupportedVersion,
}

/// One NTP header in memory, with the two things that only the receiving
/// side knows: where the packet came from (or goes to) and when it arrived.
#[derive(Debug, Copy, Clone, PartialEq)]
pub struct NtpPacket {
    pub remote_addr: PeerAddr,
    pub local_ts: NtpTimestamp,
    pub leap: u8,
    pub version: u8,
    pub mode: u8,
    pub stratum: u8,
    pub poll: i8,
    pub precision: i8,
    pub delay: NtpFracValue,
    pub dispersion: NtpFracValue,
    pub ref_id: u32,
    pub ref_ts: NtpTimestamp,
    pub orig_ts: NtpTimestamp,
    pub rx_ts: NtpTimestamp,
    pub tx_ts: NtpTimestamp,
}

/// A byte read as a two's complement number.
pub open spec fn signed_byte(b: u8) -> i8 {
    if b < 0x80 {
        b as i8
    } else {
        (b - 0x100) as i8
    }
}

/// A two's complement number as the byte that stands for it.
pub open spec fn unsigned_byte(v: i8) -> u8 {
    if v >= 0 {
        v as u8
    } else {
        (v + 0x100) as u8
    }
}

/// The leap indicator in the first header byte: its two highest bits.
pub open spec fn header_leap(first: u8) -> u8 {
    first / 64
}

/// The version in the first header byte: the three bits in the middle.
pub open spec fn header_version(first: u8) -> u8 {
    first / 8 % 8
}

/// The mode in the first header byte: its three lowest bits.
pub open spec fn header_mode(first: u8) -> u8 {
    first % 8
}

/// The first header byte: each field shifted to its place, the three or-ed
/// together. Bits of a field that do not fit its place are lost or spill
/// into its neighbour; `lemma_header_byte` covers the fields that fit.
pub open spec fn header_byte(leap: u8, version: u8, mode: u8) -> u8 {
    (leap << 6u8) | (version << 3u8) | mode
}

/// Whether a version is one that is understood.
pub open spec fn supported_version(version: u8) -> bool {
    VERSION_MIN <= version <= VERSION_MAX
}

/// For fields that fit their bits the first header byte is their weighted
/// sum, and the fields can be read back from it.
pub proof fn lemma_header_byte(leap: u8, version: u8, mode: u8)
    by (bit_vector)
    requires
        leap < 4,
        version < 8,
        mode < 8,
    ensures
        header_byte(leap, version, mode) == leap * 64 + version * 8 + mode,
        header_leap(header_byte(leap, version, mode)) == leap,
        header_version(header_byte(leap, version, mode)) == version,
        header_mode(header_byte(leap, version, mode)) == mode,
{
}

/// Every byte is the first header byte of the fields read from it.
pub proof fn lemma_header_fields(first: u8)
    by (bit_vector)
    ensures
        header_leap(first) < 4,
        header_version(first) < 8,
        header_mode(first) < 8,
        header_byte(header_leap(first), header_version(first), header_mode(first)) == first,
{
}

/// A byte and the signed number it stands for determine each other.
pub proof fn lemma_signed_byte(b: u8, v: i8)
    ensures
        unsigned_byte(signed_byte(b)) == b,
        signed_byte(unsigned_byte(v)) == v,
{
}

impl NtpPacket {
    /// The three bit fields fit the places the header has for them.
    pub open spec fn fits_header(self) -> bool {
        self.leap < 4 && self.version < 8 && self.mode < 8
    }

    /// The packet that the first 48 bytes of `b` spell.
    pub open spec fn decode(b: Seq<u8>, remote_addr: PeerAddr, local_ts: NtpTimestamp) -> NtpPacket
        recommends
            b.len() >= PACKET_LEN,
    {
        NtpPacket {
            remote_addr,
            local_ts,
            leap: header_leap(b[0]),
            version: header_version(b[0]),
            mode: header_mode(b[0]),
            stratum: b[1],
            poll: signed_byte(b[2]),
            precision: signed_byte(b[3]),
            delay: NtpFracValue::from_wire(b.subrange(4, 8)),
            dispersion: NtpFracValue::from_wire(b.subrange(8, 12)),
            ref_id: be_u32(b.subrange(12, 16)) as u32,
            ref_ts: NtpTimestamp::from_wire(b.subrange(16, 24)),
            orig_ts: NtpTimestamp::from_wire(b.subrange(24, 32)),
            rx_ts: NtpTimestamp::from_wire(b.subrange(32, 40)),
            tx_ts: NtpTimestamp::from_wire(b.subrange(40, 48)),
        }
    }

    /// What parsing makes of a datagram: too short a datagram is rejected
    /// first, then an unknown version; everything else is decoded.
    pub open spec fn spec_parse(b: Seq<u8>, remote_addr: PeerAddr, local_ts: NtpTimestamp) -> Result<
        NtpPacket,
        ErrorKind,
    > {
        if b.len() < PACKET_LEN {
            Err(ErrorKind::Truncated)
        } else if !supported_version(header_version(b[0])) {
            Err(ErrorKind::UnsupportedVersion)
        } else {
            Ok(NtpPacket::decode(b, remote_addr, local_ts))
        }
    }

    /// The first four bytes of the header: the three bit fields in one
    /// byte, then stratum, poll interval and precision.
    pub open spec fn wire_head(self) -> Seq<u8> {
        seq![
            header_byte(self.leap, self.version, self.mode),
            self.stratum,
            unsigned_byte(self.poll),
            unsigned_byte(self.precision),
        ]
    }

    /// The 48 bytes of the header, field after field.
    pub open spec fn to_wire(self) -> Seq<u8> {
        self.wire_head() + self.delay.to_wire() + self.dispersion.to_wire() + be_bytes_u32(
            self.ref_id,
        ) + self.ref_ts.to_wire() + self.orig_ts.to_wire() + self.rx_ts.to_wire()
            + self.tx_ts.to_wire()
    }

    /// Each field takes the place the header has for it.
    proof fn lemma_field_lengths(self)
        ensures
            self.wire_head().len() == 4,
            self.delay.to_wire().len() == 4,
            self.dispersion.to_wire().len() == 4,
            be_bytes_u32(self.ref_id).len() == 4,
            self.ref_ts.to_wire().len() == 8,
            self.orig_ts.to_wire().len() == 8,
            self.rx_ts.to_wire().len() == 8,
            self.tx_ts.to_wire().len() == 8,
    {
        lemma_be_u32_decode_encode(self.delay.val);
        lemma_be_u32_decode_encode(self.dispersion.val);
        lemma_be_u32_decode_encode(self.ref_id);
        lemma_be_u64_decode_encode(self.ref_ts.ts);
        lemma_be_u64_decode_encode(self.orig_ts.ts);
        lemma_be_u64_decode_encode(self.rx_ts.ts);
        lemma_be_u64_decode_encode(self.tx_ts.ts);
    }

    /// A request comes from a symmetric active peer or a client. A
    /// version-1 peer that leaves the mode out counts as well, unless it
    /// sends from the NTP port itself.
    pub open spec fn spec_is_request(self) -> bool {
        ||| self.mode == MODE_SYMMETRIC_ACTIVE
        ||| self.mode == MODE_CLIENT
        ||| (self.mode == 0 && self.version == 1 && self.remote_addr.spec_port() != NTP_PORT)
    }

    /// The mode in which a request of mode `mode` is answered: a client
    /// gets a server's answer, everyone else a symmetric passive one.
    pub open spec fn response_mode(mode: u8) -> u8 {
        if mode == MODE_CLIENT {
            MODE_SERVER
        } else {
            MODE_SYMMETRIC_PASSIVE
        }
    }

    /// The response to `self` built from `state` and sent at `tx_ts`.
    pub open spec fn response_to(self, state: NtpServerState, tx_ts: NtpTimestamp) -> NtpPacket {
        NtpPacket {
            remote_addr: self.remote_addr,
            local_ts: NtpTimestamp { ts: 0 },
            leap: state.leap,
            version: self.version,
            mode: NtpPacket::response_mode(self.mode),
            stratum: state.stratum,
            poll: self.poll,
            precision: state.precision,
            delay: state.delay,
            dispersion: state.dispersion,
            ref_id: state.ref_id,
            ref_ts: state.ref_ts,
            orig_ts: self.tx_ts,
            rx_ts: self.local_ts,
            tx_ts,
        }
    }

    /// Requests are answered, everything else is not.
    pub open spec fn spec_make_response(self, state: NtpServerState, tx_ts: NtpTimestamp) -> Option<
        NtpPacket,
    > {
        if self.spec_is_request() {
            Some(self.response_to(state, tx_ts))
        } else {
            None
        }
    }

    /// The client request for the server at `remote_addr`, made at
    /// `local_ts`, that carries `nonce` as its transmit timestamp.
    pub open spec fn request_for(
        remote_addr: PeerAddr,
        local_ts: NtpTimestamp,
        nonce: NtpTimestamp,
    ) -> NtpPacket {
        NtpPacket {
            remote_addr,
            local_ts,
            leap: 0,
            version: 4,
            mode: MODE_CLIENT,
            stratum: 1,
            poll: 0,
            precision: 0,
            delay: NtpFracValue { val: 0 },
            dispersion: NtpFracValue { val: 0 },
            ref_id: 0,
            ref_ts: NtpTimestamp { ts: 0 },
            orig_ts: NtpTimestamp { ts: 0 },
            rx_ts: NtpTimestamp { ts: 0 },
            tx_ts: nonce,
        }
    }

    /// A response answers `request` when it comes from where the request
    /// went, its mode is the request's mode plus one, and it echoes the
    /// request's transmit timestamp.
    pub open spec fn spec_is_valid_response(self, request: NtpPacket) -> bool {
        &&& self.remote_addr == request.remote_addr
        &&& self.mode == request.mode + 1
        &&& self.orig_ts == request.tx_ts
    }

    /// The reference state that a packet advertises.
    pub open spec fn spec_server_state(self) -> NtpServerState {
        NtpServerState {
            leap: self.leap,
            stratum: self.stratum,
            precision: self.precision,
            ref_id: self.ref_id,
            ref_ts: self.ref_ts,
            dispersion: self.dispersion,
            delay: self.delay,
        }
    }

    /// Parses a datagram that arrived from `remote_addr` at `local_ts`.
    pub fn parse_at(datagram: &[u8], remote_addr: PeerAddr, local_ts: NtpTimestamp) -> (parsed:
        Result<NtpPacket, ErrorKind>)
        ensures
            parsed == NtpPacket::spec_parse(datagram@, remote_addr, local_ts),
    {
        if datagram.len() < PACKET_LEN {
            return Err(ErrorKind::Truncated);
        }
        let first: u8 = datagram[0];
        let leap: u8 = first >> 6;
        let version: u8 = (first >> 3) & 0x7;
        let mode: u8 = first & 0x7;
        proof {
            assert(first >> 6u8 == first / 64) by (bit_vector);
            assert((first >> 3u8) & 0x7 == first / 8 % 8) by (bit_vector);
            assert(first & 0x7 == first % 8) by (bit_vector);
        }
        if version < VERSION_MIN || version > VERSION_MAX {
            return Err(ErrorKind::UnsupportedVersion);
        }
        let poll_byte: u8 = datagram[2];
        let precision_byte: u8 = datagram[3];
        let poll: i8 = #[verifier::truncate] (poll_byte as i8);
        let precision: i8 = #[verifier::truncate] (precision_byte as i8);
        proof {
            assert(poll == signed_byte(poll_byte)) by (bit_vector)
                requires
                    poll == poll_byte as i8,
            ;
            assert(precision == signed_byte(precision_byte)) by (bit_vector)
                requires
                    precision == precision_byte as i8,
            ;
            lemma_be_u32_range(datagram@.subrange(12, 16));
        }
        Ok(
            NtpPacket {
                remote_addr,
                local_ts,
                leap,
                version,
                mode,
                stratum: datagram[1],
                poll,
                precision,
                delay: NtpFracValue::read(&datagram[4..8]),
                dispersion: NtpFracValue::read(&datagram[8..12]),
                ref_id: read_u32_be(&datagram[12..16]),
                ref_ts: NtpTimestamp::read(&datagram[16..24]),
                orig_ts: NtpTimestamp::read(&datagram[24..32]),
                rx_ts: NtpTimestamp::read(&datagram[32..40]),
                tx_ts: NtpTimestamp::read(&datagram[40..48]),
            },
        )
    }

    /// Parses a datagram that arrived from `remote_addr` just now. The
    /// packet is stamped with the time read from the clock before anything
    /// else is looked at.
    pub fn parse(datagram: &[u8], remote_addr: PeerAddr) -> (parsed: Result<NtpPacket, ErrorKind>)
        ensures
            datagram@.len() < PACKET_LEN ==> parsed == Err::<NtpPacket, ErrorKind>(
                ErrorKind::Truncated,
            ),
            datagram@.len() >= PACKET_LEN && !supported_version(header_version(datagram@[0]))
                ==> parsed == Err::<NtpPacket, ErrorKind>(ErrorKind::UnsupportedVersion),
            datagram@.len() >= PACKET_LEN && supported_version(header_version(datagram@[0]))
                ==> parsed is Ok,
            parsed matches Ok(packet) ==> packet == NtpPacket::decode(
                datagram@,
                remote_addr,
                packet.local_ts,
            ),
    {
        let local_ts = NtpTimestamp::now();
        NtpPacket::parse_at(datagram, remote_addr, local_ts)
    }

    /// Writes the header into 48 bytes.
    pub fn serialize(&self) -> (bytes: [u8; 48])
        ensures
            bytes@ == self.to_wire(),
    {
        let mut buf = [0u8; 48];
        let poll: u8 = #[verifier::truncate] (self.poll as u8);
        let precision: u8 = #[verifier::truncate] (self.precision as u8);
        proof {
            let p = self.poll;
            let q = self.precision;
            assert(poll == unsigned_byte(p)) by (bit_vector)
                requires
                    poll == p as u8,
            ;
            assert(precision == unsigned_byte(q)) by (bit_vector)
                requires
                    precision == q as u8,
            ;
            self.lemma_field_lengths();
        }
        buf[0] = self.leap << 6 | self.version << 3 | self.mode;
        buf[1] = self.stratum;
        buf[2] = poll;
        buf[3] = precision;
        let ghost head = buf@.subrange(0, 4);
        {
            let all: &mut [u8] = &mut buf;
            let (_, fields) = all.split_at_mut(4);
            let (delay, fields) = fields.split_at_mut(4);
            let (dispersion, fields) = fields.split_at_mut(4);
            let (ref_id, fields) = fields.split_at_mut(4);
            let (ref_ts, fields) = fields.split_at_mut(8);
            let (orig_ts, fields) = fields.split_at_mut(8);
            let (rx_ts, tx_ts) = fields.split_at_mut(8);
            self.delay.write(delay);
            assert(delay@ =~= self.delay.to_wire());
            self.dispersion.write(dispersion);
            assert(dispersion@ =~= self.dispersion.to_wire());
            write_u32_be(ref_id, self.ref_id);
            assert(ref_id@ =~= be_bytes_u32(self.ref_id));
            self.ref_ts.write(ref_ts);
            assert(ref_ts@ =~= self.ref_ts.to_wire());
            self.orig_ts.write(orig_ts);
            assert(orig_ts@ =~= self.orig_ts.to_wire());
            self.rx_ts.write(rx_ts);
            assert(rx_ts@ =~= self.rx_ts.to_wire());
            self.tx_ts.write(tx_ts);
            assert(tx_ts@ =~= self.tx_ts.to_wire());
        }
        proof {
            assert(head =~= self.wire_head());
            lemma_parts_of_join(
                self.wire_head(),
                self.delay.to_wire(),
                self.dispersion.to_wire(),
                be_bytes_u32(self.ref_id),
                self.ref_ts.to_wire(),
                self.orig_ts.to_wire(),
                self.rx_ts.to_wire(),
                self.tx_ts.to_wire(),
            );
        }
        buf
    }

    /// Tells whether the packet asks for an answer.
    pub fn is_request(&self) -> (request: bool)
        ensures
            request == self.spec_is_request(),
    {
        self.mode == MODE_SYMMETRIC_ACTIVE || self.mode == MODE_CLIENT || (self.mode == 0
            && self.version == 1 && self.remote_addr.port() != NTP_PORT)
    }

    /// Answers a request from `state`, with `tx_ts` as the time of sending.
    /// Packets that are no requests get no answer.
    pub fn make_response_at(&self, state: &NtpServerState, tx_ts: NtpTimestamp) -> (response:
        Option<NtpPacket>)
        ensures
            response == self.spec_make_response(*state, tx_ts),
    {
        if !self.is_request() {
            return None;
        }
        Some(
            NtpPacket {
                remote_addr: self.remote_addr,
                local_ts: NtpTimestamp::zero(),
                leap: state.leap,
                version: self.version,
                mode: if self.mode == MODE_CLIENT {
                    MODE_SERVER
                } else {
                    MODE_SYMMETRIC_PASSIVE
                },
                stratum: state.stratum,
                poll: self.poll,
                precision: state.precision,
                delay: state.delay,
                dispersion: state.dispersion,
                ref_id: state.ref_id,
                ref_ts: state.ref_ts,
                orig_ts: self.tx_ts,
                rx_ts: self.local_ts,
                tx_ts,
            },
        )
    }

    /// Answers a request from `state`. The transmit timestamp is read from
    /// the clock when the response is built. Packets that are no requests
    /// get no answer.
    pub fn make_response(&self, state: &NtpServerState) -> (response: Option<NtpPacket>)
        ensures
            response is Some <==> self.spec_is_request(),
            response matches Some(packet) ==> packet == self.response_to(*state, packet.tx_ts),
    {
        if !self.is_request() {
            return None;
        }
        self.make_response_at(state, NtpTimestamp::now())
    }

    /// Builds the client request for the server at `remote_addr`, made at
    /// `local_ts`, that carries `nonce` as its transmit timestamp.
    pub fn new_request_with(remote_addr: PeerAddr, local_ts: NtpTimestamp, nonce: NtpTimestamp) -> (
        request: NtpPacket)
        ensures
            request == NtpPacket::request_for(remote_addr, local_ts, nonce),
    {
        NtpPacket {
            remote_addr,
            local_ts,
            leap: 0,
            version: 4,
            mode: MODE_CLIENT,
            stratum: 1,
            poll: 0,
            precision: 0,
            delay: NtpFracValue::zero(),
            dispersion: NtpFracValue::zero(),
            ref_id: 0,
            ref_ts: NtpTimestamp::zero(),
            orig_ts: NtpTimestamp::zero(),
            rx_ts: NtpTimestamp::zero(),
            tx_ts: nonce,
        }
    }

    /// Builds a client request for the server at `remote_addr`, stamped
    /// with the current time and carrying a random transmit timestamp.
    pub fn new_request(remote_addr: PeerAddr) -> (request: NtpPacket)
        ensures
            request == NtpPacket::request_for(remote_addr, request.local_ts, request.tx_ts),
    {
        let local_ts = NtpTimestamp::now();
        let nonce = NtpTimestamp::random();
        NtpPacket::new_request_with(remote_addr, local_ts, nonce)
    }

    /// Tells whether this packet is an answer to `request`.
    pub fn is_valid_response(&self, request: &NtpPacket) -> (valid: bool)
        ensures
            valid == self.spec_is_valid_response(*request),
    {
        self.remote_addr == request.remote_addr && request.mode < u8::MAX && self.mode
            == request.mode + 1 && self.orig_ts == request.tx_ts
    }

    /// The reference state that the packet advertises.
    pub fn get_server_state(&self) -> (state: NtpServerState)
        ensures
            state == self.spec_server_state(),
    {
        NtpServerState {
            leap: self.leap,
            stratum: self.stratum,
            precision: self.precision,
            ref_id: self.ref_id,
            ref_ts: self.ref_ts,
            dispersion: self.dispersion,
            delay: self.delay,
        }
    }
}

/// Eight parts of the lengths of the header's fields, joined: the whole has
/// 48 bytes, each part can be cut out of it again, and it does not matter
/// from which end the parts are joined.
proof fn lemma_parts_of_join(
    head: Seq<u8>,
    delay: Seq<u8>,
    dispersion: Seq<u8>,
    ref_id: Seq<u8>,
    ref_ts: Seq<u8>,
    orig_ts: Seq<u8>,
    rx_ts: Seq<u8>,
    tx_ts: Seq<u8>,
)
    requires
        head.len() == 4,
        delay.len() == 4,
        dispersion.len() == 4,
        ref_id.len() == 4,
        ref_ts.len() == 8,
        orig_ts.len() == 8,
        rx_ts.len() == 8,
        tx_ts.len() == 8,
    ensures
        ({
            let all = head + delay + dispersion + ref_id + ref_ts + orig_ts + rx_ts + tx_ts;
            &&& all.len() == 48
            &&& all.subrange(0, 4) == head
            &&& all.subrange(4, 8) == delay
            &&& all.subrange(8, 12) == dispersion
            &&& all.subrange(12, 16) == ref_id
            &&& all.subrange(16, 24) == ref_ts
            &&& all.subrange(24, 32) == orig_ts
            &&& all.subrange(32, 40) == rx_ts
            &&& all.subrange(40, 48) == tx_ts
            &&& all == head + (delay + (dispersion + (ref_id + (ref_ts + (orig_ts + (rx_ts
                + tx_ts))))))
        }),
{
    let all = head + delay + dispersion + ref_id + ref_ts + orig_ts + rx_ts + tx_ts;
    assert(all.subrange(0, 4) =~= head);
    assert(all.subrange(4, 8) =~= delay);
    assert(all.subrange(8, 12) =~= dispersion);
    assert(all.subrange(12, 16) =~= ref_id);
    assert(all.subrange(16, 24) =~= ref_ts);
    assert(all.subrange(24, 32) =~= orig_ts);
    assert(all.subrange(32, 40) =~= rx_ts);
    assert(all.subrange(40, 48) =~= tx_ts);
    assert(all =~= head + (delay + (dispersion + (ref_id + (ref_ts + (orig_ts + (rx_ts
        + tx_ts)))))));
}

/// The first 48 bytes of a datagram are its eight header fields in a row.
proof fn lemma_join_of_parts(b: Seq<u8>)
    requires
        b.len() >= 48,
    ensures
        b.subrange(0, 48) == b.subrange(0, 4) + b.subrange(4, 8) + b.subrange(8, 12) + b.subrange(
            12,
            16,
        ) + b.subrange(16, 24) + b.subrange(24, 32) + b.subrange(32, 40) + b.subrange(40, 48),
{
    assert(b.subrange(0, 48) =~= b.subrange(0, 4) + b.subrange(4, 8) + b.subrange(8, 12)
        + b.subrange(12, 16) + b.subrange(16, 24) + b.subrange(24, 32) + b.subrange(32, 40)
        + b.subrange(40, 48));
}

/// Parsing what `to_wire` wrote gives the packet back, for every packet
/// whose bit fields fit the header and whose version is understood.
pub proof fn lemma_parse_serialized(packet: NtpPacket)
    requires
        packet.fits_header(),
        supported_version(packet.version),
    ensures
        packet.to_wire().len() == PACKET_LEN,
        NtpPacket::spec_parse(packet.to_wire(), packet.remote_addr, packet.local_ts) == Ok::<
            NtpPacket,
            ErrorKind,
        >(packet),
{
    let b = packet.to_wire();
    packet.lemma_field_lengths();
    lemma_parts_of_join(
        packet.wire_head(),
        packet.delay.to_wire(),
        packet.dispersion.to_wire(),
        be_bytes_u32(packet.ref_id),
        packet.ref_ts.to_wire(),
        packet.orig_ts.to_wire(),
        packet.rx_ts.to_wire(),
        packet.tx_ts.to_wire(),
    );
    assert(b[0] == packet.wire_head()[0] && b[1] == packet.wire_head()[1] && b[2]
        == packet.wire_head()[2] && b[3] == packet.wire_head()[3]) by {
        assert(b.subrange(0, 4)[0] == b[0]);
        assert(b.subrange(0, 4)[1] == b[1]);
        assert(b.subrange(0, 4)[2] == b[2]);
        assert(b.subrange(0, 4)[3] == b[3]);
    }
    lemma_header_byte(packet.leap, packet.version, packet.mode);
    lemma_signed_byte(0, packet.poll);
    lemma_signed_byte(0, packet.precision);
    let none = Seq::<u8>::empty();
    packet.delay.lemma_read_write(none);
    assert(packet.delay.to_wire() + none =~= packet.delay.to_wire());
    packet.dispersion.lemma_read_write(none);
    assert(packet.dispersion.to_wire() + none =~= packet.dispersion.to_wire());
    lemma_be_u32_decode_encode(packet.ref_id);
    packet.ref_ts.lemma_read_write(none);
    assert(packet.ref_ts.to_wire() + none =~= packet.ref_ts.to_wire());
    packet.orig_ts.lemma_read_write(none);
    assert(packet.orig_ts.to_wire() + none =~= packet.orig_ts.to_wire());
    packet.rx_ts.lemma_read_write(none);
    assert(packet.rx_ts.to_wire() + none =~= packet.rx_ts.to_wire());
    packet.tx_ts.lemma_read_write(none);
    assert(packet.tx_ts.to_wire() + none =~= packet.tx_ts.to_wire());
}

/// Writing what was decoded gives the first 48 bytes of the datagram back.
pub proof fn lemma_serialize_decoded(b: Seq<u8>, remote_addr: PeerAddr, local_ts: NtpTimestamp)
    requires
        b.len() >= PACKET_LEN,
    ensures
        NtpPacket::decode(b, remote_addr, local_ts).fits_header(),
        NtpPacket::decode(b, remote_addr, local_ts).to_wire() == b.subrange(0, 48),
{
    let packet = NtpPacket::decode(b, remote_addr, local_ts);
    lemma_header_fields(b[0]);
    lemma_signed_byte(b[2], 0);
    lemma_signed_byte(b[3], 0);
    assert(packet.wire_head() =~= b.subrange(0, 4));
    NtpFracValue::lemma_write_read(b.subrange(4, 8));
    assert(b.subrange(4, 8).subrange(0, 4) =~= b.subrange(4, 8));
    NtpFracValue::lemma_write_read(b.subrange(8, 12));
    assert(b.subrange(8, 12).subrange(0, 4) =~= b.subrange(8, 12));
    lemma_be_u32_encode_decode(b.subrange(12, 16));
    NtpTimestamp::lemma_write_read(b.subrange(16, 24));
    assert(b.subrange(16, 24).subrange(0, 8) =~= b.subrange(16, 24));
    NtpTimestamp::lemma_write_read(b.subrange(24, 32));
    assert(b.subrange(24, 32).subrange(0, 8) =~= b.subrange(24, 32));
    NtpTimestamp::lemma_write_read(b.subrange(32, 40));
    assert(b.subrange(32, 40).subrange(0, 8) =~= b.subrange(32, 40));
    NtpTimestamp::lemma_write_read(b.subrange(40, 48));
    assert(b.subrange(40, 48).subrange(0, 8) =~= b.subrange(40, 48));
    lemma_join_of_parts(b);
}

/// Every request is answered, and the answer echoes the request: its
/// originate timestamp is the request's transmit timestamp, its receive
/// timestamp the moment the request arrived, version and poll interval are
/// the request's, and it advertises exactly the reference state it was
/// built from. A request of mode 1 or 3 is answered in the next mode, and
/// the answer passes the client's validity check.
pub proof fn lemma_response_echo(request: NtpPacket, state: NtpServerState, tx_ts: NtpTimestamp)
    requires
        request.spec_is_request(),
    ensures
        request.spec_make_response(state, tx_ts) == Some(request.response_to(state, tx_ts)),
        request.response_to(state, tx_ts).orig_ts == request.tx_ts,
        request.response_to(state, tx_ts).rx_ts == request.local_ts,
        request.response_to(state, tx_ts).tx_ts == tx_ts,
        request.response_to(state, tx_ts).version == request.version,
        request.response_to(state, tx_ts).poll == request.poll,
        request.response_to(state, tx_ts).remote_addr == request.remote_addr,
        request.response_to(state, tx_ts).spec_server_state() == state,
        request.mode == MODE_SYMMETRIC_ACTIVE || request.mode == MODE_CLIENT ==> {
            &&& request.response_to(state, tx_ts).mode == request.mode + 1
            &&& request.response_to(state, tx_ts).spec_is_valid_response(request)
        },
{
}

/// A response never asks for an answer itself: what the server sends is not
/// taken for a request when it comes back.
pub proof fn lemma_response_is_no_request(
    request: NtpPacket,
    state: NtpServerState,
    tx_ts: NtpTimestamp,
)
    ensures
        !request.response_to(state, tx_ts).spec_is_request(),
{
}

} // verus!
