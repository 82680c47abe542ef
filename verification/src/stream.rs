//! Telemetry streaming core: block records of raw input and output samples,
//! their big-endian wire layout, and the connection-management decisions of
//! the stream. The sockets, the block queue and the transport itself belong
//! to the excluded streaming layer, which performs the actions this module
//! decides on.

use vstd::prelude::*;
use vstd::wrapping::u32_specs;

verus! {

/// Number of samples per channel in one telemetry block.
pub const SAMPLE_BUFFER_SIZE: usize = 8;

/// One telemetry record: a monotonically increasing (wrapping) block
/// identifier plus the raw input and output sample arrays of that block.
pub struct AdcDacData {
    /// Identifier of the block, increasing by one per block and wrapping.
    pub block_id: u32,
    /// Raw input samples of the block, one array per input channel.
    pub adcs: [[u16; SAMPLE_BUFFER_SIZE]; 2],
    /// Raw output samples of the block, one array per output channel.
    pub dacs: [[u16; SAMPLE_BUFFER_SIZE]; 2],
}

/// Produces one telemetry record per processed block, stamping each with the
/// next identifier. Handing the record to the stream queue belongs to the
/// excluded streaming layer.
pub struct BlockGenerator {
    /// The identifier the next record receives.
    pub current_id: u32,
}

impl BlockGenerator {
    /// A generator whose first record receives identifier zero.
    pub fn new() -> (r: BlockGenerator)
        ensures
            r.current_id == 0,
    {
        BlockGenerator { current_id: 0 }
    }

    /// Stamp the sample arrays of one processed block into a record carrying
    /// the current identifier, and advance the identifier by one, wrapping.
    pub fn send(
        &mut self,
        adcs: &[[u16; SAMPLE_BUFFER_SIZE]; 2],
        dacs: &[[u16; SAMPLE_BUFFER_SIZE]; 2],
    ) -> (block: AdcDacData)
        ensures
            block.block_id == old(self).current_id,
            block.adcs@[0]@ =~= adcs@[0]@,
            block.adcs@[1]@ =~= adcs@[1]@,
            block.dacs@[0]@ =~= dacs@[0]@,
            block.dacs@[1]@ =~= dacs@[1]@,
            final(self).current_id == u32_specs::wrapping_add(old(self).current_id, 1),
    {
        let block = AdcDacData { block_id: self.current_id, adcs: *adcs, dacs: *dacs };
        self.current_id = self.current_id.wrapping_add(1);
        block
    }
}

impl AdcDacData {
    /// The wire block of this record, carrying the per-block sample count in
    /// its header.
    pub fn into_block(self) -> (r: DataBlock)
        ensures
            r.block_id == self.block_id,
            r.block_size == SAMPLE_BUFFER_SIZE as u32,
            r.adcs@[0]@ =~= self.adcs@[0]@,
            r.adcs@[1]@ =~= self.adcs@[1]@,
            r.dacs@[0]@ =~= self.dacs@[0]@,
            r.dacs@[1]@ =~= self.dacs@[1]@,
    {
        DataBlock {
            block_id: self.block_id,
            block_size: SAMPLE_BUFFER_SIZE as u32,
            adcs: self.adcs,
            dacs: self.dacs,
        }
    }
}

/// A telemetry block prepared for transmission: the record plus the per-block
/// sample count of the wire header.
pub struct DataBlock {
    /// Identifier of the block.
    pub block_id: u32,
    /// Number of samples per channel in this block.
    pub block_size: u32,
    /// Raw input samples of the block.
    pub adcs: [[u16; SAMPLE_BUFFER_SIZE]; 2],
    /// Raw output samples of the block.
    pub dacs: [[u16; SAMPLE_BUFFER_SIZE]; 2],
}

/// The big-endian wire bytes of a 32-bit word.
pub open spec fn spec_be_u32(v: u32) -> Seq<u8> {
    seq![
        (v / 0x100_0000) as u8,
        ((v / 0x1_0000) % 0x100) as u8,
        ((v / 0x100) % 0x100) as u8,
        (v % 0x100) as u8,
    ]
}

/// The big-endian wire bytes of a 16-bit sample.
pub open spec fn spec_be_u16(v: u16) -> Seq<u8> {
    seq![(v / 0x100) as u8, (v % 0x100) as u8]
}

/// The big-endian wire bytes of a channel's samples, in order.
pub open spec fn spec_channel_bytes(s: Seq<u16>) -> Seq<u8>
    decreases s.len(),
{
    if s.len() == 0 {
        Seq::empty()
    } else {
        spec_channel_bytes(s.drop_last()) + spec_be_u16(s.last())
    }
}

/// The wire layout of a telemetry block: identifier and sample count as
/// big-endian 32-bit words, then every sample as a big-endian 16-bit word,
/// input channels first.
pub open spec fn spec_serialize(b: DataBlock) -> Seq<u8> {
    spec_be_u32(b.block_id) + spec_be_u32(b.block_size) + spec_channel_bytes(b.adcs@[0]@)
        + spec_channel_bytes(b.adcs@[1]@) + spec_channel_bytes(b.dacs@[0]@) + spec_channel_bytes(
        b.dacs@[1]@,
    )
}

fn push_be_u32(out: &mut Vec<u8>, v: u32)
    ensures
        final(out)@ =~= old(out)@ + spec_be_u32(v),
{
    out.push((v / 0x100_0000) as u8);
    out.push(((v / 0x1_0000) % 0x100) as u8);
    out.push(((v / 0x100) % 0x100) as u8);
    out.push((v % 0x100) as u8);
}

fn push_channel(out: &mut Vec<u8>, ch: &[u16; SAMPLE_BUFFER_SIZE])
    ensures
        final(out)@ =~= old(out)@ + spec_channel_bytes(ch@),
{
    let mut i: usize = 0;
    while i < SAMPLE_BUFFER_SIZE
        invariant
            i <= SAMPLE_BUFFER_SIZE,
            out@ =~= old(out)@ + spec_channel_bytes(ch@.take(i as int)),
        decreases SAMPLE_BUFFER_SIZE - i,
    {
        let v: u16 = ch[i];
        out.push((v / 0x100) as u8);
        out.push((v % 0x100) as u8);
        proof {
            assert(ch@.take(i + 1).drop_last() =~= ch@.take(i as int));
            assert(ch@.take(i + 1).last() == ch@[i as int]);
        }
        i = i + 1;
    }
    proof {
        assert(ch@.take(SAMPLE_BUFFER_SIZE as int) =~= ch@);
    }
}

impl DataBlock {
    /// Lay the block out as its big-endian wire bytes.
    pub fn serialize(self) -> (r: Vec<u8>)
        ensures
            r@ =~= spec_serialize(self),
    {
        let mut out: Vec<u8> = Vec::new();
        push_be_u32(&mut out, self.block_id);
        push_be_u32(&mut out, self.block_size);
        push_channel(&mut out, &self.adcs[0]);
        push_channel(&mut out, &self.adcs[1]);
        push_channel(&mut out, &self.dacs[0]);
        push_channel(&mut out, &self.dacs[1]);
        out
    }
}

/// A remote stream endpoint as plain values: a four-octet address and a port.
#[derive(Clone, Copy, Debug)]
pub struct StreamRemote {
    /// The address octets.
    pub ip: [u8; 4],
    /// The port number.
    pub port: u16,
}

/// Whether two endpoints name the same remote.
pub open spec fn remote_eq(a: StreamRemote, b: StreamRemote) -> bool {
    a.ip@ =~= b.ip@ && a.port == b.port
}

/// The action the streaming layer is asked to perform next.
pub enum StreamAction {
    /// Nothing to do: drop the block.
    Wait,
    /// Open a connection to the configured remote.
    Open,
    /// Serialize and transmit the block over the open connection.
    Transmit,
}

/// Connection-management core of the telemetry stream. It holds only the
/// decision state — whether a connection stands and which remote is
/// configured — and maps events from the streaming layer to the actions that
/// layer performs: opening, closing and writing sockets stay outside.
pub struct DataStream {
    /// Whether an open connection is currently held.
    pub has_socket: bool,
    /// The configured remote, if any.
    pub remote: Option<StreamRemote>,
}

impl DataStream {
    /// A stream with no connection and no remote configured.
    pub fn new() -> (r: DataStream)
        ensures
            !r.has_socket,
            r.remote is None,
    {
        DataStream { has_socket: false, remote: None }
    }

    /// Configure the remote to stream to. A remote identical to the current
    /// one keeps the standing connection; a new one drops the connection, and
    /// the returned flag tells the streaming layer to open a fresh one.
    pub fn set_remote(&mut self, remote: StreamRemote) -> (reopen: bool)
        ensures
            ({
                let same = old(self).remote matches Some(cur) && remote_eq(cur, remote)
                    && old(self).has_socket;
                &&& reopen == !same
                &&& final(self).remote matches Some(cur) && remote_eq(cur, remote)
                &&& final(self).has_socket == same
            }),
    {
        let same: bool = match &self.remote {
            Some(cur) => {
                let eq: bool = cur.ip[0] == remote.ip[0] && cur.ip[1] == remote.ip[1] && cur.ip[2]
                    == remote.ip[2] && cur.ip[3] == remote.ip[3] && cur.port == remote.port;
                proof {
                    if eq {
                        assert(cur.ip@ =~= remote.ip@);
                    }
                }
                eq && self.has_socket
            },
            None => false,
        };
        self.remote = Some(remote);
        self.has_socket = same;
        !same
    }

    /// Record the outcome of an attempt by the streaming layer to open a
    /// connection.
    pub fn on_open_result(&mut self, ok: bool)
        ensures
            final(self).has_socket == ok,
            final(self).remote == old(self).remote,
    {
        self.has_socket = ok;
    }

    /// Record that the streaming layer found the connection gone.
    pub fn on_connection_lost(&mut self)
        ensures
            !final(self).has_socket,
            final(self).remote == old(self).remote,
    {
        self.has_socket = false;
    }

    /// Decide what to do with a block dequeued for transmission: nothing
    /// while no remote is configured, open a connection if none stands, and
    /// transmit otherwise.
    pub fn on_block(&self) -> (a: StreamAction)
        ensures
            self.remote is None ==> a == StreamAction::Wait,
            self.remote is Some && !self.has_socket ==> a == StreamAction::Open,
            self.remote is Some && self.has_socket ==> a == StreamAction::Transmit,
    {
        match &self.remote {
            None => StreamAction::Wait,
            Some(_) => {
                if self.has_socket {
                    StreamAction::Transmit
                } else {
                    StreamAction::Open
                }
            },
        }
    }
}

/// The generator and the stream core a process starts with: identifier zero,
/// no connection, no remote.
pub fn setup_streaming() -> (r: (BlockGenerator, DataStream))
    ensures
        r.0.current_id == 0,
        !r.1.has_socket,
        r.1.remote is None,
{
    (BlockGenerator::new(), DataStream::new())
}

} // verus!
