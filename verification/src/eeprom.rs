//! Paged external memory: instruction framing and page-boundary-safe write
//! planning for a byte-addressed device behind a simple command bus, plus the
//! persisted metadata record and the store initialization state machine.
use vstd::prelude::*;

verus! {

use crate::StoreError;
use crate::bytes_equal;
use vstd::assert_seqs_equal;

pub const READ_INSTRUCTION: u8 = 0b0000_0011;

pub const WRITE_INSTRUCTION: u8 = 0b0000_0010;

pub const ERASE_INSTRUCTION: u8 = 0b1100_0111;

pub const WRITE_ENABLE_INSTRUCTION: u8 = 0b0000_0110;

pub const READ_STATUS_INSTRUCTION: u8 = 0b0000_0101;

pub const WRITE_STATUS_INSTRUCTION: u8 = 0b0000_0001;

/// Start of the reserved metadata region.
pub const METADATA_BLOCK_START: u32 = 0x10;

/// Start of the application data region.
pub const DATA_BLOCK_START: u32 = 0x100;

/// Schema version this build expects in the stored metadata record.
pub const CONFIG_VERSION: u8 = 1;

/// Fixed settle time, in milliseconds, that the device requires after every
/// bus transaction before the next one may begin. A hardware timing
/// requirement, not a tunable; the runner that executes commands must wait
/// this long after each transaction.
pub const SETTLE_DELAY_MS: u64 = 10;

/// One more than the largest usable byte address: the address field on the
/// wire is the low 3 bytes of a big-endian 32-bit address.
pub const ADDRESS_SPACE_END: u32 = 0x100_0000;

/// One bus transaction: what is clocked out to the device inside a single
/// chip-select window. `Read` additionally tells the runner how many bytes to
/// clock in after the address; the runner must wait `SETTLE_DELAY_MS` after
/// every command before issuing the next.
#[derive(Debug, Clone, PartialEq, Eq)]
pub enum Command {
    Read { address: u32, len: usize },
    PageWrite { address: u32, data: Vec<u8> },
    Erase,
    WriteEnable,
    ReadStatus,
    WriteStatus(u8),
}

/// The low 3 bytes of the big-endian 32-bit address, as sent on the wire.
pub open spec fn spec_address_bytes(address: u32) -> Seq<u8> {
    seq![
        ((address >> 16) & 0xff) as u8,
        ((address >> 8) & 0xff) as u8,
        (address & 0xff) as u8,
    ]
}

/// The exact bytes clocked out for one command.
pub open spec fn spec_frame(c: Command) -> Seq<u8> {
    match c {
        Command::Read { address, len: _ } => seq![READ_INSTRUCTION] + spec_address_bytes(address),
        Command::PageWrite { address, data } => seq![WRITE_INSTRUCTION] + spec_address_bytes(
            address,
        ) + data@,
        Command::Erase => seq![ERASE_INSTRUCTION],
        Command::WriteEnable => seq![WRITE_ENABLE_INSTRUCTION],
        Command::ReadStatus => seq![READ_STATUS_INSTRUCTION],
        Command::WriteStatus(s) => seq![WRITE_STATUS_INSTRUCTION, s],
    }
}

/// Serializes one command to the bytes the runner clocks out.
pub fn frame_bytes(c: &Command) -> (r: Vec<u8>)
    ensures
        r@ == spec_frame(*c),
{
    let mut r: Vec<u8> = Vec::new();
    match c {
        Command::Read { address, len: _ } => {
            r.push(READ_INSTRUCTION);
            push_address_bytes(&mut r, *address);
        },
        Command::PageWrite { address, data } => {
            r.push(WRITE_INSTRUCTION);
            push_address_bytes(&mut r, *address);
            let ghost head = r@;
            let mut i: usize = 0;
            while i < data.len()
                invariant
                    i <= data@.len(),
                    r@ == head + data@.take(i as int),
                decreases data@.len() - i,
            {
                r.push(data[i]);
                proof {
                    assert(data@.take(i + 1) =~= data@.take(i as int).push(data@[i as int]));
                }
                i = i + 1;
            }
            proof {
                assert(data@.take(data@.len() as int) =~= data@);
            }
        },
        Command::Erase => {
            r.push(ERASE_INSTRUCTION);
        },
        Command::WriteEnable => {
            r.push(WRITE_ENABLE_INSTRUCTION);
        },
        Command::ReadStatus => {
            r.push(READ_STATUS_INSTRUCTION);
        },
        Command::WriteStatus(s) => {
            r.push(WRITE_STATUS_INSTRUCTION);
            r.push(*s);
        },
    }
    proof {
        assert(r@ =~= spec_frame(*c));
    }
    r
}

fn push_address_bytes(r: &mut Vec<u8>, address: u32)
    ensures
        final(r)@ == old(r)@ + spec_address_bytes(address),
{
    r.push(((address >> 16) & 0xff) as u8);
    r.push(((address >> 8) & 0xff) as u8);
    r.push((address & 0xff) as u8);
    proof {
        assert(r@ =~= old(r)@ + spec_address_bytes(address));
    }
}

/// Length of the first page write for a buffer of `len` bytes starting at
/// `address`: the space left in the current 256-byte page, or the whole
/// buffer if it is shorter.
pub open spec fn first_chunk_len(address: int, len: int) -> int {
    let room = 256 - (address % 256);
    if len < room {
        len
    } else {
        room
    }
}

/// The page writes for a buffer of `len` bytes starting at `address`, as
/// (start address, length) pairs: the space left in the starting page first,
/// then full 256-byte pages, the last possibly short. A buffer of length 0
/// still issues one (empty) write, as the device protocol permits.
pub open spec fn spec_chunks(address: int, len: int) -> Seq<(int, int)>
    decreases len,
{
    let first = first_chunk_len(address, len);
    if len <= first {
        seq![(address, len)]
    } else {
        seq![(address, first)] + spec_chunks(address + first, len - first)
    }
}

/// No single page write may cross a 256-byte page boundary; the first write
/// fills the starting page, every later write starts at a page boundary, and
/// together they cover exactly the range `address..address + len`.
pub proof fn lemma_chunks_page_safe(address: int, len: int)
    requires
        0 <= address,
        0 <= len,
    ensures
        spec_chunks(address, len).len() >= 1,
        spec_chunks(address, len)[0].0 == address,
        spec_chunks(address, len)[0].1 == first_chunk_len(address, len),
        forall|i: int|
            0 <= i < spec_chunks(address, len).len() ==> (#[trigger] spec_chunks(address, len)[i]).1
                <= 256 - (spec_chunks(address, len)[i].0 % 256),
        forall|i: int|
            1 <= i < spec_chunks(address, len).len() ==> (#[trigger] spec_chunks(address, len)[i]).0
                % 256 == 0,
        forall|i: int|
            1 <= i < spec_chunks(address, len).len() ==> (#[trigger] spec_chunks(address, len)[i]).0
                == spec_chunks(address, len)[i - 1].0 + spec_chunks(address, len)[i - 1].1,
        spec_chunks(address, len).last().0 + spec_chunks(address, len).last().1 == address + len,
        forall|i: int|
            0 <= i < spec_chunks(address, len).len() ==> address <= (#[trigger] spec_chunks(
                address,
                len,
            )[i]).0 && spec_chunks(address, len)[i].0 + spec_chunks(address, len)[i].1 <= address
                + len && spec_chunks(address, len)[i].1 >= 0,
    decreases len,
{
    let cs = spec_chunks(address, len);
    let first = first_chunk_len(address, len);
    if len <= first {
    } else {
        lemma_chunks_page_safe(address + first, len - first);
        let tail = spec_chunks(address + first, len - first);
        assert(cs == seq![(address, first)] + tail);
        assert(forall|i: int| 1 <= i < cs.len() ==> cs[i] == tail[i - 1]);
        assert((address + first) % 256 == 0) by {
            assert(address % 256 == ((address / 256) * 256 + address % 256) % 256);
        };
    }
}

/// The page-boundary-safe write plan for `len` bytes starting at `address`:
/// each entry is the start address and length of one page write command.
pub fn plan_page_writes(address: u32, len: usize) -> (r: Vec<(u32, usize)>)
    requires
        address + len <= ADDRESS_SPACE_END,
    ensures
        r@.map_values(|c: (u32, usize)| (c.0 as int, c.1 as int)) == spec_chunks(
            address as int,
            len as int,
        ),
{
    let ghost goal = spec_chunks(address as int, len as int);
    let mut out: Vec<(u32, usize)> = Vec::new();
    let diff_u32: u32 = 256u32 - address % 256;
    let diff: usize = diff_u32 as usize;
    if len < diff {
        out.push((address, len));
        assert(out@.map_values(|c: (u32, usize)| (c.0 as int, c.1 as int)) =~= goal);
        return out;
    }
    out.push((address, diff));
    let mut addr: u32 = address + diff_u32;
    let mut rem: usize = len - diff;
    proof {
        assert(addr % 256 == 0) by {
            assert((address + (256 - address % 256)) % 256 == 0);
        };
        if rem > 0 {
            assert(goal == seq![(address as int, diff as int)] + spec_chunks(
                addr as int,
                rem as int,
            ));
        } else {
            assert(out@.map_values(|c: (u32, usize)| (c.0 as int, c.1 as int)) =~= goal);
        }
    }
    while rem > 0
        invariant
            rem > 0 ==> addr % 256 == 0,
            addr + rem <= ADDRESS_SPACE_END,
            rem > 0 ==> out@.map_values(|c: (u32, usize)| (c.0 as int, c.1 as int)) + spec_chunks(
                addr as int,
                rem as int,
            ) == goal,
            rem == 0 ==> out@.map_values(|c: (u32, usize)| (c.0 as int, c.1 as int)) == goal,
        decreases rem,
    {
        let step: usize = if rem >= 256 {
            256
        } else {
            rem
        };
        let ghost prev = out@;
        out.push((addr, step));
        proof {
            assert(out@ == prev.push((addr, step)));
            assert(out@.map_values(|c: (u32, usize)| (c.0 as int, c.1 as int)) =~= prev.map_values(
                |c: (u32, usize)| (c.0 as int, c.1 as int),
            ).push((addr as int, step as int)));
            assert(first_chunk_len(addr as int, rem as int) == step as int);
            if rem > step {
                assert(spec_chunks(addr as int, rem as int) == seq![(addr as int, step as int)]
                    + spec_chunks(addr as int + step as int, rem as int - step as int));
                assert((addr as int + 256) % 256 == 0);
            } else {
                assert(spec_chunks(addr as int, rem as int) == seq![(addr as int, step as int)]);
            }
            assert_seqs_equal!(
                prev.map_values(|c: (u32, usize)| (c.0 as int, c.1 as int)).push((addr as int, step as int)),
                prev.map_values(|c: (u32, usize)| (c.0 as int, c.1 as int)) + seq![(addr as int, step as int)]
            );
        }
        addr = addr + step as u32;
        rem = rem - step;
    }
    out
}

/// `r` is the command sequence that persists `data` starting at `address`:
/// one write-enable latch, then one page write, for each planned chunk, with
/// each page write carrying exactly the chunk's slice of `data`.
pub open spec fn spec_write_ops_ok(r: Seq<Command>, address: int, data: Seq<u8>) -> bool {
    let cs = spec_chunks(address, data.len() as int);
    &&& r.len() == 2 * cs.len()
    &&& forall|i: int| 0 <= i < cs.len() ==> #[trigger] r[2 * i] is WriteEnable
    &&& forall|i: int|
        0 <= i < cs.len() ==> (#[trigger] r[2 * i + 1] matches Command::PageWrite {
            address: a,
            data: d,
        } && a == cs[i].0 && d@ == data.subrange(cs[i].0 - address, cs[i].0 - address + cs[i].1))
}

/// The commands that persist `data` starting at `address`, never letting a
/// page write cross a 256-byte boundary and latching write-enable before
/// each one.
pub fn write_ops(address: u32, data: &[u8]) -> (r: Vec<Command>)
    requires
        address + data@.len() <= ADDRESS_SPACE_END,
    ensures
        spec_write_ops_ok(r@, address as int, data@),
{
    proof {
        lemma_chunks_page_safe(address as int, data@.len() as int);
    }
    let ghost cs = spec_chunks(address as int, data@.len() as int);
    let plan = plan_page_writes(address, data.len());
    let mut r: Vec<Command> = Vec::new();
    let mut i: usize = 0;
    while i < plan.len()
        invariant
            plan@.map_values(|c: (u32, usize)| (c.0 as int, c.1 as int)) == cs,
            cs == spec_chunks(address as int, data@.len() as int),
            address + data@.len() <= ADDRESS_SPACE_END,
            forall|j: int|
                0 <= j < cs.len() ==> address <= (#[trigger] cs[j]).0 && cs[j].0 + cs[j].1
                    <= address + data@.len() && cs[j].1 >= 0,
            i <= plan@.len(),
            r@.len() == 2 * i,
            forall|j: int| 0 <= j < i ==> #[trigger] r@[2 * j] is WriteEnable,
            forall|j: int|
                0 <= j < i ==> (#[trigger] r@[2 * j + 1] matches Command::PageWrite {
                    address: a,
                    data: d,
                } && a == cs[j].0 && d@ == data@.subrange(
                    cs[j].0 - address,
                    cs[j].0 - address + cs[j].1,
                )),
        decreases plan@.len() - i,
    {
        let (chunk_addr, chunk_len) = plan[i];
        proof {
            assert(cs[i as int] == (chunk_addr as int, chunk_len as int));
        }
        let off: usize = (chunk_addr - address) as usize;
        let payload = vstd::slice::slice_to_vec(vstd::slice::slice_subrange(
            data,
            off,
            off + chunk_len,
        ));
        r.push(Command::WriteEnable);
        r.push(Command::PageWrite { address: chunk_addr, data: payload });
        i = i + 1;
    }
    r
}

/// The fixed 8-byte pattern written to address 0 and read back at store
/// initialization to prove the transport trustworthy.
pub open spec fn spec_test_pattern() -> Seq<u8> {
    seq![0xde, 0xad, 0xbe, 0xef, 0x8a, 0xcc, 0x8a, 0xcc]
}

/// The self-test pattern as a vector.
pub fn test_pattern() -> (r: Vec<u8>)
    ensures
        r@ == spec_test_pattern(),
{
    let mut r: Vec<u8> = Vec::new();
    r.push(0xde);
    r.push(0xad);
    r.push(0xbe);
    r.push(0xef);
    r.push(0x8a);
    r.push(0xcc);
    r.push(0x8a);
    r.push(0xcc);
    proof {
        assert(r@ =~= spec_test_pattern());
    }
    r
}

/// Size on the wire of the persisted metadata record.
pub const METADATA_SIZE: usize = 2;

/// The persisted metadata record: a schema version byte and a count of
/// configurations written so far.
#[derive(Debug, Clone, Copy, PartialEq, Eq, Structural)]
pub struct Metadata {
    pub config_version: u8,
    pub written_configs: u8,
}

impl Default for Metadata {
    /// The record written to a freshly initialized device.
    fn default() -> (r: Self)
        ensures
            r.config_version == CONFIG_VERSION,
            r.written_configs == 0,
    {
        Metadata { config_version: CONFIG_VERSION, written_configs: 0 }
    }
}

/// Wire encoding of the record: each field as one byte, version first.
pub open spec fn spec_encode_metadata(m: Metadata) -> Seq<u8> {
    seq![m.config_version, m.written_configs]
}

/// The record read back from its 2-byte wire encoding.
pub open spec fn spec_decode_metadata(b: Seq<u8>) -> Metadata {
    Metadata { config_version: b[0], written_configs: b[1] }
}

/// Decoding an encoded record gives the record back.
pub proof fn lemma_metadata_round_trip(m: Metadata)
    ensures
        spec_decode_metadata(spec_encode_metadata(m)) == m,
{
}

/// Encoding a decoded 2-byte buffer gives the buffer back: the codec loses
/// nothing in either direction.
pub proof fn lemma_metadata_encode_inverse(b: Seq<u8>)
    requires
        b.len() == METADATA_SIZE,
    ensures
        spec_encode_metadata(spec_decode_metadata(b)) == b,
{
    assert(spec_encode_metadata(spec_decode_metadata(b)) =~= b);
}

impl Metadata {
    /// Serializes the record for the metadata region.
    pub fn encode(&self) -> (r: Vec<u8>)
        ensures
            r@ == spec_encode_metadata(*self),
    {
        let mut r: Vec<u8> = Vec::new();
        r.push(self.config_version);
        r.push(self.written_configs);
        proof {
            assert(r@ =~= spec_encode_metadata(*self));
        }
        r
    }

    /// Reads the record back from its wire encoding.
    pub fn decode(bytes: &[u8]) -> (r: Metadata)
        requires
            bytes@.len() == METADATA_SIZE,
        ensures
            r == spec_decode_metadata(bytes@),
    {
        Metadata { config_version: bytes[0], written_configs: bytes[1] }
    }
}

/// The record a freshly initialized device receives.
pub open spec fn spec_default_metadata() -> Metadata {
    Metadata { config_version: CONFIG_VERSION, written_configs: 0 }
}

/// What the command runner reports back after executing an issued batch.
#[derive(Debug, Clone, PartialEq, Eq)]
pub enum BusEvent {
    /// Every command completed; nothing was clocked in.
    Ack,
    /// Every command completed; these are the bytes of the final read.
    Bytes(Vec<u8>),
    /// A bus transaction failed.
    BusError,
}

/// Where initialization stands, named for the response it awaits.
#[derive(Debug, Clone, Copy, PartialEq, Eq, Structural)]
pub enum InitState {
    ClearingStatus,
    ReadingStatusRegister,
    WritingTestPattern,
    ReadingTestPattern,
    ReadingMetadata,
    Erasing,
    WritingDefault,
    Complete,
    Failed,
}

/// What the store asks of the command runner next.
#[derive(Debug, Clone, PartialEq, Eq)]
pub enum InitAction {
    /// Execute these commands in order, waiting the settle delay after each.
    Issue(Vec<Command>),
    /// Initialization succeeded; this is the adopted record.
    Done(Metadata),
    /// Initialization failed; no store handle may be produced.
    Abort(StoreError),
}

/// The next state after `e` arrives in state `s`. A bus failure is fatal in
/// every state; a response of the wrong shape means the runner broke the
/// request/response discipline and is treated as a transport failure; a
/// readback that differs from the self-test pattern fails the self-test; a
/// stored schema version other than `CONFIG_VERSION` sends the machine down
/// the destructive reinitialization path.
pub open spec fn spec_init_step(s: InitState, e: BusEvent) -> InitState {
    match (s, e) {
        (_, BusEvent::BusError) => InitState::Failed,
        (InitState::ClearingStatus, BusEvent::Ack) => InitState::ReadingStatusRegister,
        (InitState::ReadingStatusRegister, BusEvent::Bytes(_)) => InitState::WritingTestPattern,
        (InitState::WritingTestPattern, BusEvent::Ack) => InitState::ReadingTestPattern,
        (InitState::ReadingTestPattern, BusEvent::Bytes(b)) => if b@ == spec_test_pattern() {
            InitState::ReadingMetadata
        } else {
            InitState::Failed
        },
        (InitState::ReadingMetadata, BusEvent::Bytes(b)) => if b@.len() != METADATA_SIZE {
            InitState::Failed
        } else if spec_decode_metadata(b@).config_version == CONFIG_VERSION {
            InitState::Complete
        } else {
            InitState::Erasing
        },
        (InitState::Erasing, BusEvent::Ack) => InitState::WritingDefault,
        (InitState::WritingDefault, BusEvent::Ack) => InitState::Complete,
        (_, _) => InitState::Failed,
    }
}

/// The exact action owed for `e` arriving in state `s`.
pub open spec fn spec_init_action_ok(s: InitState, e: BusEvent, r: InitAction) -> bool {
    match (s, e) {
        (_, BusEvent::BusError) => r == InitAction::Abort(StoreError::Transport),
        (InitState::ClearingStatus, BusEvent::Ack) => r matches InitAction::Issue(c) && c@
            == seq![Command::ReadStatus],
        (InitState::ReadingStatusRegister, BusEvent::Bytes(_)) => r matches InitAction::Issue(c)
            && spec_write_ops_ok(c@, 0, spec_test_pattern()),
        (InitState::WritingTestPattern, BusEvent::Ack) => r matches InitAction::Issue(c) && c@
            == seq![Command::Read { address: 0u32, len: 8usize }],
        (InitState::ReadingTestPattern, BusEvent::Bytes(b)) => if b@ == spec_test_pattern() {
            r matches InitAction::Issue(c) && c@ == seq![
                Command::Read { address: METADATA_BLOCK_START, len: METADATA_SIZE },
            ]
        } else {
            r == InitAction::Abort(StoreError::SelfTestFailure)
        },
        (InitState::ReadingMetadata, BusEvent::Bytes(b)) => if b@.len() != METADATA_SIZE {
            r == InitAction::Abort(StoreError::Transport)
        } else if spec_decode_metadata(b@).config_version == CONFIG_VERSION {
            r == InitAction::Done(spec_decode_metadata(b@))
        } else {
            r matches InitAction::Issue(c) && c@ == seq![Command::Erase]
        },
        (InitState::Erasing, BusEvent::Ack) => r matches InitAction::Issue(c) && spec_write_ops_ok(
            c@,
            METADATA_BLOCK_START as int,
            spec_encode_metadata(spec_default_metadata()),
        ),
        (InitState::WritingDefault, BusEvent::Ack) => r == InitAction::Done(
            spec_default_metadata(),
        ),
        (_, _) => r == InitAction::Abort(StoreError::Transport),
    }
}

/// Drives store initialization: clear the status register, read it back for
/// diagnostics, run the self-test, read and decode the metadata record, and
/// on a schema mismatch erase the device and write the default record. The
/// command runner executes each issued batch and reports one event back.
pub struct InitMachine {
    pub state: InitState,
}

impl InitMachine {
    /// A machine at the beginning of initialization, with the first command
    /// batch to execute: clearing the status register.
    pub fn start() -> (r: (InitMachine, InitAction))
        ensures
            r.0.state is ClearingStatus,
            (r.1 matches InitAction::Issue(c) && c@ == seq![Command::WriteStatus(0u8)]),
    {
        let mut cmds: Vec<Command> = Vec::new();
        cmds.push(Command::WriteStatus(0));
        proof {
            assert(cmds@ =~= seq![Command::WriteStatus(0u8)]);
        }
        (InitMachine { state: InitState::ClearingStatus }, InitAction::Issue(cmds))
    }

    /// Feeds the runner's report for the last batch to the machine and
    /// returns what to do next.
    pub fn step(&mut self, event: BusEvent) -> (r: InitAction)
        ensures
            final(self).state == spec_init_step(old(self).state, event),
            spec_init_action_ok(old(self).state, event, r),
    {
        match (self.state, event) {
            (_, BusEvent::BusError) => {
                self.state = InitState::Failed;
                InitAction::Abort(StoreError::Transport)
            },
            (InitState::ClearingStatus, BusEvent::Ack) => {
                self.state = InitState::ReadingStatusRegister;
                let mut cmds: Vec<Command> = Vec::new();
                cmds.push(Command::ReadStatus);
                proof {
                    assert(cmds@ =~= seq![Command::ReadStatus]);
                }
                InitAction::Issue(cmds)
            },
            (InitState::ReadingStatusRegister, BusEvent::Bytes(_)) => {
                self.state = InitState::WritingTestPattern;
                let pattern = test_pattern();
                InitAction::Issue(write_ops(0, pattern.as_slice()))
            },
            (InitState::WritingTestPattern, BusEvent::Ack) => {
                self.state = InitState::ReadingTestPattern;
                let mut cmds: Vec<Command> = Vec::new();
                cmds.push(Command::Read { address: 0, len: 8 });
                proof {
                    assert(cmds@ =~= seq![Command::Read { address: 0u32, len: 8usize }]);
                }
                InitAction::Issue(cmds)
            },
            (InitState::ReadingTestPattern, BusEvent::Bytes(b)) => {
                let pattern = test_pattern();
                if bytes_equal(b.as_slice(), pattern.as_slice()) {
                    self.state = InitState::ReadingMetadata;
                    let mut cmds: Vec<Command> = Vec::new();
                    cmds.push(Command::Read { address: METADATA_BLOCK_START, len: METADATA_SIZE });
                    proof {
                        assert(cmds@ =~= seq![
                            Command::Read { address: METADATA_BLOCK_START, len: METADATA_SIZE },
                        ]);
                    }
                    InitAction::Issue(cmds)
                } else {
                    self.state = InitState::Failed;
                    InitAction::Abort(StoreError::SelfTestFailure)
                }
            },
            (InitState::ReadingMetadata, BusEvent::Bytes(b)) => {
                if b.len() != METADATA_SIZE {
                    self.state = InitState::Failed;
                    InitAction::Abort(StoreError::Transport)
                } else {
                    let m = Metadata::decode(b.as_slice());
                    if m.config_version == CONFIG_VERSION {
                        self.state = InitState::Complete;
                        InitAction::Done(m)
                    } else {
                        self.state = InitState::Erasing;
                        let mut cmds: Vec<Command> = Vec::new();
                        cmds.push(Command::Erase);
                        proof {
                            assert(cmds@ =~= seq![Command::Erase]);
                        }
                        InitAction::Issue(cmds)
                    }
                }
            },
            (InitState::Erasing, BusEvent::Ack) => {
                self.state = InitState::WritingDefault;
                let fresh: Metadata = Default::default();
                let bytes = fresh.encode();
                InitAction::Issue(write_ops(METADATA_BLOCK_START, bytes.as_slice()))
            },
            (InitState::WritingDefault, BusEvent::Ack) => {
                self.state = InitState::Complete;
                let fresh: Metadata = Default::default();
                InitAction::Done(fresh)
            },
            (_, _) => {
                self.state = InitState::Failed;
                InitAction::Abort(StoreError::Transport)
            },
        }
    }
}

/// A stored record whose schema version is not the build's own — a blank or
/// erased device reads back version 0 — makes the machine erase the whole
/// device and then write a fresh default record, never adopt the record.
pub proof fn lemma_schema_mismatch_reinitializes(e: BusEvent, ack: BusEvent, r1: InitAction)
    requires
        e matches BusEvent::Bytes(b) && b@.len() == METADATA_SIZE && spec_decode_metadata(
            b@,
        ).config_version != CONFIG_VERSION,
        ack is Ack,
        spec_init_action_ok(InitState::ReadingMetadata, e, r1),
    ensures
        spec_init_step(InitState::ReadingMetadata, e) is Erasing,
        r1 matches InitAction::Issue(c) && c@ == seq![Command::Erase],
        spec_init_step(InitState::Erasing, ack) is WritingDefault,
        forall|r2: InitAction|
            #[trigger] spec_init_action_ok(InitState::Erasing, ack, r2) ==> (r2 matches
                InitAction::Issue(c) && spec_write_ops_ok(
                c@,
                METADATA_BLOCK_START as int,
                seq![CONFIG_VERSION, 0u8],
            )),
        spec_init_step(InitState::WritingDefault, ack) is Complete,
        forall|r3: InitAction|
            #[trigger] spec_init_action_ok(InitState::WritingDefault, ack, r3) ==> r3
                == InitAction::Done(spec_default_metadata()),
{
    assert(spec_encode_metadata(spec_default_metadata()) =~= seq![CONFIG_VERSION, 0u8]);
}

/// The self-test gate: only a readback equal to the fixed pattern lets
/// initialization continue; anything else halts it with a self-test failure,
/// before the store is trusted.
pub proof fn lemma_self_test_gate(e: BusEvent, r: InitAction)
    requires
        e matches BusEvent::Bytes(b),
        spec_init_action_ok(InitState::ReadingTestPattern, e, r),
    ensures
        (e matches BusEvent::Bytes(b) && b@ == spec_test_pattern()) ==> spec_init_step(
            InitState::ReadingTestPattern,
            e,
        ) is ReadingMetadata,
        (e matches BusEvent::Bytes(b) && b@ != spec_test_pattern()) ==> spec_init_step(
            InitState::ReadingTestPattern,
            e,
        ) is Failed && r == InitAction::Abort(StoreError::SelfTestFailure),
{
}

/// The configuration store once initialization has completed: the adopted
/// metadata record. The bus itself stays with the runner that executes
/// commands; exactly one live store handle must exist per device.
#[derive(Debug, Clone, Copy, PartialEq, Eq, Structural)]
pub struct Eeprom {
    pub metadata: Metadata,
}

impl Eeprom {
    /// The commands that re-encode the current record and write back only
    /// the metadata region.
    pub fn write_config(&self) -> (r: Vec<Command>)
        ensures
            spec_write_ops_ok(r@, METADATA_BLOCK_START as int, spec_encode_metadata(self.metadata)),
    {
        let bytes = self.metadata.encode();
        write_ops(METADATA_BLOCK_START, bytes.as_slice())
    }
}

} // verus!

