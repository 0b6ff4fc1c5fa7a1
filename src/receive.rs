//! The receiving side of a YMODEM batch transfer of one file, as a state
//! machine. It asks for CRC mode with `C`, takes block 0 for the name and
//! size, takes numbered data blocks, answers the first end of transmission
//! with `NAK` and the second with `ACK`, and ends once the closing empty
//! block 0 came in; a sender that does not repeat the end of transmission
//! may send that block right after the first. Timeouts and stray bytes
//! count against the error budgets.

use vstd::prelude::*;
use crate::header::{
    decimal_u32, digits_u32, header_info, header_info_exec, is_digit, lemma_index_of_at,
    lemma_keep_all_digits, parse_size,
};
use crate::ymodem::{
    block_frame, block_kind, crc16, crc16_of, decimal, header_block, header_fields, header_fits,
    lemma_decimal_digits, zeros, Ymodem, YmodemError, ACK, CRC, EOT, NAK, SOH, STX,
};

verus! {

/// What a receiver waits for.
#[derive(Clone, Copy, Debug, PartialEq, Eq, Structural)]
pub enum RecvPhase {
    /// The start of block 0.
    AwaitHeader,
    /// The rest of block 0.
    HeaderBody,
    /// The start of a block, or an end of transmission.
    AwaitBlock,
    /// The rest of a block.
    BlockBody,
    /// Nothing: the transfer is over.
    Finished,
}

/// What happened since the last action.
pub enum RecvEvent {
    /// The channel delivered a byte.
    Byte(u8),
    /// The channel delivered nothing in time.
    Timeout,
    /// The channel delivered the rest of a block: number, complement,
    /// payload and checksum.
    Block(Vec<u8>),
}

/// What to do next.
pub enum RecvAction {
    /// Wait for one byte.
    Await,
    /// Write these bytes, then wait for one byte.
    Reply(Vec<u8>),
    /// Read exactly this many bytes.
    ReadBlock(usize),
    /// Stop with this error, after writing two cancel bytes if `cancel`.
    Abort { cancel: bool, error: YmodemError },
    /// Write an acknowledgement and stop: the file is in.
    Complete,
}

/// An event as a value.
pub ghost enum RecvEventView {
    Byte(u8),
    Timeout,
    Block(Seq<u8>),
}

/// An action as a value.
pub ghost enum RecvActionView {
    Await,
    Reply(Seq<u8>),
    ReadBlock(nat),
    Abort { cancel: bool, error: YmodemError },
    Complete,
}

impl View for RecvEvent {
    type V = RecvEventView;

    open spec fn view(&self) -> RecvEventView {
        match self {
            RecvEvent::Byte(b) => RecvEventView::Byte(*b),
            RecvEvent::Timeout => RecvEventView::Timeout,
            RecvEvent::Block(b) => RecvEventView::Block(b@),
        }
    }
}

impl View for RecvAction {
    type V = RecvActionView;

    open spec fn view(&self) -> RecvActionView {
        match self {
            RecvAction::Await => RecvActionView::Await,
            RecvAction::Reply(b) => RecvActionView::Reply(b@),
            RecvAction::ReadBlock(n) => RecvActionView::ReadBlock(*n as nat),
            RecvAction::Abort { cancel, error } => RecvActionView::Abort {
                cancel: *cancel,
                error: *error,
            },
            RecvAction::Complete => RecvActionView::Complete,
        }
    }
}

/// The state of a receiver as a value.
pub ghost struct RecvState {
    pub config: Ymodem,
    pub phase: RecvPhase,
    /// Failed waits and bad blocks.
    pub errors: nat,
    /// Timeouts while waiting for block 0.
    pub initial_errors: nat,
    /// The payload size of the block being read.
    pub block_size: nat,
    /// The number the next data block must carry.
    pub packet_num: u8,
    /// Ends of transmission seen.
    pub eots: nat,
    pub name: Seq<u8>,
    pub file_size: u32,
    /// The payloads of the accepted data blocks, in order.
    pub data: Seq<u8>,
    pub failure: Option<YmodemError>,
}

/// The counters stay within the budgets while the transfer runs.
pub open spec fn recv_wf(s: RecvState) -> bool {
    &&& s.errors <= s.config.max_errors + 1
    &&& s.initial_errors <= s.config.max_initial_errors + 1
    &&& s.eots <= 2
    &&& s.phase != RecvPhase::Finished ==> {
        &&& s.errors <= s.config.max_errors
        &&& s.initial_errors <= s.config.max_initial_errors
    }
    &&& s.phase == RecvPhase::BlockBody ==> s.block_size == 128 || s.block_size == 1024
}

/// A receiver that has just asked for CRC mode.
pub open spec fn initial_receiver(config: Ymodem) -> RecvState {
    RecvState {
        config,
        phase: RecvPhase::AwaitHeader,
        errors: 0,
        initial_errors: 0,
        block_size: 0,
        packet_num: 0,
        eots: 0,
        name: seq![],
        file_size: 0,
        data: seq![],
        failure: None,
    }
}

/// The checksum that a block carries in its last two bytes.
pub open spec fn carried_crc(b: Seq<u8>) -> u16 {
    (b[b.len() - 2] as int * 256 + b[b.len() - 1] as int) as u16
}

/// Whether a block body (number, complement, payload, checksum) carries
/// the number `num` and its complement.
pub open spec fn numbered(b: Seq<u8>, num: u8) -> bool {
    b[0] == num && b[1] == 255 - num
}

/// The payload of a block body of `size` payload bytes.
pub open spec fn body_payload(b: Seq<u8>, size: nat) -> Seq<u8> {
    b.subrange(2, 2 + size as int)
}

/// A bad or missing block: `NAK`, one more error, and the end once the
/// budget is spent.
pub open spec fn recv_fail(s: RecvState, p: RecvPhase) -> (RecvState, RecvActionView) {
    let e = s.errors + 1;
    if e >= s.config.max_errors {
        (
            RecvState {
                errors: e,
                phase: RecvPhase::Finished,
                failure: Some(YmodemError::ExhaustedRetries),
                ..s
            },
            RecvActionView::Abort { cancel: false, error: YmodemError::ExhaustedRetries },
        )
    } else {
        (RecvState { errors: e, phase: p, ..s }, RecvActionView::Reply(seq![NAK]))
    }
}

/// The end with two cancel bytes: a block carried the wrong number.
pub open spec fn recv_cancel(s: RecvState) -> (RecvState, RecvActionView) {
    (
        RecvState { phase: RecvPhase::Finished, failure: Some(YmodemError::Canceled), ..s },
        RecvActionView::Abort { cancel: true, error: YmodemError::Canceled },
    )
}

/// The rest of block 0.
pub open spec fn header_step(s: RecvState, b: Seq<u8>) -> (RecvState, RecvActionView) {
    if b.len() != 132 {
        recv_fail(s, RecvPhase::AwaitHeader)
    } else if !numbered(b, 0) {
        recv_cancel(s)
    } else if crc16_of(body_payload(b, 128)) != carried_crc(b) {
        recv_fail(s, RecvPhase::AwaitHeader)
    } else {
        match header_info(body_payload(b, 128), s.config.ignore_non_digits_on_file_size) {
            Some((name, size)) => (
                RecvState {
                    phase: RecvPhase::AwaitBlock,
                    packet_num: 1,
                    name,
                    file_size: size,
                    ..s
                },
                RecvActionView::Reply(seq![ACK, CRC]),
            ),
            None => (
                RecvState {
                    phase: RecvPhase::Finished,
                    failure: Some(YmodemError::InvalidHeader),
                    ..s
                },
                RecvActionView::Abort { cancel: true, error: YmodemError::InvalidHeader },
            ),
        }
    }
}

/// The rest of a data block, or, once an end of transmission came, of the
/// closing block 0.
pub open spec fn block_step(s: RecvState, b: Seq<u8>) -> (RecvState, RecvActionView) {
    let size = s.block_size;
    let expected: u8 = if s.eots >= 1 {
        0
    } else {
        s.packet_num
    };
    if b.len() != size + 4 {
        recv_fail(s, RecvPhase::AwaitBlock)
    } else if !numbered(b, expected) {
        recv_cancel(s)
    } else if crc16_of(body_payload(b, size)) != carried_crc(b) {
        recv_fail(s, RecvPhase::AwaitBlock)
    } else if s.eots >= 1 {
        (RecvState { phase: RecvPhase::Finished, ..s }, RecvActionView::Complete)
    } else {
        (
            RecvState {
                phase: RecvPhase::AwaitBlock,
                packet_num: ((s.packet_num + 1) % 256) as u8,
                data: s.data + body_payload(b, size),
                ..s
            },
            RecvActionView::Reply(seq![ACK]),
        )
    }
}

/// The action that a finished receiver repeats.
pub open spec fn recv_final_action(s: RecvState) -> RecvActionView {
    match s.failure {
        Some(err) => RecvActionView::Abort { cancel: false, error: err },
        None => RecvActionView::Complete,
    }
}

/// Waiting for block 0 went wrong (a timeout or another byte): one more
/// initial error, the end once the initial budget is exceeded, otherwise
/// `C` again.
pub open spec fn recv_start_fail(s: RecvState) -> (RecvState, RecvActionView) {
    let i = s.initial_errors + 1;
    if i > s.config.max_initial_errors {
        (
            RecvState {
                initial_errors: i,
                phase: RecvPhase::Finished,
                failure: Some(YmodemError::ExhaustedRetries),
                ..s
            },
            RecvActionView::Abort { cancel: false, error: YmodemError::ExhaustedRetries },
        )
    } else {
        (RecvState { initial_errors: i, ..s }, RecvActionView::Reply(seq![CRC]))
    }
}

/// Waiting for a block start went wrong (a timeout or another byte): one
/// more error, the end once the budget is spent, otherwise wait again.
pub open spec fn recv_wait_fail(s: RecvState) -> (RecvState, RecvActionView) {
    let e = s.errors + 1;
    if e >= s.config.max_errors {
        (
            RecvState {
                errors: e,
                phase: RecvPhase::Finished,
                failure: Some(YmodemError::ExhaustedRetries),
                ..s
            },
            RecvActionView::Abort { cancel: false, error: YmodemError::ExhaustedRetries },
        )
    } else {
        (RecvState { errors: e, ..s }, RecvActionView::Await)
    }
}

/// One step of the receiver: the next state and action after event `e`.
pub open spec fn recv_step(s: RecvState, e: RecvEventView) -> (RecvState, RecvActionView) {
    match s.phase {
        RecvPhase::AwaitHeader => if e == RecvEventView::Byte(SOH) {
            (RecvState { phase: RecvPhase::HeaderBody, ..s }, RecvActionView::ReadBlock(132))
        } else {
            recv_start_fail(s)
        },
        RecvPhase::HeaderBody => match e {
            RecvEventView::Block(b) => header_step(s, b),
            _ => recv_fail(s, RecvPhase::AwaitHeader),
        },
        RecvPhase::AwaitBlock => if e == RecvEventView::Byte(SOH) || e == RecvEventView::Byte(
            STX,
        ) {
            let size: nat = if e == RecvEventView::Byte(SOH) {
                128
            } else {
                1024
            };
            (
                RecvState { phase: RecvPhase::BlockBody, block_size: size, ..s },
                RecvActionView::ReadBlock(size + 4),
            )
        } else if e == RecvEventView::Byte(EOT) {
            if s.eots == 0 {
                (RecvState { eots: 1, ..s }, RecvActionView::Reply(seq![NAK]))
            } else {
                (RecvState { eots: 2, ..s }, RecvActionView::Reply(seq![ACK, CRC]))
            }
        } else {
            recv_wait_fail(s)
        },
        RecvPhase::BlockBody => match e {
            RecvEventView::Block(b) => block_step(s, b),
            _ => recv_fail(s, RecvPhase::AwaitBlock),
        },
        RecvPhase::Finished => (s, recv_final_action(s)),
    }
}

/// The file as announced: the received bytes cut to the announced size.
pub open spec fn received_file(s: RecvState) -> Seq<u8> {
    if s.data.len() <= s.file_size {
        s.data
    } else {
        s.data.subrange(0, s.file_size as int)
    }
}

fn one_byte(x: u8) -> (r: Vec<u8>)
    ensures
        r@ == seq![x],
{
    let mut r: Vec<u8> = Vec::new();
    r.push(x);
    assert(r@ =~= seq![x]);
    r
}

fn ack_c() -> (r: Vec<u8>)
    ensures
        r@ == seq![ACK, CRC],
{
    let mut r: Vec<u8> = Vec::new();
    r.push(ACK);
    r.push(CRC);
    assert(r@ =~= seq![ACK, CRC]);
    r
}

/// How a block body checks out.
enum BodyCheck {
    BadLength,
    WrongNumber,
    BadCrc,
    Good(Vec<u8>),
}

fn check_body(b: &Vec<u8>, size: usize, num: u8) -> (r: BodyCheck)
    requires
        size <= 1024,
    ensures
        match r {
            BodyCheck::BadLength => b@.len() != size + 4,
            BodyCheck::WrongNumber => b@.len() == size + 4 && !numbered(b@, num),
            BodyCheck::BadCrc => b@.len() == size + 4 && numbered(b@, num) && crc16_of(
                body_payload(b@, size as nat),
            ) != carried_crc(b@),
            BodyCheck::Good(p) => b@.len() == size + 4 && numbered(b@, num) && crc16_of(
                body_payload(b@, size as nat),
            ) == carried_crc(b@) && p@ == body_payload(b@, size as nat),
        },
{
    if b.len() != size + 4 {
        return BodyCheck::BadLength;
    }
    if b[0] != num || b[1] != 255 - num {
        return BodyCheck::WrongNumber;
    }
    let mut p: Vec<u8> = Vec::new();
    p.extend_from_slice(&b.as_slice()[2..2 + size]);
    assert(p@ =~= body_payload(b@, size as nat));
    let crc = crc16(p.as_slice());
    let carried: u16 = b[size + 2] as u16 * 256 + b[size + 3] as u16;
    if crc != carried {
        BodyCheck::BadCrc
    } else {
        BodyCheck::Good(p)
    }
}

/// The receiving side of one transfer.
pub struct YmodemReceiver {
    config: Ymodem,
    phase: RecvPhase,
    errors: u64,
    initial_errors: u64,
    block_size: usize,
    packet_num: u8,
    eots: u64,
    name: Vec<u8>,
    file_size: u32,
    data: Vec<u8>,
    failure: Option<YmodemError>,
}

impl View for YmodemReceiver {
    type V = RecvState;

    closed spec fn view(&self) -> RecvState {
        RecvState {
            config: self.config,
            phase: self.phase,
            errors: self.errors as nat,
            initial_errors: self.initial_errors as nat,
            block_size: self.block_size as nat,
            packet_num: self.packet_num,
            eots: self.eots as nat,
            name: self.name@,
            file_size: self.file_size,
            data: self.data@,
            failure: self.failure,
        }
    }
}

impl YmodemReceiver {
    /// A receiver, with its first action: asking for CRC mode.
    pub fn new(config: Ymodem) -> (r: (Self, RecvAction))
        ensures
            r.0@ == initial_receiver(config),
            r.1@ == RecvActionView::Reply(seq![CRC]),
            recv_wf(r.0@),
    {
        (
            YmodemReceiver {
                config,
                phase: RecvPhase::AwaitHeader,
                errors: 0,
                initial_errors: 0,
                block_size: 0,
                packet_num: 0,
                eots: 0,
                name: Vec::new(),
                file_size: 0,
                data: Vec::new(),
                failure: None,
            },
            RecvAction::Reply(one_byte(CRC)),
        )
    }

    /// What the receiver waits for.
    pub fn phase(&self) -> (r: RecvPhase)
        ensures
            r == self@.phase,
    {
        self.phase
    }

    /// The file name that block 0 gave.
    pub fn file_name(&self) -> (r: Vec<u8>)
        ensures
            r@ == self@.name,
    {
        let mut r: Vec<u8> = Vec::new();
        r.extend_from_slice(self.name.as_slice());
        assert(r@ =~= self@.name);
        r
    }

    /// The file size that block 0 gave.
    pub fn file_size(&self) -> (r: u32)
        ensures
            r == self@.file_size,
    {
        self.file_size
    }

    /// The received bytes, cut to the announced size.
    pub fn received(&self) -> (r: Vec<u8>)
        ensures
            r@ == received_file(self@),
    {
        let n: usize = if self.data.len() <= self.file_size as usize {
            self.data.len()
        } else {
            self.file_size as usize
        };
        let mut r: Vec<u8> = Vec::new();
        r.extend_from_slice(&self.data.as_slice()[0..n]);
        assert(r@ =~= received_file(self@));
        r
    }

    fn fail(&mut self, p: RecvPhase) -> (r: RecvAction)
        requires
            recv_wf(old(self)@),
            old(self)@.phase != RecvPhase::Finished,
        ensures
            (final(self)@, r@) == recv_fail(old(self)@, p),
    {
        self.errors = self.errors + 1;
        if self.errors >= self.config.max_errors as u64 {
            self.phase = RecvPhase::Finished;
            self.failure = Some(YmodemError::ExhaustedRetries);
            RecvAction::Abort { cancel: false, error: YmodemError::ExhaustedRetries }
        } else {
            self.phase = p;
            RecvAction::Reply(one_byte(NAK))
        }
    }

    fn cancel(&mut self) -> (r: RecvAction)
        ensures
            (final(self)@, r@) == recv_cancel(old(self)@),
    {
        self.phase = RecvPhase::Finished;
        self.failure = Some(YmodemError::Canceled);
        RecvAction::Abort { cancel: true, error: YmodemError::Canceled }
    }

    fn header_step_exec(&mut self, b: Vec<u8>) -> (r: RecvAction)
        requires
            recv_wf(old(self)@),
            old(self)@.phase == RecvPhase::HeaderBody,
        ensures
            (final(self)@, r@) == header_step(old(self)@, b@),
    {
        match check_body(&b, 128, 0) {
            BodyCheck::BadLength => self.fail(RecvPhase::AwaitHeader),
            BodyCheck::WrongNumber => self.cancel(),
            BodyCheck::BadCrc => self.fail(RecvPhase::AwaitHeader),
            BodyCheck::Good(p) => {
                match header_info_exec(p.as_slice(), self.config.ignore_non_digits_on_file_size) {
                    Some((name, size)) => {
                        self.phase = RecvPhase::AwaitBlock;
                        self.packet_num = 1;
                        self.name = name;
                        self.file_size = size;
                        RecvAction::Reply(ack_c())
                    },
                    None => {
                        self.phase = RecvPhase::Finished;
                        self.failure = Some(YmodemError::InvalidHeader);
                        RecvAction::Abort { cancel: true, error: YmodemError::InvalidHeader }
                    },
                }
            },
        }
    }

    fn block_step_exec(&mut self, b: Vec<u8>) -> (r: RecvAction)
        requires
            recv_wf(old(self)@),
            old(self)@.phase == RecvPhase::BlockBody,
        ensures
            (final(self)@, r@) == block_step(old(self)@, b@),
    {
        let expected: u8 = if self.eots >= 1 {
            0
        } else {
            self.packet_num
        };
        match check_body(&b, self.block_size, expected) {
            BodyCheck::BadLength => self.fail(RecvPhase::AwaitBlock),
            BodyCheck::WrongNumber => self.cancel(),
            BodyCheck::BadCrc => self.fail(RecvPhase::AwaitBlock),
            BodyCheck::Good(p) => {
                if self.eots >= 1 {
                    self.phase = RecvPhase::Finished;
                    RecvAction::Complete
                } else {
                    self.phase = RecvPhase::AwaitBlock;
                    self.packet_num = self.packet_num.wrapping_add(1);
                    self.data.extend_from_slice(p.as_slice());
                    assert(self.data@ =~= old(self)@.data + p@);
                    assert(self.packet_num == ((old(self)@.packet_num + 1) % 256) as u8);
                    RecvAction::Reply(one_byte(ACK))
                }
            },
        }
    }

    /// Takes in what happened since the last action and gives the next one.
    pub fn step(&mut self, e: RecvEvent) -> (r: RecvAction)
        requires
            recv_wf(old(self)@),
        ensures
            (final(self)@, r@) == recv_step(old(self)@, e@),
            recv_wf(final(self)@),
    {
        match self.phase {
            RecvPhase::AwaitHeader => {
                let soh = match e {
                    RecvEvent::Byte(x) => x == SOH,
                    _ => false,
                };
                if soh {
                    self.phase = RecvPhase::HeaderBody;
                    RecvAction::ReadBlock(132)
                } else {
                    self.initial_errors = self.initial_errors + 1;
                    if self.initial_errors > self.config.max_initial_errors as u64 {
                        self.phase = RecvPhase::Finished;
                        self.failure = Some(YmodemError::ExhaustedRetries);
                        RecvAction::Abort { cancel: false, error: YmodemError::ExhaustedRetries }
                    } else {
                        RecvAction::Reply(one_byte(CRC))
                    }
                }
            },
            RecvPhase::HeaderBody => match e {
                RecvEvent::Block(b) => self.header_step_exec(b),
                _ => self.fail(RecvPhase::AwaitHeader),
            },
            RecvPhase::AwaitBlock => {
                let x: u16 = match e {
                    RecvEvent::Byte(x) => x as u16,
                    _ => 256,
                };
                if x == SOH as u16 || x == STX as u16 {
                    let size: usize = if x == SOH as u16 {
                        128
                    } else {
                        1024
                    };
                    self.phase = RecvPhase::BlockBody;
                    self.block_size = size;
                    RecvAction::ReadBlock(size + 4)
                } else if x == EOT as u16 {
                    if self.eots == 0 {
                        self.eots = 1;
                        RecvAction::Reply(one_byte(NAK))
                    } else {
                        self.eots = 2;
                        RecvAction::Reply(ack_c())
                    }
                } else {
                    self.errors = self.errors + 1;
                    if self.errors >= self.config.max_errors as u64 {
                        self.phase = RecvPhase::Finished;
                        self.failure = Some(YmodemError::ExhaustedRetries);
                        RecvAction::Abort { cancel: false, error: YmodemError::ExhaustedRetries }
                    } else {
                        RecvAction::Await
                    }
                }
            },
            RecvPhase::BlockBody => match e {
                RecvEvent::Block(b) => self.block_step_exec(b),
                _ => self.fail(RecvPhase::AwaitBlock),
            },
            RecvPhase::Finished => match self.failure {
                Some(err) => RecvAction::Abort { cancel: false, error: err },
                None => RecvAction::Complete,
            },
        }
    }
}

proof fn lemma_crc_bytes(c: u16)
    ensures
        ((((c >> 8u16) as u8) as int * 256 + ((c & 0xffu16) as u8) as int) as u16) == c,
{
    let hi = (c >> 8u16) as u8;
    let lo = (c & 0xffu16) as u8;
    assert((hi as u16) * 256u16 + (lo as u16) == c) by (bit_vector)
        requires
            hi == (c >> 8u16) as u8,
            lo == (c & 0xffu16) as u8,
    ;
}

/// Block 0 as the sender builds it is read back by the receiver as the
/// same file name and size, when the name holds no zero byte and the size
/// fits in 32 bits.
pub proof fn lemma_header_round_trip(s: RecvState, name: Seq<u8>, size: u64)
    requires
        s.phase == RecvPhase::HeaderBody,
        header_fits(name, size),
        size <= u32::MAX,
        forall|i: int| 0 <= i < name.len() ==> name[i] != 0,
    ensures
        ({
            let f = header_block(name, size);
            let (t, a) = recv_step(s, RecvEventView::Block(f.subrange(1, f.len() as int)));
            &&& t.phase == RecvPhase::AwaitBlock
            &&& t.name == name
            &&& t.file_size == size as u32
            &&& t.packet_num == 1
            &&& a == RecvActionView::Reply(seq![ACK, CRC])
        }),
{
    let d = decimal(size as nat);
    lemma_decimal_digits(size as nat);
    let fields = header_fields(name, size);
    let p = fields + zeros((128 - fields.len()) as nat);
    let f = header_block(name, size);
    let b = f.subrange(1, f.len() as int);
    assert(f =~= block_frame(SOH, 0, p));
    assert(b.len() == 132);
    assert(body_payload(b, 128) =~= p);
    lemma_crc_bytes(crc16_of(p));
    assert(carried_crc(b) == crc16_of(p));
    let n = name.len() as int;
    assert(p[n] == 0);
    assert forall|j: int| 0 <= j < n implies p[j] != 0 by {
        assert(p[j] == name[j]);
    }
    lemma_index_of_at(p, 0u8, n);
    let rest = p.subrange(n + 1, p.len() as int);
    assert forall|j: int| 0 <= j < d.len() implies rest[j] != 0 by {
        assert(rest[j] == d[j]);
        assert(is_digit(d[j]));
    }
    if d.len() < rest.len() {
        assert(rest[d.len() as int] == 0);
    }
    lemma_index_of_at(rest, 0u8, d.len() as int);
    assert(rest.subrange(0, d.len() as int) =~= d);
    lemma_keep_all_digits(d);
    assert(!is_digit(43u8));
    assert(d[0] != 43);
    assert(decimal_u32(d) == digits_u32(d));
    assert(parse_size(d, s.config.ignore_non_digits_on_file_size) == Some(size as u32));
    assert(p.subrange(0, n) =~= name);
}

/// A data block as the sender builds it, numbered as the receiver expects,
/// is acknowledged and its payload appended to the file.
pub proof fn lemma_block_round_trip(s: RecvState, payload: Seq<u8>)
    requires
        s.phase == RecvPhase::AwaitBlock,
        s.eots == 0,
        payload.len() == 128 || payload.len() == 1024,
    ensures
        ({
            let kind = block_kind(payload.len());
            let f = block_frame(kind, s.packet_num, payload);
            let (t1, a1) = recv_step(s, RecvEventView::Byte(kind));
            let (t2, a2) = recv_step(t1, RecvEventView::Block(f.subrange(1, f.len() as int)));
            &&& a1 == RecvActionView::ReadBlock(payload.len() + 4)
            &&& t2.phase == RecvPhase::AwaitBlock
            &&& t2.data == s.data + payload
            &&& t2.packet_num == ((s.packet_num + 1) % 256) as u8
            &&& a2 == RecvActionView::Reply(seq![ACK])
        }),
{
    let kind = block_kind(payload.len());
    let f = block_frame(kind, s.packet_num, payload);
    let b = f.subrange(1, f.len() as int);
    assert(body_payload(b, payload.len()) =~= payload);
    lemma_crc_bytes(crc16_of(payload));
    assert(carried_crc(b) == crc16_of(payload));
}

} // verus!
