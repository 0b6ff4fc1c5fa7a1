//! The sending side of a YMODEM batch transfer of one file, as a state
//! machine: each event that the channel or the file produced goes in, the
//! next thing to do on the channel or the file comes out.
//!
//! The header block (block 0) carries the file name, a zero byte and the
//! size in decimal; data blocks carry 1024 bytes, or 128 for a final
//! remainder of at most 128 bytes, padded with the pad byte; every block
//! ends with its CRC-16/XMODEM, high byte first.

use vstd::prelude::*;
use crate::header::{digits_value, is_digit};

verus! {

/// Start of a 128-byte block.
pub const SOH: u8 = 0x01;
/// Start of a 1024-byte block.
pub const STX: u8 = 0x02;
/// End of transmission.
pub const EOT: u8 = 0x04;
/// Acknowledge.
pub const ACK: u8 = 0x06;
/// Negative acknowledge.
pub const NAK: u8 = 0x15;
/// Cancel.
pub const CAN: u8 = 0x18;
/// The receiver's request for CRC mode, `C`.
pub const CRC: u8 = 0x43;

/// Milliseconds to leave the receiver after the end of the file.
pub const SETTLE_MS: u32 = 3000;

/// The CRC-16/XMODEM checksum of a byte sequence.
pub uninterp spec fn crc16_of(data: Seq<u8>) -> u16;

/// Relies on `crc::Crc::<u16>::checksum` with the `CRC_16_XMODEM`
/// algorithm: the checksum depends on the bytes alone.
#[verifier::external_body]
pub(crate) fn crc16(data: &[u8]) -> (r: u16)
    ensures
        r == crc16_of(data@),
{
    crc::Crc::<u16>::new(&crc::CRC_16_XMODEM).checksum(data)
}

/// Why a transfer stopped.
#[derive(Clone, Copy, Debug, PartialEq, Eq, Structural)]
pub enum YmodemError {
    /// The error budget ran out.
    ExhaustedRetries,
    /// The other side canceled the transfer, or a block carried the wrong
    /// number.
    Canceled,
    /// Block 0 announced no readable file size.
    InvalidHeader,
}

/// Configuration of a YMODEM transfer.
#[derive(Clone, Copy, Debug)]
pub struct Ymodem {
    /// Failed waits (timeouts and unexpected bytes) after the start at
    /// which the transfer gives up.
    pub max_errors: u32,
    /// Failed waits for the receiver's first `C` that are tolerated.
    pub max_initial_errors: u32,
    /// The byte that fills a short data block.
    pub pad_byte: u8,
    /// Whether a receiver drops all but the digits of the size field.
    pub ignore_non_digits_on_file_size: bool,
}

impl Ymodem {
    /// The usual configuration: 20 errors, 16 initial errors, pad `0x1A`.
    pub fn new() -> (r: Self)
        ensures
            r.max_errors == 20,
            r.max_initial_errors == 16,
            r.pad_byte == 0x1a,
            !r.ignore_non_digits_on_file_size,
    {
        Ymodem {
            max_errors: 20,
            max_initial_errors: 16,
            pad_byte: 0x1a,
            ignore_non_digits_on_file_size: false,
        }
    }
}

/// The decimal digits of `n`, in ASCII, most significant first.
pub open spec fn decimal(n: nat) -> Seq<u8>
    decreases n,
{
    if n < 10 {
        seq![(48 + n) as u8]
    } else {
        decimal(n / 10) + seq![(48 + n % 10) as u8]
    }
}

/// Writes `n` in decimal ASCII digits.
pub fn decimal_digits(n: u64) -> (r: Vec<u8>)
    ensures
        r@ == decimal(n as nat),
    decreases n,
{
    if n < 10 {
        let mut r: Vec<u8> = Vec::new();
        r.push((48 + n) as u8);
        assert(r@ =~= decimal(n as nat));
        r
    } else {
        let mut r = decimal_digits(n / 10);
        r.push((48 + n % 10) as u8);
        r
    }
}

/// A block on the wire: kind, number, its complement, payload, checksum.
pub open spec fn block_frame(kind: u8, num: u8, payload: Seq<u8>) -> Seq<u8> {
    seq![kind, num, (255 - num) as u8] + payload + seq![
        (crc16_of(payload) >> 8u16) as u8,
        (crc16_of(payload) & 0xffu16) as u8,
    ]
}

/// `n` zero bytes.
pub open spec fn zeros(n: nat) -> Seq<u8> {
    Seq::new(n, |i: int| 0u8)
}

/// The file name, a zero byte and the size in decimal.
pub open spec fn header_fields(name: Seq<u8>, size: u64) -> Seq<u8> {
    name + seq![0u8] + decimal(size as nat)
}

/// Whether the header fields fit in one 128-byte block.
pub open spec fn header_fits(name: Seq<u8>, size: u64) -> bool {
    header_fields(name, size).len() <= 128
}

/// Block 0 announcing the file.
pub open spec fn header_block(name: Seq<u8>, size: u64) -> Seq<u8> {
    let f = header_fields(name, size);
    block_frame(SOH, 0, f + zeros((128 - f.len()) as nat))
}

/// The empty block 0 that ends the batch.
pub open spec fn end_block() -> Seq<u8> {
    block_frame(SOH, 0, zeros(128))
}

/// `data` filled up to `size` bytes with `pad`; bytes past `size` are cut.
pub open spec fn padded(data: Seq<u8>, size: nat, pad: u8) -> Seq<u8> {
    Seq::new(size, |i: int| if i < data.len() { data[i] } else { pad })
}

/// The size of the next data block when `remaining` bytes are still due.
pub open spec fn block_size(remaining: int) -> nat {
    if remaining <= 128 {
        128
    } else {
        1024
    }
}

/// The kind byte of a data block of `size` bytes.
pub open spec fn block_kind(size: nat) -> u8 {
    if size == 128 {
        SOH
    } else {
        STX
    }
}

fn block_frame_exec(kind: u8, num: u8, payload: &Vec<u8>) -> (r: Vec<u8>)
    ensures
        r@ == block_frame(kind, num, payload@),
{
    let crc = crc16(payload.as_slice());
    let mut r: Vec<u8> = Vec::new();
    r.push(kind);
    r.push(num);
    r.push(255 - num);
    let mut i: usize = 0;
    while i < payload.len()
        invariant
            i <= payload@.len(),
            r@ == seq![kind, num, (255 - num) as u8] + payload@.subrange(0, i as int),
        decreases payload@.len() - i,
    {
        r.push(payload[i]);
        i += 1;
        assert(payload@.subrange(0, i as int) =~= payload@.subrange(0, i - 1) + seq![
            payload@[i - 1],
        ]);
    }
    r.push((crc >> 8u16) as u8);
    r.push((crc & 0xffu16) as u8);
    assert(payload@.subrange(0, payload@.len() as int) =~= payload@);
    assert(r@ =~= block_frame(kind, num, payload@));
    r
}

fn padded_exec(data: &Vec<u8>, size: usize, pad: u8) -> (r: Vec<u8>)
    ensures
        r@ == padded(data@, size as nat, pad),
{
    let mut r: Vec<u8> = Vec::new();
    let mut i: usize = 0;
    while i < size
        invariant
            i <= size,
            r@ =~= padded(data@, i as nat, pad),
        decreases size - i,
    {
        if i < data.len() {
            r.push(data[i]);
        } else {
            r.push(pad);
        }
        i += 1;
    }
    r
}

/// Builds block 0 for a file, or `None` when the name and the size do not
/// fit in 128 bytes.
pub fn header_block_exec(name: &[u8], size: u64) -> (r: Option<Vec<u8>>)
    ensures
        header_fits(name@, size) <==> r is Some,
        r matches Some(b) ==> b@ == header_block(name@, size),
{
    let digits = decimal_digits(size);
    if name.len() >= 128 || digits.len() > 127 - name.len() {
        return None;
    }
    let mut fields: Vec<u8> = Vec::new();
    fields.extend_from_slice(name);
    fields.push(0u8);
    fields.extend_from_slice(digits.as_slice());
    assert(fields@ =~= header_fields(name@, size));
    let payload = padded_exec(&fields, 128, 0u8);
    assert(payload@ =~= fields@ + zeros((128 - fields@.len()) as nat));
    Some(block_frame_exec(SOH, 0, &payload))
}

/// Builds the empty block 0 that ends the batch.
pub fn end_block_exec() -> (r: Vec<u8>)
    ensures
        r@ == end_block(),
{
    let empty: Vec<u8> = Vec::new();
    let payload = padded_exec(&empty, 128, 0u8);
    assert(payload@ =~= zeros(128));
    block_frame_exec(SOH, 0, &payload)
}

/// Where a sender stands: what it waits for.
#[derive(Clone, Copy, Debug, PartialEq, Eq, Structural)]
pub enum SendPhase {
    /// The receiver's first `C`.
    AwaitStart,
    /// The acknowledgement of block 0.
    AwaitHeaderAck,
    /// The `C` that follows it.
    AwaitHeaderReady,
    /// The next piece of the file.
    AwaitData,
    /// The acknowledgement of a data block.
    AwaitBlockAck,
    /// The acknowledgement of the end of transmission.
    AwaitEotAck,
    /// Whatever the receiver says after it.
    AwaitEotReply,
    /// The pause that lets the receiver store the file.
    Settle,
    /// The acknowledgement of the closing block 0.
    AwaitEndAck,
    /// Whatever the receiver says after it.
    AwaitEndReply,
    /// Nothing: the transfer is over.
    Finished,
}

/// What happened since the last action.
pub enum SendEvent {
    /// The channel delivered a byte.
    Byte(u8),
    /// The channel delivered nothing in time.
    Timeout,
    /// The file delivered these bytes; none at its end.
    Data(Vec<u8>),
    /// A drain or a pause is over.
    Done,
}

/// What to do next.
pub enum SendAction {
    /// Wait for one byte from the channel.
    Await,
    /// Write these bytes to the channel, then wait for one byte.
    SendAndAwait(Vec<u8>),
    /// Read up to this many bytes from the file.
    ReadData(usize),
    /// Read and drop whatever the channel holds, then report `Done`.
    Drain,
    /// Pause this many milliseconds, then report `Done`.
    Sleep(u32),
    /// Stop with this error, after writing one cancel byte if `cancel`.
    Abort { cancel: bool, error: YmodemError },
    /// Stop: the file was delivered.
    Complete,
}

/// An event as a value.
pub ghost enum EventView {
    Byte(u8),
    Timeout,
    Data(Seq<u8>),
    Done,
}

/// An action as a value.
pub ghost enum ActionView {
    Await,
    SendAndAwait(Seq<u8>),
    ReadData(nat),
    Drain,
    Sleep(u32),
    Abort { cancel: bool, error: YmodemError },
    Complete,
}

impl View for SendEvent {
    type V = EventView;

    open spec fn view(&self) -> EventView {
        match self {
            SendEvent::Byte(b) => EventView::Byte(*b),
            SendEvent::Timeout => EventView::Timeout,
            SendEvent::Data(d) => EventView::Data(d@),
            SendEvent::Done => EventView::Done,
        }
    }
}

impl View for SendAction {
    type V = ActionView;

    open spec fn view(&self) -> ActionView {
        match self {
            SendAction::Await => ActionView::Await,
            SendAction::SendAndAwait(b) => ActionView::SendAndAwait(b@),
            SendAction::ReadData(n) => ActionView::ReadData(*n as nat),
            SendAction::Drain => ActionView::Drain,
            SendAction::Sleep(ms) => ActionView::Sleep(*ms),
            SendAction::Abort { cancel, error } => ActionView::Abort {
                cancel: *cancel,
                error: *error,
            },
            SendAction::Complete => ActionView::Complete,
        }
    }
}

/// The state of a sender as a value.
pub ghost struct SenderState {
    pub config: Ymodem,
    pub phase: SendPhase,
    /// Failed waits since the start.
    pub errors: nat,
    /// Failed waits for the first `C`.
    pub initial_errors: nat,
    /// Cancel bytes in a row while waiting for the first `C`.
    pub cancels: nat,
    /// Block 0 of this file.
    pub header: Seq<u8>,
    /// The last block written, sent again when it is not acknowledged.
    pub resend: Seq<u8>,
    pub file_size: u64,
    /// File bytes put into blocks so far.
    pub sent: u64,
    /// The number of the last data block, modulo 256.
    pub block_num: u8,
    /// Why the transfer stopped, once it failed.
    pub failure: Option<YmodemError>,
}

/// The counters stay within the budgets while the transfer runs.
pub open spec fn sender_wf(s: SenderState) -> bool {
    &&& s.errors <= s.config.max_errors + 1
    &&& s.initial_errors <= s.config.max_initial_errors + 1
    &&& s.cancels <= 2
    &&& s.phase != SendPhase::Finished ==> {
        &&& s.errors <= s.config.max_errors
        &&& s.initial_errors <= s.config.max_initial_errors
        &&& s.cancels < 2
    }
}

/// A sender that has not heard from the receiver yet.
pub open spec fn initial_sender(config: Ymodem, name: Seq<u8>, size: u64) -> SenderState {
    SenderState {
        config,
        phase: SendPhase::AwaitStart,
        errors: 0,
        initial_errors: 0,
        cancels: 0,
        header: header_block(name, size),
        resend: header_block(name, size),
        file_size: size,
        sent: 0,
        block_num: 0,
        failure: None,
    }
}

/// The size of the next data block of a sender.
pub open spec fn next_block_size(s: SenderState) -> nat {
    block_size(s.file_size - s.sent)
}

/// A failed wait: one more error, and the end once the budget is spent;
/// otherwise phase `then` with action `retry`.
pub open spec fn failed_wait(s: SenderState, then: SendPhase, retry: ActionView) -> (
    SenderState,
    ActionView,
) {
    let e = s.errors + 1;
    if e >= s.config.max_errors {
        (
            SenderState {
                errors: e,
                phase: SendPhase::Finished,
                failure: Some(YmodemError::ExhaustedRetries),
                ..s
            },
            ActionView::Abort { cancel: false, error: YmodemError::ExhaustedRetries },
        )
    } else {
        (SenderState { errors: e, phase: then, ..s }, retry)
    }
}

/// Waiting for the first `C`: a `C` starts the transfer; two cancel bytes
/// in a row end it; anything else counts against the initial budget, and
/// exceeding that budget ends it with a cancel byte.
pub open spec fn start_step(s: SenderState, e: EventView) -> (SenderState, ActionView) {
    if e == EventView::Byte(CRC) {
        (
            SenderState { phase: SendPhase::AwaitHeaderAck, cancels: 0, ..s },
            ActionView::SendAndAwait(s.header),
        )
    } else {
        let c = if e == EventView::Byte(CAN) {
            s.cancels + 1
        } else {
            0
        };
        let i = s.initial_errors + 1;
        if c >= 2 {
            (
                SenderState {
                    cancels: c,
                    initial_errors: i,
                    phase: SendPhase::Finished,
                    failure: Some(YmodemError::Canceled),
                    ..s
                },
                ActionView::Abort { cancel: false, error: YmodemError::Canceled },
            )
        } else if i > s.config.max_initial_errors {
            (
                SenderState {
                    cancels: c,
                    initial_errors: i,
                    phase: SendPhase::Finished,
                    failure: Some(YmodemError::ExhaustedRetries),
                    ..s
                },
                ActionView::Abort { cancel: true, error: YmodemError::ExhaustedRetries },
            )
        } else {
            (SenderState { cancels: c, initial_errors: i, ..s }, ActionView::Await)
        }
    }
}

/// `a + b`, or the largest `u64` when that does not fit.
pub open spec fn add_capped(a: u64, b: nat) -> u64 {
    if a + b <= u64::MAX {
        (a + b) as u64
    } else {
        u64::MAX
    }
}

/// A piece of the file: none ends the data and sends the end of
/// transmission; otherwise it goes out as the next numbered block.
pub open spec fn data_step(s: SenderState, d: Seq<u8>) -> (SenderState, ActionView) {
    if d.len() == 0 {
        (
            SenderState { phase: SendPhase::AwaitEotAck, resend: seq![EOT], ..s },
            ActionView::SendAndAwait(seq![EOT]),
        )
    } else {
        let size = next_block_size(s);
        let num = ((s.block_num + 1) % 256) as u8;
        let frame = block_frame(block_kind(size), num, padded(d, size, s.config.pad_byte));
        let n = if d.len() < size {
            d.len()
        } else {
            size
        };
        (
            SenderState {
                phase: SendPhase::AwaitBlockAck,
                block_num: num,
                sent: add_capped(s.sent, n),
                resend: frame,
                ..s
            },
            ActionView::SendAndAwait(frame),
        )
    }
}

/// The action that a finished sender repeats.
pub open spec fn final_action(s: SenderState) -> ActionView {
    match s.failure {
        Some(err) => ActionView::Abort { cancel: false, error: err },
        None => ActionView::Complete,
    }
}

/// One step of the sender: the next state and action after event `e`.
pub open spec fn send_step(s: SenderState, e: EventView) -> (SenderState, ActionView) {
    match s.phase {
        SendPhase::AwaitStart => start_step(s, e),
        SendPhase::AwaitHeaderAck => if e == EventView::Byte(ACK) {
            (SenderState { phase: SendPhase::AwaitHeaderReady, ..s }, ActionView::Await)
        } else {
            failed_wait(s, SendPhase::AwaitHeaderAck, ActionView::SendAndAwait(s.header))
        },
        SendPhase::AwaitHeaderReady => if e == EventView::Byte(CRC) {
            (
                SenderState { phase: SendPhase::AwaitData, ..s },
                ActionView::ReadData(next_block_size(s)),
            )
        } else {
            failed_wait(s, SendPhase::AwaitHeaderAck, ActionView::SendAndAwait(s.header))
        },
        SendPhase::AwaitData => match e {
            EventView::Data(d) => data_step(s, d),
            _ => (s, ActionView::ReadData(next_block_size(s))),
        },
        SendPhase::AwaitBlockAck => if e == EventView::Byte(ACK) {
            (
                SenderState { phase: SendPhase::AwaitData, ..s },
                ActionView::ReadData(next_block_size(s)),
            )
        } else {
            failed_wait(s, SendPhase::AwaitBlockAck, ActionView::SendAndAwait(s.resend))
        },
        SendPhase::AwaitEotAck => if e == EventView::Byte(ACK) {
            (SenderState { phase: SendPhase::AwaitEotReply, ..s }, ActionView::Drain)
        } else {
            failed_wait(s, SendPhase::AwaitEotReply, ActionView::Drain)
        },
        SendPhase::AwaitEotReply => (
            SenderState { phase: SendPhase::Settle, ..s },
            ActionView::Sleep(SETTLE_MS),
        ),
        SendPhase::Settle => (
            SenderState { phase: SendPhase::AwaitEndAck, resend: end_block(), ..s },
            ActionView::SendAndAwait(end_block()),
        ),
        SendPhase::AwaitEndAck => if e == EventView::Byte(ACK) {
            (SenderState { phase: SendPhase::AwaitEndReply, ..s }, ActionView::Drain)
        } else {
            failed_wait(s, SendPhase::AwaitEndAck, ActionView::SendAndAwait(s.resend))
        },
        SendPhase::AwaitEndReply => (
            SenderState { phase: SendPhase::Finished, ..s },
            ActionView::Complete,
        ),
        SendPhase::Finished => (s, final_action(s)),
    }
}

fn copy_bytes(v: &Vec<u8>) -> (r: Vec<u8>)
    ensures
        r@ == v@,
{
    let mut r: Vec<u8> = Vec::new();
    let mut i: usize = 0;
    while i < v.len()
        invariant
            i <= v@.len(),
            r@ =~= v@.subrange(0, i as int),
        decreases v@.len() - i,
    {
        r.push(v[i]);
        i += 1;
    }
    r
}

/// The sending side of one transfer.
pub struct YmodemSender {
    config: Ymodem,
    phase: SendPhase,
    errors: u64,
    initial_errors: u64,
    cancels: u64,
    header: Vec<u8>,
    resend: Vec<u8>,
    file_size: u64,
    sent: u64,
    block_num: u8,
    failure: Option<YmodemError>,
}

impl View for YmodemSender {
    type V = SenderState;

    closed spec fn view(&self) -> SenderState {
        SenderState {
            config: self.config,
            phase: self.phase,
            errors: self.errors as nat,
            initial_errors: self.initial_errors as nat,
            cancels: self.cancels as nat,
            header: self.header@,
            resend: self.resend@,
            file_size: self.file_size,
            sent: self.sent,
            block_num: self.block_num,
            failure: self.failure,
        }
    }
}

impl YmodemSender {
    /// A sender for a file of `file_size` bytes called `name`, or `None` when
    /// the name and the size do not fit in block 0. Its first action is to
    /// wait for a byte.
    pub fn new(config: Ymodem, name: &[u8], file_size: u64) -> (r: Option<Self>)
        ensures
            header_fits(name@, file_size) <==> r is Some,
            r matches Some(s) ==> s@ == initial_sender(config, name@, file_size) && sender_wf(
                s@,
            ),
    {
        match header_block_exec(name, file_size) {
            Some(header) => {
                let resend = copy_bytes(&header);
                Some(
                    YmodemSender {
                        config,
                        phase: SendPhase::AwaitStart,
                        errors: 0,
                        initial_errors: 0,
                        cancels: 0,
                        header,
                        resend,
                        file_size,
                        sent: 0,
                        block_num: 0,
                        failure: None,
                    },
                )
            },
            None => None,
        }
    }

    /// What the sender waits for.
    pub fn phase(&self) -> (r: SendPhase)
        ensures
            r == self@.phase,
    {
        self.phase
    }

    /// Failed waits since the start.
    pub fn errors(&self) -> (r: u64)
        ensures
            r == self@.errors,
    {
        self.errors
    }

    fn block_size_exec(&self) -> (r: usize)
        ensures
            r == next_block_size(self@),
    {
        if self.sent >= self.file_size || self.file_size - self.sent <= 128 {
            128
        } else {
            1024
        }
    }

    fn fail(&mut self, then: SendPhase, retry: SendAction) -> (r: SendAction)
        requires
            sender_wf(old(self)@),
            old(self)@.phase != SendPhase::Finished,
            then != SendPhase::Finished,
        ensures
            (final(self)@, r@) == failed_wait(old(self)@, then, retry@),
            sender_wf(final(self)@),
    {
        self.errors = self.errors + 1;
        if self.errors >= self.config.max_errors as u64 {
            self.phase = SendPhase::Finished;
            self.failure = Some(YmodemError::ExhaustedRetries);
            SendAction::Abort { cancel: false, error: YmodemError::ExhaustedRetries }
        } else {
            self.phase = then;
            retry
        }
    }

    fn start_step_exec(&mut self, e: SendEvent) -> (r: SendAction)
        requires
            sender_wf(old(self)@),
            old(self)@.phase == SendPhase::AwaitStart,
        ensures
            (final(self)@, r@) == start_step(old(self)@, e@),
            sender_wf(final(self)@),
    {
        let (is_c, is_can) = match e {
            SendEvent::Byte(b) => (b == CRC, b == CAN),
            _ => (false, false),
        };
        if is_c {
            self.phase = SendPhase::AwaitHeaderAck;
            self.cancels = 0;
            return SendAction::SendAndAwait(copy_bytes(&self.header));
        }
        self.cancels = if is_can {
            self.cancels + 1
        } else {
            0
        };
        self.initial_errors = self.initial_errors + 1;
        if self.cancels >= 2 {
            self.phase = SendPhase::Finished;
            self.failure = Some(YmodemError::Canceled);
            SendAction::Abort { cancel: false, error: YmodemError::Canceled }
        } else if self.initial_errors > self.config.max_initial_errors as u64 {
            self.phase = SendPhase::Finished;
            self.failure = Some(YmodemError::ExhaustedRetries);
            SendAction::Abort { cancel: true, error: YmodemError::ExhaustedRetries }
        } else {
            SendAction::Await
        }
    }

    fn data_step_exec(&mut self, d: Vec<u8>) -> (r: SendAction)
        requires
            sender_wf(old(self)@),
            old(self)@.phase == SendPhase::AwaitData,
        ensures
            (final(self)@, r@) == data_step(old(self)@, d@),
            sender_wf(final(self)@),
    {
        if d.len() == 0 {
            self.phase = SendPhase::AwaitEotAck;
            let mut eot: Vec<u8> = Vec::new();
            eot.push(EOT);
            self.resend = copy_bytes(&eot);
            assert(eot@ =~= seq![EOT]);
            return SendAction::SendAndAwait(eot);
        }
        let size = self.block_size_exec();
        let num = self.block_num.wrapping_add(1);
        let kind = if size == 128 {
            SOH
        } else {
            STX
        };
        let payload = padded_exec(&d, size, self.config.pad_byte);
        let frame = block_frame_exec(kind, num, &payload);
        let n: u64 = if d.len() < size {
            d.len() as u64
        } else {
            size as u64
        };
        self.phase = SendPhase::AwaitBlockAck;
        self.block_num = num;
        self.sent = self.sent.saturating_add(n);
        self.resend = copy_bytes(&frame);
        SendAction::SendAndAwait(frame)
    }

    /// Takes in what happened since the last action and gives the next one.
    pub fn step(&mut self, e: SendEvent) -> (r: SendAction)
        requires
            sender_wf(old(self)@),
        ensures
            (final(self)@, r@) == send_step(old(self)@, e@),
            sender_wf(final(self)@),
    {
        let ack = match e {
            SendEvent::Byte(b) => b == ACK,
            _ => false,
        };
        match self.phase {
            SendPhase::AwaitStart => self.start_step_exec(e),
            SendPhase::AwaitHeaderAck => {
                if ack {
                    self.phase = SendPhase::AwaitHeaderReady;
                    SendAction::Await
                } else {
                    let retry = SendAction::SendAndAwait(copy_bytes(&self.header));
                    self.fail(SendPhase::AwaitHeaderAck, retry)
                }
            },
            SendPhase::AwaitHeaderReady => {
                let c = match e {
                    SendEvent::Byte(b) => b == CRC,
                    _ => false,
                };
                if c {
                    self.phase = SendPhase::AwaitData;
                    SendAction::ReadData(self.block_size_exec())
                } else {
                    let retry = SendAction::SendAndAwait(copy_bytes(&self.header));
                    self.fail(SendPhase::AwaitHeaderAck, retry)
                }
            },
            SendPhase::AwaitData => match e {
                SendEvent::Data(d) => self.data_step_exec(d),
                _ => SendAction::ReadData(self.block_size_exec()),
            },
            SendPhase::AwaitBlockAck => {
                if ack {
                    self.phase = SendPhase::AwaitData;
                    SendAction::ReadData(self.block_size_exec())
                } else {
                    let retry = SendAction::SendAndAwait(copy_bytes(&self.resend));
                    self.fail(SendPhase::AwaitBlockAck, retry)
                }
            },
            SendPhase::AwaitEotAck => {
                if ack {
                    self.phase = SendPhase::AwaitEotReply;
                    SendAction::Drain
                } else {
                    self.fail(SendPhase::AwaitEotReply, SendAction::Drain)
                }
            },
            SendPhase::AwaitEotReply => {
                self.phase = SendPhase::Settle;
                SendAction::Sleep(SETTLE_MS)
            },
            SendPhase::Settle => {
                self.phase = SendPhase::AwaitEndAck;
                self.resend = end_block_exec();
                SendAction::SendAndAwait(end_block_exec())
            },
            SendPhase::AwaitEndAck => {
                if ack {
                    self.phase = SendPhase::AwaitEndReply;
                    SendAction::Drain
                } else {
                    let retry = SendAction::SendAndAwait(copy_bytes(&self.resend));
                    self.fail(SendPhase::AwaitEndAck, retry)
                }
            },
            SendPhase::AwaitEndReply => {
                self.phase = SendPhase::Finished;
                SendAction::Complete
            },
            SendPhase::Finished => match self.failure {
                Some(err) => SendAction::Abort { cancel: false, error: err },
                None => SendAction::Complete,
            },
        }
    }
}

/// The state after `k` timeouts in a row.
pub open spec fn after_timeouts(s: SenderState, k: nat) -> SenderState
    decreases k,
{
    if k == 0 {
        s
    } else {
        send_step(after_timeouts(s, (k - 1) as nat), EventView::Timeout).0
    }
}

/// Whether the sender waits for the receiver's answer to a block, which
/// it sends again when the answer does not come. (The answer to the end of
/// transmission is waited for once only.)
pub open spec fn awaits_reply(p: SendPhase) -> bool {
    p == SendPhase::AwaitHeaderAck || p == SendPhase::AwaitHeaderReady || p
        == SendPhase::AwaitBlockAck || p == SendPhase::AwaitEndAck
}

/// The phase in which a sender waits again after a failed wait in `p`:
/// block 0 is sent again until both its acknowledgement and the `C`
/// after it came.
pub open spec fn retry_phase(p: SendPhase) -> SendPhase {
    if p == SendPhase::AwaitHeaderReady {
        SendPhase::AwaitHeaderAck
    } else {
        p
    }
}

/// While the budget lasts, each timeout costs one error and the sender
/// waits again for the same answer.
proof fn lemma_timeouts_count(s: SenderState, k: nat)
    requires
        awaits_reply(s.phase),
        s.errors == 0,
        k < s.config.max_errors,
    ensures
        after_timeouts(s, k) == (SenderState {
            errors: k,
            phase: if k == 0 {
                s.phase
            } else {
                retry_phase(s.phase)
            },
            ..s
        }),
    decreases k,
{
    if k > 0 {
        lemma_timeouts_count(s, (k - 1) as nat);
    }
}

/// A receiver that never answers a block: after exactly `max_errors`
/// failed waits the transfer ends with `ExhaustedRetries`, and not before.
pub proof fn lemma_silent_receiver_exhausts(s: SenderState, k: nat)
    requires
        awaits_reply(s.phase),
        s.errors == 0,
        1 <= k <= s.config.max_errors,
    ensures
        k < s.config.max_errors ==> after_timeouts(s, k).phase == retry_phase(s.phase),
        k == s.config.max_errors ==> {
            &&& after_timeouts(s, k).phase == SendPhase::Finished
            &&& after_timeouts(s, k).failure == Some(YmodemError::ExhaustedRetries)
            &&& send_step(after_timeouts(s, (k - 1) as nat), EventView::Timeout).1
                == ActionView::Abort { cancel: false, error: YmodemError::ExhaustedRetries }
        },
{
    if k < s.config.max_errors {
        lemma_timeouts_count(s, k);
    } else {
        lemma_timeouts_count(s, (k - 1) as nat);
    }
}

/// Before the first `C`, a silent receiver is waited for
/// `max_initial_errors` times; one more timeout ends the transfer with
/// `ExhaustedRetries` and a cancel byte.
pub proof fn lemma_silent_start_exhausts(s: SenderState, k: nat)
    requires
        s.phase == SendPhase::AwaitStart,
        s.initial_errors == 0,
        s.cancels == 0,
        k <= s.config.max_initial_errors + 1,
    ensures
        k <= s.config.max_initial_errors ==> after_timeouts(s, k) == (SenderState {
            initial_errors: k,
            ..s
        }),
        k == s.config.max_initial_errors + 1 ==> {
            &&& after_timeouts(s, k).phase == SendPhase::Finished
            &&& send_step(after_timeouts(s, (k - 1) as nat), EventView::Timeout).1
                == ActionView::Abort { cancel: true, error: YmodemError::ExhaustedRetries }
        },
    decreases k,
{
    if k > 0 {
        lemma_silent_start_exhausts(s, (k - 1) as nat);
    }
}

/// An empty file: block 0 still goes out, with size `0`; no data block
/// follows, and the end of transmission, the pause and the closing block
/// come as for any file.
pub proof fn lemma_empty_file(config: Ymodem, name: Seq<u8>)
    requires
        header_fits(name, 0),
    ensures
        header_fields(name, 0) == name + seq![0u8, 48u8],
        ({
            let s0 = initial_sender(config, name, 0);
            let (s1, a1) = send_step(s0, EventView::Byte(CRC));
            let (s2, a2) = send_step(s1, EventView::Byte(ACK));
            let (s3, a3) = send_step(s2, EventView::Byte(CRC));
            let (s4, a4) = send_step(s3, EventView::Data(seq![]));
            let (s5, a5) = send_step(s4, EventView::Byte(ACK));
            let (s6, a6) = send_step(s5, EventView::Done);
            let (s7, a7) = send_step(s6, EventView::Done);
            let (s8, a8) = send_step(s7, EventView::Byte(ACK));
            let (s9, a9) = send_step(s8, EventView::Done);
            &&& a1 == ActionView::SendAndAwait(header_block(name, 0))
            &&& a2 == ActionView::Await
            &&& a3 == ActionView::ReadData(128)
            &&& a4 == ActionView::SendAndAwait(seq![EOT])
            &&& s4.block_num == 0 && s4.sent == 0
            &&& a5 == ActionView::Drain
            &&& a6 == ActionView::Sleep(SETTLE_MS)
            &&& a7 == ActionView::SendAndAwait(end_block())
            &&& a8 == ActionView::Drain
            &&& a9 == ActionView::Complete
            &&& s9.phase == SendPhase::Finished && s9.errors == 0
        }),
{
    assert(decimal(0) == seq![48u8]);
    assert(header_fields(name, 0) =~= name + seq![0u8, 48u8]);
}

/// The decimal writing of `n` is a nonempty run of digits worth `n`.
pub proof fn lemma_decimal_digits(n: nat)
    ensures
        decimal(n).len() >= 1,
        forall|i: int| 0 <= i < decimal(n).len() ==> is_digit(#[trigger] decimal(n)[i]),
        digits_value(decimal(n)) == n,
    decreases n,
{
    if n >= 10 {
        lemma_decimal_digits(n / 10);
        let d = decimal(n);
        assert(d.drop_last() =~= decimal(n / 10));
        assert(d.last() == (48 + n % 10) as u8);
        assert(digits_value(d) == digits_value(d.drop_last()) * 10 + (d.last() - 48) as nat);
        assert(n == (n / 10) * 10 + n % 10) by (nonlinear_arith);
    } else {
        let d = decimal(n);
        assert(d.drop_last() =~= Seq::<u8>::empty());
        assert(digits_value(d) == digits_value(d.drop_last()) * 10 + (d.last() - 48) as nat);
    }
}

/// Until both the acknowledgement of block 0 and the `C` after it came,
/// each failed wait costs one error and sends block 0 again.
pub proof fn lemma_header_resent_until_ready(s: SenderState, e: EventView)
    requires
        s.phase == SendPhase::AwaitHeaderAck && e != EventView::Byte(ACK) || s.phase
            == SendPhase::AwaitHeaderReady && e != EventView::Byte(CRC),
        s.errors + 1 < s.config.max_errors,
    ensures
        send_step(s, e).0 == (SenderState {
            errors: s.errors + 1,
            phase: SendPhase::AwaitHeaderAck,
            ..s
        }),
        send_step(s, e).1 == ActionView::SendAndAwait(s.header),
{
}

/// The answer to the end of transmission is waited for once: anything but
/// an acknowledgement costs one error, and unless that spends the budget
/// the sender goes on to the pause and the closing block without sending
/// the end of transmission again.
pub proof fn lemma_eot_waited_once(s: SenderState, e: EventView)
    requires
        s.phase == SendPhase::AwaitEotAck,
        e != EventView::Byte(ACK),
    ensures
        send_step(s, e).0.errors == s.errors + 1,
        s.errors + 1 < s.config.max_errors ==> send_step(s, e).0.phase == SendPhase::AwaitEotReply
            && send_step(s, e).1 == ActionView::Drain,
        s.errors + 1 >= s.config.max_errors ==> send_step(s, e).1 == (ActionView::Abort {
            cancel: false,
            error: YmodemError::ExhaustedRetries,
        }),
{
}

} // verus!
