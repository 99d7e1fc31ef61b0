//! The vocabulary of the UMCG system call: its commands, its worker events, and the packing of a
//! worker's thread id together with an event kind into one word.
//!
//! A worker is known to the kernel by its *worker id*, which is its thread id moved five bits to
//! the left. An *event* is a worker id with the kind of the event in the five low bits.

use crate::text::{decimal, push_decimal};
use vstd::prelude::*;

verus! {

/// The number of the UMCG control system call.
pub const SYS_UMCG_CTL: i64 = 449;

/// How far a thread id is shifted to make a worker id.
pub const UMCG_WORKER_ID_SHIFT: u64 = 5;

/// The bits of an event that hold its kind.
pub const UMCG_WORKER_EVENT_MASK: u64 = 31;

/// The flag of a wait that is entered again after a signal cut it short.
pub const UMCG_WAIT_FLAG_INTERRUPTED: u64 = 1;

/// How long a server waits for a worker to register, in milliseconds.
pub const WORKER_REGISTRATION_TIMEOUT_MS: u64 = 5000;

/// How many events a server has room for when it switches to a worker.
pub const EVENT_BUFFER_SIZE: usize = 2;

/// What the control system call is asked to do.
#[derive(Debug, Copy, Clone, PartialEq, Eq, Structural)]
pub enum UmcgCmd {
    RegisterWorker,
    RegisterServer,
    Unregister,
    Wake,
    Wait,
    CtxSwitch,
}

/// What the kernel reports of a worker.
#[derive(Debug, Copy, Clone, PartialEq, Eq, Structural)]
pub enum UmcgEventType {
    Block,
    Wake,
    Wait,
    Exit,
    Timeout,
    Preempt,
}

/// The number by which the kernel knows a command.
pub open spec fn cmd_code(cmd: UmcgCmd) -> u64 {
    match cmd {
        UmcgCmd::RegisterWorker => 1,
        UmcgCmd::RegisterServer => 2,
        UmcgCmd::Unregister => 3,
        UmcgCmd::Wake => 4,
        UmcgCmd::Wait => 5,
        UmcgCmd::CtxSwitch => 6,
    }
}

/// The number by which the kernel knows an event kind.
pub open spec fn event_code(kind: UmcgEventType) -> u64 {
    match kind {
        UmcgEventType::Block => 1,
        UmcgEventType::Wake => 2,
        UmcgEventType::Wait => 3,
        UmcgEventType::Exit => 4,
        UmcgEventType::Timeout => 5,
        UmcgEventType::Preempt => 6,
    }
}

impl UmcgCmd {
    /// The number by which the kernel knows this command.
    pub fn code(self) -> (r: u64)
        ensures
            r == cmd_code(self),
    {
        match self {
            UmcgCmd::RegisterWorker => 1,
            UmcgCmd::RegisterServer => 2,
            UmcgCmd::Unregister => 3,
            UmcgCmd::Wake => 4,
            UmcgCmd::Wait => 5,
            UmcgCmd::CtxSwitch => 6,
        }
    }
}

impl UmcgEventType {
    /// The event kind that has this number, if there is one.
    pub fn from_u64(value: u64) -> (r: Option<UmcgEventType>)
        ensures
            match r {
                Some(kind) => event_code(kind) == value,
                None => value < 1 || value > 6,
            },
    {
        match value {
            1 => Some(UmcgEventType::Block),
            2 => Some(UmcgEventType::Wake),
            3 => Some(UmcgEventType::Wait),
            4 => Some(UmcgEventType::Exit),
            5 => Some(UmcgEventType::Timeout),
            6 => Some(UmcgEventType::Preempt),
            _ => None,
        }
    }

    /// The number by which the kernel knows this event kind.
    pub fn code(self) -> (r: u64)
        ensures
            r == event_code(self),
    {
        match self {
            UmcgEventType::Block => 1,
            UmcgEventType::Wake => 2,
            UmcgEventType::Wait => 3,
            UmcgEventType::Exit => 4,
            UmcgEventType::Timeout => 5,
            UmcgEventType::Preempt => 6,
        }
    }
}

/// The low 32 bits of `n`, read as a two's complement number.
pub open spec fn low_i32(n: nat) -> int {
    let low = n % 0x1_0000_0000;
    if low < 0x8000_0000 {
        low as int
    } else {
        low - 0x1_0000_0000
    }
}

/// The kind field of an event word.
pub open spec fn kind_of(event: u64) -> u64 {
    event % 32
}

/// The thread id that an event word or a worker id carries.
pub open spec fn tid_of(word: u64) -> i32 {
    low_i32((word / 32) as nat) as i32
}

/// The worker id of an event word: the word without its kind field.
pub open spec fn worker_of(event: u64) -> u64 {
    (event - event % 32) as u64
}

/// The worker id under which a thread registers.
pub open spec fn worker_id_of(tid: i32) -> u64 {
    ((tid * 32) % 0x1_0000_0000_0000_0000) as u64
}

/// The event word that reports `kind` of the worker with thread id `tid`.
pub open spec fn event_word(tid: i32, kind: UmcgEventType) -> u64 {
    (worker_id_of(tid) + event_code(kind)) as u64
}

/// Reads the kind field of an event.
pub fn event_kind(event: u64) -> (r: u64)
    ensures
        r == kind_of(event),
        r < 32,
{
    assert(event & 31 == event % 32) by (bit_vector);
    event & UMCG_WORKER_EVENT_MASK
}

/// Reads the thread id out of an event or a worker id.
pub fn event_tid(word: u64) -> (r: i32)
    ensures
        r == tid_of(word),
{
    let raw: u64 = word >> 5;
    assert(word >> 5 == word / 32) by (bit_vector);
    proof {
        lemma_low_i32(raw);
    }
    #[verifier::truncate]
    (raw as i32)
}

/// Reads the worker id out of an event.
pub fn event_worker(event: u64) -> (r: u64)
    ensures
        r == worker_of(event),
{
    assert(event & !31u64 == event - event % 32) by (bit_vector);
    event & !UMCG_WORKER_EVENT_MASK
}

/// The worker id under which the thread `tid` registers.
pub fn worker_id(tid: i32) -> (r: u64)
    ensures
        r == worker_id_of(tid),
{
    proof {
        lemma_shifted_tid(tid);
    }
    #[verifier::truncate]
    let wide: u64 = tid as u64;
    wide << 5
}

proof fn lemma_low_i32(raw: u64)
    ensures
        (raw as i32) as int == low_i32(raw as nat),
{
    assert(raw % 0x1_0000_0000 < 0x8000_0000 ==> (raw as i32) == raw % 0x1_0000_0000)
        by (bit_vector);
    assert(raw % 0x1_0000_0000 >= 0x8000_0000 ==> (raw as i32) == raw % 0x1_0000_0000
        - 0x1_0000_0000) by (bit_vector);
}

pub(crate) proof fn lemma_shifted_tid(tid: i32)
    ensures
        (tid as u64) << 5 == worker_id_of(tid),
{
    if tid >= 0 {
        assert((tid as u64) << 5 == tid * 32) by (bit_vector)
            requires
                tid >= 0,
        ;
    } else {
        assert((tid as u64) << 5 == tid * 32 + 0x1_0000_0000_0000_0000) by (bit_vector)
            requires
                tid < 0,
        ;
        assert((tid * 32) % 0x1_0000_0000_0000_0000 == tid * 32 + 0x1_0000_0000_0000_0000);
    }
}

/// A worker id and an event kind can be read back out of the event word made of them: the kind,
/// the worker id and the thread id all come back, for every thread id and every kind.
pub proof fn law_event_round_trip(tid: i32, kind: UmcgEventType)
    ensures
        kind_of(event_word(tid, kind)) == event_code(kind),
        worker_of(event_word(tid, kind)) == worker_id_of(tid),
        tid_of(event_word(tid, kind)) == tid,
        tid_of(worker_id_of(tid)) == tid,
{
    let id = worker_id_of(tid);
    let w = event_word(tid, kind);
    assert(id % 32 == 0);
    if tid >= 0 {
        assert(id == tid * 32);
        assert(id / 32 == tid);
    } else {
        assert(id == tid * 32 + 0x1_0000_0000_0000_0000);
        assert(id / 32 == tid + 0x800_0000_0000_0000);
        assert((tid + 0x800_0000_0000_0000) % 0x1_0000_0000 == tid + 0x1_0000_0000);
    }
    assert(w == id + event_code(kind));
    assert(w / 32 == id / 32);
}

/// The numbers of the event kinds tell them apart, and `from_u64` is the inverse of `code`.
pub proof fn law_event_codes_differ(a: UmcgEventType, b: UmcgEventType)
    ensures
        event_code(a) == event_code(b) ==> a == b,
        1 <= event_code(a) <= 6,
{
}

/// The arguments of one control system call, but for the address of the event buffer.
#[derive(Debug, Copy, Clone, PartialEq, Eq, Structural)]
pub struct UmcgCall {
    pub flags: u64,
    pub cmd: UmcgCmd,
    pub next_tid: i32,
    pub abs_timeout: u64,
    pub event_sz: i32,
}

/// A call with nothing but a command.
pub open spec fn plain_call(cmd: UmcgCmd) -> UmcgCall {
    UmcgCall { flags: 0, cmd, next_tid: 0, abs_timeout: 0, event_sz: 0 }
}

/// The call by which the thread with this id becomes a worker.
pub open spec fn registration(tid: i32) -> UmcgCall {
    UmcgCall {
        flags: 0,
        cmd: UmcgCmd::RegisterWorker,
        next_tid: 0,
        abs_timeout: worker_id_of(tid),
        event_sz: 0,
    }
}

impl UmcgCall {
    /// A call with nothing but a command.
    pub fn plain(cmd: UmcgCmd) -> (r: UmcgCall)
        ensures
            r == plain_call(cmd),
    {
        UmcgCall { flags: 0, cmd, next_tid: 0, abs_timeout: 0, event_sz: 0 }
    }

    /// The call by which the thread with this id becomes a worker.
    pub fn registration(tid: i32) -> (r: UmcgCall)
        ensures
            r == registration(tid),
    {
        UmcgCall {
            flags: 0,
            cmd: UmcgCmd::RegisterWorker,
            next_tid: 0,
            abs_timeout: worker_id(tid),
            event_sz: 0,
        }
    }

    /// The six words that go to the kernel behind the call's number, with `events` as the address
    /// of the event buffer (zero for none).
    pub fn args(&self, events: i64) -> (r: [i64; 6])
        ensures
            r@ == seq![
                self.flags as i64,
                cmd_code(self.cmd) as i64,
                self.next_tid as i64,
                self.abs_timeout as i64,
                events,
                self.event_sz as i64,
            ],
    {
        #[verifier::truncate]
        let flags: i64 = self.flags as i64;
        #[verifier::truncate]
        let timeout: i64 = self.abs_timeout as i64;
        let words: [i64; 6] = [
            flags,
            self.cmd.code() as i64,
            self.next_tid as i64,
            timeout,
            events,
            self.event_sz as i64,
        ];
        assert(words@ =~= seq![
            self.flags as i64,
            cmd_code(self.cmd) as i64,
            self.next_tid as i64,
            self.abs_timeout as i64,
            events,
            self.event_sz as i64,
        ]);
        words
    }
}

/// Shows a worker id whose upper half names a server and whose lower half names a thread.
pub fn debug_worker_id(worker_id: u64) -> (r: String)
    ensures
        r@ == "server:"@ + decimal((worker_id / 0x1_0000_0000) as nat) + " tid:"@ + decimal(
            (worker_id % 0x1_0000_0000) as nat,
        ) + " (raw:"@ + decimal(worker_id as nat) + ")"@,
{
    assert(worker_id >> 32 == worker_id / 0x1_0000_0000) by (bit_vector);
    assert(worker_id & 0xFFFF_FFFF == worker_id % 0x1_0000_0000) by (bit_vector);
    let mut s = String::from_str("server:");
    push_decimal(&mut s, worker_id >> 32);
    s.append(" tid:");
    push_decimal(&mut s, worker_id & 0xFFFF_FFFF);
    s.append(" (raw:");
    push_decimal(&mut s, worker_id);
    s.append(")");
    s
}

/// Where the parts of a word are: the kind is in the five low bits, the worker id is the rest in
/// its place, and the thread id is the rest moved five bits to the right, of which 32 bits are
/// kept. A thread's worker id is its thread id moved five bits to the left.
pub proof fn law_words_by_bits(word: u64, tid: i32)
    ensures
        kind_of(word) == word & 31,
        worker_of(word) == word & !31u64,
        tid_of(word) == (word >> 5) as i32,
        worker_id_of(tid) == (tid as u64) << 5,
        worker_of(word) + kind_of(word) == word,
{
    assert(word & 31 == word % 32) by (bit_vector);
    assert(word & !31u64 == word - word % 32) by (bit_vector);
    assert(word >> 5 == word / 32) by (bit_vector);
    lemma_low_i32(word >> 5);
    lemma_shifted_tid(tid);
}

/// The numbers of the commands tell them apart and are those from one to six.
pub proof fn law_cmd_codes_differ(a: UmcgCmd, b: UmcgCmd)
    ensures
        cmd_code(a) == cmd_code(b) ==> a == b,
        1 <= cmd_code(a) <= 6,
{
}

/// A call with nothing but a command has no flags, names no thread and no time limit, and has no
/// room for events; the one by which a thread becomes a worker differs from that only in that it
/// gives the worker id, from which the thread id can be read back.
pub proof fn law_plain_calls(cmd: UmcgCmd, tid: i32)
    ensures
        plain_call(cmd) == (UmcgCall { flags: 0, cmd, next_tid: 0, abs_timeout: 0, event_sz: 0 }),
        registration(tid) == (UmcgCall {
            abs_timeout: (tid as u64) << 5,
            ..plain_call(UmcgCmd::RegisterWorker)
        }),
        tid_of(registration(tid).abs_timeout) == tid,
        kind_of(registration(tid).abs_timeout) == 0,
{
    lemma_shifted_tid(tid);
    law_event_round_trip(tid, UmcgEventType::Block);
    assert(worker_id_of(tid) % 32 == 0);
}

/// The words of a call are in the order in which the kernel reads them, and keep their bits.
pub proof fn law_words_of_a_call(call: UmcgCall, events: i64, words: [i64; 6])
    requires
        call_ensures(UmcgCall::args, (&call, events), words),
    ensures
        words[0] == call.flags as i64,
        words[1] == cmd_code(call.cmd),
        words[2] == call.next_tid,
        words[3] == call.abs_timeout as i64,
        words[4] == events,
        words[5] == call.event_sz,
        call.flags <= i64::MAX ==> words[0] == call.flags,
        call.abs_timeout <= i64::MAX ==> words[3] == call.abs_timeout,
{
}

/// A worker id is shown as the server that its upper half names, the thread that its lower half
/// names, and the whole.
pub proof fn law_shown_worker_id(server: u32, tid: u32, worker_id: u64, text: String)
    requires
        worker_id == server * 0x1_0000_0000 + tid,
        call_ensures(debug_worker_id, (worker_id,), text),
    ensures
        text@ == "server:"@ + decimal(server as nat) + " tid:"@ + decimal(tid as nat) + " (raw:"@
            + decimal(worker_id as nat) + ")"@,
{
    assert(worker_id / 0x1_0000_0000 == server);
    assert(worker_id % 0x1_0000_0000 == tid);
}

} // verus!
