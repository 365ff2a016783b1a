//! The load workers: the wire text they send, and the decisions they take
//! between one stream operation and the next. Whoever owns the stream performs
//! each `Action` and hands the outcome back as an `Event`.
use vstd::prelude::*;

use crate::counter::LoadCounter;
use crate::endpoint::Endpoint;

verus! {

/// Chunks of 1 MiB that one HTTP request cycle moves.
pub const HTTP_CHUNK_COUNT: u64 = 50;

/// Bytes one HTTP request cycle moves: 50 MiB.
pub const HTTP_CYCLE_BYTES: u64 = HTTP_CHUNK_COUNT * 1024 * 1024;

/// Size announced by the Speedtest.net TCP commands: 15 GiB.
pub const TCP_TRANSFER_BYTES: u64 = 15 * 1024 * 1024 * 1024;

/// Connection attempts a worker makes before giving up.
pub const CONNECT_ATTEMPTS: usize = 3;

/// Size of one read buffer and of one upload payload chunk: 64 KiB.
pub const CHUNK_BYTES: usize = 65536;

/// The two wire protocols.
#[derive(PartialEq, Eq, Structural, Clone, Copy, Debug)]
pub enum Dialect {
    Http,
    TcpSpeedtest,
}

/// Which way the payload flows.
#[derive(PartialEq, Eq, Structural, Clone, Copy, Debug)]
pub enum Direction {
    Upload,
    Download,
}

pub open spec fn digit(d: nat) -> Seq<char> {
    if d == 0 {
        "0"@
    } else if d == 1 {
        "1"@
    } else if d == 2 {
        "2"@
    } else if d == 3 {
        "3"@
    } else if d == 4 {
        "4"@
    } else if d == 5 {
        "5"@
    } else if d == 6 {
        "6"@
    } else if d == 7 {
        "7"@
    } else if d == 8 {
        "8"@
    } else {
        "9"@
    }
}

/// Decimal notation of `n`, without leading zeros.
pub open spec fn decimal(n: nat) -> Seq<char>
    decreases n,
{
    if n < 10 {
        digit(n)
    } else {
        decimal(n / 10) + digit(n % 10)
    }
}

fn digit_text(d: u64) -> (r: &'static str)
    requires
        d < 10,
    ensures
        r@ == digit(d as nat),
{
    if d == 0 {
        "0"
    } else if d == 1 {
        "1"
    } else if d == 2 {
        "2"
    } else if d == 3 {
        "3"
    } else if d == 4 {
        "4"
    } else if d == 5 {
        "5"
    } else if d == 6 {
        "6"
    } else if d == 7 {
        "7"
    } else if d == 8 {
        "8"
    } else {
        "9"
    }
}

/// Appends the decimal notation of `n`.
pub fn append_decimal(out: &mut String, n: u64)
    ensures
        final(out)@ == old(out)@ + decimal(n as nat),
    decreases n,
{
    if n >= 10 {
        append_decimal(out, n / 10);
    }
    out.append(digit_text(n % 10));
    assert(final(out)@ =~= old(out)@ + decimal(n as nat));
}

/// `host:port`, as the `Host` header carries it.
pub open spec fn host_port(ep: Endpoint) -> Seq<char> {
    ep.host@ + ":"@ + decimal(ep.port as nat)
}

/// The GET that starts one download cycle; `r` is the Unix time in ms.
pub open spec fn http_download_request(ep: Endpoint, unix_ms: u64) -> Seq<char> {
    "GET "@ + ep.path@ + "?cors=true&r="@ + decimal(unix_ms as nat) + "&ckSize="@ + decimal(
        HTTP_CHUNK_COUNT as nat,
    ) + "&size="@ + decimal(HTTP_CYCLE_BYTES as nat) + " HTTP/1.1\r\nHost: "@ + host_port(ep)
        + "\r\nUser-Agent: bim/1.0\r\n\r\n"@
}

/// The POST head that starts one upload cycle.
pub open spec fn http_upload_request(ep: Endpoint, unix_ms: u64) -> Seq<char> {
    "POST "@ + ep.path@ + "?r="@ + decimal(unix_ms as nat) + " HTTP/1.1\r\nHost: "@ + host_port(
        ep,
    ) + "\r\nUser-Agent: bim/1.0\r\nContent-Length: "@ + decimal(HTTP_CYCLE_BYTES as nat)
        + "\r\n\r\n"@
}

/// `DOWNLOAD <n>\n`.
pub open spec fn tcp_download_command() -> Seq<char> {
    "DOWNLOAD "@ + decimal(TCP_TRANSFER_BYTES as nat) + "\n"@
}

/// `UPLOAD <n> 0\n`.
pub open spec fn tcp_upload_command() -> Seq<char> {
    "UPLOAD "@ + decimal(TCP_TRANSFER_BYTES as nat) + " 0\n"@
}

pub open spec fn request_text(dialect: Dialect, direction: Direction, ep: Endpoint, unix_ms: u64) -> Seq<
    char,
> {
    match (dialect, direction) {
        (Dialect::Http, Direction::Download) => http_download_request(ep, unix_ms),
        (Dialect::Http, Direction::Upload) => http_upload_request(ep, unix_ms),
        (Dialect::TcpSpeedtest, Direction::Download) => tcp_download_command(),
        (Dialect::TcpSpeedtest, Direction::Upload) => tcp_upload_command(),
    }
}

fn append_host_port(out: &mut String, ep: &Endpoint)
    ensures
        final(out)@ == old(out)@ + host_port(*ep),
{
    out.append(ep.host.as_str());
    out.append(":");
    append_decimal(out, ep.port as u64);
    assert(final(out)@ =~= old(out)@ + host_port(*ep));
}

fn http_download_text(ep: &Endpoint, unix_ms: u64) -> (r: String)
    ensures
        r@ == http_download_request(*ep, unix_ms),
{
    let mut r = String::from_str("GET ");
    r.append(ep.path.as_str());
    r.append("?cors=true&r=");
    append_decimal(&mut r, unix_ms);
    r.append("&ckSize=");
    append_decimal(&mut r, HTTP_CHUNK_COUNT);
    r.append("&size=");
    append_decimal(&mut r, HTTP_CYCLE_BYTES);
    r.append(" HTTP/1.1\r\nHost: ");
    append_host_port(&mut r, ep);
    r.append("\r\nUser-Agent: bim/1.0\r\n\r\n");
    assert(r@ =~= http_download_request(*ep, unix_ms));
    r
}

fn http_upload_text(ep: &Endpoint, unix_ms: u64) -> (r: String)
    ensures
        r@ == http_upload_request(*ep, unix_ms),
{
    let mut r = String::from_str("POST ");
    r.append(ep.path.as_str());
    r.append("?r=");
    append_decimal(&mut r, unix_ms);
    r.append(" HTTP/1.1\r\nHost: ");
    append_host_port(&mut r, ep);
    r.append("\r\nUser-Agent: bim/1.0\r\nContent-Length: ");
    append_decimal(&mut r, HTTP_CYCLE_BYTES);
    r.append("\r\n\r\n");
    assert(r@ =~= http_upload_request(*ep, unix_ms));
    r
}

fn tcp_command_text(direction: Direction) -> (r: String)
    ensures
        direction is Download ==> r@ == tcp_download_command(),
        direction is Upload ==> r@ == tcp_upload_command(),
{
    match direction {
        Direction::Download => {
            let mut r = String::from_str("DOWNLOAD ");
            append_decimal(&mut r, TCP_TRANSFER_BYTES);
            r.append("\n");
            assert(r@ =~= tcp_download_command());
            r
        },
        Direction::Upload => {
            let mut r = String::from_str("UPLOAD ");
            append_decimal(&mut r, TCP_TRANSFER_BYTES);
            r.append(" 0\n");
            assert(r@ =~= tcp_upload_command());
            r
        },
    }
}

/// The 64-character pattern the upload payload repeats.
pub open spec fn payload_pattern() -> Seq<char> {
    "0123456789AaBbCcDdEeFfGgHhIiJjKkLlMmNnOoPpQqRrSsTtUuVvWwXxYyZz-="@
}

pub open spec fn repeated(s: Seq<char>, n: nat) -> Seq<char>
    decreases n,
{
    if n == 0 {
        Seq::empty()
    } else {
        repeated(s, (n - 1) as nat) + s
    }
}

/// One upload chunk: the pattern repeated 1024 times, 64 KiB.
pub fn payload_chunk() -> (r: String)
    ensures
        r@ == repeated(payload_pattern(), 1024),
{
    let pattern = "0123456789AaBbCcDdEeFfGgHhIiJjKkLlMmNnOoPpQqRrSsTtUuVvWwXxYyZz-=";
    let mut r = String::new();
    let mut i: usize = 0;
    while i < 1024
        invariant
            i <= 1024,
            pattern@ == payload_pattern(),
            r@ == repeated(payload_pattern(), i as nat),
        decreases 1024 - i,
    {
        r.append(pattern);
        i = i + 1;
    }
    r
}

/// Where a worker is in its protocol.
#[derive(PartialEq, Eq, Structural, Clone, Copy, Debug)]
pub enum Stage {
    /// Waiting for the outcome of the connection attempt.
    Connecting,
    /// A request or command is to be written.
    Requesting,
    /// The first read after a download request.
    FirstChunk,
    /// Moving payload within a request cycle.
    Streaming,
    /// Done; the worker thread may return.
    Stopped,
}

/// What the owner of the stream reports back.
#[derive(Clone, Copy, Debug)]
pub enum Event {
    /// The connection attempt succeeded or failed.
    Connected(bool),
    /// A write returned this many bytes, or failed.
    Sent(Option<usize>),
    /// A read returned this many bytes, or failed.
    Received(Option<usize>),
}

/// What the owner of the stream does next.
#[derive(PartialEq, Eq, Structural, Clone, Copy, Debug)]
pub enum Action {
    /// Write `Worker::request` whole.
    SendRequest,
    /// Write one `payload_chunk`.
    SendPayload,
    /// Read into a buffer of `CHUNK_BYTES`.
    Receive,
    /// Stop; the worker is done.
    Stop,
}

/// The state of one worker.
#[derive(PartialEq, Eq, Structural, Clone, Copy, Debug)]
pub struct Worker {
    pub dialect: Dialect,
    pub direction: Direction,
    pub stage: Stage,
    /// Bytes moved in the current HTTP request cycle.
    pub cycle: u64,
    /// Whether the worker has passed the start barrier.
    pub waited: bool,
}

/// The outcome of one transition: the next state, the next action, and the
/// bytes to credit to the phase counter.
#[derive(PartialEq, Eq, Structural, Clone, Copy, Debug)]
pub struct Transition {
    pub worker: Worker,
    pub action: Action,
    pub credit: u64,
}

pub open spec fn add_sat(a: u64, b: u64) -> u64 {
    if a + b > u64::MAX {
        u64::MAX
    } else {
        (a + b) as u64
    }
}

pub open spec fn stopped(w: Worker) -> Transition {
    Transition { worker: Worker { stage: Stage::Stopped, ..w }, action: Action::Stop, credit: 0 }
}

/// Carry on after `credit` bytes moved, `cycle` bytes into the request cycle:
/// stop once the end flag is seen; over HTTP, start a new request when the
/// cycle is complete; otherwise move the next chunk.
pub open spec fn proceed(w: Worker, cycle: u64, credit: u64, ended: bool) -> Transition {
    if ended {
        Transition {
            worker: Worker { stage: Stage::Stopped, cycle, ..w },
            action: Action::Stop,
            credit,
        }
    } else if w.dialect == Dialect::Http && cycle >= HTTP_CYCLE_BYTES {
        Transition {
            worker: Worker { stage: Stage::Requesting, cycle, ..w },
            action: Action::SendRequest,
            credit,
        }
    } else {
        Transition {
            worker: Worker { stage: Stage::Streaming, cycle, ..w },
            action: if w.direction == Direction::Upload {
                Action::SendPayload
            } else {
                Action::Receive
            },
            credit,
        }
    }
}

/// The worker's protocol, given the event and whether the end flag was seen.
pub open spec fn transition(w: Worker, ev: Event, ended: bool) -> Transition {
    match w.stage {
        Stage::Connecting => {
            let w1 = Worker { waited: true, ..w };
            match ev {
                Event::Connected(true) => if w.dialect == Dialect::Http && ended {
                    stopped(w1)
                } else {
                    Transition {
                        worker: Worker { stage: Stage::Requesting, cycle: 0, ..w1 },
                        action: Action::SendRequest,
                        credit: 0,
                    }
                },
                _ => stopped(w1),
            }
        },
        Stage::Requesting => match ev {
            Event::Sent(Some(n)) => if w.direction == Direction::Download {
                Transition {
                    worker: Worker { stage: Stage::FirstChunk, cycle: 0, ..w },
                    action: Action::Receive,
                    credit: 0,
                }
            } else {
                proceed(w, n as u64, n as u64, ended)
            },
            _ => stopped(w),
        },
        Stage::FirstChunk => match ev {
            Event::Received(Some(n)) => if n == 0 {
                stopped(w)
            } else {
                proceed(w, n as u64, n as u64, ended)
            },
            _ => stopped(w),
        },
        Stage::Streaming => match ev {
            Event::Received(Some(n)) => if w.direction == Direction::Upload || n == 0 {
                stopped(w)
            } else {
                proceed(w, add_sat(w.cycle, n as u64), n as u64, ended)
            },
            Event::Sent(Some(n)) => if w.direction == Direction::Download {
                stopped(w)
            } else {
                proceed(w, add_sat(w.cycle, n as u64), n as u64, ended)
            },
            _ => stopped(w),
        },
        Stage::Stopped => stopped(w),
    }
}

fn proceed_exec(w: Worker, cycle: u64, credit: u64, ended: bool) -> (r: Transition)
    ensures
        r == proceed(w, cycle, credit, ended),
{
    if ended {
        Transition {
            worker: Worker { stage: Stage::Stopped, cycle, ..w },
            action: Action::Stop,
            credit,
        }
    } else if w.dialect == Dialect::Http && cycle >= HTTP_CYCLE_BYTES {
        Transition {
            worker: Worker { stage: Stage::Requesting, cycle, ..w },
            action: Action::SendRequest,
            credit,
        }
    } else {
        let action = if w.direction == Direction::Upload {
            Action::SendPayload
        } else {
            Action::Receive
        };
        Transition { worker: Worker { stage: Stage::Streaming, cycle, ..w }, action, credit }
    }
}

fn stopped_exec(w: Worker) -> (r: Transition)
    ensures
        r == stopped(w),
{
    Transition { worker: Worker { stage: Stage::Stopped, ..w }, action: Action::Stop, credit: 0 }
}

impl Worker {
    /// A worker that has not yet tried to connect.
    pub fn new(dialect: Dialect, direction: Direction) -> (r: Worker)
        ensures
            r == (Worker { dialect, direction, stage: Stage::Connecting, cycle: 0, waited: false }),
    {
        Worker { dialect, direction, stage: Stage::Connecting, cycle: 0, waited: false }
    }

    /// Whether the worker's stream negotiates TLS: over HTTP when the
    /// endpoint asks for it; the TCP dialect talks plain TCP.
    pub fn uses_tls(&self, ep: &Endpoint) -> (r: bool)
        ensures
            r == (self.dialect == Dialect::Http && ep.tls),
    {
        self.dialect == Dialect::Http && ep.tls
    }

    /// The request or command this worker writes to start a transfer;
    /// `unix_ms` is the current Unix time in milliseconds.
    pub fn request(&self, ep: &Endpoint, unix_ms: u64) -> (r: String)
        ensures
            r@ == request_text(self.dialect, self.direction, *ep, unix_ms),
    {
        match self.dialect {
            Dialect::Http => match self.direction {
                Direction::Download => http_download_text(ep, unix_ms),
                Direction::Upload => http_upload_text(ep, unix_ms),
            },
            Dialect::TcpSpeedtest => tcp_command_text(self.direction),
        }
    }

    /// The transition for `ev` when the end flag reads `ended`.
    pub fn next(&self, ev: Event, ended: bool) -> (r: Transition)
        ensures
            r == transition(*self, ev, ended),
    {
        let w = *self;
        match self.stage {
            Stage::Connecting => {
                let w1 = Worker { waited: true, ..w };
                match ev {
                    Event::Connected(true) => if w.dialect == Dialect::Http && ended {
                        stopped_exec(w1)
                    } else {
                        Transition {
                            worker: Worker { stage: Stage::Requesting, cycle: 0, ..w1 },
                            action: Action::SendRequest,
                            credit: 0,
                        }
                    },
                    _ => stopped_exec(w1),
                }
            },
            Stage::Requesting => match ev {
                Event::Sent(Some(n)) => if w.direction == Direction::Download {
                    Transition {
                        worker: Worker { stage: Stage::FirstChunk, cycle: 0, ..w },
                        action: Action::Receive,
                        credit: 0,
                    }
                } else {
                    proceed_exec(w, n as u64, n as u64, ended)
                },
                _ => stopped_exec(w),
            },
            Stage::FirstChunk => match ev {
                Event::Received(Some(n)) => if n == 0 {
                    stopped_exec(w)
                } else {
                    proceed_exec(w, n as u64, n as u64, ended)
                },
                _ => stopped_exec(w),
            },
            Stage::Streaming => match ev {
                Event::Received(Some(n)) => if w.direction == Direction::Upload || n == 0 {
                    stopped_exec(w)
                } else {
                    proceed_exec(w, w.cycle.saturating_add(n as u64), n as u64, ended)
                },
                Event::Sent(Some(n)) => if w.direction == Direction::Download {
                    stopped_exec(w)
                } else {
                    proceed_exec(w, w.cycle.saturating_add(n as u64), n as u64, ended)
                },
                _ => stopped_exec(w),
            },
            Stage::Stopped => stopped_exec(w),
        }
    }

    /// Takes the step for `ev` against the phase counter: a worker still
    /// connecting first waits at the start barrier, whatever the outcome of
    /// its connection; the end flag is then read, and the credited bytes added
    /// to the counter.
    pub fn step(&mut self, counter: &LoadCounter, ev: Event) -> (a: Action)
        requires
            counter.wf(),
        ensures
            exists|ended: bool|
                {
                    let t = #[trigger] transition(*old(self), ev, ended);
                    t.worker == *final(self) && t.action == a
                },
    {
        if self.stage == Stage::Connecting {
            counter.wait();
        }
        let ended = counter.is_end();
        let t = self.next(ev, ended);
        if t.credit > 0 {
            counter.increase(t.credit);
        }
        *self = t.worker;
        t.action
    }
}

/// Every worker passes the start barrier exactly once, whether or not it
/// connected: the first event leaves the connecting stage with the barrier
/// passed, a failed connection stops the worker, and no later event returns
/// to the connecting stage or touches the barrier again.
pub proof fn lemma_barrier_passed_once(w: Worker, ev: Event, ended: bool)
    ensures
        transition(w, ev, ended).worker.stage != Stage::Connecting,
        w.stage == Stage::Connecting ==> transition(w, ev, ended).worker.waited,
        w.stage == Stage::Connecting && ev == Event::Connected(false) ==> transition(
            w,
            ev,
            ended,
        ).action == Action::Stop,
        w.stage != Stage::Connecting ==> transition(w, ev, ended).worker.waited == w.waited,
{
}

/// The bytes credited to the phase counter are the bytes the event reports
/// moved: nothing for a connection, a failure or a download request, and the
/// full count of every read or write of payload that carries on.
pub proof fn lemma_credit_is_bytes_moved(w: Worker, ev: Event, ended: bool)
    ensures
        match ev {
            Event::Sent(Some(n)) => {
                let t = transition(w, ev, ended);
                &&& t.credit == 0 || t.credit == n as u64
                &&& w.direction == Direction::Upload && (w.stage == Stage::Requesting || w.stage
                    == Stage::Streaming) ==> t.credit == n as u64
            },
            Event::Received(Some(n)) => {
                let t = transition(w, ev, ended);
                &&& t.credit == 0 || t.credit == n as u64
                &&& w.direction == Direction::Download && (w.stage == Stage::FirstChunk
                    || w.stage == Stage::Streaming) ==> t.credit == n as u64
            },
            _ => transition(w, ev, ended).credit == 0,
        },
{
}

/// A failed read or write, a read of 0 bytes (the peer closed), or a failed
/// connection stops the worker, whatever stage it is in.
pub proof fn lemma_failure_stops(w: Worker, ev: Event, ended: bool)
    requires
        ev == Event::Sent(None) || ev == Event::Received(None) || ev == Event::Received(Some(0))
            || ev == Event::Connected(false),
    ensures
        transition(w, ev, ended).action == Action::Stop,
        transition(w, ev, ended).worker.stage == Stage::Stopped,
{
}

/// A new request goes out only at the start, right after connecting (over
/// HTTP only with the end flag clear), or over HTTP once the 50 MiB cycle is
/// complete and the end flag clear. A raised end flag stops every worker that
/// is moving payload.
pub proof fn lemma_request_only_when_due(w: Worker, ev: Event, ended: bool)
    ensures
        transition(w, ev, ended).action == Action::SendRequest ==> (w.stage == Stage::Connecting
            && ev == Event::Connected(true) && (w.dialect == Dialect::TcpSpeedtest || !ended)) || (
        !ended && w.dialect == Dialect::Http && transition(w, ev, ended).worker.cycle
            >= HTTP_CYCLE_BYTES),
        ended && (w.stage == Stage::FirstChunk || w.stage == Stage::Streaming) ==> transition(
            w,
            ev,
            ended,
        ).action == Action::Stop,
{
}

} // verus!
