//! A measurement client: its configuration, built once per run, the decisions
//! of the controller, and the results of the three phases.
use vstd::prelude::*;

use crate::endpoint::{get_address, is_endpoint, Endpoint, SocketAddress};
use crate::ping::{min_nonzero, ping_summary, deviation_sum, PingSummary};
use crate::samples::{
    status_of, window_throughput, PhaseStatus, SampleSeries, Throughput, SAMPLE_COUNT,
};
use crate::worker::{Dialect, Direction, Stage, Worker};

verus! {

/// Sampling period of the controller, in milliseconds.
pub const SAMPLE_PERIOD_MS: u64 = 500;

/// The controller samples while less than this much time has passed, in µs.
pub const MEASURE_WINDOW_US: u128 = 14000000;

/// Pause between two worker launches, in milliseconds.
pub const LAUNCH_STAGGER_MS: u64 = 250;

/// Whether the controller takes another sample after `elapsed_us`.
pub fn keep_sampling(elapsed_us: u128) -> (r: bool)
    ensures
        r == (elapsed_us < MEASURE_WINDOW_US),
{
    elapsed_us < MEASURE_WINDOW_US
}

/// How many of the successive clock readings `ticks` the sampling loop
/// records: it records a reading, then goes on while it is inside the window.
pub open spec fn samples_taken(ticks: Seq<u128>) -> nat
    decreases ticks.len(),
{
    if ticks.len() == 0 {
        0
    } else if ticks[0] >= MEASURE_WINDOW_US {
        1
    } else {
        1 + samples_taken(ticks.drop_first())
    }
}

/// A phase completes normally when its `k`-th reading (from 0) falls in the
/// period after `k + 1` sampling periods.
pub open spec fn on_schedule(ticks: Seq<u128>) -> bool {
    forall|k: int|
        0 <= k < SAMPLE_COUNT ==> (k + 1) * 500000 <= #[trigger] ticks[k] < (k + 2) * 500000
}

proof fn lemma_taken_from(ticks: Seq<u128>, k: int)
    requires
        ticks.len() >= SAMPLE_COUNT,
        on_schedule(ticks),
        0 <= k < SAMPLE_COUNT,
    ensures
        samples_taken(ticks.subrange(k, ticks.len() as int)) == SAMPLE_COUNT - k,
    decreases SAMPLE_COUNT - k,
{
    let sub = ticks.subrange(k, ticks.len() as int);
    assert(sub[0] == ticks[k]);
    if k == SAMPLE_COUNT - 1 {
        assert(ticks[k] >= MEASURE_WINDOW_US);
    } else {
        assert(ticks[k] < MEASURE_WINDOW_US);
        lemma_taken_from(ticks, k + 1);
        assert(sub.drop_first() =~= ticks.subrange(k + 1, ticks.len() as int));
    }
}

/// A normally completing phase records exactly 28 samples, with strictly
/// increasing timestamps.
pub proof fn lemma_normal_phase_sample_count(ticks: Seq<u128>)
    requires
        ticks.len() >= SAMPLE_COUNT,
        on_schedule(ticks),
    ensures
        samples_taken(ticks) == SAMPLE_COUNT,
        forall|i: int, j: int| 0 <= i < j < SAMPLE_COUNT ==> #[trigger] ticks[i] < #[trigger] ticks[j],
{
    lemma_taken_from(ticks, 0);
    assert(ticks.subrange(0, ticks.len() as int) =~= ticks);
    assert forall|i: int, j: int| 0 <= i < j < SAMPLE_COUNT implies #[trigger] ticks[i]
        < #[trigger] ticks[j] by {
        assert(ticks[i] < (i + 2) * 500000);
        assert((j + 1) * 500000 <= ticks[j]);
    }
}

/// The outcome of one load phase.
#[derive(PartialEq, Eq, Structural, Clone, Copy, Debug)]
pub struct PhaseResult {
    /// `None` reads as 0 Mbit/s.
    pub speed: Option<Throughput>,
    pub status: PhaseStatus,
}

/// The six reported quantities of a run.
#[derive(PartialEq, Eq, Structural, Clone, Copy, Debug)]
pub struct SpeedTestResult {
    pub upload: PhaseResult,
    pub download: PhaseResult,
    /// `None` reads as 0 ms latency and jitter.
    pub ping: Option<PingSummary>,
}

/// No phase has run: both loads cancelled, no ping statistics.
pub open spec fn not_started() -> SpeedTestResult {
    let c = PhaseResult { speed: None, status: PhaseStatus::Cancelled };
    SpeedTestResult { upload: c, download: c, ping: None }
}

impl SpeedTestResult {
    /// A result from its parts.
    pub fn build(upload: PhaseResult, download: PhaseResult, ping: Option<PingSummary>) -> (r:
        SpeedTestResult)
        ensures
            r == (SpeedTestResult { upload, download, ping }),
    {
        SpeedTestResult { upload, download, ping }
    }

    /// The result of a run whose configuration could not be built.
    pub fn failed() -> (r: SpeedTestResult)
        ensures
            r.upload == (PhaseResult { speed: None, status: PhaseStatus::Failed }),
            r.download == (PhaseResult { speed: None, status: PhaseStatus::Failed }),
            r.ping is None,
    {
        let f = PhaseResult { speed: None, status: PhaseStatus::Failed };
        SpeedTestResult { upload: f, download: f, ping: None }
    }

    /// The result before any phase has run.
    pub fn cancelled() -> (r: SpeedTestResult)
        ensures
            r == not_started(),
    {
        let c = PhaseResult { speed: None, status: PhaseStatus::Cancelled };
        SpeedTestResult { upload: c, download: c, ping: None }
    }
}

/// What a phase yields from its recorded samples.
pub open spec fn phase_of(s: Seq<(u64, u128)>) -> PhaseResult {
    PhaseResult {
        speed: if s.len() >= SAMPLE_COUNT {
            Some(window_throughput(s))
        } else {
            None
        },
        status: status_of(s),
    }
}

/// The phases of a run, in order.
#[derive(PartialEq, Eq, Structural, Clone, Copy, Debug)]
pub enum RunPhase {
    Ping,
    Upload,
    Download,
    Done,
}

/// Ping, then upload, then download; a run whose ping phase failed stops.
pub open spec fn next_phase_of(current: RunPhase, ping_ok: bool) -> RunPhase {
    match current {
        RunPhase::Ping => if ping_ok {
            RunPhase::Upload
        } else {
            RunPhase::Done
        },
        RunPhase::Upload => RunPhase::Download,
        RunPhase::Download => RunPhase::Done,
        RunPhase::Done => RunPhase::Done,
    }
}

/// Pause before a phase starts, in milliseconds, so that the server side can
/// drain and close the sockets of the previous one.
pub fn pause_before_ms(phase: RunPhase) -> (r: u64)
    ensures
        r == (match phase {
            RunPhase::Upload => 2000u64,
            RunPhase::Download => 3000u64,
            _ => 0u64,
        }),
{
    match phase {
        RunPhase::Upload => 2000,
        RunPhase::Download => 3000,
        _ => 0,
    }
}

/// A configured measurement against one resolved server address.
pub struct Client {
    pub dialect: Dialect,
    pub download_endpoint: Endpoint,
    pub upload_endpoint: Endpoint,
    pub threads: u8,
    pub address: SocketAddress,
    pub result: SpeedTestResult,
}

/// The first address of the wanted family among `addrs`.
pub open spec fn chosen(addrs: Seq<SocketAddress>, ipv6: bool, a: SocketAddress) -> bool {
    exists|i: int|
        0 <= i < addrs.len() && addrs[i] == a && #[trigger] addrs[i].is_ipv6() == ipv6
            && forall|j: int| 0 <= j < i ==> #[trigger] addrs[j].is_ipv6() != ipv6
}

pub open spec fn has_family(addrs: Seq<SocketAddress>, ipv6: bool) -> bool {
    exists|i: int| 0 <= i < addrs.len() && #[trigger] addrs[i].is_ipv6() == ipv6
}

/// The HTTP dialect: GET and POST against a download and an upload URL.
pub struct HTTPClient;

impl HTTPClient {
    /// A client for the two URLs; `addrs` is what the download URL's
    /// `host:port` resolved to. `None` when a URL does not name a host and a
    /// port, or no address has the wanted family.
    pub fn build(
        download_url: String,
        upload_url: String,
        ipv6: bool,
        threads: u8,
        addrs: &Vec<SocketAddress>,
    ) -> (r: Option<Client>)
        ensures
            r is Some <==> is_endpoint(download_url@) && is_endpoint(upload_url@) && has_family(
                addrs@,
                ipv6,
            ),
            r is Some ==> r->0.dialect == Dialect::Http && r->0.threads == threads
                && r->0.download_endpoint.of(download_url@) && r->0.upload_endpoint.of(
                upload_url@,
            ) && chosen(addrs@, ipv6, r->0.address) && r->0.result
                == not_started(),
    {
        let download_endpoint = match Endpoint::parse(download_url.as_str()) {
            Some(e) => e,
            None => {
                return None;
            },
        };
        let upload_endpoint = match Endpoint::parse(upload_url.as_str()) {
            Some(e) => e,
            None => {
                return None;
            },
        };
        let address = match get_address(addrs, ipv6) {
            Some(a) => a,
            None => {
                return None;
            },
        };
        Some(
            Client {
                dialect: Dialect::Http,
                download_endpoint,
                upload_endpoint,
                threads,
                address,
                result: SpeedTestResult::cancelled(),
            },
        )
    }
}

/// The Speedtest.net TCP dialect: line commands against one server.
pub struct SpeedtestNetTcpClient;

impl SpeedtestNetTcpClient {
    /// A client for the server at `url`; `addrs` is what its `host:port`
    /// resolved to. `None` when the URL does not name a host and a port, or no
    /// address has the wanted family.
    pub fn build(url: String, ipv6: bool, threads: u8, addrs: &Vec<SocketAddress>) -> (r: Option<
        Client,
    >)
        ensures
            r is Some <==> is_endpoint(url@) && has_family(addrs@, ipv6),
            r is Some ==> r->0.dialect == Dialect::TcpSpeedtest && r->0.threads == threads
                && r->0.download_endpoint.of(url@) && r->0.upload_endpoint.of(url@) && chosen(
                addrs@,
                ipv6,
                r->0.address,
            ) && r->0.result == not_started(),
    {
        let download_endpoint = match Endpoint::parse(url.as_str()) {
            Some(e) => e,
            None => {
                return None;
            },
        };
        let upload_endpoint = match Endpoint::parse(url.as_str()) {
            Some(e) => e,
            None => {
                return None;
            },
        };
        let address = match get_address(addrs, ipv6) {
            Some(a) => a,
            None => {
                return None;
            },
        };
        Some(
            Client {
                dialect: Dialect::TcpSpeedtest,
                download_endpoint,
                upload_endpoint,
                threads,
                address,
                result: SpeedTestResult::cancelled(),
            },
        )
    }
}

/// Picks the client of the named dialect (`http` or `tcp`); the TCP dialect
/// talks to the server of the upload URL. `None` for another name.
pub fn dialect_named(name: &str) -> (r: Option<Dialect>)
    ensures
        r == (if name@ == "http"@ {
            Some(Dialect::Http)
        } else if name@ == "tcp"@ {
            Some(Dialect::TcpSpeedtest)
        } else {
            None
        }),
{
    let n = String::from_str(name);
    if n == String::from_str("http") {
        Some(Dialect::Http)
    } else if n == String::from_str("tcp") {
        Some(Dialect::TcpSpeedtest)
    } else {
        None
    }
}

impl Client {
    /// The endpoint the workers of a phase talk to.
    pub fn endpoint(&self, direction: Direction) -> (r: &Endpoint)
        ensures
            direction == Direction::Download ==> r == &self.download_endpoint,
            direction == Direction::Upload ==> r == &self.upload_endpoint,
    {
        match direction {
            Direction::Download => &self.download_endpoint,
            Direction::Upload => &self.upload_endpoint,
        }
    }

    /// A fresh worker of this client's dialect for a phase.
    pub fn worker(&self, direction: Direction) -> (r: Worker)
        ensures
            r == (Worker {
                dialect: self.dialect,
                direction,
                stage: Stage::Connecting,
                cycle: 0,
                waited: false,
            }),
    {
        Worker::new(self.dialect, direction)
    }

    /// Stores the ping statistics of six probes (µs, 0 for a failed probe);
    /// returns whether the run goes on, which it does unless every probe failed.
    pub fn ping(&mut self, probes: &[u64; 6]) -> (ok: bool)
        ensures
            ok <==> exists|i: int| 0 <= i < 6 && #[trigger] probes@[i] != 0,
            ok ==> final(self).result.ping == Some(
                PingSummary {
                    min_us: min_nonzero(probes@)->0,
                    deviation_us: deviation_sum(probes@, min_nonzero(probes@)->0) as u128,
                },
            ),
            !ok ==> final(self).result.ping is None,
            final(self).result.upload == old(self).result.upload,
            final(self).result.download == old(self).result.download,
            final(self).dialect == old(self).dialect,
            final(self).threads == old(self).threads,
            final(self).address == old(self).address,
            final(self).download_endpoint == old(self).download_endpoint,
            final(self).upload_endpoint == old(self).upload_endpoint,
    {
        let summary = ping_summary(probes);
        self.result.ping = summary;
        summary.is_some()
    }

    /// Stores what a finished phase yields from the controller's samples,
    /// once its workers have been joined.
    pub fn record_load(&mut self, direction: Direction, series: &SampleSeries)
        requires
            series.wf(),
        ensures
            direction == Direction::Upload ==> final(self).result.upload == phase_of(series@)
                && final(self).result.download == old(self).result.download,
            direction == Direction::Download ==> final(self).result.download == phase_of(
                series@,
            ) && final(self).result.upload == old(self).result.upload,
            final(self).result.ping == old(self).result.ping,
            final(self).dialect == old(self).dialect,
            final(self).threads == old(self).threads,
            final(self).address == old(self).address,
            final(self).download_endpoint == old(self).download_endpoint,
            final(self).upload_endpoint == old(self).upload_endpoint,
    {
        let speed = match series.speed() {
            Ok(t) => Some(t),
            Err(_) => None,
        };
        let phase = PhaseResult { speed, status: series.status() };
        match direction {
            Direction::Upload => self.result.upload = phase,
            Direction::Download => self.result.download = phase,
        }
    }

    /// The phase that follows `current`: the loads run only when the ping
    /// phase got an answer, upload before download.
    pub fn next_phase(&self, current: RunPhase) -> (r: RunPhase)
        ensures
            r == next_phase_of(current, self.result.ping is Some),
    {
        match current {
            RunPhase::Ping => if self.result.ping.is_some() {
                RunPhase::Upload
            } else {
                RunPhase::Done
            },
            RunPhase::Upload => RunPhase::Download,
            RunPhase::Download => RunPhase::Done,
            RunPhase::Done => RunPhase::Done,
        }
    }

    /// The result so far.
    pub fn result(&self) -> (r: SpeedTestResult)
        ensures
            r == self.result,
    {
        self.result
    }
}

} // verus!
