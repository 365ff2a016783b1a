use bim_core::client::{
    dialect_named, pause_before_ms, HTTPClient, RunPhase, SpeedTestResult, SpeedtestNetTcpClient,
};
use bim_core::counter::LoadCounter;
use bim_core::endpoint::{get_address, Endpoint, IpAddress, SocketAddress};
use bim_core::samples::{PhaseStatus, SampleSeries, Throughput};
use bim_core::server::{HTTPServer, RequestMethod};
use bim_core::worker::{
    append_decimal, payload_chunk, Action, Dialect, Direction, Event, Stage, Worker,
    HTTP_CYCLE_BYTES,
};

fn v4(port: u16) -> SocketAddress {
    SocketAddress { ip: IpAddress::V4(0x7f00_0001), port }
}

fn v6(port: u16) -> SocketAddress {
    SocketAddress { ip: IpAddress::V6(1), port }
}

#[test]
fn endpoint_of_http_url() {
    let e = Endpoint::parse("http://Example.com/speed/garbage.php?x=1").unwrap();
    assert!(!e.tls);
    assert_eq!(e.host, "example.com");
    assert_eq!(e.port, 80);
    assert_eq!(e.path, "/speed/garbage.php");
}

#[test]
fn endpoint_of_https_url() {
    let e = Endpoint::parse("https://bench.im:8443").unwrap();
    assert!(e.tls);
    assert_eq!(e.host, "bench.im");
    assert_eq!(e.port, 8443);
    assert_eq!(e.path, "/");
    assert_eq!(Endpoint::parse("https://bench.im").unwrap().port, 443);
}

#[test]
fn endpoint_rejects_bad_urls() {
    assert!(Endpoint::parse("not a url").is_none());
    assert!(Endpoint::parse("unix:/run/socket").is_none());
    assert!(Endpoint::parse("foo://host/").is_none());
}

#[test]
fn address_of_wanted_family() {
    let addrs = vec![v4(1), v6(2), v4(3), v6(4)];
    assert_eq!(get_address(&addrs, false), Some(v4(1)));
    assert_eq!(get_address(&addrs, true), Some(v6(2)));
    assert_eq!(get_address(&vec![v4(1)], true), None);
    assert_eq!(get_address(&vec![], false), None);
}

#[test]
fn http_client_build() {
    let c = HTTPClient::build(
        "http://127.0.0.1:8080/dl".to_string(),
        "http://127.0.0.1:8080/ul".to_string(),
        false,
        8,
        &vec![v6(8080), v4(8080)],
    )
    .unwrap();
    assert_eq!(c.dialect, Dialect::Http);
    assert_eq!(c.threads, 8);
    assert_eq!(c.address, v4(8080));
    assert_eq!(c.download_endpoint.path, "/dl");
    assert_eq!(c.upload_endpoint.path, "/ul");
    assert_eq!(c.result(), SpeedTestResult::cancelled());
    assert_eq!(c.result().upload.status.text(), "取消");
}

#[test]
fn ipv6_wanted_but_only_ipv4_resolved() {
    let c = HTTPClient::build(
        "http://bench.im/dl".to_string(),
        "http://bench.im/ul".to_string(),
        true,
        1,
        &vec![v4(80)],
    );
    assert!(c.is_none());
    let r = SpeedTestResult::failed();
    assert_eq!(r.upload.status, PhaseStatus::Failed);
    assert_eq!(r.download.speed, None);
    assert_eq!(r.ping, None);
}

#[test]
fn http_client_rejects_bad_upload_url() {
    let c = HTTPClient::build(
        "http://bench.im/dl".to_string(),
        "::".to_string(),
        false,
        1,
        &vec![v4(80)],
    );
    assert!(c.is_none());
}

#[test]
fn tcp_client_build() {
    let c = SpeedtestNetTcpClient::build("http://speedtest.example:8080".to_string(), false, 2, &vec![v4(8080)])
        .unwrap();
    assert_eq!(c.dialect, Dialect::TcpSpeedtest);
    assert_eq!(c.download_endpoint.port, 8080);
    assert!(SpeedtestNetTcpClient::build("bad".to_string(), false, 2, &vec![v4(8080)]).is_none());
}

#[test]
fn dialect_names() {
    assert_eq!(dialect_named("http"), Some(Dialect::Http));
    assert_eq!(dialect_named("tcp"), Some(Dialect::TcpSpeedtest));
    assert_eq!(dialect_named("udp"), None);
}

#[test]
fn decimal_text() {
    let mut s = String::from("n=");
    append_decimal(&mut s, 0);
    assert_eq!(s, "n=0");
    let mut s = String::new();
    append_decimal(&mut s, 18446744073709551615);
    assert_eq!(s, "18446744073709551615");
}

#[test]
fn http_download_request_text() {
    let e = Endpoint::parse("http://bench.im:8080/garbage.php").unwrap();
    let w = Worker::new(Dialect::Http, Direction::Download);
    assert_eq!(
        w.request(&e, 1700000000123),
        "GET /garbage.php?cors=true&r=1700000000123&ckSize=50&size=52428800 HTTP/1.1\r\nHost: bench.im:8080\r\nUser-Agent: bim/1.0\r\n\r\n"
    );
}

#[test]
fn http_upload_request_text() {
    let e = Endpoint::parse("https://bench.im/empty.php").unwrap();
    let w = Worker::new(Dialect::Http, Direction::Upload);
    assert_eq!(
        w.request(&e, 42),
        "POST /empty.php?r=42 HTTP/1.1\r\nHost: bench.im:443\r\nUser-Agent: bim/1.0\r\nContent-Length: 52428800\r\n\r\n"
    );
}

#[test]
fn tcp_commands() {
    let e = Endpoint::parse("http://bench.im").unwrap();
    let d = Worker::new(Dialect::TcpSpeedtest, Direction::Download);
    let u = Worker::new(Dialect::TcpSpeedtest, Direction::Upload);
    assert_eq!(d.request(&e, 1), "DOWNLOAD 16106127360\n");
    assert_eq!(u.request(&e, 1), "UPLOAD 16106127360 0\n");
}

#[test]
fn payload_is_the_pattern_64k() {
    let p = payload_chunk();
    assert_eq!(p.len(), 65536);
    assert!(p.starts_with("0123456789AaBb"));
    assert_eq!(&p[64..128], "0123456789AaBbCcDdEeFfGgHhIiJjKkLlMmNnOoPpQqRrSsTtUuVvWwXxYyZz-=");
}

#[test]
fn failed_connection_still_waits_then_stops() {
    let c = LoadCounter::new(0);
    let mut series = SampleSeries::new();
    let mut w = Worker::new(Dialect::Http, Direction::Download);
    assert_eq!(w.step(&c, Event::Connected(false)), Action::Stop);
    assert!(w.waited);
    assert_eq!(w.stage, Stage::Stopped);
    assert_eq!(w.step(&c, Event::Received(Some(10))), Action::Stop);
}

#[test]
fn http_download_flow_credits_reads() {
    let c = LoadCounter::new(0);
    let mut series = SampleSeries::new();
    let mut w = Worker::new(Dialect::Http, Direction::Download);
    assert_eq!(w.step(&c, Event::Connected(true)), Action::SendRequest);
    assert_eq!(w.step(&c, Event::Sent(Some(120))), Action::Receive);
    assert_eq!(w.step(&c, Event::Received(Some(300))), Action::Receive);
    assert_eq!(w.step(&c, Event::Received(Some(65536))), Action::Receive);
    assert_eq!(w.cycle, 65836);
    c.count(&mut series, 1);
    assert_eq!(series.clone().get(0).0, 65836);
    assert_eq!(w.step(&c, Event::Received(Some(0))), Action::Stop);
}

#[test]
fn http_download_first_read_empty_stops() {
    let c = LoadCounter::new(0);
    let mut series = SampleSeries::new();
    let mut w = Worker::new(Dialect::Http, Direction::Download);
    w.step(&c, Event::Connected(true));
    w.step(&c, Event::Sent(Some(120)));
    assert_eq!(w.step(&c, Event::Received(Some(0))), Action::Stop);
    assert_eq!(w.step(&c, Event::Received(None)), Action::Stop);
}

#[test]
fn http_cycle_complete_starts_new_request() {
    let w = Worker { dialect: Dialect::Http, direction: Direction::Download, stage: Stage::Streaming, cycle: HTTP_CYCLE_BYTES - 10, waited: true };
    let t = w.next(Event::Received(Some(10)), false);
    assert_eq!(t.action, Action::SendRequest);
    assert_eq!(t.credit, 10);
    assert_eq!(t.worker.stage, Stage::Requesting);
    let t = w.next(Event::Received(Some(5)), false);
    assert_eq!(t.action, Action::Receive);
    let t = w.next(Event::Received(Some(5)), true);
    assert_eq!(t.action, Action::Stop);
    assert_eq!(t.credit, 5);
}

#[test]
fn http_upload_credits_head_and_chunks() {
    let c = LoadCounter::new(0);
    let mut series = SampleSeries::new();
    let mut w = Worker::new(Dialect::Http, Direction::Upload);
    assert_eq!(w.step(&c, Event::Connected(true)), Action::SendRequest);
    assert_eq!(w.step(&c, Event::Sent(Some(110))), Action::SendPayload);
    assert_eq!(w.step(&c, Event::Sent(Some(65536))), Action::SendPayload);
    c.count(&mut series, 1);
    assert_eq!(series.clone().get(0).0, 110 + 65536);
    assert_eq!(w.step(&c, Event::Sent(None)), Action::Stop);
}

#[test]
fn tcp_download_drains_until_end() {
    let c = LoadCounter::new(0);
    let mut series = SampleSeries::new();
    let mut w = Worker::new(Dialect::TcpSpeedtest, Direction::Download);
    assert_eq!(w.step(&c, Event::Connected(true)), Action::SendRequest);
    assert_eq!(w.step(&c, Event::Sent(Some(21))), Action::Receive);
    assert_eq!(w.step(&c, Event::Received(Some(8))), Action::Receive);
    c.end();
    assert_eq!(w.step(&c, Event::Received(Some(100))), Action::Stop);
    c.count(&mut series, 1);
    assert_eq!(series.clone().get(0).0, 108);
}

#[test]
fn tcp_upload_writes_until_end() {
    let c = LoadCounter::new(0);
    let mut series = SampleSeries::new();
    let mut w = Worker::new(Dialect::TcpSpeedtest, Direction::Upload);
    assert_eq!(w.step(&c, Event::Connected(true)), Action::SendRequest);
    assert_eq!(w.step(&c, Event::Sent(Some(21))), Action::SendPayload);
    assert_eq!(w.step(&c, Event::Sent(Some(65536))), Action::SendPayload);
    c.end();
    assert_eq!(w.step(&c, Event::Sent(Some(65536))), Action::Stop);
}

#[test]
fn client_records_ping_and_phases() {
    let mut c = HTTPClient::build(
        "http://bench.im/dl".to_string(),
        "http://bench.im/ul".to_string(),
        false,
        1,
        &vec![v4(80)],
    )
    .unwrap();
    assert!(!c.ping(&[0; 6]));
    assert_eq!(c.result().ping, None);
    assert!(c.ping(&[3000, 2000, 2500, 0, 2000, 4000]));
    let p = c.result().ping.unwrap();
    assert_eq!(p.min_us, 2000);
    assert_eq!(p.deviation_us, 1000 + 500 + 2000);

    let mut s = SampleSeries::new();
    for i in 0..28u64 {
        s.record(i * 1_000_000, (i as u128 + 1) * 500_000);
    }
    c.record_load(Direction::Download, &s);
    let r = c.result();
    assert_eq!(r.download.speed, Some(Throughput { bits: 80_000_000, micros: 5_000_000 }));
    assert_eq!(r.download.status, PhaseStatus::Steady);
    assert_eq!(r.upload.status, PhaseStatus::Cancelled);

    let counter = LoadCounter::new(0);
    let mut series = SampleSeries::new();
    counter.count(&mut series, 1);
    c.record_load(Direction::Upload, &series);
    assert_eq!(c.result().upload.speed, None);
    assert_eq!(c.result().upload.status, PhaseStatus::Steady);
}

#[test]
fn client_worker_and_endpoint() {
    let c = SpeedtestNetTcpClient::build("http://bench.im:5060".to_string(), false, 1, &vec![v4(5060)]).unwrap();
    let w = c.worker(Direction::Upload);
    assert_eq!(w, Worker::new(Dialect::TcpSpeedtest, Direction::Upload));
    assert_eq!(c.endpoint(Direction::Download).port, 5060);
}

#[test]
fn server_replies() {
    let g = HTTPServer::reply(RequestMethod::Get);
    assert_eq!(g.head, "HTTP/1.1 200\r\n\r\n");
    assert_eq!(g.chunks, 800);
    let p = HTTPServer::reply(RequestMethod::Post);
    assert_eq!(p.head, "HTTP/1.1 200\r\n\r\n");
    assert_eq!(p.chunks, 0);
    let o = HTTPServer::reply(RequestMethod::Other);
    assert_eq!(o.head, "HTTP/1.1 500\r\n\r\n");
    assert_eq!(o.chunks, 0);
}

#[test]
fn server_build() {
    assert!(HTTPServer::build("127.0.0.1:8080".to_string(), false).is_none());
    let s = HTTPServer::build("127.0.0.1:8080".to_string(), true).unwrap();
    assert_eq!(s.address(), "127.0.0.1:8080");
}

#[test]
fn tls_only_for_https_over_http_dialect() {
    let secure = Endpoint::parse("https://bench.im/dl").unwrap();
    let plain = Endpoint::parse("http://bench.im/dl").unwrap();
    let h = Worker::new(Dialect::Http, Direction::Download);
    let t = Worker::new(Dialect::TcpSpeedtest, Direction::Download);
    assert!(h.uses_tls(&secure));
    assert!(!h.uses_tls(&plain));
    assert!(!t.uses_tls(&secure));
}

#[test]
fn run_phases_in_order() {
    let mut c = HTTPClient::build(
        "http://bench.im/dl".to_string(),
        "http://bench.im/ul".to_string(),
        false,
        1,
        &vec![v4(80)],
    )
    .unwrap();
    assert!(!c.ping(&[0; 6]));
    assert_eq!(c.next_phase(RunPhase::Ping), RunPhase::Done);
    assert!(c.ping(&[100, 0, 0, 0, 0, 0]));
    assert_eq!(c.next_phase(RunPhase::Ping), RunPhase::Upload);
    assert_eq!(c.next_phase(RunPhase::Upload), RunPhase::Download);
    assert_eq!(c.next_phase(RunPhase::Download), RunPhase::Done);
    assert_eq!(c.next_phase(RunPhase::Done), RunPhase::Done);
    assert_eq!(pause_before_ms(RunPhase::Upload), 2000);
    assert_eq!(pause_before_ms(RunPhase::Download), 3000);
    assert_eq!(pause_before_ms(RunPhase::Ping), 0);
    assert_eq!(c.download_endpoint.path, "/dl");
}
