use icecc::channel::ReadOutcome;
use icecc::discovery::{DiscoveryAction, DiscoveryEvent, DEFAULT_TIMEOUT_MS, SCHEDULER_PORT};
use icecc::frame::{decode_frame_at, encode_frame, BULK_THRESHOLD, COMPRESSED_FLAG, MAX_FRAME_LEN};
use icecc::msg;
use icecc::wire::ProtocolError;
use icecc::{CompileJob, Language, Message, MessageChannel, Msg, MsgType, ScheduleDiscoverer};

fn round_trip(m: &Message) -> Message {
    let raw = m.as_raw_ptr().expect("fields fit");
    assert_eq!(raw.tag, m.kind().code());
    let back = Msg { tag: raw.tag, payload: raw.payload.clone() };
    Message::from_raw_ptr(&back).expect("decodes")
}

fn frame_of_message(m: &Message, bulk: bool) -> Vec<u8> {
    let raw = m.as_raw_ptr().unwrap();
    encode_frame(raw.tag, &raw.payload, bulk).unwrap()
}

#[test]
fn ping_round_trip() {
    let m = Message::Ping(msg::Ping::new());
    let raw = m.as_raw_ptr().unwrap();
    assert_eq!(raw.tag, 66);
    assert!(raw.payload.is_empty());
    assert!(matches!(round_trip(&m), Message::Ping(_)));
}

#[test]
fn monitor_stats_round_trip() {
    let mut s = msg::MonitorStats::new();
    s.set_host_id(7);
    s.set_message("load 3");
    let back = round_trip(&Message::MonitorStats(s));
    match back {
        Message::MonitorStats(s) => {
            assert_eq!(s.host_id(), 7);
            assert_eq!(s.message(), "load 3");
        }
        other => panic!("wrong variant {:?}", other),
    }
}

#[test]
fn zero_and_empty_fields_round_trip() {
    let s = msg::MonitorLocalJobBegin::new();
    assert_eq!(s.job_id(), 0);
    assert_eq!(s.filename(), "");
    match round_trip(&Message::MonitorLocalJobBegin(s)) {
        Message::MonitorLocalJobBegin(s) => {
            assert_eq!(s.job_id(), 0);
            assert_eq!(s.filename(), "");
        }
        other => panic!("wrong variant {:?}", other),
    }
}

#[test]
fn compile_job_round_trip() {
    let mut job = CompileJob::new();
    assert_eq!(job.job_id, 0);
    assert_eq!(job.language, Language::C);
    job.job_id = 42;
    job.language = Language::ObjectiveC;
    job.compiler_name = "clang".to_string();
    job.environment_version = "env-1".to_string();
    job.input_file = "a.m".to_string();
    job.output_file = "a.o".to_string();
    job.target_platform = "x86_64".to_string();
    match round_trip(&Message::CompileFile(msg::CompileFile { job })) {
        Message::CompileFile(c) => {
            assert_eq!(c.job.job_id, 42);
            assert_eq!(c.job.language, Language::ObjectiveC);
            assert_eq!(c.job.compiler_name, "clang");
            assert_eq!(c.job.environment_version, "env-1");
            assert_eq!(c.job.input_file, "a.m");
            assert_eq!(c.job.output_file, "a.o");
            assert_eq!(c.job.target_platform, "x86_64");
        }
        other => panic!("wrong variant {:?}", other),
    }
}

#[test]
fn file_chunk_and_text_round_trip() {
    let data: Vec<u8> = (0..=255u8).collect();
    match round_trip(&Message::FileChunk(msg::FileChunk { data: data.clone() })) {
        Message::FileChunk(c) => assert_eq!(c.data, data),
        other => panic!("wrong variant {:?}", other),
    }
    let t = "héllo wörld ✓".to_string();
    match round_trip(&Message::StatusText(msg::StatusText { text: t.clone() })) {
        Message::StatusText(s) => assert_eq!(s.text, t),
        other => panic!("wrong variant {:?}", other),
    }
}

#[test]
fn text_field_wire_bytes() {
    let m = Message::Text(msg::Text { text: "é".to_string() });
    let raw = m.as_raw_ptr().unwrap();
    assert_eq!(raw.tag, 91);
    assert_eq!(raw.payload, vec![0, 0, 0, 2, 0xc3, 0xa9]);
}

#[test]
fn language_codes() {
    assert_eq!(Language::CPlusPlus.code(), 1);
    assert_eq!(Language::from_code(3), Some(Language::Custom));
    assert_eq!(Language::from_code(4), None);
}

#[test]
fn unknown_and_reserved_tags_rejected() {
    for tag in [0u32, 64, 65, 68, 96, 0x7fff_ffff] {
        let raw = Msg { tag, payload: Vec::new() };
        assert!(matches!(Message::from_raw_ptr(&raw), Err(ProtocolError::UnknownMessageType)));
    }
    assert_eq!(MsgType::from_code(65), Some(MsgType::Unknown));
    assert_eq!(MsgType::from_code(68), Some(MsgType::Timeout));
    assert_eq!(MsgType::from_code(90), Some(MsgType::MonStats));
}

#[test]
fn truncated_payload_is_malformed() {
    let raw = Msg { tag: MsgType::MonStats.code(), payload: vec![0, 0, 0, 3, 0, 0, 0, 9, b'a'] };
    assert!(matches!(Message::from_raw_ptr(&raw), Err(ProtocolError::MalformedPayload)));
    let bad_utf8 = Msg { tag: MsgType::Text.code(), payload: vec![0, 0, 0, 1, 0xff] };
    assert!(matches!(Message::from_raw_ptr(&bad_utf8), Err(ProtocolError::MalformedPayload)));
    let bad_lang = Msg {
        tag: MsgType::GetCS.code(),
        payload: vec![0, 0, 0, 1, 0, 0, 0, 9],
    };
    assert!(matches!(Message::from_raw_ptr(&bad_lang), Err(ProtocolError::MalformedPayload)));
}

#[test]
fn frame_layout_exact() {
    let f = encode_frame(66, &[1, 2, 3], false).unwrap();
    assert_eq!(f, vec![0, 0, 0, 7, 0, 0, 0, 66, 1, 2, 3]);
}

#[test]
fn framing_round_trip_sizes_and_modes() {
    for n in [0usize, 1, BULK_THRESHOLD - 1, BULK_THRESHOLD, BULK_THRESHOLD + 1, 100_000] {
        let payload: Vec<u8> = (0..n).map(|i| (i % 7) as u8).collect();
        for bulk in [false, true] {
            let f = encode_frame(74, &payload, bulk).unwrap();
            let (m, used) = decode_frame_at(&f).unwrap();
            assert_eq!(m.tag, 74);
            assert_eq!(m.payload, payload);
            assert_eq!(used, f.len());
            let header = u32::from_be_bytes([f[4], f[5], f[6], f[7]]);
            let compressed = bulk && n > BULK_THRESHOLD;
            assert_eq!(header & COMPRESSED_FLAG != 0, compressed);
        }
    }
}

#[test]
fn bulk_compression_shrinks_repetitive_payload() {
    let payload = vec![b'x'; 50_000];
    let f = encode_frame(74, &payload, true).unwrap();
    assert!(f.len() < 10_000);
    let (m, _) = decode_frame_at(&f).unwrap();
    assert_eq!(m.payload, payload);
}

#[test]
fn oversized_frame_rejected() {
    let bytes = vec![0xff, 0xff, 0xff, 0xff, 0, 0, 0, 66];
    assert!(matches!(decode_frame_at(&bytes), Err(ProtocolError::MalformedFrame)));
    let too_short = vec![0, 0, 0, 2, 0, 0];
    assert!(matches!(decode_frame_at(&too_short), Err(ProtocolError::MalformedFrame)));
    let big = vec![0u8; MAX_FRAME_LEN as usize];
    assert!(matches!(encode_frame(74, &big, false), Err(ProtocolError::MalformedFrame)));
}

#[test]
fn incomplete_frame_waits() {
    let f = encode_frame(66, &[9, 9], false).unwrap();
    for k in 0..f.len() {
        assert!(matches!(decode_frame_at(&f[..k]), Err(ProtocolError::Incomplete)));
    }
}

#[test]
fn partial_reads_complete_only_at_end() {
    let mut s = msg::MonitorStats::new();
    s.set_host_id(1);
    s.set_message("partial");
    let f = frame_of_message(&Message::MonitorStats(s), false);
    let mut chan = MessageChannel::from_raw_ptr(5);
    let mut sent = 0;
    for chunk in f.chunks(3) {
        sent += chunk.len();
        let ready = chan.read_a_bit(ReadOutcome::Data(chunk.to_vec()));
        assert_eq!(ready, sent == f.len());
        assert_eq!(chan.has_message(), sent == f.len());
        if sent < f.len() {
            assert!(chan.recv().is_none());
        }
    }
    assert!(matches!(chan.recv(), Some(Message::MonitorStats(_))));
    assert!(!chan.has_message());
}

#[test]
fn ping_then_monitor_stats_reply() {
    let mut chan = MessageChannel::from_raw_ptr(3);
    assert_eq!(chan.fd(), 3);
    chan.bulk_transfer();
    assert!(chan.is_bulk());
    let out = chan.send(&Message::Ping(msg::Ping::new())).unwrap();
    assert_eq!(out, vec![0, 0, 0, 4, 0, 0, 0, 66]);
    let mut stats = msg::MonitorStats::new();
    stats.set_host_id(3);
    stats.set_message("busy");
    let reply = frame_of_message(&Message::MonitorStats(stats), false);
    chan.read_a_bit(ReadOutcome::Data(reply));
    match chan.recv() {
        Some(Message::MonitorStats(s)) => {
            assert_eq!(s.host_id(), 3);
            assert_eq!(s.message(), "busy");
        }
        other => panic!("unexpected {:?}", other),
    }
}

#[test]
fn eof_is_monotonic() {
    let mut chan = MessageChannel::from_raw_ptr(4);
    let f = frame_of_message(&Message::End(msg::End::new()), false);
    chan.read_a_bit(ReadOutcome::Data(f.clone()));
    chan.read_a_bit(ReadOutcome::Closed);
    assert!(!chan.eof());
    assert!(matches!(chan.recv(), Some(Message::End(_))));
    assert!(chan.eof());
    chan.read_a_bit(ReadOutcome::Data(f));
    assert!(chan.eof());
    assert!(chan.recv().is_none());
    assert!(chan.eof());
    assert!(chan.send(&Message::Ping(msg::Ping::new())).is_none());
}

#[test]
fn corrupt_frame_closes_channel() {
    let mut chan = MessageChannel::from_raw_ptr(4);
    chan.read_a_bit(ReadOutcome::Data(vec![0, 0, 0, 4, 0, 0, 0, 1]));
    assert!(chan.has_message());
    assert!(chan.recv().is_none());
    assert!(chan.is_closed());
    assert!(chan.eof());
    assert!(!chan.is_text_based());
}

#[test]
fn write_failure_closes_channel() {
    let mut chan = MessageChannel::from_raw_ptr(4);
    chan.write_failed();
    assert!(chan.is_closed());
    assert!(chan.eof());
}

#[test]
fn discovery_times_out_without_scheduler() {
    let mut d = ScheduleDiscoverer::new_with_options("net", "", 500);
    assert!(matches!(d.first_action(), DiscoveryAction::Broadcast { .. }));
    d.on_event(DiscoveryEvent::ListenOpened(9));
    assert_eq!(d.listen_fd(), 9);
    for t in [0u64, 100, 499, 500] {
        d.on_event(DiscoveryEvent::Tick(t));
        assert!(!d.timed_out());
        assert!(d.try_get_scheduler().is_none());
    }
    d.on_event(DiscoveryEvent::Tick(501));
    assert!(d.timed_out());
    assert!(d.try_get_scheduler().is_none());
    d.on_event(DiscoveryEvent::Tick(10));
    assert!(d.timed_out());
}

#[test]
fn default_timeout_applies() {
    let d = ScheduleDiscoverer::new(None);
    let mut d = d;
    d.on_event(DiscoveryEvent::Tick(DEFAULT_TIMEOUT_MS as u64));
    assert!(!d.timed_out());
    d.on_event(DiscoveryEvent::Tick(DEFAULT_TIMEOUT_MS as u64 + 1));
    assert!(d.timed_out());
}

#[test]
fn discovery_by_broadcast_reply() {
    let name = "lan".to_string();
    let mut d = ScheduleDiscoverer::new(Some(&name));
    match d.first_action() {
        DiscoveryAction::Broadcast { netname } => assert_eq!(netname, "lan"),
        other => panic!("unexpected {:?}", other),
    }
    let other_net = d.on_event(DiscoveryEvent::Reply {
        netname: "other".to_string(),
        host: "10.0.0.9".to_string(),
        port: 1,
    });
    assert!(matches!(other_net, DiscoveryAction::Wait));
    match d.on_event(DiscoveryEvent::Reply {
        netname: "lan".to_string(),
        host: "10.0.0.2".to_string(),
        port: 8765,
    }) {
        DiscoveryAction::Connect { host, port } => {
            assert_eq!(host, "10.0.0.2");
            assert_eq!(port, 8765);
        }
        other => panic!("unexpected {:?}", other),
    }
    let late = d.on_event(DiscoveryEvent::Reply {
        netname: "lan".to_string(),
        host: "10.0.0.3".to_string(),
        port: 8765,
    });
    assert!(matches!(late, DiscoveryAction::Wait));
    d.on_event(DiscoveryEvent::ConnectStarted(12));
    assert_eq!(d.connect_fd(), 12);
    assert!(d.try_get_scheduler().is_none());
    d.on_event(DiscoveryEvent::Connected);
    let chan = d.try_get_scheduler().expect("connected");
    assert_eq!(chan.fd(), 12);
    assert!(d.try_get_scheduler().is_none());
    d.on_event(DiscoveryEvent::Tick(1_000_000));
    assert!(!d.timed_out());
}

#[test]
fn explicit_scheduler_skips_broadcast() {
    let mut d = ScheduleDiscoverer::new_with_options("net", "sched.example", 1000);
    match d.first_action() {
        DiscoveryAction::Connect { host, port } => {
            assert_eq!(host, "sched.example");
            assert_eq!(port, SCHEDULER_PORT);
        }
        other => panic!("unexpected {:?}", other),
    }
    let ignored = d.on_event(DiscoveryEvent::Reply {
        netname: "net".to_string(),
        host: "10.0.0.2".to_string(),
        port: 8765,
    });
    assert!(matches!(ignored, DiscoveryAction::Wait));
    match d.on_event(DiscoveryEvent::ConnectFailed) {
        DiscoveryAction::Connect { host, .. } => assert_eq!(host, "sched.example"),
        other => panic!("unexpected {:?}", other),
    }
    d.on_event(DiscoveryEvent::ConnectStarted(8));
    d.on_event(DiscoveryEvent::Connected);
    assert_eq!(d.try_get_scheduler().unwrap().fd(), 8);
}

#[test]
fn compile_job_from_wire_bytes() {
    let mut job = CompileJob::new();
    job.job_id = 9;
    job.language = Language::CPlusPlus;
    job.compiler_name = "g++".to_string();
    let raw = Message::GetCS(msg::GetCS { job }).as_raw_ptr().unwrap();
    let back = CompileJob::from_raw_ptr(&raw.payload).expect("decodes");
    assert_eq!(back.job_id, 9);
    assert_eq!(back.language, Language::CPlusPlus);
    assert_eq!(back.compiler_name, "g++");
    assert_eq!(back.input_file, "");
    assert!(CompileJob::from_raw_ptr(&raw.payload[..10]).is_none());
    assert!(CompileJob::from_raw_ptr(&[0, 0, 0, 1, 0, 0, 0, 7]).is_none());
}

#[test]
fn oversized_prefix_closes_channel_on_read() {
    let mut chan = MessageChannel::from_raw_ptr(6);
    assert!(!chan.read_a_bit(ReadOutcome::Data(vec![0xff, 0xff])));
    assert!(!chan.is_closed());
    assert!(!chan.read_a_bit(ReadOutcome::Data(vec![0xff, 0xff, 0, 0, 0, 66])));
    assert!(!chan.has_message());
    assert!(chan.is_closed());
    assert!(chan.eof());
    assert!(chan.recv().is_none());
}

#[test]
fn undersized_prefix_closes_channel_on_read() {
    let mut chan = MessageChannel::from_raw_ptr(6);
    assert!(!chan.read_a_bit(ReadOutcome::Data(vec![0, 0, 0, 3, 1, 2, 3])));
    assert!(chan.is_closed());
    assert!(chan.eof());
}

#[test]
fn discovery_without_name_accepts_any_network() {
    let mut d = ScheduleDiscoverer::new(None);
    match d.on_event(DiscoveryEvent::Reply {
        netname: "somewhere".to_string(),
        host: "10.0.0.7".to_string(),
        port: 8765,
    }) {
        DiscoveryAction::Connect { host, port } => {
            assert_eq!(host, "10.0.0.7");
            assert_eq!(port, 8765);
        }
        other => panic!("unexpected {:?}", other),
    }
    let mut e = ScheduleDiscoverer::new_with_options("", "", 100);
    assert!(matches!(
        e.on_event(DiscoveryEvent::Reply { netname: String::new(), host: "h".to_string(), port: 1 }),
        DiscoveryAction::Connect { .. }
    ));
}
