use demo_packet_dumper::capture::{classify, encode_raw_record, pull, Pulled};
use demo_packet_dumper::ingest::{Event, Ingest, Phase, RunConfig};
use tf_demo_parser::demo::packet::stop::StopPacket;
use tf_demo_parser::demo::packet::Packet;
use tf_demo_parser::demo::parser::{DemoHandler, RawPacketStream};
use tf_demo_parser::Demo;

#[test]
fn empty_stream_ends_the_run() {
    let bytes: Vec<u8> = Vec::new();
    let demo = Demo::new(&bytes);
    let handler = DemoHandler::default();
    let mut stream = RawPacketStream::new(demo.get_stream());
    let mut m = Ingest::new(RunConfig::new(true, false));
    match pull(&mut m, &mut stream, &handler.state_handler) {
        Pulled::Handled { event, action, .. } => {
            assert_eq!(event, Event::EndOfStream);
            assert!(!action.report_fault);
        }
        Pulled::Packet(_) => panic!("no packet in an empty stream"),
    }
    assert_eq!(m.phase, Phase::Done);
}

#[test]
fn unknown_packet_type_is_a_fault_and_clears_flags() {
    let bytes: Vec<u8> = vec![0xff, 0, 0, 0, 0, 0, 0, 0];
    let demo = Demo::new(&bytes);
    let handler = DemoHandler::default();
    let mut stream = RawPacketStream::new(demo.get_stream());
    let mut m = Ingest::new(RunConfig::new(true, false));
    match pull(&mut m, &mut stream, &handler.state_handler) {
        Pulled::Handled { event, action, message } => {
            assert_eq!(event, Event::Fault);
            assert!(action.report_fault);
            assert!(action.reset_cursor);
            assert!(!message.is_empty());
        }
        Pulled::Packet(_) => panic!("0xff is no packet type"),
    }
    assert!(m.is_running());
    assert_eq!(m.consecutive_faults, 1);
    assert!(!stream.ended);
    assert!(!stream.incomplete);
}

#[test]
fn stop_packet_is_handed_out_then_stream_ends() {
    let bytes: Vec<u8> = vec![7, 5, 0, 0];
    let demo = Demo::new(&bytes);
    let handler = DemoHandler::default();
    let mut stream = RawPacketStream::new(demo.get_stream());
    let mut m = Ingest::new(RunConfig::new(true, false));
    let before = m;
    match pull(&mut m, &mut stream, &handler.state_handler) {
        Pulled::Packet(Packet::Stop(stop)) => assert_eq!(u32::from(stop.tick), 5),
        _ => panic!("expected the stop packet"),
    }
    assert_eq!(m, before);
    match pull(&mut m, &mut stream, &handler.state_handler) {
        Pulled::Handled { event, .. } => assert_eq!(event, Event::EndOfStream),
        Pulled::Packet(_) => panic!("nothing follows the stop packet"),
    }
    assert_eq!(m.phase, Phase::Done);
}

#[test]
fn raw_record_is_msgpack_of_the_packet() {
    let packet = Packet::Stop(StopPacket { tick: 7u32.into() });
    let bytes = encode_raw_record(&packet).ok().unwrap();
    assert!(!bytes.is_empty());
    assert_eq!(bytes, rmp_serde::to_vec(&packet).unwrap());
}

#[test]
fn classify_hands_out_packet_untouched() {
    let mut m = Ingest::new(RunConfig::new(true, false));
    let before = m;
    let packet = Packet::Stop(StopPacket { tick: 3u32.into() });
    match classify(&mut m, Ok(Some(packet.clone()))) {
        Pulled::Packet(p) => assert_eq!(p, packet),
        Pulled::Handled { .. } => panic!("a decoded packet is handed out"),
    }
    assert_eq!(m, before);
}

#[test]
fn classify_end_of_stream_finishes_run() {
    let mut m = Ingest::new(RunConfig::new(true, false));
    match classify(&mut m, Ok(None)) {
        Pulled::Handled { event, action, .. } => {
            assert_eq!(event, Event::EndOfStream);
            assert!(!action.write_raw && !action.report_fault);
        }
        Pulled::Packet(_) => panic!("nothing to hand out"),
    }
    assert_eq!(m.phase, Phase::Done);
}
