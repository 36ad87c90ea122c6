use logship::channel::Channel;
use logship::error::{Error, SinkError};
use logship::event::{timestamp_of, Event};
use logship::files::FileSource;
use logship::output::{deliver_all, failed_sinks, render_line, Console, Output};
use logship::pipeline::{Phase, Pipeline, ProducerAction};
use logship::record::find_terminator;

fn payloads(events: &[Event]) -> Vec<Vec<u8>> {
    events.iter().map(|e| e.payload.clone()).collect()
}

#[test]
fn three_lines_capacity_two_shutdown_after_two_reads() {
    let mut source = FileSource::new("input.log".to_string(), None);
    source.feed(b"a\nb\nc");
    let channel = Channel::with_capacity(2);
    let mut pipeline = Pipeline::new(2);
    pipeline.start();
    for _ in 0..2 {
        assert_eq!(pipeline.producer_action(), ProducerAction::Read);
        let event = source.read_line().unwrap().unwrap();
        channel.send(event).unwrap();
        assert!(pipeline.on_sent());
    }
    assert_eq!(pipeline.producer_action(), ProducerAction::Wait);
    pipeline.shutdown();
    assert_eq!(pipeline.phase, Phase::Draining);
    let mut console = Console::new();
    while pipeline.queued() > 0 {
        let event = channel.recv().unwrap();
        console.emit(event).unwrap();
        assert!(pipeline.on_delivered());
    }
    assert!(pipeline.try_stop());
    assert_eq!(console.take_lines(), vec!["a".to_string(), "b".to_string()]);
    assert_eq!(source.current_position(), 4);
}

#[test]
fn partial_record_is_held() {
    let mut source = FileSource::new("f".to_string(), None);
    source.feed(b"ab");
    assert!(source.read_line_at(1).is_none());
    assert_eq!(source.current_position(), 0);
    source.feed(b"c\nd");
    let e = source.read_line_at(7).unwrap();
    assert_eq!(e.payload, b"abc".to_vec());
    assert_eq!(e.timestamp, 7);
    assert_eq!(e.source, "f");
    assert_eq!(source.current_position(), 4);
    assert!(source.read_line_at(8).is_none());
}

#[test]
fn records_come_out_in_source_order() {
    let mut source = FileSource::new("f".to_string(), None);
    source.feed(b"one\ntwo\n\nthree\nfour");
    let events = source.read_all_at(3);
    assert_eq!(
        payloads(&events),
        vec![b"one".to_vec(), b"two".to_vec(), b"".to_vec(), b"three".to_vec()]
    );
    assert_eq!(source.current_position(), 15);
}

#[test]
fn resumed_read_yields_the_complement() {
    let data: &[u8] = b"alpha\nbeta\ngamma\ndelta\n";
    let mut full = FileSource::new("f".to_string(), None);
    full.feed(data);
    let all = payloads(&full.read_all_at(0));

    let mut first = FileSource::new("f".to_string(), None);
    first.feed(&data[..13]);
    let head = payloads(&first.read_all_at(0));
    let p = first.current_position();
    assert_eq!(p, 11);

    let mut resumed = FileSource::new("f".to_string(), Some(p));
    resumed.feed(&data[p as usize..]);
    let tail = payloads(&resumed.read_all_at(0));
    assert_eq!(resumed.current_position(), data.len() as u64);

    let mut joined = head.clone();
    joined.extend(tail);
    assert_eq!(joined, all);
}

#[test]
fn resume_offset_given_at_creation() {
    let source = FileSource::new("f".to_string(), Some(42));
    assert_eq!(source.current_position(), 42);
}

#[test]
fn finds_terminators() {
    assert_eq!(find_terminator(b"ab\ncd\n", 0), 2);
    assert_eq!(find_terminator(b"ab\ncd\n", 3), 5);
    assert_eq!(find_terminator(b"abc", 1), 3);
    assert_eq!(find_terminator(b"", 0), 0);
}

#[test]
fn backpressure_after_capacity_sends() {
    let mut p = Pipeline::new(3);
    assert_eq!(p.producer_action(), ProducerAction::Stop);
    p.start();
    for _ in 0..3 {
        assert_eq!(p.producer_action(), ProducerAction::Read);
        assert!(p.on_sent());
    }
    assert_eq!(p.producer_action(), ProducerAction::Wait);
    assert!(!p.on_sent());
    assert_eq!(p.sent, 3);
    assert!(p.on_delivered());
    assert_eq!(p.producer_action(), ProducerAction::Read);
}

#[test]
fn drain_delivers_everything_before_stop() {
    let mut p = Pipeline::new(5);
    p.start();
    for _ in 0..4 {
        assert!(p.on_sent());
    }
    assert!(p.on_delivered());
    p.shutdown();
    assert_eq!(p.producer_action(), ProducerAction::Stop);
    assert!(!p.on_sent());
    assert_eq!(p.queued(), 3);
    assert!(!p.try_stop());
    for _ in 0..3 {
        assert!(p.on_delivered());
    }
    assert!(!p.on_delivered());
    assert!(p.try_stop());
    assert_eq!(p.phase, Phase::Stopped);
}

#[test]
fn idle_shutdown_stops_at_once() {
    let mut p = Pipeline::new(2);
    p.shutdown();
    assert_eq!(p.phase, Phase::Stopped);
}

enum TestSink {
    Broken,
    Recording(Vec<Vec<u8>>),
}

impl Output for TestSink {
    fn emit(&mut self, event: Event) -> Result<(), SinkError> {
        match self {
            TestSink::Broken => Err(SinkError::Permanent),
            TestSink::Recording(seen) => {
                seen.push(event.payload);
                Ok(())
            }
        }
    }
}

#[test]
fn permanent_failure_does_not_starve_other_sinks() {
    let mut sinks = vec![TestSink::Broken, TestSink::Recording(Vec::new())];
    let e = Event::with_timestamp(1, "f".to_string(), b"x".to_vec());
    let answers = deliver_all(&mut sinks, &e);
    assert_eq!(answers, vec![Err(SinkError::Permanent), Ok(())]);
    match &sinks[1] {
        TestSink::Recording(seen) => assert_eq!(seen, &vec![b"x".to_vec()]),
        TestSink::Broken => panic!("sink order changed"),
    }
}

#[test]
fn console_line_is_trimmed_and_decoded() {
    assert_eq!(render_line(b"hello \t\r\n"), "hello");
    assert_eq!(render_line(b"  lead"), "  lead");
    assert_eq!(render_line(b"a\xffb"), "a\u{fffd}b");
    assert_eq!(render_line(b""), "");
}

#[test]
fn event_new_keeps_source_and_payload() {
    let e = Event::new("src".to_string(), vec![1, 2, 3]).unwrap();
    assert_eq!(e.source, "src");
    assert_eq!(e.payload, vec![1, 2, 3]);
    assert!(e.timestamp > 0);
}

#[test]
fn channel_is_fifo_and_reports_closing() {
    let channel = Channel::new();
    for i in 0..5u8 {
        channel.send(Event::with_timestamp(i as u64, "f".to_string(), vec![i])).unwrap();
    }
    for i in 0..5u8 {
        assert_eq!(channel.recv().unwrap().payload, vec![i]);
    }
}

#[test]
fn channel_reports_the_other_side_gone() {
    let Channel { s, r } = Channel::with_capacity(1);
    drop(r);
    let (_, spare_r) = crossbeam_channel::bounded::<Event>(1);
    let sending = Channel { s, r: spare_r };
    let e = Event::with_timestamp(0, "f".to_string(), vec![]);
    assert_eq!(sending.send(e).err(), Some(Error::SendError));

    let (s2, r2) = crossbeam_channel::bounded::<Event>(1);
    drop(s2);
    let (spare_s, _keep) = crossbeam_channel::bounded::<Event>(1);
    let receiving = Channel { s: spare_s, r: r2 };
    assert_eq!(receiving.recv().err(), Some(Error::RecvError));
}

#[test]
fn unterminated_tail_is_the_last_record_at_close() {
    let mut source = FileSource::new("f".to_string(), None);
    source.feed(b"a\nb\nc");
    assert_eq!(source.read_line_closed_at(1).unwrap().payload, b"a".to_vec());
    assert_eq!(source.read_line_closed_at(1).unwrap().payload, b"b".to_vec());
    assert_eq!(source.current_position(), 4);
    assert_eq!(source.read_line_closed_at(1).unwrap().payload, b"c".to_vec());
    assert_eq!(source.current_position(), 5);
    assert!(source.read_line_closed_at(1).is_none());
    assert_eq!(source.current_position(), 5);
}

#[test]
fn clock_readings_become_timestamps() {
    assert_eq!(timestamp_of(Some(42)), Ok(42));
    assert_eq!(timestamp_of(Some(u64::MAX as u128)), Ok(u64::MAX));
    assert_eq!(timestamp_of(Some(u64::MAX as u128 + 1)), Err(Error::SystemTime));
    assert_eq!(timestamp_of(None), Err(Error::SystemTime));
}

#[test]
fn event_from_reading_carries_the_reading() {
    let e = Event::from_reading(Some(9), "f.log".to_string(), b"a".to_vec()).unwrap();
    assert_eq!(e.timestamp, 9);
    assert_eq!(e.source, "f.log");
    assert_eq!(e.payload, vec![0x61u8]);
    assert_eq!(
        Event::from_reading(None, "f.log".to_string(), b"a".to_vec()).err(),
        Some(Error::SystemTime)
    );
}

#[test]
fn read_line_with_bad_clock_changes_nothing() {
    let mut source = FileSource::new("f".to_string(), None);
    source.feed(b"x\ny\n");
    assert_eq!(source.read_line_with(None).err(), Some(Error::SystemTime));
    assert_eq!(source.current_position(), 0);
    assert_eq!(source.pending_len(), 4);
    let e = source.read_line_with(Some(5)).unwrap().unwrap();
    assert_eq!((e.timestamp, e.payload), (5, b"x".to_vec()));
    assert_eq!(source.current_position(), 2);
}

#[test]
fn channel_capacity_is_the_one_asked_for() {
    assert_eq!(Channel::new().capacity(), Some(5));
    assert_eq!(Channel::with_capacity(2).capacity(), Some(2));
    assert_eq!(Channel::with_capacity(0).capacity(), Some(0));
}

#[test]
fn closed_cursor_takes_no_more_bytes() {
    let mut source = FileSource::new("f".to_string(), None);
    source.feed(b"a\nb");
    assert_eq!(source.read_line_closed_at(0).unwrap().payload, b"a".to_vec());
    assert_eq!(source.read_line_closed_at(0).unwrap().payload, b"b".to_vec());
    source.feed(b"c\n");
    assert_eq!(source.pending_len(), 0);
    assert_eq!(source.current_position(), 3);
    assert!(source.read_line_at(0).is_none());
}

#[test]
fn failed_sinks_are_listed_in_order() {
    let answers = vec![Ok(()), Err(SinkError::Permanent), Ok(()), Err(SinkError::Transient)];
    assert_eq!(failed_sinks(&answers), vec![1, 3]);
    assert_eq!(failed_sinks(&vec![Ok(()), Ok(())]), Vec::<usize>::new());
    assert_eq!(failed_sinks(&Vec::new()), Vec::<usize>::new());
}

#[test]
fn console_keeps_leading_blanks_and_strips_unicode_trailing_space() {
    assert_eq!(render_line(b"  a\n"), "  a");
    assert_eq!(render_line("x\u{a0}\u{3000} \n".as_bytes()), "x");
    assert_eq!(render_line("caf\u{e9}".as_bytes()), "caf\u{e9}");
    let mut c = Console::new();
    assert_eq!(c.emit(Event::with_timestamp(0, "f".to_string(), vec![0x61, 0xff, 0x0a])), Ok(()));
    assert_eq!(c.emit(Event::with_timestamp(0, "f".to_string(), b"b".to_vec())), Ok(()));
    assert_eq!(c.take_lines(), vec!["a\u{fffd}".to_string(), "b".to_string()]);
    assert!(c.take_lines().is_empty());
}

#[test]
fn read_all_keeps_the_unterminated_tail_pending() {
    let mut source = FileSource::new("f".to_string(), Some(10));
    source.feed(b"x\ny\nzz");
    let events = source.read_all_at(4);
    assert_eq!(payloads(&events), vec![b"x".to_vec(), b"y".to_vec()]);
    assert!(events.iter().all(|e| e.timestamp == 4));
    assert_eq!(source.pending_len(), 2);
    assert_eq!(source.current_position(), 14);
    source.feed(b"\n");
    assert_eq!(source.read_line_at(5).unwrap().payload, b"zz".to_vec());
}
