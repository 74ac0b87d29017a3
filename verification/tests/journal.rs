use crossbeam_channel::bounded;

use unified_trading::clock::Span;
use unified_trading::journal::{
    belongs_to_journal, format_entry, journal_file_name, new_journal_name, parse_entry_line,
    replay_text, settle_flush, Compaction, FlushReply, JournalCommand, JournalCounter,
    JournalEntry, JournalWriter,
};
use unified_trading::metrics::GlobalMetrics;

fn tick(symbol: &str, ts: u64, data: &str) -> JournalEntry {
    JournalEntry::Tick { symbol: symbol.to_string(), timestamp_ns: ts, data: data.to_string() }
}

#[test]
fn test_journal_write_and_shutdown() {
    let (tx, rx) = bounded::<JournalCommand>(10_000);
    let writer = JournalWriter { tx };
    let mut metrics = GlobalMetrics::new();
    let mut counter = JournalCounter::new();

    assert!(writer.write(tick("AAPL", 12345, "price=150.0"), &mut metrics).is_ok());
    assert_eq!(metrics.journal_channel_depth, 1);
    while let Ok(command) = rx.try_recv() {
        if let JournalCommand::Write(entry) = command {
            assert_eq!(format_entry(&entry), "TICK|AAPL|12345|price=150.0");
            counter.after_write(true, &Span::from_secs(0), &Span::from_secs(1), &mut metrics);
        }
    }
    assert_eq!(counter.write_count(), 1);
}

#[test]
fn test_journal_entry_format() {
    let entry = JournalEntry::Tick {
        symbol: "MSFT".to_string(),
        timestamp_ns: 100,
        data: "test".to_string(),
    };
    let formatted = format_entry(&entry);
    assert!(formatted.starts_with("TICK|MSFT|100|"));
}

#[test]
fn test_journal_replay() {
    let entries = vec![
        JournalEntry::Order {
            symbol: "AAPL".to_string(),
            timestamp_ns: 100,
            data: "order_id=o1,side=Buy,qty=10,decision=req-1".to_string(),
        },
        JournalEntry::Fill {
            symbol: "AAPL".to_string(),
            timestamp_ns: 200,
            data: "price=150.0,qty=10".to_string(),
        },
        tick("MSFT", 300, "price=300.0"),
    ];
    let mut text = String::new();
    for e in &entries {
        text.push_str(&format_entry(e));
        text.push('\n');
    }
    let replayed = replay_text(&text);
    assert_eq!(replayed.len(), 3);
    assert!(matches!(replayed[0], JournalEntry::Order { .. }));
    assert!(matches!(replayed[1], JournalEntry::Fill { .. }));
    assert!(matches!(replayed[2], JournalEntry::Tick { .. }));
    for (a, b) in entries.iter().zip(&replayed) {
        assert_eq!(format_entry(a), format_entry(b));
    }
}

#[test]
fn test_journal_multiple_entries() {
    let (tx, rx) = bounded::<JournalCommand>(10_000);
    let writer = JournalWriter { tx };
    let mut metrics = GlobalMetrics::new();
    let mut counter = JournalCounter::new();

    for i in 0..10 {
        let entry = JournalEntry::Intent {
            symbol: "AAPL".to_string(),
            timestamp_ns: i,
            data: format!("intent_{}", i),
        };
        writer.write(entry, &mut metrics).unwrap();
    }
    while let Ok(JournalCommand::Write(_)) = rx.try_recv() {
        counter.after_write(true, &Span::from_secs(0), &Span::from_secs(1), &mut metrics);
    }
    assert_eq!(counter.write_count(), 10);
    assert_eq!(metrics.journal_channel_depth, 0);
}

#[test]
fn test_journal_try_write_non_blocking() {
    let (tx, rx) = bounded::<JournalCommand>(10_000);
    let writer = JournalWriter { tx };
    let handle = writer.handle();
    let mut metrics = GlobalMetrics::new();
    let mut refused = 0;
    for i in 0..20_000 {
        let entry = JournalEntry::Event {
            event_type: "TEST".to_string(),
            timestamp_ns: i,
            data: "payload".to_string(),
        };
        let r = if i % 2 == 0 {
            writer.try_write(entry, &mut metrics)
        } else {
            handle.try_write(entry, &mut metrics)
        };
        if r.is_err() {
            refused += 1;
        }
    }
    assert_eq!(refused, 10_000);
    assert_eq!(rx.len(), 10_000);
}

#[test]
fn test_journal_flush_sync() {
    let mut metrics = GlobalMetrics::new();
    let answered = FlushReply::Waited { answered: true, elapsed_ns: 10 };
    assert!(settle_flush(answered, &mut metrics).is_ok());
    let late = FlushReply::Waited { answered: false, elapsed_ns: 10 };
    assert_eq!(settle_flush(late, &mut metrics), Err("Flush timeout"));
    assert_eq!(settle_flush(FlushReply::Closed, &mut metrics), Err("Journal channel closed"));
}

#[test]
fn test_compactionTrigger() {
    let (tx, rx) = bounded::<JournalCommand>(10);
    let writer = JournalWriter { tx };
    writer.trigger_compaction();
    assert!(matches!(rx.try_recv(), Ok(JournalCommand::Compaction)));

    // An hour's retention, seen at a moment in 2023: a file of the year 2020 is removed.
    let mut c = Compaction::new(1_700_000_000_000_000_000, 1, 1024, 23);
    assert!(belongs_to_journal("journal_20200101_000000.log"));
    assert!(c.wants_removal(1_577_836_800));
    c.removed(None);
    assert!(!c.goes_on(1_700_000_000));
}

#[test]
fn files_go_while_they_take_too_much_room() {
    let mut c = Compaction::new(0, 1, 1, 3 * 1024 * 1024);
    assert_eq!(c.cutoff, 0);
    assert!(c.wants_removal(5));
    c.removed(Some(2 * 1024 * 1024));
    assert!(!c.wants_removal(5));
    assert_eq!(c.total_size, 1024 * 1024);
}

#[test]
fn entries_of_each_kind_read_back() {
    let s = |x: &str| x.to_string();
    for (line, word) in [
        ("TICK|A|1|d", "TICK"),
        ("INTENT|A|2|d|e", "INTENT"),
        ("FILL|A|3|", "FILL"),
        ("ORDER|A|4|x", "ORDER"),
        ("EVENT|K|5|y", "EVENT"),
    ] {
        let e = parse_entry_line(line).unwrap();
        assert_eq!(format_entry(&e), line);
        assert!(format_entry(&e).starts_with(word));
    }
    let snap = JournalEntry::Snapshot { timestamp_ns: 7, data: s("x") };
    assert_eq!(format_entry(&snap), "SNAPSHOT|7|x");
}

#[test]
fn lines_that_are_no_entries_say_why() {
    for line in ["", "TICK", "TICK|A|x|d", "WHAT|A|1|d"] {
        let err = parse_entry_line(line).unwrap_err();
        assert!(err.to_text().starts_with("Parse error: "), "{}", err.to_text());
    }
    assert_eq!(replay_text("TICK|A|1|d\n\n  \nrubbish\nTICK|B|2|e\n").len(), 2);
}

#[test]
fn a_new_file_bears_the_moment() {
    assert_eq!(journal_file_name("20200101_000000"), "journal_20200101_000000.log");
    let before = chrono::Utc::now().format("journal_%Y%m%d_%H%M%S.log").to_string();
    let name = new_journal_name();
    let after = chrono::Utc::now().format("journal_%Y%m%d_%H%M%S.log").to_string();
    assert!(before <= name && name <= after);
    assert!(belongs_to_journal(&name));
    assert!(!belongs_to_journal("journal_1.txt"));
    assert!(!belongs_to_journal("x_journal_1.log"));
}
