use elite_journal::de::DecodeError;
use elite_journal::digits::{is_counted_before, trim_zeros};
use elite_journal::entry::{
    date_key_of, is_begun_before, is_journal_file, journal_name_stop, journal_name_tokens,
    order_of_time, parse_journal_dir, parse_journal_dir_in, parse_journal_file, Event, Journal,
    JournalFile, LineError, Timestamp,
};

fn lines(text: &[&str]) -> Vec<String> {
    text.iter().map(|line| line.to_string()).collect()
}

fn first_file() -> JournalFile {
    JournalFile {
        name: "Journal.210520180102.01.log".to_string(),
        lines: lines(&[
            r#"{"timestamp":"2021-05-20T18:01:02Z","event":"Fileheader","part":1,"language":"English\\UK","gameversion":"3.8","build":"r1"}"#,
            r#"{"timestamp":"2021-05-20T18:01:03Z","event":"Music","MusicTrack":"NoTrack"}"#,
            r#"{"timestamp":"2021-05-20T18:01:04Z","event":"FSDJump","StarSystem":"Sol","SystemAddress":10477373803}"#,
        ]),
    }
}

fn second_file() -> JournalFile {
    JournalFile {
        name: "Journal.2021-05-19T170000.02.log".to_string(),
        lines: lines(&[
            r#"{"timestamp":"2021-05-19T17:00:00Z","event":"BuyExplorationData","System":"Wolf 359","Cost":500}"#,
            r#"{"timestamp":"2021-05-19T17:00:01Z","event":"Shutdown"}"#,
        ]),
    }
}

#[test]
fn two_files_of_three_and_two_lines_give_five_entries() {
    let journal = parse_journal_dir(&vec![first_file(), second_file()]);
    assert!(journal.errors.is_empty());
    assert_eq!(journal.entries.len(), 5);
    let seconds: Vec<i64> = journal.entries.iter().map(|e| e.timestamp.seconds).collect();
    assert_eq!(seconds, vec![1621533662, 1621533663, 1621533664, 1621443600, 1621443601]);
    assert!(matches!(journal.entries[0].event, Event::Fileheader(_)));
    assert!(matches!(journal.entries[1].event, Event::Other));
    match &journal.entries[2].event {
        Event::FsdJump(jump) => assert_eq!(jump.system.name, "Sol"),
        other => panic!("{:?}", other),
    }
    match &journal.entries[3].event {
        Event::BuyExplorationData(data) => {
            assert_eq!(data.system, "Wolf 359");
            assert_eq!(data.cost, 500);
        },
        other => panic!("{:?}", other),
    }
    assert!(matches!(journal.entries[4].event, Event::Other));
}

#[test]
fn files_are_taken_in_the_order_given_not_in_the_order_of_time() {
    let given = parse_journal_dir(&vec![first_file(), second_file()]);
    assert_eq!(given.entries[0].timestamp, Timestamp { seconds: 1621533662, nanos: 0 });
    let turned = parse_journal_dir(&vec![second_file(), first_file()]);
    assert_eq!(turned.entries.len(), 5);
    assert_eq!(turned.entries[0].timestamp, Timestamp { seconds: 1621443600, nanos: 0 });
    assert_eq!(turned.entries[4].timestamp, Timestamp { seconds: 1621533664, nanos: 0 });
}

#[test]
fn a_bad_line_is_listed_and_the_rest_is_read() {
    let file = JournalFile {
        name: "Journal.210520180102.01.log".to_string(),
        lines: lines(&[
            r#"{"timestamp":"2021-05-20T18:01:02Z","event":"Music"}"#,
            r#"{"timestamp":"2021-05-20T18:01:03Z","event":"#,
            "",
            r#"{"timestamp":"2021-05-20T18:01:04Z"}"#,
            r#"{"timestamp":"2021-05-20T18:01:05Z","event":"StartUp","Security":"ok"}"#,
            r#"{"timestamp":"2021-05-20T18:01:06Z","event":"Docked","StationName":"X","StationGovernment":"Monarchy"}"#,
        ]),
    };
    let journal = parse_journal_dir(&vec![second_file(), file]);
    assert_eq!(journal.entries.len(), 4);
    assert_eq!(journal.entries[2].timestamp.seconds, 1621533662);
    assert_eq!(journal.entries[3].timestamp.seconds, 1621533665);
    assert_eq!(
        journal.errors,
        vec![
            LineError { file: 1, line: 1, error: DecodeError::Syntax },
            LineError { file: 1, line: 3, error: DecodeError::Structure },
            LineError { file: 1, line: 5, error: DecodeError::UnknownName },
        ]
    );
}

#[test]
fn files_of_another_name_are_passed_over() {
    let mut other = first_file();
    other.name = "Status.json".to_string();
    let journal = parse_journal_dir(&vec![other, second_file()]);
    assert_eq!(journal.entries.len(), 2);
    let none = parse_journal_dir(&Vec::new());
    assert!(none.entries.is_empty() && none.errors.is_empty());
}

#[test]
fn one_file_by_itself() {
    let journal = parse_journal_file(&first_file().lines);
    assert_eq!(journal.entries.len(), 3);
    assert!(journal.errors.is_empty());
    let bad = parse_journal_file(&lines(&["", "{}", ""]));
    assert!(bad.entries.is_empty());
    assert_eq!(bad.errors, vec![LineError { file: 0, line: 1, error: DecodeError::Structure }]);
    let empty = parse_journal_file(&Vec::new());
    assert!(empty.entries.is_empty() && empty.errors.is_empty());
}

#[test]
fn recording_outcomes() {
    let mut journal = Journal::new();
    journal.record(2, 7, Err(DecodeError::Syntax));
    assert!(journal.entries.is_empty());
    assert_eq!(journal.errors, vec![LineError { file: 2, line: 7, error: DecodeError::Syntax }]);
    let entry = elite_journal::entry::decode_line(r#"{"timestamp":"2021-05-20T18:01:02Z","event":"Music"}"#);
    journal.record(2, 8, entry);
    assert_eq!(journal.entries.len(), 1);
    assert_eq!(journal.errors.len(), 1);
}

#[test]
fn names_of_journal_files() {
    assert!(is_journal_file("Journal.210520180102.01.log"));
    assert!(is_journal_file("Journal.2021-05-19T170000.02.log"));
    assert!(is_journal_file("Journal.1.2.log"));
    assert!(!is_journal_file("Journal..01.log"));
    assert!(!is_journal_file("Journal.210520180102..log"));
    assert!(!is_journal_file("Journal.210520180102.log"));
    assert!(!is_journal_file("Journal.210520180102.01.txt"));
    assert!(!is_journal_file("journal.210520180102.01.log"));
    assert!(!is_journal_file("Journal.210520180102.0a.log"));
    assert!(!is_journal_file("Journal.2105x0180102.01.log"));
    assert!(!is_journal_file("Journal.210520180102.01.02.log"));
    assert!(!is_journal_file("JournalBeta.210520180102.01.log"));
    assert!(!is_journal_file("Journal.210520180102.01.log.bak"));
    assert!(!is_journal_file("Journal.21052018010\u{e9}.01.log"));
    assert!(!is_journal_file(""));
    assert!(!is_journal_file("Status.json"));
}

#[test]
fn date_and_part_of_a_name() {
    assert_eq!(journal_name_tokens("Journal.210520180102.01.log"), Some(("210520180102", "01")));
    assert_eq!(journal_name_tokens("Journal.2021-05-19T170000.02.log"), Some(("2021-05-19T170000", "02")));
    assert_eq!(journal_name_tokens("Journal.1.2.log"), Some(("1", "2")));
    assert_eq!(journal_name_tokens("Journal.1..log"), None);
    assert_eq!(journal_name_tokens("Status.json"), None);
    assert_eq!(journal_name_stop("Journal.210520180102.01.log"), Some(20));
    assert_eq!(journal_name_stop("Journal.1.2.log"), Some(9));
    assert_eq!(journal_name_stop("Journal.12.log"), None);
}

#[test]
fn files_in_the_order_of_time() {
    let mut later = second_file();
    later.name = "Journal.210520180102.02.log".to_string();
    later.lines = lines(&[r#"{"timestamp":"2021-05-20T19:00:00Z","event":"Shutdown"}"#, "{"]);
    let mut earlier = second_file();
    earlier.name = "Journal.210519170000.01.log".to_string();
    let mut status = second_file();
    status.name = "Status.json".to_string();
    let files = vec![later, status, first_file(), earlier];
    let listed = parse_journal_dir(&files);
    let seconds: Vec<i64> = listed.entries.iter().map(|e| e.timestamp.seconds).collect();
    assert_eq!(seconds, vec![1621537200, 1621533662, 1621533663, 1621533664, 1621443600, 1621443601]);
    let order = order_of_time(&files);
    assert_eq!(order, vec![3, 2, 0]);
    let sorted = parse_journal_dir_in(&files, &order);
    let seconds: Vec<i64> = sorted.entries.iter().map(|e| e.timestamp.seconds).collect();
    assert_eq!(seconds, vec![1621443600, 1621443601, 1621533662, 1621533663, 1621533664, 1621537200]);
    assert_eq!(sorted.errors, vec![LineError { file: 0, line: 1, error: DecodeError::Syntax }]);
}

#[test]
fn places_that_name_no_journal_file_are_passed_over() {
    let mut status = second_file();
    status.name = "Status.json".to_string();
    let files = vec![first_file(), status];
    let journal = parse_journal_dir_in(&files, &vec![1, 7, 0, 0]);
    assert_eq!(journal.entries.len(), 6);
    assert!(parse_journal_dir_in(&files, &Vec::new()).entries.is_empty());
    assert!(order_of_time(&Vec::new()).is_empty());
}

#[test]
fn which_file_was_begun_first() {
    assert!(is_begun_before("Journal.210519170000.01.log", "Journal.210520180102.01.log"));
    assert!(!is_begun_before("Journal.210520180102.01.log", "Journal.210519170000.01.log"));
    assert!(is_begun_before("Journal.210520180102.01.log", "Journal.210520180102.02.log"));
    assert!(is_begun_before("Journal.210520180102.9.log", "Journal.210520180102.10.log"));
    assert!(!is_begun_before("Journal.210520180102.10.log", "Journal.210520180102.9.log"));
    assert!(!is_begun_before("Journal.210520180102.01.log", "Journal.210520180102.01.log"));
    assert!(is_begun_before("Journal.2021-05-19T170000.01.log", "Journal.2021-05-20T000000.01.log"));
    assert!(!is_begun_before("Status.json", "Journal.210520180102.01.log"));
    assert!(!is_begun_before("Journal.210520180102.01.log", "Status.json"));
}

#[test]
fn names_of_both_forms_come_in_the_order_of_time() {
    let old_form = "Journal.210520180102.01.log";
    let new_form = "Journal.2021-05-19T170000.01.log";
    assert!(is_begun_before(new_form, old_form));
    assert!(!is_begun_before(old_form, new_form));
    assert!(is_begun_before(old_form, "Journal.2021-05-20T180103.01.log"));
    let same = "Journal.2021-05-20T180102.02.log";
    assert!(is_begun_before(old_form, same));
    assert!(!is_begun_before(same, old_form));
    let mut second = second_file();
    second.name = new_form.to_string();
    let files = vec![first_file(), second];
    assert_eq!(order_of_time(&files), vec![1, 0]);
    assert_eq!(date_key_of("210520180102"), "20210520180102");
    assert_eq!(date_key_of("2021-05-20T180102"), "20210520180102");
    assert_eq!(date_key_of("T-"), "");
    assert_eq!(date_key_of("1"), "1");
}

#[test]
fn parts_compare_by_the_numbers_they_write() {
    assert!(is_begun_before("Journal.210520180102.9.log", "Journal.210520180102.010.log"));
    assert!(!is_begun_before("Journal.210520180102.010.log", "Journal.210520180102.9.log"));
    assert!(!is_begun_before("Journal.210520180102.01.log", "Journal.210520180102.1.log"));
    assert!(!is_begun_before("Journal.210520180102.1.log", "Journal.210520180102.01.log"));
    assert!(is_counted_before("0", "1"));
    assert!(is_counted_before("000", "01"));
    assert!(!is_counted_before("000", "0"));
    assert!(is_counted_before("99", "100"));
    assert!(!is_counted_before("100", "099"));
    assert!(is_counted_before("123456789012345678901234567890", "123456789012345678901234567891"));
    assert_eq!(trim_zeros("0012"), "12");
    assert_eq!(trim_zeros("000"), "");
    assert_eq!(trim_zeros("120"), "120");
}
