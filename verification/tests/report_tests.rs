use filetruck::printer::{Print, Transcript};
use filetruck::report::print_copied;

fn record(from: &str, to: &str) -> (String, String) {
    (from.to_string(), to.to_string())
}

/// What is printed when `copied` is reported.
fn listing(copied: Vec<(String, String)>) -> Vec<String> {
    let mut sink = Transcript::new();
    print_copied(copied, &mut sink);
    sink.into_printed()
}

/// An output that keeps every call made on it.
struct Calls {
    made: Vec<String>,
}

impl Print for Calls {
    fn writeln(&mut self, s: &str) {
        self.made.push(format!("writeln({})", s));
    }

    fn print(&mut self) {
        self.made.push("print()".to_string());
    }
}

fn calls(copied: Vec<(String, String)>) -> Vec<String> {
    let mut sink = Calls { made: Vec::new() };
    print_copied(copied, &mut sink);
    sink.made
}

#[test]
fn sources_are_filled_up_to_the_longest() {
    let lines = listing(vec![
        record("a", "/x/a"),
        record("long/name", "/x/long/name"),
        record("mid", "/x/mid"),
    ]);
    assert_eq!(
        lines,
        vec![
            "a         -> /x/a".to_string(),
            "long/name -> /x/long/name".to_string(),
            "mid       -> /x/mid".to_string(),
        ]
    );
}

#[test]
fn a_single_record_has_one_space_before_the_arrow() {
    assert_eq!(listing(vec![record("from", "to")]), vec!["from -> to".to_string()]);
}

#[test]
fn no_record_gives_no_line() {
    assert!(listing(vec![]).is_empty());
}

#[test]
fn width_is_counted_in_bytes() {
    let lines = listing(vec![record("\u{e4}", "1"), record("abc", "2")]);
    assert_eq!(lines, vec!["\u{e4}  -> 1".to_string(), "abc -> 2".to_string()]);
}

#[test]
fn empty_texts_are_listed_too() {
    let lines = listing(vec![record("", ""), record("ab", "")]);
    assert_eq!(lines, vec!["   -> ".to_string(), "ab -> ".to_string()]);
}

#[test]
fn lines_come_behind_what_was_written_before() {
    let mut sink = Transcript::new();
    sink.writeln("first");
    print_copied(vec![record("a", "b")], &mut sink);
    assert_eq!(sink.into_printed(), vec!["first".to_string(), "a -> b".to_string()]);
}

#[test]
fn a_transcript_keeps_what_it_takes() {
    let mut output = Transcript::new();
    output.writeln("one");
    output.writeln("");
    assert_eq!(output.into_lines(), vec!["one".to_string(), "".to_string()]);
}

#[test]
fn a_transcript_shows_what_it_held_when_it_was_printed() {
    let mut output = Transcript::new();
    output.writeln("one");
    output.print();
    output.writeln("two");
    assert_eq!(output.into_printed(), vec!["one".to_string()]);
    let mut never = Transcript::new();
    never.writeln("kept back");
    assert!(never.into_printed().is_empty());
}

#[test]
fn print_is_called_once_behind_the_lines() {
    assert_eq!(
        calls(vec![record("s/b", "d/b"), record("s/a", "d/a")]),
        vec![
            "writeln(s/b -> d/b)".to_string(),
            "writeln(s/a -> d/a)".to_string(),
            "print()".to_string(),
        ]
    );
    assert_eq!(
        calls(vec![record("a", "x"), record("ccc", "y")]),
        vec![
            "writeln(a   -> x)".to_string(),
            "writeln(ccc -> y)".to_string(),
            "print()".to_string(),
        ]
    );
}

#[test]
fn print_is_called_once_for_no_record() {
    assert_eq!(calls(vec![]), vec!["print()".to_string()]);
}
