use hudhook::process::{
    find_process, is_named, ProcessRecord, ProcessSearch, SearchAction, SearchEvent, SEARCH_ACCESS,
};

fn name(text: &[u8]) -> Vec<i8> {
    let mut buffer = vec![0i8; 128];
    for (i, b) in text.iter().enumerate() {
        buffer[i] = *b as i8;
    }
    buffer
}

fn process(pid: u32, text: &str) -> ProcessRecord {
    ProcessRecord { pid, module_name: Some(name(text.as_bytes())) }
}

fn closed_process(pid: u32) -> ProcessRecord {
    ProcessRecord { pid, module_name: None }
}

#[test]
fn process_is_found_whatever_the_case() {
    let processes = [process(4, "System"), process(80, "DarkSoulsIII.exe"), process(92, "x.exe")];
    assert_eq!(find_process("darksoulsiii.EXE", &processes), Some(80));
    assert_eq!(find_process("DarkSoulsIII.exe", &processes), Some(80));
    assert_eq!(find_process("DarkSoulsIII", &processes), None);
    assert_eq!(find_process("", &processes), None);
}

#[test]
fn non_ascii_case_is_folded_too() {
    let processes = [process(7, "\u{c9}T\u{c9}.exe")];
    assert_eq!(find_process("\u{e9}t\u{e9}.exe", &processes), Some(7));
}

#[test]
fn invalid_utf8_is_replaced() {
    let processes = [ProcessRecord { pid: 9, module_name: Some(name(b"A\xff.exe")) }];
    assert_eq!(find_process("a\u{fffd}.exe", &processes), Some(9));
    assert_eq!(find_process("a.exe", &processes), None);
}

#[test]
fn last_process_of_a_name_is_taken() {
    let processes = [process(10, "game.exe"), process(20, "other.exe"), process(30, "GAME.exe")];
    assert_eq!(find_process("game.exe", &processes), Some(30));
}

#[test]
fn pid_zero_counts_as_none() {
    assert_eq!(find_process("game.exe", &[process(0, "game.exe")]), None);
    assert_eq!(find_process("game.exe", &[process(5, "game.exe"), process(0, "game.exe")]), None);
    assert_eq!(
        find_process("game.exe", &[process(0, "game.exe"), process(5, "game.exe")]),
        Some(5)
    );
}

#[test]
fn process_that_cannot_be_opened_is_passed_over() {
    assert_eq!(find_process("game.exe", &[closed_process(3)]), None);
    assert_eq!(find_process("game.exe", &[process(2, "game.exe"), closed_process(3)]), Some(2));
    assert_eq!(find_process("game.exe", &[]), None);
}

#[test]
fn name_is_compared_in_lower_case() {
    assert!(is_named(&name(b"Game.EXE"), &String::from("game.exe")));
    assert!(!is_named(&name(b"Game.EXE"), &String::from("Game.EXE")));
}

#[test]
fn search_asks_and_closes_every_process() {
    let search = ProcessSearch::new("Game.exe");
    assert_eq!(search.next(), SearchAction::List { slots: 256 });
    let slots = [4u32, 8, 12, 16];
    let search = search.advance(SearchEvent::Listed { slots: &slots, needed: 15 });
    assert_eq!(search.next(), SearchAction::Open { access: 0x0410, inherit: false, pid: 4 });
    assert_eq!(SEARCH_ACCESS, 0x0410);
    let search = search.advance(SearchEvent::Opened { process: 0 });
    assert_eq!(search.next(), SearchAction::Open { access: 0x0410, inherit: false, pid: 8 });
    let search = search.advance(SearchEvent::Opened { process: 77 });
    assert_eq!(search.next(), SearchAction::Name { process: 77, modules: 64, length: 128 });
    let game = name(b"GAME.EXE");
    let search = search.advance(SearchEvent::Named { name: &game });
    assert_eq!(search.next(), SearchAction::Inspect { process: 77 });
    let search = search.advance(SearchEvent::Inspected);
    assert_eq!(search.next(), SearchAction::Close { process: 77 });
    let search = search.advance(SearchEvent::Closed);
    assert_eq!(search.next(), SearchAction::Open { access: 0x0410, inherit: false, pid: 12 });
    let search = search.advance(SearchEvent::Opened { process: 78 });
    let other = name(b"other.exe");
    let search = search.advance(SearchEvent::Named { name: &other });
    assert_eq!(search.next(), SearchAction::Close { process: 78 });
    let search = search.advance(SearchEvent::Closed);
    assert_eq!(search.next(), SearchAction::Report { found: Some(8) });
    let search = search.advance(SearchEvent::Opened { process: 79 });
    assert_eq!(search.next(), SearchAction::Report { found: Some(8) });
}

#[test]
fn search_is_judged_from_outside() {
    let slots = [4u32];
    let search = ProcessSearch::new("game.exe")
        .advance(SearchEvent::Listed { slots: &slots, needed: 4 })
        .advance(SearchEvent::Opened { process: 77 })
        .judge(true);
    assert_eq!(search.next(), SearchAction::Inspect { process: 77 });
    let search = search.judge(false);
    assert_eq!(search.next(), SearchAction::Inspect { process: 77 });
}

#[test]
fn empty_listing_reports_none() {
    let search = ProcessSearch::new("game.exe").advance(SearchEvent::Listed { slots: &[1], needed: 3 });
    assert_eq!(search.next(), SearchAction::Report { found: None });
}

#[test]
fn unasked_answers_change_nothing() {
    let search = ProcessSearch::new("game.exe").advance(SearchEvent::Closed);
    assert_eq!(search.next(), SearchAction::List { slots: 256 });
}

#[test]
fn unsound_answers_are_noticed() {
    let slots = [1u32, 2];
    assert!(SearchEvent::Listed { slots: &slots, needed: 11 }.check());
    assert!(!SearchEvent::Listed { slots: &slots, needed: 12 }.check());
    assert!(SearchEvent::Named { name: &[97, 0] }.check());
    assert!(!SearchEvent::Named { name: &[97] }.check());
    assert!(SearchEvent::Opened { process: 0 }.check());
}

#[test]
fn unsound_records_are_noticed() {
    assert!(process(5, "game.exe").check());
    assert!(closed_process(5).check());
    assert!(!ProcessRecord { pid: 5, module_name: Some(vec![65, 66]) }.check());
    assert!(!ProcessRecord { pid: 5, module_name: Some(vec![]) }.check());
}
