use windows_win::host::Host;
use windows_win::file::{Search, FileInfoLevel, FileSearchType};
use windows_win::sys::{
    FILE_ATTRIBUTE_DIRECTORY,
    FILE_ATTRIBUTE_READONLY,
    ERROR_FILE_NOT_FOUND,
    ERROR_NO_MORE_FILES,
    ERROR_INVALID_HANDLE,
};

fn host_with_sources() -> Host {
    let mut host = Host::new();
    host.add_file("memory.rs", 0, 0, 364);
    host.add_file("module.rs", 0, 0, 537);
    host.add_file("search.rs", FILE_ATTRIBUTE_READONLY, 0, 1026);
    host.add_file("timer.rs", 0, 0, 2578);
    host.add_file("windows.rs", 0, 1, 5398);
    host.add_file("fixtures", FILE_ATTRIBUTE_DIRECTORY, 0, 0);
    host
}

#[test]
fn try_search() {
    let mut host = host_with_sources();
    let result = Search::new(
        &mut host,
        "non-existing.rs",
        FileInfoLevel::default(),
        FileSearchType::default(),
        0,
    );

    assert!(result.is_err());
    assert_eq!(result.err().unwrap().raw_code(), ERROR_FILE_NOT_FOUND);
}

#[test]
fn search_self() {
    let mut host = host_with_sources();
    let file_name = "search.rs";
    let result = Search::new(
        &mut host,
        file_name,
        FileInfoLevel::default(),
        FileSearchType::default(),
        0,
    );

    assert!(result.is_ok());

    let (search, entry) = result.unwrap();
    let name = entry.name();

    assert!(file_name.ends_with(name.as_str()));
    assert!(entry.is_file());

    assert!(search.next(&mut host).is_none());
}

#[test]
fn search_few_rs() {
    let mut host = host_with_sources();
    let result = Search::new(
        &mut host,
        "*.rs",
        FileInfoLevel::default(),
        FileSearchType::default(),
        0,
    );

    assert!(result.is_ok());

    let (search, entry) = result.unwrap();

    assert!(entry.is_file());
    loop {
        match search.next(&mut host) {
            None => break,
            Some(entry) => assert!(entry.unwrap().is_file()),
        }
    }
}

#[test]
fn search_matching_is_ascii_case_blind() {
    let mut host = host_with_sources();
    let result = Search::new(
        &mut host,
        "*.RS",
        FileInfoLevel::default(),
        FileSearchType::default(),
        0,
    );
    assert!(result.is_ok());
    let (_, entry) = result.unwrap();
    assert_eq!(entry.name(), "memory.rs");
}

#[test]
fn search_question_mark_matches_one_character() {
    let mut host = host_with_sources();
    let result = Search::new(
        &mut host,
        "t?mer.rs",
        FileInfoLevel::default(),
        FileSearchType::default(),
        0,
    );
    assert!(result.is_ok());
    let (_, entry) = result.unwrap();
    assert_eq!(entry.name(), "timer.rs");
    assert_eq!(entry.size(), 2578);

    let result = Search::new(
        &mut host,
        "t?imer.rs",
        FileInfoLevel::default(),
        FileSearchType::default(),
        0,
    );
    assert!(result.is_err());
}

#[test]
fn search_sees_directories_and_attributes() {
    let mut host = host_with_sources();
    let (_, entry) = Search::new(
        &mut host,
        "fixtures",
        FileInfoLevel::default(),
        FileSearchType::default(),
        0,
    ).unwrap();
    assert!(entry.is_dir());
    assert!(!entry.is_file());

    let (_, entry) = Search::new(
        &mut host,
        "search.rs",
        FileInfoLevel::default(),
        FileSearchType::default(),
        0,
    ).unwrap();
    assert!(entry.is_read_only());

    let (_, entry) = Search::new(
        &mut host,
        "windows.rs",
        FileInfoLevel::default(),
        FileSearchType::default(),
        0,
    ).unwrap();
    assert_eq!(entry.size(), 0x100000000u64 + 5398);
}

#[test]
fn search_past_last_match_reports_no_more_files() {
    let mut host = host_with_sources();
    let (search, _) = Search::new(
        &mut host,
        "module.rs",
        FileInfoLevel::default(),
        FileSearchType::default(),
        0,
    ).unwrap();
    let res = search.again(&mut host);
    assert!(res.is_err());
    assert_eq!(res.err().unwrap().raw_code(), ERROR_NO_MORE_FILES);
    assert_eq!(host.last_error, ERROR_NO_MORE_FILES);
}

#[test]
fn search_after_close_reports_invalid_handle() {
    let mut host = host_with_sources();
    let (search, _) = Search::new(
        &mut host,
        "*.rs",
        FileInfoLevel::default(),
        FileSearchType::default(),
        0,
    ).unwrap();
    let again = Search { handle: search.handle };
    search.close(&mut host);
    let res = again.again(&mut host);
    assert!(res.is_err());
    assert_eq!(res.err().unwrap().raw_code(), ERROR_INVALID_HANDLE);
}

#[test]
fn search_fails_when_the_host_fails_the_call() {
    let mut host = host_with_sources();
    host.fail_next_call(5);
    let result = Search::new(
        &mut host,
        "*.rs",
        FileInfoLevel::default(),
        FileSearchType::default(),
        0,
    );
    assert!(result.is_err());
    assert_eq!(result.err().unwrap().raw_code(), 5);
    assert_eq!(host.last_error, 5);
}
