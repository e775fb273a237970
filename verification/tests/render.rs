use qbtrs::backend::util::{
    confirm, confirm_prompt, epoch_to_datetime, exit_if_expired, human_size, percent_text,
    progress_render, DefaultChoice, TorrentState, PROGRESS_FULL,
};
use qbtrs::error::ErrorKind;
use qbtrs::text::{bool_text, decimal_text, fixed2_text, join, precedes, same_text};

#[test]
fn bar_has_twelve_characters() {
    let mut progress: u32 = 0;
    while progress <= PROGRESS_FULL {
        let bar = progress_render(progress);
        assert_eq!(bar.chars().count(), 12);
        assert!(bar.starts_with('<'));
        assert!(bar.ends_with('>'));
        let filled = bar.chars().filter(|c| *c == '#').count() as u32;
        assert_eq!(filled, progress / 100_000);
        let empty = bar.chars().filter(|c| *c == '_').count() as u32;
        assert_eq!(empty, 10 - filled);
        progress += 733;
    }
}

#[test]
fn bar_at_the_ends() {
    assert_eq!(progress_render(0), "<__________>");
    assert_eq!(progress_render(PROGRESS_FULL), "<##########>");
}

#[test]
fn bar_rounds_down() {
    assert_eq!(progress_render(990_000), "<#########_>");
    assert_eq!(progress_render(999_999), "<#########_>");
    assert_eq!(progress_render(99_999), "<__________>");
    assert_eq!(progress_render(100_000), "<#_________>");
    assert_eq!(progress_render(500_000), "<#####_____>");
}

#[test]
fn bar_is_full_beyond_the_whole() {
    assert_eq!(progress_render(1_000_001), "<##########>");
    assert_eq!(progress_render(2_500_000), "<##########>");
    assert_eq!(progress_render(u32::MAX), "<##########>");
}

#[test]
fn filled_cells_come_first() {
    assert_eq!(progress_render(340_000), "<###_______>");
}

#[test]
fn percentage_is_rounded_where_the_bar_is_not() {
    assert_eq!(percent_text(0), "0.00");
    assert_eq!(percent_text(49), "0.00");
    assert_eq!(percent_text(50), "0.01");
    assert_eq!(percent_text(123_456), "12.35");
    assert_eq!(percent_text(123_449), "12.34");
    assert_eq!(percent_text(990_000), "99.00");
    assert_eq!(percent_text(999_960), "100.00");
    assert_eq!(progress_render(999_960), "<#########_>");
    assert_eq!(percent_text(PROGRESS_FULL), "100.00");
    assert_eq!(percent_text(u32::MAX), "429496.73");
}

#[test]
fn decimal_numbers() {
    assert_eq!(decimal_text(0), "0");
    assert_eq!(decimal_text(7), "7");
    assert_eq!(decimal_text(10), "10");
    assert_eq!(decimal_text(1234567890), "1234567890");
    assert_eq!(decimal_text(u64::MAX), "18446744073709551615");
}

#[test]
fn hundredths() {
    assert_eq!(fixed2_text(0), "0.00");
    assert_eq!(fixed2_text(5), "0.05");
    assert_eq!(fixed2_text(50), "0.50");
    assert_eq!(fixed2_text(1234), "12.34");
    assert_eq!(fixed2_text(10000), "100.00");
}

#[test]
fn words_of_bool() {
    assert_eq!(bool_text(true), "true");
    assert_eq!(bool_text(false), "false");
}

#[test]
fn joined_lists() {
    assert_eq!(join(&vec![], "|"), "");
    assert_eq!(join(&vec!["a".to_string()], "|"), "a");
    assert_eq!(join(&vec!["a".to_string(), "b".to_string(), "c".to_string()], "|"), "a|b|c");
    assert_eq!(join(&vec!["".to_string(), "".to_string()], ", "), ", ");
}

#[test]
fn texts_compare_as_strings_do() {
    let samples = ["", "a", "ab", "b", "B", "https://a/", "https://a/x", "é", "e", "z", "\u{10348}"];
    for a in samples {
        for b in samples {
            assert_eq!(precedes(a, b), a < b);
            assert_eq!(same_text(a, b), a == b);
        }
    }
}

#[test]
fn sizes_for_people() {
    assert_eq!(human_size(0), "0 B");
    assert_eq!(human_size(999), "999 B");
    assert_eq!(human_size(1000), "1 kB");
    assert_eq!(human_size(1500), "1.50 kB");
    assert_eq!(human_size(1_000_000), "1 MB");
    assert_eq!(human_size(1_000_000_000), "1 GB");
}

#[test]
fn times_of_timestamps() {
    assert_eq!(epoch_to_datetime(0), Some("1970-01-01 00:00:00".to_string()));
    assert_eq!(epoch_to_datetime(1431648000), Some("2015-05-15 00:00:00".to_string()));
    assert_eq!(epoch_to_datetime(-1), Some("1969-12-31 23:59:59".to_string()));
    assert_eq!(epoch_to_datetime(i64::MAX), None);
    assert_eq!(epoch_to_datetime(i64::MIN), None);
}

#[test]
fn states_from_the_wire() {
    assert_eq!(TorrentState::from_wire("error"), TorrentState::Error);
    assert_eq!(TorrentState::from_wire("missingFiles"), TorrentState::MissingFiles);
    assert_eq!(TorrentState::from_wire("uploading"), TorrentState::Uploading);
    assert_eq!(TorrentState::from_wire("pausedUP"), TorrentState::PausedUP);
    assert_eq!(TorrentState::from_wire("queuedUP"), TorrentState::QueuedUP);
    assert_eq!(TorrentState::from_wire("stalledUP"), TorrentState::StalledUP);
    assert_eq!(TorrentState::from_wire("checkingUP"), TorrentState::CheckingUP);
    assert_eq!(TorrentState::from_wire("forcedUP"), TorrentState::ForcedUP);
    assert_eq!(TorrentState::from_wire("allocating"), TorrentState::Allocating);
    assert_eq!(TorrentState::from_wire("downloading"), TorrentState::Downloading);
    assert_eq!(TorrentState::from_wire("metaDL"), TorrentState::MetaDL);
    assert_eq!(TorrentState::from_wire("pausedDL"), TorrentState::PausedDL);
    assert_eq!(TorrentState::from_wire("queuedDL"), TorrentState::QueuedDL);
    assert_eq!(TorrentState::from_wire("stalledDL"), TorrentState::StalledDL);
    assert_eq!(TorrentState::from_wire("checkingDL"), TorrentState::CheckingDL);
    assert_eq!(TorrentState::from_wire("forcedDL"), TorrentState::ForcedDL);
    assert_eq!(TorrentState::from_wire("checkingResumeData"), TorrentState::CheckingResumeData);
    assert_eq!(TorrentState::from_wire("moving"), TorrentState::Moving);
    assert_eq!(TorrentState::from_wire("forcedMetaDL"), TorrentState::ForcedMetaDL);
    assert_eq!(TorrentState::from_wire("unknown"), TorrentState::Unknown);
}

#[test]
fn unknown_states_from_the_wire() {
    assert_eq!(TorrentState::from_wire(""), TorrentState::Unknown);
    assert_eq!(TorrentState::from_wire("Error"), TorrentState::Unknown);
    assert_eq!(TorrentState::from_wire("pausedUp"), TorrentState::Unknown);
    assert_eq!(TorrentState::from_wire("stoppedDL"), TorrentState::Unknown);
    assert_eq!(TorrentState::from_wire("error "), TorrentState::Unknown);
    assert_eq!(TorrentState::from_wire("a state of the future"), TorrentState::Unknown);
}

#[test]
fn labels_of_states() {
    assert_eq!(TorrentState::PausedUP.label(false), "PausedUP");
    assert_eq!(
        TorrentState::PausedUP.label(true),
        "Torrent is paused and has finished downloading"
    );
    assert_eq!(TorrentState::Error.label(false), "Error");
    assert_eq!(
        TorrentState::Error.label(true),
        "Some error occurred, applies to paused torrents"
    );
    assert_eq!(TorrentState::ForcedMetaDL.label(true), "[UNDOCUMENTED]");
    assert_eq!(TorrentState::Unknown.label(false), "Unknown");
    assert_eq!(TorrentState::Unknown.label(true), "Unknown status");
    assert_eq!(TorrentState::CheckingResumeData.label(false), "CheckingResumeData");
}

#[test]
fn answers_to_a_question() {
    assert!(confirm("y", DefaultChoice::No));
    assert!(confirm("Y", DefaultChoice::No));
    assert!(!confirm("n", DefaultChoice::Yes));
    assert!(!confirm("N", DefaultChoice::Yes));
    assert!(!confirm("", DefaultChoice::No));
    assert!(confirm("", DefaultChoice::Yes));
    assert!(!confirm("yes", DefaultChoice::Yes));
    assert!(!confirm(" y", DefaultChoice::Yes));
    assert!(!confirm("maybe", DefaultChoice::No));
}

#[test]
fn questions() {
    assert_eq!(confirm_prompt("Sure?", DefaultChoice::No), "Sure? [y/N] ");
    assert_eq!(confirm_prompt("Sure?", DefaultChoice::Yes), "Sure? [Y/n] ");
}

#[test]
fn only_a_rejected_cookie_is_fatal() {
    let failure = exit_if_expired(403).unwrap();
    assert_eq!(failure.kind, ErrorKind::SessionExpired);
    assert_eq!(
        failure.message,
        "Your cookie is expired. Run the auth add command again to renew it."
    );
    assert!(failure.kind.is_fatal());
    assert_eq!(failure.kind.exit_code(), 1);
    assert_eq!(exit_if_expired(200), None);
    assert_eq!(exit_if_expired(401), None);
    assert_eq!(exit_if_expired(404), None);
    assert_eq!(exit_if_expired(500), None);
}

#[test]
fn exit_codes_of_failures() {
    assert_eq!(ErrorKind::NotConfigured.exit_code(), 1);
    assert_eq!(ErrorKind::AuthFailure.exit_code(), 1);
    assert_eq!(ErrorKind::SessionExpired.exit_code(), 1);
    assert_eq!(ErrorKind::InvalidInput.exit_code(), 1);
    assert_eq!(ErrorKind::UnknownEndpoint.exit_code(), 0);
    assert_eq!(ErrorKind::Transport.exit_code(), 1);
    assert_eq!(ErrorKind::Decode.exit_code(), 1);
    assert!(!ErrorKind::NotConfigured.is_fatal());
    assert!(!ErrorKind::Transport.is_fatal());
    assert!(!ErrorKind::Decode.is_fatal());
}
