use darkwallet::logfilter::{enabled, ignored_targets, is_target_ignored, LevelFilter, LogLevel};
use darkwallet::paths::{get_chatdb_path, get_first_time_filename, logfile_path};

#[test]
fn noisy_targets_are_ignored() {
    assert!(is_target_ignored("sled::tree"));
    assert!(is_target_ignored("net::session::outbound"));
    assert!(!is_target_ignored("net"));
    assert!(!is_target_ignored("ui::vector_art"));
    assert_eq!(ignored_targets().len(), 8);
}

#[test]
fn levels_above_the_filter_are_dropped() {
    assert!(enabled("app", LogLevel::Debug, LevelFilter::Debug));
    assert!(!enabled("app", LogLevel::Trace, LevelFilter::Debug));
    assert!(!enabled("app", LogLevel::Error, LevelFilter::Off));
    assert!(!enabled("rustls", LogLevel::Error, LevelFilter::Trace));
}

#[test]
fn paths_end_with_their_relative_parts() {
    if let Some(p) = get_chatdb_path() {
        assert!(p.ends_with("darkfi/wallet/chatdb"));
    }
    if let Some(p) = get_first_time_filename() {
        assert!(p.ends_with("darkfi/wallet/first_time"));
    }
    if let Some(p) = logfile_path() {
        assert!(p.ends_with("darkfi/darkfi.log"));
    }
}
