use downloads_client::download_item::{Amount, DecimalText, Percentage};
use downloads_client::error::BackendError;
use downloads_client::number::is_float;
use downloads_client::qbittorrent;
use downloads_client::sabnzbd;

fn torrent(state: &str, size: i64, downloaded: i64, progress: &str, hash: &str) -> qbittorrent::Item {
    qbittorrent::Item {
        name: "Some.Linux.iso".to_string(),
        size,
        downloaded,
        hash: hash.to_string(),
        progress: DecimalText::parse(progress).unwrap(),
        state: state.to_string(),
    }
}

fn slot(mbleft: &str, mb: &str, percentage: &str) -> sabnzbd::Item {
    sabnzbd::Item {
        name: "Some.Show.S01E01".to_string(),
        mbleft: mbleft.to_string(),
        mb: mb.to_string(),
        nzo_id: "SABnzbd_1".to_string(),
        percentage: percentage.to_string(),
        status: "Downloading".to_string(),
    }
}

fn megabytes(a: &Amount) -> f64 {
    match a {
        Amount::Bytes(b) => *b as f64 / 1048576.0,
        Amount::Megabytes(t) => t.as_str().parse::<f64>().unwrap(),
    }
}

fn percent(p: &Percentage) -> f64 {
    match p {
        Percentage::Fraction(t) => t.as_str().parse::<f64>().unwrap() * 100.0,
        Percentage::Percent(t) => t.as_str().parse::<f64>().unwrap(),
    }
}

#[test]
fn torrent_downloading_scenario() {
    let d = torrent("downloading", 2097152, 1048576, "0.5", "abc").into_download_item();
    assert_eq!(d.download_item_status, "Torrent is being downloaded and data is being transferred");
    assert_eq!(megabytes(&d.download_mb_total), 2.0);
    assert_eq!(percent(&d.download_percentage_complete), 50.0);
    assert_eq!(megabytes(&d.download_mb_left), 3.0);
    assert_eq!(d.download_mb_left, Amount::Bytes(3145728));
    assert_eq!(d.download_item_id, "qbittorrent-abc");
    assert_eq!(d.download_item_name, "Some.Linux.iso");
}

#[test]
fn torrent_status_table() {
    let cases = [
        ("pausedUP", "Torrent is paused and has finished downloading"),
        ("stalledDL", "Torrent is being downloaded, but no connection were made"),
        ("checkingResumeData", "Checking resume data on qBt startup"),
        ("moving", "Torrent is moving to another location"),
        ("error", "Some error occurred, applies to paused torrents"),
        ("metaDL", "Torrent has just started downloading and is fetching metadata"),
    ];
    for (code, sentence) in cases {
        let d = torrent(code, 10, 0, "0", "h").into_download_item();
        assert_eq!(d.download_item_status, sentence);
    }
}

#[test]
fn torrent_unknown_status() {
    for code in ["", "Downloading", "seeding", "downloading "] {
        let d = torrent(code, 10, 0, "0", "h").into_download_item();
        assert_eq!(d.download_item_status, "Unknown status");
    }
    assert_eq!(qbittorrent::status_sentence("unknown"), "Unknown status");
}

#[test]
fn torrent_amounts_are_exact_byte_counts() {
    let d = torrent("queuedDL", i64::MAX, i64::MAX, "1", "h").into_download_item();
    assert_eq!(d.download_mb_left, Amount::Bytes(2 * (i64::MAX as i128)));
    assert_eq!(d.download_mb_total, Amount::Bytes(i64::MAX as i128));
}

#[test]
fn usenet_scenario() {
    let d = slot("10.5", "20.0", "52").into_download_item().unwrap();
    assert_eq!(megabytes(&d.download_mb_left), 10.5);
    assert_eq!(megabytes(&d.download_mb_total), 20.0);
    assert_eq!(percent(&d.download_percentage_complete), 52.0);
    assert_eq!(d.download_item_status, "Downloading");
    assert_eq!(d.download_item_id, "SABnzbd_1");
}

#[test]
fn usenet_unreadable_number_fails() {
    assert_eq!(
        slot("x", "20.0", "52").into_download_item(),
        Err(BackendError::NumericParse("x".to_string()))
    );
    assert_eq!(
        slot("1", "", "52").into_download_item(),
        Err(BackendError::NumericParse("".to_string()))
    );
    assert_eq!(
        slot("1", "2", "52%").into_download_item(),
        Err(BackendError::NumericParse("52%".to_string()))
    );
}

#[test]
fn usenet_accepts_every_float_spelling() {
    for t in ["inf", "-Infinity", "NaN", "1e5", "2.5E-3", ".5", "5.", "+7", "007"] {
        assert!(slot(t, t, t).into_download_item().is_ok(), "{t}");
    }
}

#[test]
fn float_text_agrees_with_std() {
    let texts = [
        "", ".", "+", "-", "e5", "1e", "1e+", "1.2.3", "1,5", " 1", "1 ", "infinit", "nana", "0x10",
        "1", "-0", "1.", ".1", "1.5e10", "1E-3", "+.5e+2", "INF", "iNfInItY", "-nan", "1_000",
    ];
    for t in texts {
        assert_eq!(is_float(t), t.parse::<f64>().is_ok(), "{t:?}");
    }
}

#[test]
fn ids_are_namespaced_only_for_torrents() {
    let a = torrent("moving", 1, 1, "0.1", "SABnzbd_1").into_download_item();
    let b = slot("1", "2", "3").into_download_item().unwrap();
    assert!(a.download_item_id.starts_with("qbittorrent-"));
    assert_ne!(a.download_item_id, b.download_item_id);
    assert!(!b.download_item_id.starts_with("qbittorrent-"));
}
