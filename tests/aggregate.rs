use downloads_client::download_item::{Amount, DecimalText, DownloadItem, Percentage};
use downloads_client::error::BackendError;
use downloads_client::facade::{get_download_items, get_qbt_items, get_sab_items};
use downloads_client::poller::{Snapshot, POLL_INTERVAL_MS};
use downloads_client::reqwest_client::default_reqwest_client;
use downloads_client::sabnzbd::{self, Sabnzbd};
use downloads_client::qbittorrent;

fn item(id: &str) -> DownloadItem {
    DownloadItem::new(
        id.to_string(),
        "n".to_string(),
        Amount::Bytes(0),
        Amount::Bytes(0),
        Percentage::Percent(DecimalText::parse("0").unwrap()),
        "s".to_string(),
    )
}

fn slot(id: &str, mb: &str) -> sabnzbd::Item {
    sabnzbd::Item {
        name: "n".to_string(),
        mbleft: "1".to_string(),
        mb: mb.to_string(),
        nzo_id: id.to_string(),
        percentage: "50".to_string(),
        status: "Queued".to_string(),
    }
}

fn torrent(hash: &str) -> qbittorrent::Item {
    qbittorrent::Item {
        name: "t".to_string(),
        size: 1048576,
        downloaded: 0,
        hash: hash.to_string(),
        progress: DecimalText::parse("0.25").unwrap(),
        state: "stalledUP".to_string(),
    }
}

#[test]
fn both_succeed_torrents_first() {
    let r = get_download_items(Ok(vec![item("q1"), item("q2")]), Ok(vec![item("s1")])).unwrap();
    let ids: Vec<&str> = r.iter().map(|d| d.download_item_id.as_str()).collect();
    assert_eq!(ids, vec!["q1", "q2", "s1"]);
}

#[test]
fn either_failure_fails_the_whole() {
    let e = BackendError::Network("down".to_string());
    assert_eq!(get_download_items(Ok(vec![item("q1")]), Err(e.clone())), Err(e.clone()));
    assert_eq!(get_download_items(Err(e.clone()), Ok(vec![item("s1")])), Err(e.clone()));
}

#[test]
fn torrent_error_wins_when_both_fail() {
    let r = get_download_items(Err(BackendError::HttpStatus(401)), Err(BackendError::HttpStatus(500)));
    assert_eq!(r, Err(BackendError::HttpStatus(401)));
}

#[test]
fn empty_backends_give_empty_list() {
    assert_eq!(get_download_items(Ok(vec![]), Ok(vec![])), Ok(vec![]));
}

#[test]
fn torrent_listing_keeps_order() {
    let r = get_qbt_items(Ok(vec![torrent("a"), torrent("b"), torrent("c")])).unwrap();
    let ids: Vec<&str> = r.iter().map(|d| d.download_item_id.as_str()).collect();
    assert_eq!(ids, vec!["qbittorrent-a", "qbittorrent-b", "qbittorrent-c"]);
    assert_eq!(r[0].download_mb_total, Amount::Bytes(1048576));
    assert_eq!(r[0].download_item_status, "Torrent is being seeded, but no connection were made");
}

#[test]
fn usenet_queue_keeps_order_and_fails_fast() {
    let r = get_sab_items(Ok(vec![slot("s1", "2"), slot("s2", "3")])).unwrap();
    let ids: Vec<&str> = r.iter().map(|d| d.download_item_id.as_str()).collect();
    assert_eq!(ids, vec!["s1", "s2"]);
    let bad = get_sab_items(Ok(vec![slot("s1", "2"), slot("s2", "three"), slot("s3", "?")]));
    assert_eq!(bad, Err(BackendError::NumericParse("three".to_string())));
    let e = get_sab_items(Err(BackendError::HttpStatus(403)));
    assert_eq!(e, Err(BackendError::HttpStatus(403)));
}

#[test]
fn usenet_queue_response() {
    let s = Sabnzbd::new("http://nas:8080".to_string(), "SECRET-REDACTED".to_string());
    assert_eq!(s.get_items(500, Ok(vec![slot("s1", "2")])).unwrap_err(), BackendError::HttpStatus(500));
    assert_eq!(s.get_items(200, Ok(vec![slot("s1", "2")])).unwrap().len(), 1);
    assert_eq!(
        s.get_items(200, Err("missing field `queue`".to_string())).unwrap_err(),
        BackendError::MalformedResponse("missing field `queue`".to_string())
    );
    let q = s.authenticated_query();
    assert_eq!(q[0], ("apikey".to_string(), "SECRET-REDACTED".to_string()));
    assert_eq!(q[1], ("output".to_string(), "json".to_string()));
    assert_eq!(q[2], ("mode".to_string(), "queue".to_string()));
    assert_eq!(Sabnzbd::api_path(), vec!["api"]);
    assert_eq!(
        s.authenticated_url().unwrap(),
        "http://nas:8080/api?apikey=SECRET-REDACTED&output=json&mode=queue"
    );
    let spaced = Sabnzbd::new("http://nas:8080".to_string(), "a b&c".to_string());
    assert_eq!(spaced.authenticated_url().unwrap(), "http://nas:8080/api?apikey=a+b%26c&output=json&mode=queue");
    let bad = Sabnzbd::new("data:text/plain,x".to_string(), "k".to_string());
    assert_eq!(bad.authenticated_url(), Err(BackendError::Configuration("Invalid base url".to_string())));
}

#[test]
fn publishing_replaces_the_snapshot() {
    let mut s = Snapshot::new();
    assert!(matches!(s, Snapshot::Loading));
    s.publish(Ok(vec![item("a"), item("b")]));
    assert!(matches!(s, Snapshot::Items(ref v) if v.len() == 2));
    s.publish(Err(BackendError::HttpStatus(502)));
    assert!(matches!(s, Snapshot::Failed(BackendError::HttpStatus(502))));
    s.publish(Ok(vec![item("c")]));
    assert!(matches!(s, Snapshot::Items(ref v) if v.len() == 1 && v[0].download_item_id == "c"));
    assert_eq!(POLL_INTERVAL_MS, 1000);
}

#[test]
fn client_can_be_built() {
    assert!(default_reqwest_client().is_ok());
}
