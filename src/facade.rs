//! Both backends behind one call.
use vstd::prelude::*;

use crate::download_item::DownloadItem;
use crate::error::BackendError;
use crate::number::is_float_text;
use crate::qbittorrent;
use crate::sabnzbd;

verus! {

/// Converts the torrent client's listing, keeping its order.
pub fn get_qbt_items(fetched: Result<Vec<qbittorrent::Item>, BackendError>) -> (r: Result<Vec<DownloadItem>, BackendError>)
    ensures
        fetched matches Err(e) ==> r == Err::<Vec<DownloadItem>, BackendError>(e),
        fetched matches Ok(v) ==> r matches Ok(w) && w.len() == v.len()
            && forall|i: int| 0 <= i < v.len() ==> (#[trigger] v[i]).converts_to(&w[i]),
{
    let mut items = match fetched {
        Ok(v) => v,
        Err(e) => return Err(e),
    };
    let ghost src = items@;
    let mut out: Vec<DownloadItem> = Vec::new();
    let mut rest: Vec<qbittorrent::Item> = Vec::new();
    // Items are taken from the back, so the listing order is rebuilt at the end.
    while items.len() > 0
        invariant
            items@.len() + rest@.len() == src.len(),
            forall|i: int| 0 <= i < items@.len() ==> items@[i] == src[i],
            forall|i: int| 0 <= i < rest@.len() ==> rest@[i] == src[src.len() - 1 - i],
        decreases items@.len(),
    {
        let it = items.pop().unwrap();
        rest.push(it);
    }
    while rest.len() > 0
        invariant
            out@.len() + rest@.len() == src.len(),
            forall|i: int| 0 <= i < rest@.len() ==> rest@[i] == src[src.len() - 1 - i],
            forall|i: int| 0 <= i < out@.len() ==> (#[trigger] src[i]).converts_to(&out@[i]),
        decreases rest@.len(),
    {
        let it = rest.pop().unwrap();
        let d = it.into_download_item();
        out.push(d);
    }
    Ok(out)
}

/// Ids of torrent items start with the torrent client's prefix; ids of
/// usenet items are the downloader's own ids, untouched.
pub proof fn lemma_id_namespaces(t: qbittorrent::Item, a: DownloadItem, s: sabnzbd::Item, b: DownloadItem)
    requires
        t.converts_to(&a),
        s.converts_to(&b),
    ensures
        a.download_item_id@.len() >= qbittorrent::id_prefix().len(),
        a.download_item_id@.take(qbittorrent::id_prefix().len() as int) == qbittorrent::id_prefix(),
        b.download_item_id@ == s.nzo_id@,
{
    assert(a.download_item_id@.take(qbittorrent::id_prefix().len() as int) =~= qbittorrent::id_prefix());
}

/// Every slot of the list can be read.
pub open spec fn all_readable(v: Seq<sabnzbd::Item>) -> bool {
    forall|i: int| 0 <= i < v.len() ==> (#[trigger] v[i]).readable()
}

/// Converts the usenet downloader's queue, keeping its order; the first slot
/// with a number that cannot be read fails the whole list.
pub fn get_sab_items(fetched: Result<Vec<sabnzbd::Item>, BackendError>) -> (r: Result<Vec<DownloadItem>, BackendError>)
    ensures
        fetched matches Err(e) ==> r == Err::<Vec<DownloadItem>, BackendError>(e),
        fetched matches Ok(v) ==> (r is Ok <==> all_readable(v@)),
        fetched matches Ok(v) ==> (r matches Ok(w) ==> w.len() == v.len()
            && forall|i: int| 0 <= i < v.len() ==> (#[trigger] v[i]).converts_to(&w[i])),
        fetched is Ok ==> (r matches Err(e) ==> e matches BackendError::NumericParse(t) && !is_float_text(t@)),
{
    let mut items = match fetched {
        Ok(v) => v,
        Err(e) => return Err(e),
    };
    let ghost src = items@;
    let mut out: Vec<DownloadItem> = Vec::new();
    let mut rest: Vec<sabnzbd::Item> = Vec::new();
    while items.len() > 0
        invariant
            fetched is Ok,
            fetched->Ok_0@ == src,
            items@.len() + rest@.len() == src.len(),
            forall|i: int| 0 <= i < items@.len() ==> items@[i] == src[i],
            forall|i: int| 0 <= i < rest@.len() ==> rest@[i] == src[src.len() - 1 - i],
        decreases items@.len(),
    {
        let it = items.pop().unwrap();
        rest.push(it);
    }
    while rest.len() > 0
        invariant
            fetched is Ok,
            fetched->Ok_0@ == src,
            out@.len() + rest@.len() == src.len(),
            forall|i: int| 0 <= i < rest@.len() ==> rest@[i] == src[src.len() - 1 - i],
            forall|i: int| 0 <= i < out@.len() ==> (#[trigger] src[i]).converts_to(&out@[i]),
            forall|i: int| 0 <= i < out@.len() ==> (#[trigger] src[i]).readable(),
        decreases rest@.len(),
    {
        let it = rest.pop().unwrap();
        let ghost k = out@.len() as int;
        assert(it == src[k]);
        match it.into_download_item() {
            Ok(d) => out.push(d),
            Err(e) => {
                assert(!src[k].readable());
                assert(!all_readable(src));
                return Err(e);
            },
        }
    }
    assert(all_readable(src));
    Ok(out)
}

/// When both backends succeed, the joined list is as long as the two lists
/// together, the torrent items first and in their order, then the usenet items.
pub proof fn lemma_join_counts(a: Seq<DownloadItem>, b: Seq<DownloadItem>, c: Seq<DownloadItem>)
    requires
        c == a + b,
    ensures
        c.len() == a.len() + b.len(),
        forall|i: int| 0 <= i < a.len() ==> c[i] == a[i],
        forall|j: int| 0 <= j < b.len() ==> c[a.len() + j] == b[j],
{
}

/// Joins the two backends' results: the torrent items, then the usenet
/// items. If either failed the whole call fails, the torrent client's
/// error first.
pub fn get_download_items(
    qbt: Result<Vec<DownloadItem>, BackendError>,
    sab: Result<Vec<DownloadItem>, BackendError>,
) -> (r: Result<Vec<DownloadItem>, BackendError>)
    ensures
        qbt matches Err(e) ==> r == Err::<Vec<DownloadItem>, BackendError>(e),
        qbt is Ok ==> (sab matches Err(e) ==> r == Err::<Vec<DownloadItem>, BackendError>(e)),
        qbt matches Ok(a) ==> (sab matches Ok(b) ==> r matches Ok(c) && c@ == a@ + b@),
{
    let mut a = match qbt {
        Ok(v) => v,
        Err(e) => return Err(e),
    };
    let mut b = match sab {
        Ok(v) => v,
        Err(e) => return Err(e),
    };
    a.append(&mut b);
    Ok(a)
}

} // verus!
