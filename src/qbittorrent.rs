//! The torrent client: its records, its session and its retry rule.
use vstd::prelude::*;

use crate::download_item::{Amount, DecimalText, DownloadItem, Percentage};
use crate::endpoint::{build_request_url, invalid_base, pair_texts, request_url, texts};
use crate::error::{is_success_status, BackendError, UNAUTHORIZED};

verus! {

/// A torrent as the torrent client lists it.
#[derive(Debug)]
pub struct Item {
    pub name: String,
    pub size: i64,
    pub downloaded: i64,
    pub hash: String,
    pub progress: DecimalText,
    pub state: String,
}

/// The sentence that describes the torrent client's state code `state`.
pub open spec fn status_text(state: Seq<char>) -> Seq<char> {
    if state == "error"@ {
        "Some error occurred, applies to paused torrents"@
    } else if state == "missingFiles"@ {
        "Torrent data files is missing"@
    } else if state == "uploading"@ {
        "Torrent is being seeded and data is being transferred"@
    } else if state == "pausedUP"@ {
        "Torrent is paused and has finished downloading"@
    } else if state == "queuedUP"@ {
        "Queuing is enabled and torrent is queued for upload"@
    } else if state == "stalledUP"@ {
        "Torrent is being seeded, but no connection were made"@
    } else if state == "checkingUP"@ {
        "Torrent has finished downloading and is being checked"@
    } else if state == "forcedUP"@ {
        "Torrent is forced to uploading and ignore queue limit"@
    } else if state == "allocating"@ {
        "Torrent is allocating disk space for download"@
    } else if state == "downloading"@ {
        "Torrent is being downloaded and data is being transferred"@
    } else if state == "metaDL"@ {
        "Torrent has just started downloading and is fetching metadata"@
    } else if state == "pausedDL"@ {
        "Torrent is paused and has NOT finished downloading"@
    } else if state == "queuedDL"@ {
        "Queuing is enabled and torrent is queued for download"@
    } else if state == "stalledDL"@ {
        "Torrent is being downloaded, but no connection were made"@
    } else if state == "checkingDL"@ {
        "Same as checkingUP, but torrent has NOT finished downloading"@
    } else if state == "forcedDL"@ {
        "Torrent is forced to downloading to ignore queue limit"@
    } else if state == "checkingResumeData"@ {
        "Checking resume data on qBt startup"@
    } else if state == "moving"@ {
        "Torrent is moving to another location"@
    } else {
        "Unknown status"@
    }
}

/// The state codes that have a sentence of their own.
pub open spec fn known_state_codes() -> Seq<Seq<char>> {
    seq!["error"@, "missingFiles"@, "uploading"@, "pausedUP"@, "queuedUP"@, "stalledUP"@, "checkingUP"@, "forcedUP"@, "allocating"@, "downloading"@, "metaDL"@, "pausedDL"@, "queuedDL"@, "stalledDL"@, "checkingDL"@, "forcedDL"@, "checkingResumeData"@, "moving"@]
}

/// A state code outside the table reads as "Unknown status".
pub proof fn lemma_unknown_state(state: Seq<char>)
    requires
        !known_state_codes().contains(state),
    ensures
        status_text(state) == "Unknown status"@,
{
    assert(known_state_codes()[0] == "error"@);
    assert(known_state_codes()[1] == "missingFiles"@);
    assert(known_state_codes()[2] == "uploading"@);
    assert(known_state_codes()[3] == "pausedUP"@);
    assert(known_state_codes()[4] == "queuedUP"@);
    assert(known_state_codes()[5] == "stalledUP"@);
    assert(known_state_codes()[6] == "checkingUP"@);
    assert(known_state_codes()[7] == "forcedUP"@);
    assert(known_state_codes()[8] == "allocating"@);
    assert(known_state_codes()[9] == "downloading"@);
    assert(known_state_codes()[10] == "metaDL"@);
    assert(known_state_codes()[11] == "pausedDL"@);
    assert(known_state_codes()[12] == "queuedDL"@);
    assert(known_state_codes()[13] == "stalledDL"@);
    assert(known_state_codes()[14] == "checkingDL"@);
    assert(known_state_codes()[15] == "forcedDL"@);
    assert(known_state_codes()[16] == "checkingResumeData"@);
    assert(known_state_codes()[17] == "moving"@);
}

/// Whether `a` and `b` hold the same characters.
fn same_text(a: &str, b: &str) -> (r: bool)
    ensures
        r == (a@ == b@),
{
    let n = a.unicode_len();
    if n != b.unicode_len() {
        return false;
    }
    let mut i: usize = 0;
    while i < n
        invariant
            n == a@.len(),
            n == b@.len(),
            i <= n,
            forall|k: int| 0 <= k < i ==> a@[k] == b@[k],
        decreases n - i,
    {
        if a.get_char(i) != b.get_char(i) {
            return false;
        }
        i = i + 1;
    }
    assert(a@ =~= b@);
    true
}

/// The sentence that describes the state code `state`.
pub fn status_sentence(state: &str) -> (r: &'static str)
    ensures
        r@ == status_text(state@),
{
    if same_text(state, "error") {
        "Some error occurred, applies to paused torrents"
    } else if same_text(state, "missingFiles") {
        "Torrent data files is missing"
    } else if same_text(state, "uploading") {
        "Torrent is being seeded and data is being transferred"
    } else if same_text(state, "pausedUP") {
        "Torrent is paused and has finished downloading"
    } else if same_text(state, "queuedUP") {
        "Queuing is enabled and torrent is queued for upload"
    } else if same_text(state, "stalledUP") {
        "Torrent is being seeded, but no connection were made"
    } else if same_text(state, "checkingUP") {
        "Torrent has finished downloading and is being checked"
    } else if same_text(state, "forcedUP") {
        "Torrent is forced to uploading and ignore queue limit"
    } else if same_text(state, "allocating") {
        "Torrent is allocating disk space for download"
    } else if same_text(state, "downloading") {
        "Torrent is being downloaded and data is being transferred"
    } else if same_text(state, "metaDL") {
        "Torrent has just started downloading and is fetching metadata"
    } else if same_text(state, "pausedDL") {
        "Torrent is paused and has NOT finished downloading"
    } else if same_text(state, "queuedDL") {
        "Queuing is enabled and torrent is queued for download"
    } else if same_text(state, "stalledDL") {
        "Torrent is being downloaded, but no connection were made"
    } else if same_text(state, "checkingDL") {
        "Same as checkingUP, but torrent has NOT finished downloading"
    } else if same_text(state, "forcedDL") {
        "Torrent is forced to downloading to ignore queue limit"
    } else if same_text(state, "checkingResumeData") {
        "Checking resume data on qBt startup"
    } else if same_text(state, "moving") {
        "Torrent is moving to another location"
    } else {
        "Unknown status"
    }
}

/// What the ids of this backend's items start with.
pub open spec fn id_prefix() -> Seq<char> {
    "qbittorrent-"@
}

impl Item {
    /// `d` is what this torrent becomes as a download item.
    pub open spec fn converts_to(&self, d: &DownloadItem) -> bool {
        &&& d.download_item_id@ == id_prefix() + self.hash@
        &&& d.download_item_name@ == self.name@
        &&& d.download_mb_left == Amount::Bytes((self.size + self.downloaded) as i128)
        &&& d.download_mb_total == Amount::Bytes(self.size as i128)
        &&& d.download_percentage_complete matches Percentage::Fraction(p) && p@ == self.progress@
        &&& d.download_item_status@ == status_text(self.state@)
    }

    pub fn into_download_item(self) -> (r: DownloadItem)
        ensures
            self.converts_to(&r),
    {
        let mut id = String::from_str("qbittorrent-");
        id.append(self.hash.as_str());
        let status = status_sentence(self.state.as_str()).to_owned();
        let left: i128 = self.size as i128 + self.downloaded as i128;
        let progress = self.progress.clone();
        DownloadItem::new(
            id,
            self.name,
            Amount::Bytes(left),
            Amount::Bytes(self.size as i128),
            Percentage::Fraction(progress),
            status,
        )
    }
}

/// The torrent client's address, its credentials and its current session token.
pub struct QBitTorrent {
    endpoint: String,
    username: String,
    password: String,
    cookies: String,
}

impl QBitTorrent {
    /// The session token sent with every listing request.
    pub closed spec fn token(&self) -> Seq<char> {
        self.cookies@
    }

    /// The base address of the torrent client.
    pub closed spec fn base(&self) -> Seq<char> {
        self.endpoint@
    }

    pub closed spec fn user(&self) -> Seq<char> {
        self.username@
    }

    pub closed spec fn secret(&self) -> Seq<char> {
        self.password@
    }

    pub fn username(&self) -> (r: &str)
        ensures
            r@ == self.user(),
    {
        self.username.as_str()
    }

    pub fn password(&self) -> (r: &str)
        ensures
            r@ == self.secret(),
    {
        self.password.as_str()
    }

    pub fn new(endpoint: String, username: String, password: String) -> (r: Self)
        ensures
            r.base() == endpoint@,
            r.user() == username@,
            r.secret() == password@,
            r.token() == Seq::<char>::empty(),
    {
        QBitTorrent { endpoint, username, password, cookies: String::new() }
    }

    pub fn session_token(&self) -> (r: &str)
        ensures
            r@ == self.token(),
    {
        self.cookies.as_str()
    }

    /// Takes in the answer to a login request: on success the session
    /// identifier it set (none leaves an empty token) becomes the token.
    pub fn authenticate(&mut self, status: u16, sid: Option<String>) -> (r: Result<(), BackendError>)
        ensures
            final(self).base() == old(self).base(),
            final(self).user() == old(self).user(),
            final(self).secret() == old(self).secret(),
            is_success_status(status) ==> r is Ok && final(self).token() == match sid {
                Some(t) => t@,
                None => Seq::<char>::empty(),
            },
            !is_success_status(status) ==> r == Err::<(), BackendError>(BackendError::HttpStatus(status))
                && final(self).token() == old(self).token(),
    {
        if 200 <= status && status <= 299 {
            self.cookies = match sid {
                Some(t) => t,
                None => String::new(),
            };
            Ok(())
        } else {
            Err(BackendError::HttpStatus(status))
        }
    }

    /// The path of the login request, below the base address.
    pub fn authenticate_path() -> (r: Vec<&'static str>)
        ensures
            texts(r@) == login_segments(),
    {
        let r = vec!["api", "v2", "auth", "login"];
        assert(texts(r@) =~= login_segments());
        r
    }

    /// The path of the listing request, below the base address.
    pub fn get_items_path() -> (r: Vec<&'static str>)
        ensures
            texts(r@) == listing_segments(),
    {
        let r = vec!["api", "v2", "torrents", "info"];
        assert(texts(r@) =~= listing_segments());
        r
    }

    /// The query of the listing request: only torrents that are downloading.
    pub fn get_items_query() -> (r: Vec<(String, String)>)
        ensures
            pair_texts(r@) == listing_query(),
    {
        let r = vec![(String::from_str("filter"), String::from_str("downloading"))];
        assert(pair_texts(r@) =~= listing_query());
        r
    }

    /// The address of the login request.
    pub fn authenticate_url(&self) -> (r: Result<String, BackendError>)
        ensures
            r is Ok <==> request_url(self.base(), login_segments(), None) is Some,
            r matches Ok(u) ==> request_url(self.base(), login_segments(), None) == Some(u@),
            r matches Err(e) ==> e matches BackendError::Configuration(m) && m@ == invalid_base(),
    {
        build_request_url(self.endpoint.as_str(), &Self::authenticate_path(), None)
    }

    /// The address of the listing request.
    pub fn get_items_url(&self) -> (r: Result<String, BackendError>)
        ensures
            r is Ok <==> request_url(self.base(), listing_segments(), Some(listing_query())) is Some,
            r matches Ok(u) ==> request_url(self.base(), listing_segments(), Some(listing_query())) == Some(u@),
            r matches Err(e) ==> e matches BackendError::Configuration(m) && m@ == invalid_base(),
    {
        let q = Self::get_items_query();
        build_request_url(self.endpoint.as_str(), &Self::get_items_path(), Some(&q))
    }
}

pub open spec fn login_segments() -> Seq<Seq<char>> {
    seq!["api"@, "v2"@, "auth"@, "login"@]
}

pub open spec fn listing_segments() -> Seq<Seq<char>> {
    seq!["api"@, "v2"@, "torrents"@, "info"@]
}

pub open spec fn listing_query() -> Seq<(Seq<char>, Seq<char>)> {
    seq![("filter"@, "downloading"@)]
}

/// Where a call of `get_items` stands.
#[derive(Clone, Copy, Debug, PartialEq, Eq, Structural)]
pub enum Phase {
    /// The first listing request is out.
    FirstListing,
    /// The listing was refused and a login request is out.
    Authenticating,
    /// The login succeeded and the one retried listing request is out.
    SecondListing,
    /// The call has its result.
    Done,
}

/// What the transport reports back to a call of `get_items`.
#[derive(Debug)]
pub enum Event {
    /// A listing request was answered with `status`; `items` is its body read as a list.
    Listed { status: u16, items: Result<Vec<Item>, String> },
    /// A login request was answered with `status`, setting the session identifier `sid`.
    LoggedIn { status: u16, sid: Option<String> },
    /// The transport failed.
    Failed(BackendError),
}

/// What a call of `get_items` asks the transport to do next.
#[derive(Debug)]
pub enum Action {
    /// Send a listing request with this session token.
    List(String),
    /// Send a login request with the client's credentials.
    Login,
    /// The call is over with this result.
    Finish(Result<Vec<Item>, BackendError>),
}

/// One call of `get_items`, with the requests it has sent so far.
#[derive(Debug)]
pub struct GetItems {
    pub phase: Phase,
    pub listings: u8,
    pub logins: u8,
}

/// A listing's result: its body, or why it could not be read.
pub open spec fn listing_result(items: Result<Vec<Item>, String>, r: Result<Vec<Item>, BackendError>) -> bool {
    match items {
        Ok(v) => r == Ok::<Vec<Item>, BackendError>(v),
        Err(m) => r matches Err(BackendError::MalformedResponse(m2)) && m2@ == m@,
    }
}

impl GetItems {
    /// The phase and the count of requests sent agree, and the counts
    /// never exceed two listings and one login.
    pub open spec fn wf(&self) -> bool {
        &&& self.listings <= 2 && self.logins <= 1
        &&& self.phase == Phase::FirstListing ==> self.listings == 1 && self.logins == 0
        &&& self.phase == Phase::Authenticating ==> self.listings == 1 && self.logins == 1
        &&& self.phase == Phase::SecondListing ==> self.listings == 2 && self.logins == 1
    }

    /// The event is one that the request out in this phase can bring.
    pub open spec fn expects(&self, e: &Event) -> bool {
        match e {
            Event::Listed { .. } => self.phase == Phase::FirstListing || self.phase == Phase::SecondListing,
            Event::LoggedIn { .. } => self.phase == Phase::Authenticating,
            Event::Failed(_) => self.phase != Phase::Done,
        }
    }

    /// A call never sends more than two listing requests and one login
    /// request, and once it is over it expects nothing more.
    pub proof fn lemma_request_budget(&self, e: &Event)
        requires
            self.wf(),
        ensures
            self.listings <= 2,
            self.logins <= 1,
            self.phase == Phase::Done ==> !self.expects(e),
    {
    }

    /// Starts a call: the first listing goes out with whatever token is held.
    pub fn start(client: &QBitTorrent) -> (r: (GetItems, Action))
        ensures
            r.0.wf(),
            r.0.phase == Phase::FirstListing,
            r.1 matches Action::List(t) && t@ == client.token(),
    {
        let t = client.session_token().to_owned();
        (GetItems { phase: Phase::FirstListing, listings: 1, logins: 0 }, Action::List(t))
    }

    /// Decides what follows `event`. An unauthorised first listing brings one
    /// login and one more listing; any other outcome ends the call.
    pub fn on_event(&mut self, client: &mut QBitTorrent, event: Event) -> (r: Action)
        requires
            old(self).wf(),
            old(self).expects(&event),
        ensures
            final(self).wf(),
            final(self).listings == old(self).listings + (if r is List { 1int } else { 0int }),
            final(self).logins == old(self).logins + (if r is Login { 1int } else { 0int }),
            final(self).phase == Phase::Done <==> r is Finish,
            final(client).base() == old(client).base(),
            final(client).user() == old(client).user(),
            final(client).secret() == old(client).secret(),
            !(event is LoggedIn) ==> final(client).token() == old(client).token(),
            match event {
                Event::Failed(e) => r == Action::Finish(Err(e)),
                Event::Listed { status, items } => if status == UNAUTHORIZED && old(self).phase == Phase::FirstListing {
                    r is Login && final(self).phase == Phase::Authenticating
                } else if status == UNAUTHORIZED {
                    r == Action::Finish(Err(BackendError::HttpStatus(status)))
                } else {
                    r matches Action::Finish(res) && listing_result(items, res)
                },
                Event::LoggedIn { status, sid } => if is_success_status(status) {
                    r matches Action::List(t) && t@ == final(client).token()
                        && final(client).token() == match sid {
                            Some(s) => s@,
                            None => Seq::<char>::empty(),
                        } && final(self).phase == Phase::SecondListing
                } else {
                    r == Action::Finish(Err(BackendError::HttpStatus(status)))
                        && final(client).token() == old(client).token()
                },
            },
    {
        match event {
            Event::Failed(e) => {
                self.phase = Phase::Done;
                Action::Finish(Err(e))
            },
            Event::Listed { status, items } => {
                if status == UNAUTHORIZED && self.phase == Phase::FirstListing {
                    self.phase = Phase::Authenticating;
                    self.logins = 1;
                    Action::Login
                } else if status == UNAUTHORIZED {
                    self.phase = Phase::Done;
                    Action::Finish(Err(BackendError::HttpStatus(status)))
                } else {
                    self.phase = Phase::Done;
                    match items {
                        Ok(v) => Action::Finish(Ok(v)),
                        Err(m) => Action::Finish(Err(BackendError::MalformedResponse(m))),
                    }
                }
            },
            Event::LoggedIn { status, sid } => {
                match client.authenticate(status, sid) {
                    Ok(()) => {
                        self.phase = Phase::SecondListing;
                        self.listings = 2;
                        Action::List(client.session_token().to_owned())
                    },
                    Err(e) => {
                        self.phase = Phase::Done;
                        Action::Finish(Err(e))
                    },
                }
            },
        }
    }
}

} // verus!
