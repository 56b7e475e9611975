//! The usenet downloader: its records and its queue request.
use vstd::prelude::*;

use crate::download_item::{Amount, DecimalText, DownloadItem, Percentage};
use crate::endpoint::{build_request_url, invalid_base, pair_texts, request_url, texts};
use crate::error::{is_success_status, BackendError};
use crate::number::is_float_text;

verus! {

/// A queue slot as the usenet downloader lists it; its numbers come as text.
#[derive(Debug)]
pub struct Item {
    pub name: String,
    pub mbleft: String,
    pub mb: String,
    pub nzo_id: String,
    pub percentage: String,
    pub status: String,
}

/// The usenet downloader's address and the API key sent with every request.
pub struct Sabnzbd {
    pub endpoint: String,
    pub apikey: String,
}

pub open spec fn api_segments() -> Seq<Seq<char>> {
    seq!["api"@]
}

/// The query of the queue request: the key, the output format, the mode.
pub open spec fn queue_query(apikey: Seq<char>) -> Seq<(Seq<char>, Seq<char>)> {
    seq![("apikey"@, apikey), ("output"@, "json"@), ("mode"@, "queue"@)]
}

impl Item {
    /// All three numbers of the slot can be read.
    pub open spec fn readable(&self) -> bool {
        is_float_text(self.mbleft@) && is_float_text(self.mb@) && is_float_text(self.percentage@)
    }

    /// `d` is what this slot becomes as a download item.
    pub open spec fn converts_to(&self, d: &DownloadItem) -> bool {
        &&& d.download_item_id@ == self.nzo_id@
        &&& d.download_item_name@ == self.name@
        &&& d.download_mb_left matches Amount::Megabytes(t) && t@ == self.mbleft@
        &&& d.download_mb_total matches Amount::Megabytes(t) && t@ == self.mb@
        &&& d.download_percentage_complete matches Percentage::Percent(t) && t@ == self.percentage@
        &&& d.download_item_status@ == self.status@
    }

    /// Fails on the first number that cannot be read, naming it.
    pub fn into_download_item(self) -> (r: Result<DownloadItem, BackendError>)
        ensures
            r is Ok <==> self.readable(),
            r matches Ok(d) ==> self.converts_to(&d),
            r matches Err(e) ==> e matches BackendError::NumericParse(t)
                && !is_float_text(t@)
                && (t@ == self.mbleft@ || t@ == self.mb@ || t@ == self.percentage@),
    {
        let left = match DecimalText::parse(self.mbleft.as_str()) {
            Some(v) => v,
            None => return Err(BackendError::NumericParse(self.mbleft)),
        };
        let total = match DecimalText::parse(self.mb.as_str()) {
            Some(v) => v,
            None => return Err(BackendError::NumericParse(self.mb)),
        };
        let percent = match DecimalText::parse(self.percentage.as_str()) {
            Some(v) => v,
            None => return Err(BackendError::NumericParse(self.percentage)),
        };
        Ok(DownloadItem::new(
            self.nzo_id,
            self.name,
            Amount::Megabytes(left),
            Amount::Megabytes(total),
            Percentage::Percent(percent),
            self.status,
        ))
    }
}

impl Sabnzbd {
    pub fn new(endpoint: String, apikey: String) -> (r: Self)
        ensures
            r.endpoint == endpoint,
            r.apikey == apikey,
    {
        Sabnzbd { endpoint, apikey }
    }

    /// The path of every request, below the base address.
    pub fn api_path() -> (r: Vec<&'static str>)
        ensures
            texts(r@) == api_segments(),
    {
        let r = vec!["api"];
        assert(texts(r@) =~= api_segments());
        r
    }

    pub fn authenticated_query(&self) -> (r: Vec<(String, String)>)
        ensures
            pair_texts(r@) == queue_query(self.apikey@),
    {
        let key = self.apikey.as_str().to_owned();
        let r = vec![
            (String::from_str("apikey"), key),
            (String::from_str("output"), String::from_str("json")),
            (String::from_str("mode"), String::from_str("queue")),
        ];
        assert(pair_texts(r@) =~= queue_query(self.apikey@));
        r
    }

    /// The address of the queue request, carrying the API key.
    pub fn authenticated_url(&self) -> (r: Result<String, BackendError>)
        ensures
            r is Ok <==> request_url(self.endpoint@, api_segments(), Some(queue_query(self.apikey@))) is Some,
            r matches Ok(u) ==> request_url(self.endpoint@, api_segments(), Some(queue_query(self.apikey@))) == Some(u@),
            r matches Err(e) ==> e matches BackendError::Configuration(m) && m@ == invalid_base(),
    {
        let q = self.authenticated_query();
        build_request_url(self.endpoint.as_str(), &Self::api_path(), Some(&q))
    }

    /// Takes in the answer to the queue request: its status, and its slots
    /// as read from the body. A status other than success fails first.
    pub fn get_items(&self, status: u16, slots: Result<Vec<Item>, String>) -> (r: Result<Vec<Item>, BackendError>)
        ensures
            !is_success_status(status) ==> r == Err::<Vec<Item>, BackendError>(BackendError::HttpStatus(status)),
            is_success_status(status) ==> match slots {
                Ok(v) => r == Ok::<Vec<Item>, BackendError>(v),
                Err(m) => r matches Err(BackendError::MalformedResponse(m2)) && m2@ == m@,
            },
    {
        if !(200 <= status && status <= 299) {
            return Err(BackendError::HttpStatus(status));
        }
        match slots {
            Ok(v) => Ok(v),
            Err(m) => Err(BackendError::MalformedResponse(m)),
        }
    }
}

} // verus!
