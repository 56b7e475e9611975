//! The backend-independent download record.
use vstd::prelude::*;

use crate::number::{is_float, is_float_text};

verus! {

/// Text from which a floating-point number can be read.
#[derive(Debug, PartialEq)]
pub struct DecimalText {
    text: String,
}

impl View for DecimalText {
    type V = Seq<char>;

    closed spec fn view(&self) -> Seq<char> {
        self.text@
    }
}

impl Clone for DecimalText {
    fn clone(&self) -> (r: Self)
        ensures
            r@ == self@,
    {
        proof {
            use_type_invariant(self);
        }
        DecimalText { text: self.text.clone() }
    }
}

impl DecimalText {
    #[verifier::type_invariant]
    closed spec fn readable(&self) -> bool {
        is_float_text(self.text@)
    }

    /// Keeps `s` if a floating-point number can be read from it.
    pub fn parse(s: &str) -> (r: Option<DecimalText>)
        ensures
            r is Some <==> is_float_text(s@),
            r matches Some(d) ==> d@ == s@,
    {
        if is_float(s) {
            Some(DecimalText { text: s.to_owned() })
        } else {
            None
        }
    }

    pub fn as_str(&self) -> (r: &str)
        ensures
            r@ == self@,
            is_float_text(r@),
    {
        proof {
            use_type_invariant(self);
        }
        self.text.as_str()
    }
}

/// A quantity of data, in megabytes.
#[derive(Clone, Debug, PartialEq)]
pub enum Amount {
    /// `bytes` bytes: `bytes / 1048576` megabytes, exactly.
    Bytes(i128),
    /// A number of megabytes as the backend wrote it.
    Megabytes(DecimalText),
}

/// How far a download has come.
#[derive(Clone, Debug, PartialEq)]
pub enum Percentage {
    /// A fraction of one as the backend wrote it: the percentage is a hundred times it.
    Fraction(DecimalText),
    /// A percentage as the backend wrote it.
    Percent(DecimalText),
}

/// One download, whichever backend reported it.
#[derive(Clone, Debug, PartialEq)]
pub struct DownloadItem {
    pub download_item_id: String,
    pub download_item_name: String,
    pub download_mb_left: Amount,
    pub download_mb_total: Amount,
    pub download_percentage_complete: Percentage,
    pub download_item_status: String,
}

impl DownloadItem {
    pub fn new(
        download_item_id: String,
        download_item_name: String,
        download_mb_left: Amount,
        download_mb_total: Amount,
        download_percentage_complete: Percentage,
        download_item_status: String,
    ) -> (r: Self)
        ensures
            r.download_item_id == download_item_id,
            r.download_item_name == download_item_name,
            r.download_mb_left == download_mb_left,
            r.download_mb_total == download_mb_total,
            r.download_percentage_complete == download_percentage_complete,
            r.download_item_status == download_item_status,
    {
        DownloadItem {
            download_item_id,
            download_item_name,
            download_mb_left,
            download_mb_total,
            download_percentage_complete,
            download_item_status,
        }
    }
}

} // verus!
