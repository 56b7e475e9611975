//! A read-only client core for a torrent client and a usenet downloader:
//! the backends' raw records are normalised into one download item.
pub mod download_item;
pub mod endpoint;
pub mod error;
pub mod facade;
pub mod number;
pub mod poller;
pub mod qbittorrent;
pub mod reqwest_client;
pub mod sabnzbd;
