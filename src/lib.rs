//! Resolves catalog titles of installable Windows software to download links and decides how
//! a fetched installer is saved.
//!
//! - `catalog`: the titles, their configuration identifiers and their resolution rules.
//! - `links` and `scraped`: fixed links, and the rules that read a vendor page.
//! - `parsers` and `extract`: the HTML, XML and JSON parsers those rules use.
//! - `download` and `filename`: the outcome of a download request and the file-name cascade.
//! - `config`: the INI selection of titles.
//! - `starter` and `delegate`: command words, and the external delegate program.
//! - `text`: string helpers with specifications over `Seq<char>`.
//!
//! Network, file system and process work is left to the caller: functions here take the
//! fetched page or response and return what to do.

pub mod catalog;
pub mod config;
pub mod delegate;
pub mod download;
pub mod extract;
pub mod filename;
pub mod links;
pub mod parsers;
pub mod scraped;
pub mod starter;
pub mod text;
