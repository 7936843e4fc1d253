//! The cascade that picks the on-disk name of a downloaded installer.
use vstd::prelude::*;
use crate::text::{
    after_last, before_first, contains, ends_with, str_contains, str_ends_with, text_after_last,
    text_before_first,
};

verus! {

/// What `url::Url::parse` followed by `set_query(None)` serialises `s` to, when `s` parses.
pub uninterp spec fn url_without_query(s: Seq<char>) -> Option<Seq<char>>;

/// What `urlencoding::decode` makes of `s`, when the decoded bytes are UTF-8.
pub uninterp spec fn percent_decoded(s: Seq<char>) -> Option<Seq<char>>;

/// Relies on `url::Url::parse`, `Url::set_query(None)` and `Url::as_str`: the URL `s`
/// serialised without its query, or `None` where `s` is no absolute URL.
#[verifier::external_body]
fn strip_url_query(s: &str) -> (r: Option<String>)
    ensures
        r matches Some(u) ==> url_without_query(s@) == Some(u@),
        r is None ==> url_without_query(s@) is None,
{
    match url::Url::parse(s) {
        Ok(mut u) => {
            u.set_query(None);
            Some(u.as_str().to_string())
        },
        Err(_) => None,
    }
}

/// Relies on `urlencoding::decode`: `s` with its percent escapes decoded, or `None`
/// where the decoded bytes are not UTF-8.
#[verifier::external_body]
fn percent_decode(s: &str) -> (r: Option<String>)
    ensures
        r matches Some(d) ==> percent_decoded(s@) == Some(d@),
        r is None ==> percent_decoded(s@) is None,
{
    match urlencoding::decode(s) {
        Ok(d) => Some(d.into_owned()),
        Err(_) => None,
    }
}

/// `s`, unless it is empty.
pub open spec fn non_empty(s: Seq<char>) -> Option<Seq<char>> {
    if s.len() > 0 {
        Some(s)
    } else {
        None
    }
}

/// The last `/`-separated segment of `s`.
pub open spec fn last_segment(s: Seq<char>) -> Seq<char> {
    after_last(s, "/"@)
}

/// `s` ends in one of the installer extensions `.exe`, `.msi`, `.zip`.
pub open spec fn has_installer_extension(s: Seq<char>) -> bool {
    ends_with(s, ".exe"@) || ends_with(s, ".msi"@) || ends_with(s, ".zip"@)
}

/// First rule: an effective URL with an `.exe?` marker names the file by its last path
/// segment once the query is gone, cut before any `?filename=`.
pub open spec fn name_from_exe_query(effective: Seq<char>) -> Option<Seq<char>> {
    if contains(effective, ".exe?"@) {
        match url_without_query(effective) {
            Some(u) => non_empty(before_first(last_segment(u), "?filename="@)),
            None => None,
        }
    } else {
        None
    }
}

/// Second rule: the Battle.net installer endpoint, which names its file nowhere.
pub open spec fn name_from_battlenet(effective: Seq<char>) -> Option<Seq<char>> {
    if contains(effective, "&installer=Battle.net"@) {
        Some("battle-net-setup.exe"@)
    } else {
        None
    }
}

/// Third rule: what follows `filename=` in a `content-disposition` header.
pub open spec fn name_from_disposition(disposition: Option<Seq<char>>) -> Option<Seq<char>> {
    match disposition {
        Some(d) => if contains(d, "filename="@) {
            non_empty(after_last(d, "filename="@))
        } else {
            None
        },
        None => None,
    }
}

/// Fourth rule: the percent-decoded last segment of an effective URL with an installer extension.
pub open spec fn name_from_effective_url(effective: Seq<char>) -> Option<Seq<char>> {
    if has_installer_extension(effective) {
        match percent_decoded(last_segment(effective)) {
            Some(n) => non_empty(n),
            None => None,
        }
    } else {
        None
    }
}

/// Fifth rule: the last segment of a requested URL with an installer extension.
pub open spec fn name_from_requested_url(link: Seq<char>) -> Option<Seq<char>> {
    if has_installer_extension(link) {
        non_empty(last_segment(link))
    } else {
        None
    }
}

/// Sixth rule: a requested URL with an `.exe?installer_id=` marker names the file by the last
/// path segment of what stands before `?installer_id=`.
pub open spec fn name_from_installer_id(link: Seq<char>) -> Option<Seq<char>> {
    if contains(link, ".exe?installer_id="@) {
        non_empty(last_segment(before_first(link, "?installer_id="@)))
    } else {
        None
    }
}

/// `a` where it holds a name, else `b`.
pub open spec fn or_else(a: Option<Seq<char>>, b: Option<Seq<char>>) -> Option<Seq<char>> {
    if a is Some {
        a
    } else {
        b
    }
}

/// The file name that the cascade gives: the first rule, in order, that yields a non-empty
/// name; `None` where none does.
pub open spec fn cascade_filename(
    link: Seq<char>,
    effective: Seq<char>,
    disposition: Option<Seq<char>>,
) -> Option<Seq<char>> {
    or_else(
        name_from_exe_query(effective),
        or_else(
            name_from_battlenet(effective),
            or_else(
                name_from_disposition(disposition),
                or_else(
                    name_from_effective_url(effective),
                    or_else(name_from_requested_url(link), name_from_installer_id(link)),
                ),
            ),
        ),
    )
}

fn has_extension(s: &str) -> (r: bool)
    ensures
        r == has_installer_extension(s@),
{
    str_ends_with(s, ".exe") || str_ends_with(s, ".msi") || str_ends_with(s, ".zip")
}

fn last_path_segment(s: &str) -> (r: String)
    ensures
        r@ == last_segment(s@),
{
    text_after_last(s, "/")
}

fn keep_non_empty(s: String) -> (r: Option<String>)
    ensures
        r matches Some(n) ==> non_empty(s@) == Some(n@),
        r is None ==> non_empty(s@) is None,
{
    if s.as_str().is_empty() {
        None
    } else {
        Some(s)
    }
}

fn exe_query_name(effective: &str) -> (r: Option<String>)
    ensures
        r matches Some(n) ==> name_from_exe_query(effective@) == Some(n@),
        r is None ==> name_from_exe_query(effective@) is None,
{
    if !str_contains(effective, ".exe?") {
        return None;
    }
    match strip_url_query(effective) {
        Some(u) => {
            let segment = last_path_segment(u.as_str());
            keep_non_empty(text_before_first(segment.as_str(), "?filename="))
        },
        None => None,
    }
}

fn disposition_name(disposition: Option<&str>) -> (r: Option<String>)
    ensures
        r matches Some(n) ==> name_from_disposition(
            match disposition {
                Some(d) => Some(d@),
                None => None,
            },
        ) == Some(n@),
        r is None ==> name_from_disposition(
            match disposition {
                Some(d) => Some(d@),
                None => None,
            },
        ) is None,
{
    match disposition {
        Some(d) => if str_contains(d, "filename=") {
            keep_non_empty(text_after_last(d, "filename="))
        } else {
            None
        },
        None => None,
    }
}

fn effective_url_name(effective: &str) -> (r: Option<String>)
    ensures
        r matches Some(n) ==> name_from_effective_url(effective@) == Some(n@),
        r is None ==> name_from_effective_url(effective@) is None,
{
    if !has_extension(effective) {
        return None;
    }
    let segment = last_path_segment(effective);
    match percent_decode(segment.as_str()) {
        Some(n) => keep_non_empty(n),
        None => None,
    }
}

fn requested_url_name(link: &str) -> (r: Option<String>)
    ensures
        r matches Some(n) ==> name_from_requested_url(link@) == Some(n@),
        r is None ==> name_from_requested_url(link@) is None,
{
    if has_extension(link) {
        keep_non_empty(last_path_segment(link))
    } else {
        None
    }
}

fn installer_id_name(link: &str) -> (r: Option<String>)
    ensures
        r matches Some(n) ==> name_from_installer_id(link@) == Some(n@),
        r is None ==> name_from_installer_id(link@) is None,
{
    if str_contains(link, ".exe?installer_id=") {
        let before = text_before_first(link, "?installer_id=");
        keep_non_empty(last_path_segment(before.as_str()))
    } else {
        None
    }
}

/// The view of an optional borrowed string.
pub open spec fn opt_view(o: Option<&str>) -> Option<Seq<char>> {
    match o {
        Some(s) => Some(s@),
        None => None,
    }
}

/// Picks the on-disk name for an installer fetched from `link` and served from the
/// effective (post-redirect) URL `effective`, with the `content-disposition` header value
/// `disposition` if the response had one. `None` where no rule of the cascade yields a name.
pub fn resolve_filename(link: &str, effective: &str, disposition: Option<&str>) -> (r: Option<String>)
    ensures
        r matches Some(n) ==> cascade_filename(link@, effective@, opt_view(disposition)) == Some(n@)
            && n@.len() > 0,
        r is None ==> cascade_filename(link@, effective@, opt_view(disposition)) is None,
{
    if let Some(n) = exe_query_name(effective) {
        return Some(n);
    }
    if str_contains(effective, "&installer=Battle.net") {
        proof {
            reveal_strlit("battle-net-setup.exe");
        }
        return Some("battle-net-setup.exe".to_owned());
    }
    if let Some(n) = disposition_name(disposition) {
        return Some(n);
    }
    if let Some(n) = effective_url_name(effective) {
        return Some(n);
    }
    if let Some(n) = requested_url_name(link) {
        return Some(n);
    }
    installer_id_name(link)
}

} // verus!
