//! Resolution rules that read a vendor page: each takes the fetched page and extracts the
//! current installer link from it, or `None` where the page does not yield one.
use vstd::prelude::*;
use crate::extract::{
    all_text, all_text_of, first_text_spec, keep_values, kept, nth_piece, pick_first_text,
    pick_href, pick_href_spec, piece,
};
use crate::parsers::{
    class_of_nodes, descendant_hrefs, hrefs_below_node, is_xml_convertible, json_string_at,
    json_text_at, markup_attributes, markup_texts, node_classes, select_attributes, select_texts,
    xml_convertible, xml_string_at, xml_text_at,
};
use crate::text::{
    after_last, join2, same_text, starts_with, str_starts_with, substring, text_after_last,
    text_without_char, trim_text, trimmed, without_char,
};

verus! {

/// `pre`, then `v`, `mid`, `v` again, and `post`.
pub open spec fn twice(pre: Seq<char>, v: Seq<char>, mid: Seq<char>, post: Seq<char>) -> Seq<char> {
    pre + v + mid + v + post
}

fn fill_twice(pre: &str, v: &str, mid: &str, post: &str) -> (r: String)
    ensures
        r@ == twice(pre@, v@, mid@, post@),
{
    let mut r = pre.to_owned();
    r.append(v);
    r.append(mid);
    r.append(v);
    r.append(post);
    r
}

/// `pre` followed by what `o` holds.
pub open spec fn prefixed(pre: Seq<char>, o: Option<Seq<char>>) -> Option<Seq<char>> {
    match o {
        Some(s) => Some(pre + s),
        None => None,
    }
}

fn prefix_with(pre: &str, o: Option<String>) -> (r: Option<String>)
    ensures
        r.deep_view() == prefixed(pre@, o.deep_view()),
{
    match o {
        Some(s) => Some(join2(pre, s.as_str())),
        None => None,
    }
}

// ---- Rules that read a version from the text of an element ----

pub open spec fn brave_link(page: Seq<char>) -> Option<Seq<char>> {
    match first_text_spec(page, "span.ml-1"@) {
        Some(t) => Some(
            "https://github.com/brave/brave-browser/releases/download/"@ + trimmed(t)
                + "/BraveBrowserSetup.exe"@,
        ),
        None => None,
    }
}

/// Brave: the release tag shown on the latest GitHub release page.
pub fn get_brave_link(page: &str) -> (r: Option<String>)
    ensures
        r.deep_view() == brave_link(page@),
{
    match pick_first_text(page, "span.ml-1") {
        Some(t) => {
            let v = trim_text(t.as_str());
            let mut r = "https://github.com/brave/brave-browser/releases/download/".to_owned();
            r.append(v.as_str());
            r.append("/BraveBrowserSetup.exe");
            Some(r)
        },
        None => None,
    }
}

pub open spec fn obs_studio_link(page: Seq<char>) -> Option<Seq<char>> {
    match first_text_spec(page, "span.ml-1"@) {
        Some(t) => Some(
            twice(
                "https://github.com/obsproject/obs-studio/releases/download/"@,
                trimmed(t),
                "/OBS-Studio-"@,
                "-Windows-Installer.exe"@,
            ),
        ),
        None => None,
    }
}

/// OBS Studio: the release tag shown on the latest GitHub release page.
pub fn get_obs_studio_link(page: &str) -> (r: Option<String>)
    ensures
        r.deep_view() == obs_studio_link(page@),
{
    match pick_first_text(page, "span.ml-1") {
        Some(t) => {
            let v = trim_text(t.as_str());
            Some(
                fill_twice(
                    "https://github.com/obsproject/obs-studio/releases/download/",
                    v.as_str(),
                    "/OBS-Studio-",
                    "-Windows-Installer.exe",
                ),
            )
        },
        None => None,
    }
}

pub open spec fn rufus_link(page: Seq<char>) -> Option<Seq<char>> {
    match first_text_spec(page, "span.ml-1"@) {
        Some(t) => Some(
            "https://github.com/pbatard/rufus/releases/download/"@ + trimmed(t) + "/rufus-"@
                + trimmed(without_char(t, 'v')) + "_x86.exe"@,
        ),
        None => None,
    }
}

/// Rufus: the release tag of the latest GitHub release; the file name carries the tag
/// without its `v`.
pub fn get_rufus_link(page: &str) -> (r: Option<String>)
    ensures
        r.deep_view() == rufus_link(page@),
{
    match pick_first_text(page, "span.ml-1") {
        Some(t) => {
            let version = trim_text(t.as_str());
            let bare = text_without_char(t.as_str(), 'v');
            let partial = trim_text(bare.as_str());
            let mut r = "https://github.com/pbatard/rufus/releases/download/".to_owned();
            r.append(version.as_str());
            r.append("/rufus-");
            r.append(partial.as_str());
            r.append("_x86.exe");
            Some(r)
        },
        None => None,
    }
}

pub open spec fn vscodium_link(page: Seq<char>) -> Option<Seq<char>> {
    match first_text_spec(page, "h1[data-view-component=\"true\"]"@) {
        Some(v) => Some(
            twice(
                "https://github.com/VSCodium/vscodium/releases/download/"@,
                v,
                "/VSCodiumSetup-x64-"@,
                ".exe"@,
            ),
        ),
        None => None,
    }
}

/// VSCodium: the release title of the latest GitHub release page.
pub fn get_vscodium_link(page: &str) -> (r: Option<String>)
    ensures
        r.deep_view() == vscodium_link(page@),
{
    match pick_first_text(page, "h1[data-view-component=\"true\"]") {
        Some(v) => Some(
            fill_twice(
                "https://github.com/VSCodium/vscodium/releases/download/",
                v.as_str(),
                "/VSCodiumSetup-x64-",
                ".exe",
            ),
        ),
        None => None,
    }
}

pub open spec fn seamonkey_link(page: Seq<char>) -> Option<Seq<char>> {
    match first_text_spec(page, ".curVersion"@) {
        Some(v) => Some(
            twice(
                "https://archive.seamonkey-project.org/releases/"@,
                v,
                "/win32/en-US/seamonkey-"@,
                ".en-US.win32.installer.exe"@,
            ),
        ),
        None => None,
    }
}

/// SeaMonkey: the current version shown on the releases page.
pub fn get_seamonkey_link(page: &str) -> (r: Option<String>)
    ensures
        r.deep_view() == seamonkey_link(page@),
{
    match pick_first_text(page, ".curVersion") {
        Some(v) => Some(
            fill_twice(
                "https://archive.seamonkey-project.org/releases/",
                v.as_str(),
                "/win32/en-US/seamonkey-",
                ".en-US.win32.installer.exe",
            ),
        ),
        None => None,
    }
}

pub open spec fn waterfox_link(page: Seq<char>) -> Option<Seq<char>> {
    match markup_texts(page, "#release-version"@) {
        Some(texts) => if all_text(texts).len() > 0 {
            Some(
                twice(
                    "https://cdn1.waterfox.net/waterfox/releases/"@,
                    all_text(texts),
                    "/WINNT_x86_64/Waterfox%20Setup%20"@,
                    ".exe"@,
                ),
            )
        } else {
            None
        },
        None => None,
    }
}

/// Waterfox: all text of the release-version element.
pub fn get_waterfox_link(page: &str) -> (r: Option<String>)
    ensures
        r.deep_view() == waterfox_link(page@),
{
    match all_text_of(page, "#release-version") {
        Some(v) => if v.as_str().is_empty() {
            None
        } else {
            Some(
                fill_twice(
                    "https://cdn1.waterfox.net/waterfox/releases/",
                    v.as_str(),
                    "/WINNT_x86_64/Waterfox%20Setup%20",
                    ".exe",
                ),
            )
        },
        None => None,
    }
}

// ---- Rules that pick a link from the page ----

pub open spec fn tor_link(page: Seq<char>) -> Option<Seq<char>> {
    match pick_href_spec(page, "a.downloadLink"@, seq!["-x86_64-"], ""@, ""@, 0) {
        Some(h) => match nth_piece(h, '/', 5) {
            Some(v) => Some(
                twice(
                    "https://www.torproject.org/dist/torbrowser/"@,
                    v,
                    "/tor-browser-windows-x86_64-portable-"@,
                    ".exe"@,
                ),
            ),
            None => None,
        },
        None => None,
    }
}

/// Tor Browser: the version segment of the first x86_64 download link.
pub fn get_tor_link(page: &str) -> (r: Option<String>)
    ensures
        r.deep_view() == tor_link(page@),
{
    let needles = vec!["-x86_64-"];
    assert(needles@ == seq!["-x86_64-"]);
    match pick_href(page, "a.downloadLink", &needles, "", "", 0) {
        Some(h) => match piece(h.as_str(), '/', 5) {
            Some(v) => Some(
                fill_twice(
                    "https://www.torproject.org/dist/torbrowser/",
                    v.as_str(),
                    "/tor-browser-windows-x86_64-portable-",
                    ".exe",
                ),
            ),
            None => None,
        },
        None => None,
    }
}


pub open spec fn vlc_link(page: Seq<char>) -> Option<Seq<char>> {
    match pick_href_spec(page, "a[id=\"downloadButton2\"]"@, Seq::<&str>::empty(), ""@, ""@, 0) {
        Some(h) => match nth_piece(h, '/', 4) {
            Some(v) => if v.len() > 0 {
                Some(twice("https://get.videolan.org/vlc/"@, v, "/win32/vlc-"@, "-win32.exe"@))
            } else {
                None
            },
            None => None,
        },
        None => None,
    }
}

/// VLC: the version segment of the main download button's link.
pub fn get_vlc_link(page: &str) -> (r: Option<String>)
    ensures
        r.deep_view() == vlc_link(page@),
{
    let needles: Vec<&str> = Vec::new();
    assert(needles@ == Seq::<&str>::empty());
    match pick_href(page, "a[id=\"downloadButton2\"]", &needles, "", "", 0) {
        Some(h) => match piece(h.as_str(), '/', 4) {
            Some(v) => if v.as_str().is_empty() {
                None
            } else {
                Some(
                    fill_twice(
                        "https://get.videolan.org/vlc/",
                        v.as_str(),
                        "/win32/vlc-",
                        "-win32.exe",
                    ),
                )
            },
            None => None,
        },
        None => None,
    }
}

// ---- Rules that read other formats ----

pub open spec fn kubernetes_link(page: Seq<char>) -> Option<Seq<char>> {
    if page.len() > 0 {
        Some("https://dl.k8s.io/release/"@ + page + "/bin/windows/amd64/kubectl.exe"@)
    } else {
        None
    }
}

/// kubectl: the stable-release file holds the version itself.
pub fn get_kubernetes_link(page: &str) -> (r: Option<String>)
    ensures
        r.deep_view() == kubernetes_link(page@),
{
    if page.is_empty() {
        None
    } else {
        let mut r = "https://dl.k8s.io/release/".to_owned();
        r.append(page);
        r.append("/bin/windows/amd64/kubectl.exe");
        Some(r)
    }
}

/// The LibreWolf package link for the release whose feed id is `id`: its last path segment,
/// without quotes, is the version.
pub open spec fn librewolf_link_for(id: Seq<char>) -> Seq<char> {
    twice(
        "https://gitlab.com/api/v4/projects/44042130/packages/generic/librewolf/"@,
        without_char(after_last(id, "/"@), '"'),
        "/librewolf-"@,
        "-windows-x86_64-package.zip"@,
    )
}

/// The LibreWolf package link for the release whose feed id is `id`.
pub fn librewolf_link_from_release_id(id: &str) -> (r: String)
    ensures
        r@ == librewolf_link_for(id@),
{
    let last = text_after_last(id, "/");
    let version = text_without_char(last.as_str(), '"');
    fill_twice(
        "https://gitlab.com/api/v4/projects/44042130/packages/generic/librewolf/",
        version.as_str(),
        "/librewolf-",
        "-windows-x86_64-package.zip",
    )
}

pub open spec fn librewolf_link(page: Seq<char>) -> Option<Seq<char>> {
    if !xml_convertible(page) {
        None
    } else {
        match xml_string_at(page, "/feed/entry/0/id"@) {
            Some(id) => Some(librewolf_link_for(id)),
            None => None,
        }
    }
}

/// LibreWolf: the id of the first entry of the release feed, read through its JSON form; no
/// link where the feed is not one that the converter is handed.
pub fn get_librewolf_link(page: &str) -> (r: Option<String>)
    ensures
        r.deep_view() == librewolf_link(page@),
{
    if !is_xml_convertible(page) {
        return None;
    }
    match xml_text_at(page, "/feed/entry/0/id") {
        Some(id) => Some(librewolf_link_from_release_id(id.as_str())),
        None => None,
    }
}

/// The JSON text that the MongoDB page embeds in its `server-data` script: the first text of
/// the first such script, trimmed and without its JavaScript assignment where it has one.
pub open spec fn server_data(page: Seq<char>) -> Option<Seq<char>> {
    match markup_texts(page, "script[id=\"server-data\"]"@) {
        Some(texts) => if texts.len() > 0 && texts[0].len() > 0 {
            let t = texts[0][0];
            let p = "window.__serverData="@;
            if starts_with(trimmed(t), p) {
                Some(trimmed(t).subrange(p.len() as int, trimmed(t).len() as int))
            } else {
                Some(t)
            }
        } else {
            None
        },
        None => None,
    }
}

/// The JSON text embedded in the MongoDB download page.
pub fn server_data_json(page: &str) -> (r: Option<String>)
    ensures
        r.deep_view() == server_data(page@),
{
    match select_texts(page, "script[id=\"server-data\"]") {
        Some(texts) => {
            if texts.len() > 0 && texts[0].len() > 0 {
                let t = texts[0][0].as_str();
                assert(texts.deep_view()[0][0] == t@);
                let tt = trim_text(t);
                let p = "window.__serverData=";
                if str_starts_with(tt.as_str(), p) {
                    Some(substring(tt.as_str(), p.unicode_len(), tt.as_str().unicode_len()))
                } else {
                    Some(t.to_owned())
                }
            } else {
                None
            }
        },
        None => None,
    }
}

/// Where the MongoDB page keeps the Windows x64 `.msi` link of Compass in its JSON.
pub const MONGODB_MSI_POINTER: &'static str = "/components/2/props/embeddedComponents/0/props/items/3/embeddedComponents/0/props/data/0/data/0/2.4.2/platforms/Windows x64 (10+)/msi";

pub open spec fn mongodb_link(page: Seq<char>) -> Option<Seq<char>> {
    match server_data(page) {
        Some(json) => json_string_at(json, MONGODB_MSI_POINTER@),
        None => None,
    }
}

/// MongoDB Compass: the `.msi` link for Windows x64 at a fixed place in the page's embedded
/// JSON.
pub fn get_mongodb_link(page: &str) -> (r: Option<String>)
    ensures
        r.deep_view() == mongodb_link(page@),
{
    match server_data_json(page) {
        Some(text) => json_text_at(text.as_str(), MONGODB_MSI_POINTER),
        None => None,
    }
}

/// The first index at or after `from` where `classes` holds `target`, or -1.
pub open spec fn first_index_with(classes: Seq<Option<Seq<char>>>, target: Seq<char>, from: int) -> int
    decreases classes.len() - from,
{
    if from < 0 || from >= classes.len() {
        -1
    } else if classes[from] == Some(target) {
        from
    } else {
        first_index_with(classes, target, from + 1)
    }
}

/// The `href` attributes among `nodes`, in order, each with its value where it has one.
pub open spec fn href_attributes(nodes: Seq<Option<Option<Seq<char>>>>) -> Seq<Option<Seq<char>>>
    decreases nodes.len(),
{
    if nodes.len() == 0 {
        Seq::empty()
    } else {
        let rest = href_attributes(nodes.drop_last());
        match nodes.last() {
            Some(a) => rest.push(a),
            None => rest,
        }
    }
}

/// The second link where there are two or more, else the only one; the first is a beta.
pub open spec fn second_or_only(hrefs: Seq<Option<Seq<char>>>) -> Option<Seq<char>> {
    if hrefs.len() >= 2 {
        hrefs[1]
    } else if hrefs.len() == 1 {
        hrefs[0]
    } else {
        None
    }
}

pub open spec fn burp_suite_link(page: Seq<char>) -> Option<Seq<char>> {
    match node_classes(page) {
        Some(classes) => {
            let i = first_index_with(classes, "noscript-postlist"@, 0);
            if i < 0 {
                None
            } else {
                match descendant_hrefs(page, i as nat) {
                    Some(nodes) => second_or_only(href_attributes(nodes)),
                    None => None,
                }
            }
        },
        None => None,
    }
}

/// Burp Suite: the second link of the release list, the first being a beta release.
pub fn get_burp_suite_link(page: &str) -> (r: Option<String>)
    ensures
        r.deep_view() == burp_suite_link(page@),
{
    let classes = match class_of_nodes(page) {
        Some(c) => c,
        None => {
            return None;
        },
    };
    let mut i: usize = 0;
    loop
        invariant
            i <= classes@.len(),
            node_classes(page@) == Some(classes.deep_view()),
            first_index_with(classes.deep_view(), "noscript-postlist"@, 0) == first_index_with(
                classes.deep_view(),
                "noscript-postlist"@,
                i as int,
            ),
        ensures
            i < classes@.len(),
            first_index_with(classes.deep_view(), "noscript-postlist"@, 0) == i,
        decreases classes@.len() - i,
    {
        if i == classes.len() {
            assert(classes.deep_view().len() == classes@.len());
            assert(first_index_with(classes.deep_view(), "noscript-postlist"@, i as int) == -1);
            return None;
        }
        let hit = match &classes[i] {
            Some(c) => same_text(c.as_str(), "noscript-postlist"),
            None => false,
        };
        if hit {
            assert(classes.deep_view()[i as int] == Some("noscript-postlist"@));
            assert(first_index_with(classes.deep_view(), "noscript-postlist"@, i as int) == i);
            break;
        }
        i = i + 1;
    }
    let nodes = match hrefs_below_node(page, i) {
        Some(n) => n,
        None => {
            return None;
        },
    };
    let mut hrefs: Vec<Option<String>> = Vec::new();
    let mut j: usize = 0;
    while j < nodes.len()
        invariant
            j <= nodes@.len(),
            node_classes(page@) == Some(classes.deep_view()),
            first_index_with(classes.deep_view(), "noscript-postlist"@, 0) == i,
            descendant_hrefs(page@, i as nat) == Some(nodes.deep_view()),
            hrefs.deep_view() == href_attributes(nodes.deep_view().subrange(0, j as int)),
        decreases nodes@.len() - j,
    {
        assert(nodes.deep_view().subrange(0, j + 1).drop_last() =~= nodes.deep_view().subrange(
            0,
            j as int,
        ));
        match &nodes[j] {
            Some(Some(v)) => {
                hrefs.push(Some(v.clone()));
                assert(hrefs.deep_view() =~= href_attributes(
                    nodes.deep_view().subrange(0, j as int),
                ).push(Some(v@)));
            },
            Some(None) => {
                hrefs.push(None);
                assert(hrefs.deep_view() =~= href_attributes(
                    nodes.deep_view().subrange(0, j as int),
                ).push(None));
            },
            None => {},
        }
        j = j + 1;
    }
    assert(nodes.deep_view().subrange(0, nodes@.len() as int) =~= nodes.deep_view());
    let pick: usize = if hrefs.len() >= 2 {
        1
    } else if hrefs.len() == 1 {
        0
    } else {
        return None;
    };
    match &hrefs[pick] {
        Some(v) => Some(v.clone()),
        None => None,
    }
}

pub open spec fn eclipse_ide_link(page: Seq<char>) -> Option<Seq<char>> {
    pick_href_spec(page, "a[title='x86_64 Download']"@, seq![".exe"], ""@, ""@, 0)
}

/// Eclipse IDE: the first x86_64 `.exe` download link of the packages page.
pub fn get_eclipse_ide_link(page: &str) -> (r: Option<String>)
    ensures
        r.deep_view() == eclipse_ide_link(page@),
{
    let needles: Vec<&str> = vec![".exe"];
    assert(needles@ == seq![".exe"]);
    pick_href(page, "a[title='x86_64 Download']", &needles, "", "", 0)
}

pub open spec fn nmap_link(page: Seq<char>) -> Option<Seq<char>> {
    pick_href_spec(page, "a"@, seq!["https://nmap.org/dist/nmap-", ".exe"], ""@, ""@, 0)
}

/// Nmap: the first Windows installer link of the download page.
pub fn get_nmap_link(page: &str) -> (r: Option<String>)
    ensures
        r.deep_view() == nmap_link(page@),
{
    let needles: Vec<&str> = vec!["https://nmap.org/dist/nmap-", ".exe"];
    assert(needles@ == seq!["https://nmap.org/dist/nmap-", ".exe"]);
    pick_href(page, "a", &needles, "", "", 0)
}

pub open spec fn notepadplusplus_link(page: Seq<char>) -> Option<Seq<char>> {
    pick_href_spec(page, "a[href*=\"https://notepad-plus-plus.org/downloads/\"]"@, Seq::<&str>::empty(), ""@, ""@, 0)
}

/// Notepad++: the first link into the downloads section.
pub fn get_notepadplusplus_link(page: &str) -> (r: Option<String>)
    ensures
        r.deep_view() == notepadplusplus_link(page@),
{
    let needles: Vec<&str> = Vec::new();
    assert(needles@ == Seq::<&str>::empty());
    pick_href(page, "a[href*=\"https://notepad-plus-plus.org/downloads/\"]", &needles, "", "", 0)
}

pub open spec fn npcap_link(page: Seq<char>) -> Option<Seq<char>> {
    pick_href_spec(page, "a"@, seq!["https://npcap.com/dist/npcap-", ".exe"], ""@, ""@, 0)
}

/// Npcap: the first installer link of the Nmap download page.
pub fn get_npcap_link(page: &str) -> (r: Option<String>)
    ensures
        r.deep_view() == npcap_link(page@),
{
    let needles: Vec<&str> = vec!["https://npcap.com/dist/npcap-", ".exe"];
    assert(needles@ == seq!["https://npcap.com/dist/npcap-", ".exe"]);
    pick_href(page, "a", &needles, "", "", 0)
}

pub open spec fn oracle_virtualbox_link(page: Seq<char>) -> Option<Seq<char>> {
    pick_href_spec(page, ".ext-link"@, seq![".exe"], ""@, ""@, 0)
}

/// VirtualBox: the first `.exe` among the external links of the downloads page.
pub fn get_oracle_virtualbox_link(page: &str) -> (r: Option<String>)
    ensures
        r.deep_view() == oracle_virtualbox_link(page@),
{
    let needles: Vec<&str> = vec![".exe"];
    assert(needles@ == seq![".exe"]);
    pick_href(page, ".ext-link", &needles, "", "", 0)
}

pub open spec fn oracle_vbox_ext_pack_link(page: Seq<char>) -> Option<Seq<char>> {
    pick_href_spec(page, ".license-button"@, seq![".vbox-extpack"], ""@, ""@, 0)
}

/// VirtualBox Extension Pack: the first `.vbox-extpack` link of the downloads page.
pub fn get_oracle_vbox_ext_pack_link(page: &str) -> (r: Option<String>)
    ensures
        r.deep_view() == oracle_vbox_ext_pack_link(page@),
{
    let needles: Vec<&str> = vec![".vbox-extpack"];
    assert(needles@ == seq![".vbox-extpack"]);
    pick_href(page, ".license-button", &needles, "", "", 0)
}

pub open spec fn owasp_zap_link(page: Seq<char>) -> Option<Seq<char>> {
    pick_href_spec(page, "a[track-event=\"download.stable.win-64-i\"]"@, seq![".exe"], ""@, ""@, 0)
}

/// OWASP ZAP: the stable 64-bit Windows installer link.
pub fn get_owasp_zap_link(page: &str) -> (r: Option<String>)
    ensures
        r.deep_view() == owasp_zap_link(page@),
{
    let needles: Vec<&str> = vec![".exe"];
    assert(needles@ == seq![".exe"]);
    pick_href(page, "a[track-event=\"download.stable.win-64-i\"]", &needles, "", "", 0)
}

pub open spec fn postgresql_link(page: Seq<char>) -> Option<Seq<char>> {
    pick_href_spec(page, "tr.border-y.border-white:nth-child(1) td.text-center.py-4:nth-child(5) a"@, Seq::<&str>::empty(), "https://sbp.enterprisedb.com/getfile.jsp?fileid="@, ""@, 0)
}

/// PostgreSQL: the newest Windows x64 build that EDB lists, by its file-id link.
pub fn get_postgresql_link(page: &str) -> (r: Option<String>)
    ensures
        r.deep_view() == postgresql_link(page@),
{
    let needles: Vec<&str> = Vec::new();
    assert(needles@ == Seq::<&str>::empty());
    pick_href(page, "tr.border-y.border-white:nth-child(1) td.text-center.py-4:nth-child(5) a", &needles, "https://sbp.enterprisedb.com/getfile.jsp?fileid=", "", 0)
}

pub open spec fn putty_link(page: Seq<char>) -> Option<Seq<char>> {
    pick_href_spec(page, "span.downloadfile > a:nth-child(1)"@, seq![".msi", "/latest/w64/putty-64bit-"], ""@, ""@, 0)
}

/// PuTTY: the 64-bit `.msi` of the latest release.
pub fn get_putty_link(page: &str) -> (r: Option<String>)
    ensures
        r.deep_view() == putty_link(page@),
{
    let needles: Vec<&str> = vec![".msi", "/latest/w64/putty-64bit-"];
    assert(needles@ == seq![".msi", "/latest/w64/putty-64bit-"]);
    pick_href(page, "span.downloadfile > a:nth-child(1)", &needles, "", "", 0)
}

pub open spec fn sublime_text_link(page: Seq<char>) -> Option<Seq<char>> {
    pick_href_spec(page, "a"@, seq!["sublime_text_build_", "x64_setup.exe"], ""@, ""@, 0)
}

/// Sublime Text: the x64 setup link of the download page.
pub fn get_sublime_text_link(page: &str) -> (r: Option<String>)
    ensures
        r.deep_view() == sublime_text_link(page@),
{
    let needles: Vec<&str> = vec!["sublime_text_build_", "x64_setup.exe"];
    assert(needles@ == seq!["sublime_text_build_", "x64_setup.exe"]);
    pick_href(page, "a", &needles, "", "", 0)
}

pub open spec fn wireshark_link(page: Seq<char>) -> Option<Seq<char>> {
    pick_href_spec(page, "a"@, seq!["dl.wireshark.org/win64/", "-x64.exe"], ""@, ""@, 0)
}

/// Wireshark: the first 64-bit Windows installer link.
pub fn get_wireshark_link(page: &str) -> (r: Option<String>)
    ensures
        r.deep_view() == wireshark_link(page@),
{
    let needles: Vec<&str> = vec!["dl.wireshark.org/win64/", "-x64.exe"];
    assert(needles@ == seq!["dl.wireshark.org/win64/", "-x64.exe"]);
    pick_href(page, "a", &needles, "", "", 0)
}

pub open spec fn xampp_link(page: Seq<char>) -> Option<Seq<char>> {
    pick_href_spec(page, "a.button"@, seq!["xampp-windows-x64-", "VS16-installer.exe"], ""@, ""@, 2)
}

/// XAMPP: the third matching installer link, which is that of the newest version.
pub fn get_xampp_link(page: &str) -> (r: Option<String>)
    ensures
        r.deep_view() == xampp_link(page@),
{
    let needles: Vec<&str> = vec!["xampp-windows-x64-", "VS16-installer.exe"];
    assert(needles@ == seq!["xampp-windows-x64-", "VS16-installer.exe"]);
    pick_href(page, "a.button", &needles, "", "", 2)
}

pub open spec fn seven_zip_link(page: Seq<char>) -> Option<Seq<char>> {
    prefixed("https://7-zip.org/"@, pick_href_spec(page, "a"@, seq!["a/7z", "x64.msi"], ""@, ""@, 0))
}

/// 7-Zip: the x64 `.msi` link, made absolute.
pub fn get_seven_zip_link(page: &str) -> (r: Option<String>)
    ensures
        r.deep_view() == seven_zip_link(page@),
{
    let needles: Vec<&str> = vec!["a/7z", "x64.msi"];
    assert(needles@ == seq!["a/7z", "x64.msi"]);
    prefix_with("https://7-zip.org/", pick_href(page, "a", &needles, "", "", 0))
}

pub open spec fn audacious_link(page: Seq<char>) -> Option<Seq<char>> {
    pick_href_spec(page, "a"@, seq!["/releases/download/Audacity-", "audacity-win-", "-64bit.exe"], ""@, ""@, 0)
}

/// Audacity: the 64-bit Windows installer link of the latest release.
pub fn get_audacious_link(page: &str) -> (r: Option<String>)
    ensures
        r.deep_view() == audacious_link(page@),
{
    let needles: Vec<&str> = vec!["/releases/download/Audacity-", "audacity-win-", "-64bit.exe"];
    assert(needles@ == seq!["/releases/download/Audacity-", "audacity-win-", "-64bit.exe"]);
    pick_href(page, "a", &needles, "", "", 0)
}

pub open spec fn libreoffice_link(page: Seq<char>) -> Option<Seq<char>> {
    pick_href_spec(page, "a.dl_download_link"@, Seq::<&str>::empty(), ""@, ""@, 0)
}

/// LibreOffice: the first download link of the download page.
pub fn get_libreoffice_link(page: &str) -> (r: Option<String>)
    ensures
        r.deep_view() == libreoffice_link(page@),
{
    let needles: Vec<&str> = Vec::new();
    assert(needles@ == Seq::<&str>::empty());
    pick_href(page, "a.dl_download_link", &needles, "", "", 0)
}

pub open spec fn okular_link(page: Seq<char>) -> Option<Seq<char>> {
    prefixed("https://cdn.kde.org/ci-builds/graphics/okular/master/windows/"@, pick_href_spec(page, "a"@, Seq::<&str>::empty(), ""@, ".exe"@, 0))
}

/// Okular: the first `.exe` of the nightly build listing, made absolute.
pub fn get_okular_link(page: &str) -> (r: Option<String>)
    ensures
        r.deep_view() == okular_link(page@),
{
    let needles: Vec<&str> = Vec::new();
    assert(needles@ == Seq::<&str>::empty());
    prefix_with("https://cdn.kde.org/ci-builds/graphics/okular/master/windows/", pick_href(page, "a", &needles, "", ".exe", 0))
}

pub open spec fn winrar_link(page: Seq<char>) -> Option<Seq<char>> {
    prefixed("https://www.rarlab.com"@, pick_href_spec(page, "a"@, seq!["/rar/winrar-x64-"], ""@, ""@, 0))
}

/// WinRAR: the x64 installer link, made absolute.
pub fn get_winrar_link(page: &str) -> (r: Option<String>)
    ensures
        r.deep_view() == winrar_link(page@),
{
    let needles: Vec<&str> = vec!["/rar/winrar-x64-"];
    assert(needles@ == seq!["/rar/winrar-x64-"]);
    prefix_with("https://www.rarlab.com", pick_href(page, "a", &needles, "", "", 0))
}

pub open spec fn vivaldi_page_link(page: Seq<char>) -> Option<Seq<char>> {
    pick_href_spec(page, "a"@, seq![".exe", "x64"], ""@, ""@, 0)
}

/// Vivaldi, as formerly read from its download page: the first x64 `.exe` link. Vivaldi now
/// goes to the delegate.
pub fn _get_vivaldi_link_old(page: &str) -> (r: Option<String>)
    ensures
        r.deep_view() == vivaldi_page_link(page@),
{
    let needles: Vec<&str> = vec![".exe", "x64"];
    assert(needles@ == seq![".exe", "x64"]);
    pick_href(page, "a", &needles, "", "", 0)
}

// ---- Listing installer links ----

/// A value of a link report: a list of links or a single message.
pub enum ResponseType {
    VecString(Vec<String>),
    StringValue(String),
}

/// The 64-bit (`amd64`) `.exe` links among the links of `html`, in document order.
pub open spec fn exe_links(html: Seq<char>) -> Seq<Seq<char>> {
    match markup_attributes(html, "a"@, "href"@) {
        Some(values) => kept(values, seq![".exe", "amd64"], ""@, ""@),
        None => Seq::empty(),
    }
}

/// Lists the 64-bit `.exe` links of an HTML page.
pub fn extract_exe_links_from_html(html: String) -> (r: Vec<String>)
    ensures
        r.deep_view() == exe_links(html@),
{
    let needles: Vec<&str> = vec![".exe", "amd64"];
    assert(needles@ == seq![".exe", "amd64"]);
    match select_attributes(html.as_str(), "a", "href") {
        Some(values) => keep_values(&values, &needles, "", ""),
        None => {
            let r: Vec<String> = Vec::new();
            assert(r.deep_view() =~= Seq::<Seq<char>>::empty());
            r
        },
    }
}

} // verus!
