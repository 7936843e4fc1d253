use win_stall_buddy::scraped::{
    _get_vivaldi_link_old,
    extract_exe_links_from_html, get_audacious_link, get_burp_suite_link, get_eclipse_ide_link,
    get_librewolf_link, get_libreoffice_link, get_mongodb_link, get_nmap_link,
    get_notepadplusplus_link, get_npcap_link, get_obs_studio_link, get_okular_link,
    get_oracle_vbox_ext_pack_link, get_oracle_virtualbox_link, get_owasp_zap_link,
    get_postgresql_link, get_putty_link, get_rufus_link, get_seamonkey_link, get_seven_zip_link,
    get_sublime_text_link, get_tor_link, get_vlc_link, get_vscodium_link, get_waterfox_link,
    get_winrar_link, get_wireshark_link, get_xampp_link, librewolf_link_from_release_id,
    server_data_json,
};

fn page(body: &str) -> String {
    format!("<!DOCTYPE html><html><head><title>t</title></head><body>{}</body></html>", body)
}

#[test]
fn obs_version_is_trimmed() {
    let p = page(r#"<span class="ml-1">  31.0.2 </span>"#);
    assert_eq!(
        get_obs_studio_link(&p),
        Some("https://github.com/obsproject/obs-studio/releases/download/31.0.2/OBS-Studio-31.0.2-Windows-Installer.exe".to_string())
    );
    assert_eq!(get_obs_studio_link(&page("<p>none</p>")), None);
}

#[test]
fn rufus_drops_the_v_in_the_file_name() {
    let p = page(r#"<span class="ml-1">v4.7</span>"#);
    assert_eq!(
        get_rufus_link(&p),
        Some("https://github.com/pbatard/rufus/releases/download/v4.7/rufus-4.7_x86.exe".to_string())
    );
}

#[test]
fn vscodium_and_seamonkey_versions() {
    let p = page(r#"<h1 data-view-component="true">1.99.3</h1>"#);
    assert_eq!(
        get_vscodium_link(&p),
        Some("https://github.com/VSCodium/vscodium/releases/download/1.99.3/VSCodiumSetup-x64-1.99.3.exe".to_string())
    );
    let p = page(r#"<span class="curVersion">2.53.20</span>"#);
    assert_eq!(
        get_seamonkey_link(&p),
        Some("https://archive.seamonkey-project.org/releases/2.53.20/win32/en-US/seamonkey-2.53.20.en-US.win32.installer.exe".to_string())
    );
}

#[test]
fn waterfox_joins_all_text() {
    let p = page(r#"<span id="release-version">6.5.<b>6</b></span>"#);
    assert_eq!(
        get_waterfox_link(&p),
        Some("https://cdn1.waterfox.net/waterfox/releases/6.5.6/WINNT_x86_64/Waterfox%20Setup%206.5.6.exe".to_string())
    );
    assert_eq!(get_waterfox_link(&page(r#"<span id="release-version"></span>"#)), None);
}

#[test]
fn tor_takes_the_version_segment() {
    let p = page(&[r#"<a class="downloadLink" href="/dist/torbrowser/14.5/tor-browser-linux-i686-14.5.tar.xz">x</a>"#,
        r#"<a class="downloadLink" href="https://www.torproject.org/dist/torbrowser/14.5/tor-browser-windows-x86_64-portable-14.5.exe">y</a>"#].concat());
    assert_eq!(
        get_tor_link(&p),
        Some("https://www.torproject.org/dist/torbrowser/14.5/tor-browser-windows-x86_64-portable-14.5.exe".to_string())
    );
}

#[test]
fn href_filters() {
    let p = page(&[r#"<a href="https://nmap.org/dist/nmap-7.95.tar.bz2">src</a>"#,
        r#"<a href="https://nmap.org/dist/nmap-7.95-setup.exe">win</a>"#,
        r#"<a href="https://npcap.com/dist/npcap-1.82.exe">npcap</a>"#].concat());
    assert_eq!(get_nmap_link(&p), Some("https://nmap.org/dist/nmap-7.95-setup.exe".to_string()));
    assert_eq!(get_npcap_link(&p), Some("https://npcap.com/dist/npcap-1.82.exe".to_string()));
    assert_eq!(get_sublime_text_link(&p), None);
    let p = page(r#"<a href="https://download.sublimetext.com/sublime_text_build_4200_x64_setup.exe">s</a>"#);
    assert_eq!(
        get_sublime_text_link(&p),
        Some("https://download.sublimetext.com/sublime_text_build_4200_x64_setup.exe".to_string())
    );
    let p = page(r#"<a href="https://2.na.dl.wireshark.org/win64/Wireshark-4.4.5-x64.exe">w</a>"#);
    assert_eq!(
        get_wireshark_link(&p),
        Some("https://2.na.dl.wireshark.org/win64/Wireshark-4.4.5-x64.exe".to_string())
    );
}

#[test]
fn class_and_attribute_selectors() {
    let p = page(r#"<a title="x86_64 Download" href="https://eclipse.org/eclipse-inst-jre-win64.exe">e</a>"#);
    assert_eq!(get_eclipse_ide_link(&p), Some("https://eclipse.org/eclipse-inst-jre-win64.exe".to_string()));
    let p = page(r#"<a href="https://notepad-plus-plus.org/downloads/v8.8.1/">n</a>"#);
    assert_eq!(get_notepadplusplus_link(&p), Some("https://notepad-plus-plus.org/downloads/v8.8.1/".to_string()));
    let p = page(&[r#"<a class="ext-link" href="https://download.virtualbox.org/VirtualBox-7.1.8-Win.exe">vb</a>"#,
        r#"<a class="license-button" href="https://download.virtualbox.org/Oracle_VirtualBox_Extension_Pack-7.1.8.vbox-extpack">ext</a>"#].concat());
    assert_eq!(get_oracle_virtualbox_link(&p), Some("https://download.virtualbox.org/VirtualBox-7.1.8-Win.exe".to_string()));
    assert_eq!(
        get_oracle_vbox_ext_pack_link(&p),
        Some("https://download.virtualbox.org/Oracle_VirtualBox_Extension_Pack-7.1.8.vbox-extpack".to_string())
    );
    let p = page(r#"<a track-event="download.stable.win-64-i" href="https://zap/ZAP_2_16_1_windows.exe">z</a>"#);
    assert_eq!(get_owasp_zap_link(&p), Some("https://zap/ZAP_2_16_1_windows.exe".to_string()));
    let p = page(r#"<span class="downloadfile"><a href="https://the.earth.li/~sgtatham/putty/latest/w64/putty-64bit-0.83-installer.msi">p</a></span>"#);
    assert_eq!(
        get_putty_link(&p),
        Some("https://the.earth.li/~sgtatham/putty/latest/w64/putty-64bit-0.83-installer.msi".to_string())
    );
    let p = page(r#"<a class="dl_download_link" href="https://download.documentfoundation.org/LibreOffice_25.2.msi">l</a>"#);
    assert_eq!(get_libreoffice_link(&p), Some("https://download.documentfoundation.org/LibreOffice_25.2.msi".to_string()));
}

#[test]
fn postgresql_link_must_start_with_file_id_url() {
    let table = |href: &str| {
        format!(
            r#"<table><tbody><tr class="border-y border-white"><td>1</td><td>2</td><td>3</td><td>4</td><td class="text-center py-4"><a href="{}">x</a></td></tr></tbody></table>"#,
            href
        )
    };
    let p = page(&table("https://sbp.enterprisedb.com/getfile.jsp?fileid=1259603"));
    assert_eq!(get_postgresql_link(&p), Some("https://sbp.enterprisedb.com/getfile.jsp?fileid=1259603".to_string()));
    let p = page(&table("https://example.com/getfile.jsp?fileid=1"));
    assert_eq!(get_postgresql_link(&p), None);
}

#[test]
fn xampp_takes_the_third_match() {
    let a = |v: &str| format!(r#"<a class="button" href="https://sf.net/xampp-windows-x64-{}-VS16-installer.exe">x</a>"#, v);
    let p = page(&format!("{}{}{}", a("8.0"), a("8.1"), a("8.2")));
    assert_eq!(get_xampp_link(&p), Some("https://sf.net/xampp-windows-x64-8.2-VS16-installer.exe".to_string()));
    let p = page(&format!("{}{}", a("8.0"), a("8.1")));
    assert_eq!(get_xampp_link(&p), None);
}

#[test]
fn relative_links_are_made_absolute() {
    let p = page(r#"<a href="a/7z2409-x64.msi">7z</a>"#);
    assert_eq!(get_seven_zip_link(&p), Some("https://7-zip.org/a/7z2409-x64.msi".to_string()));
    let p = page(r#"<a href="../">up</a><a href="okular-master-1234-windows-cl-msvc2022-x86_64.exe">o</a>"#);
    assert_eq!(
        get_okular_link(&p),
        Some("https://cdn.kde.org/ci-builds/graphics/okular/master/windows/okular-master-1234-windows-cl-msvc2022-x86_64.exe".to_string())
    );
    let p = page(r#"<a href="/rar/winrar-x64-711.exe">r</a>"#);
    assert_eq!(get_winrar_link(&p), Some("https://www.rarlab.com/rar/winrar-x64-711.exe".to_string()));
    let p = page(r#"<a href="https://github.com/audacity/audacity/releases/download/Audacity-3.7.3/audacity-win-3.7.3-64bit.exe">a</a>"#);
    assert_eq!(
        get_audacious_link(&p),
        Some("https://github.com/audacity/audacity/releases/download/Audacity-3.7.3/audacity-win-3.7.3-64bit.exe".to_string())
    );
}

#[test]
fn vlc_reads_the_version_segment() {
    let p = page(r#"<a id="downloadButton2" href="//get.videolan.org/vlc/3.0.21/win64/vlc-3.0.21-win64.exe">v</a>"#);
    assert_eq!(
        get_vlc_link(&p),
        Some("https://get.videolan.org/vlc/3.0.21/win32/vlc-3.0.21-win32.exe".to_string())
    );
    let p = page(r#"<a id="downloadButton2" href="/vlc">v</a>"#);
    assert_eq!(get_vlc_link(&p), None);
}

#[test]
fn burp_takes_the_second_link() {
    let p = r#"<html><body><div class="noscript-postlist"><a href="/burp/releases/professional-community-2025-5-beta">beta</a><a href="/burp/releases/professional-community-2025-4">stable</a><a href="/burp/releases/old">old</a></div></body></html>"#;
    assert_eq!(get_burp_suite_link(p), Some("/burp/releases/professional-community-2025-4".to_string()));
    let p = r#"<html><body><div class="noscript-postlist"><a href="/only">one</a></div></body></html>"#;
    assert_eq!(get_burp_suite_link(p), Some("/only".to_string()));
    let p = r#"<html><body><div class="other"><a href="/x">x</a></div></body></html>"#;
    assert_eq!(get_burp_suite_link(p), None);
}

#[test]
fn mongodb_walks_the_embedded_json() {
    let json = r#"{"components":[{},{},{"props":{"embeddedComponents":[{"props":{"items":[{},{},{},{"embeddedComponents":[{"props":{"data":[{"data":[{"2.4.2":{"platforms":{"Windows x64 (10+)":{"msi":"https://downloads.mongodb.com/compass/mongodb-compass-2.4.2-win32-x64.msi"}}}}]}]}}]}]}}]}}]}"#;
    let p = page(&format!(r#"<script id="server-data">window.__serverData={}</script>"#, json));
    assert_eq!(server_data_json(&p), Some(json.to_string()));
    assert_eq!(
        get_mongodb_link(&p),
        Some("https://downloads.mongodb.com/compass/mongodb-compass-2.4.2-win32-x64.msi".to_string())
    );
    let p = page(r#"<script id="server-data">window.__serverData={"components":[]}</script>"#);
    assert_eq!(get_mongodb_link(&p), None);
    assert_eq!(get_mongodb_link(&page("<p>no script</p>")), None);
}

#[test]
fn librewolf_reads_the_feed() {
    assert_eq!(
        librewolf_link_from_release_id("\"https://gitlab.com/librewolf-community/browser/bsys6/-/releases/138.0.1-2\""),
        "https://gitlab.com/api/v4/projects/44042130/packages/generic/librewolf/138.0.1-2/librewolf-138.0.1-2-windows-x86_64-package.zip"
    );
    let feed = r#"<?xml version="1.0" encoding="UTF-8"?><feed xmlns="http://www.w3.org/2005/Atom"><title>Releases</title><entry><id>https://gitlab.com/librewolf-community/browser/bsys6/-/releases/138.0.1-2</id></entry><entry><id>https://gitlab.com/librewolf-community/browser/bsys6/-/releases/137.0-1</id></entry></feed>"#;
    assert_eq!(
        get_librewolf_link(feed),
        Some("https://gitlab.com/api/v4/projects/44042130/packages/generic/librewolf/138.0.1-2/librewolf-138.0.1-2-windows-x86_64-package.zip".to_string())
    );
}

#[test]
fn exe_links_need_exe_and_amd64() {
    let p = page(&[r#"<a href="https://d/app-amd64.exe">1</a>"#,
        r#"<a href="https://d/app-arm64.exe">2</a>"#,
        r#"<a href="https://d/app-amd64.msi">3</a>"#,
        r#"<a href="https://d/tool_amd64_setup.exe">4</a>"#].concat());
    assert_eq!(
        extract_exe_links_from_html(p),
        vec!["https://d/app-amd64.exe".to_string(), "https://d/tool_amd64_setup.exe".to_string()]
    );
}

#[test]
fn vivaldi_page_link() {
    let p = page(r#"<a href="https://downloads.vivaldi.com/stable/Vivaldi.7.4.exe">32</a><a href="https://downloads.vivaldi.com/stable/Vivaldi.7.4.x64.exe">64</a>"#);
    assert_eq!(
        _get_vivaldi_link_old(&p),
        Some("https://downloads.vivaldi.com/stable/Vivaldi.7.4.x64.exe".to_string())
    );
    assert_eq!(_get_vivaldi_link_old(&page("")), None);
}

#[test]
fn librewolf_refuses_feeds_the_converter_cannot_take() {
    assert_eq!(get_librewolf_link("<#cdata><a/></#cdata><![CDATA[x]]>"), None);
    let deep = format!("<feed>{}</feed>", "<a>".repeat(2000));
    assert_eq!(get_librewolf_link(&deep), None);
}
