use win_stall_buddy::download::{
    classify_status, plan_download, DownloadError, DownloadPlan, FetchClass, FetchOutcome,
};
use win_stall_buddy::filename::resolve_filename;

fn outcome(status: u16, effective: &str, disposition: Option<&str>) -> FetchOutcome {
    FetchOutcome {
        status,
        effective_url: effective.to_string(),
        content_disposition: disposition.map(|d| d.to_string()),
    }
}

#[test]
fn exe_query_marker_wins_over_later_rules() {
    let url = "https://example.com/get.exe?sid=1";
    assert_eq!(resolve_filename(url, url, None), Some("get.exe".to_string()));
    // also ahead of a content-disposition header
    assert_eq!(
        resolve_filename(url, url, Some("attachment; filename=other.exe")),
        Some("get.exe".to_string())
    );
}

#[test]
fn content_disposition_names_the_file() {
    let url = "https://example.com/download";
    assert_eq!(
        resolve_filename(url, url, Some("attachment; filename=app-setup.exe")),
        Some("app-setup.exe".to_string())
    );
}

#[test]
fn installer_id_link_without_redirect() {
    let url = "https://host/pkg.exe?installer_id=42";
    assert_eq!(resolve_filename(url, url, None), Some("pkg.exe".to_string()));
}

#[test]
fn installer_id_rule_after_redirect_takes_last_segment() {
    let link = "https://host/pkg.exe?installer_id=42";
    assert_eq!(
        resolve_filename(link, "https://cdn.host/download", None),
        Some("pkg.exe".to_string())
    );
}

#[test]
fn filename_marker_inside_segment_is_cut() {
    let url = "https://example.com/path/tool.exe?filename=x.exe";
    assert_eq!(resolve_filename(url, url, None), Some("tool.exe".to_string()));
}

#[test]
fn battlenet_special_case() {
    let link = "https://downloader.battle.net/download/getInstaller?os=win&installer=Battle.net-Setup.exe";
    assert_eq!(
        resolve_filename(link, link, None),
        Some("battle-net-setup.exe".to_string())
    );
}

#[test]
fn effective_url_extension_is_percent_decoded() {
    let link = "https://example.com/latest";
    let effective = "https://cdn.example.com/files/My%20App%20Setup.msi";
    assert_eq!(
        resolve_filename(link, effective, None),
        Some("My App Setup.msi".to_string())
    );
}

#[test]
fn requested_url_extension_is_used_after_redirect() {
    let link = "https://example.com/files/tool.zip";
    assert_eq!(
        resolve_filename(link, "https://mirror.example.com/fetch", None),
        Some("tool.zip".to_string())
    );
}

#[test]
fn empty_disposition_name_falls_through() {
    let link = "https://example.com/files/tool.zip";
    assert_eq!(
        resolve_filename(link, "https://mirror.example.com/fetch", Some("attachment; filename=")),
        Some("tool.zip".to_string())
    );
}

#[test]
fn no_rule_gives_no_name() {
    let url = "https://example.com/download";
    assert_eq!(resolve_filename(url, url, None), None);
    assert_eq!(resolve_filename(url, url, Some("inline")), None);
}

#[test]
fn status_classes() {
    assert_eq!(classify_status(200), FetchClass::Success);
    assert_eq!(classify_status(204), FetchClass::Success);
    assert_eq!(classify_status(410), FetchClass::Gone);
    assert_eq!(classify_status(404), FetchClass::Failure);
    assert_eq!(classify_status(500), FetchClass::Failure);
    assert_eq!(classify_status(301), FetchClass::Failure);
}

#[test]
fn gone_is_a_skip() {
    let o = outcome(410, "https://example.com/app.exe", None);
    assert_eq!(plan_download("https://example.com/app.exe", &o), Ok(DownloadPlan::Skip));
}

#[test]
fn other_status_is_a_failure() {
    let o = outcome(404, "https://example.com/app.exe", None);
    assert_eq!(
        plan_download("https://example.com/app.exe", &o),
        Err(DownloadError::BadStatus(404))
    );
    let o = outcome(503, "https://example.com/app.exe", None);
    assert_eq!(
        plan_download("https://example.com/app.exe", &o),
        Err(DownloadError::BadStatus(503))
    );
}

#[test]
fn success_saves_under_cascade_name() {
    let o = outcome(200, "https://example.com/get.exe?sid=1", None);
    assert_eq!(
        plan_download("https://example.com/get.exe?sid=1", &o),
        Ok(DownloadPlan::Save("get.exe".to_string()))
    );
}

#[test]
fn success_without_name_fails() {
    let o = outcome(200, "https://example.com/download", None);
    assert_eq!(
        plan_download("https://example.com/download", &o),
        Err(DownloadError::FilenameUndeterminable)
    );
}
