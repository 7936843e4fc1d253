//! The catalog: every title, its identifier in configuration, its category, and the rule
//! that resolves it to a download link.
use vstd::prelude::*;
use crate::links::{
    ANDROID_STUDIO_LINK, AZURE_DATA_STUDIO_LINK, BATTLE_NET_LINK, BLUESTACKS_LINK, CHROME_LINK,
    CHROMIUM_LINK, CPU_Z_LINK, CURSE_FORGE_LINK, DOCKER_DESKTOP_LINK, EDGE_LINK, EPIC_GAMES_LINK,
    FIDDLER_CLASSIC_LINK, FIDDLER_EVERYWHERE_LINK, FILEZILLA_CLIENT_LINK, FILEZILLA_SERVER_LINK,
    FIREFOX_LINK, GITHUB_DESKTOP_LINK, GPU_Z_LINK, HWINFO_LINK, HWMONITOR_LINK, MODERN_CSV_LINK,
    MSI_AFTERBURNER_LINK, MYSQL_WORKBENCH_LINK, NODE_JS_LINK, NOMACS_LINK, NVIDIA_APP_LINK,
    OLLAMA_LINK, OPERA_GX_LINK, OPERA_LINK, PALE_MOON_LINK, PARSEC_LINK, PING_PLOTTER_LINK,
    POSTMAN_LINK, PROCESS_LASSO_LINK, PYTHON_2_7_18_LINK, PYTHON_3_10_10_LINK, PYTHON_3_11_10_LINK,
    PYTHON_3_12_9_LINK, PYTHON_3_13_2_LINK, PYTHON_3_8_10_LINK, PYTHON_3_9_10_LINK,
    RAZER_CORTEX_LINK, RESHADE_LINK, ROCKSTAR_LAUNCHER_LINK, STEAM_LINK, STREAMLABS_OBS_LINK,
    UTM_LINK, VISUAL_STUDIO_LINK, VS_CODE_LINK, WEBSTORM_LINK, WINGET_LINK, WTFAST_LINK,
    get_android_studio_link, get_azure_link, get_battlenet_link, get_bluestacks_link,
    get_chrome_link, get_chromium_link, get_cpuz_link, get_curseforge_link, get_docker_desktop_link,
    get_edge_link, get_epic_games_link, get_fiddler_classic_link, get_fiddler_everywhere_link,
    get_filezilla_link, get_firefox_link, get_github_desktop_link, get_gpuz_link, get_hwinfo_link,
    get_hwmonitor_link, get_modern_csv_link, get_msi_afterburner_link, get_mysql_workbench_link,
    get_nodejs_link, get_nomacs_link, get_nvda_app_link, get_ollama_link, get_opera_link,
    get_operagx_link, get_palemoon_link, get_parsec_link, get_pingplotter_link, get_postman_link,
    get_process_lasso_link, get_python2_7_18_link, get_python3_10_10_link, get_python3_11_10_link,
    get_python3_12_9_link, get_python3_13_2_link, get_python3_8_10_link, get_python3_9_10_link,
    get_razer_cortex_link, get_reshade_link, get_rockstar_launcher_link, get_steam_link,
    get_streamlabs_obs_link, get_utm_link, get_visual_studio_link, get_vscode_link,
    get_webstorm_link, get_winget_link, get_wtfast_link,
};
use crate::scraped::{
    audacious_link, brave_link, burp_suite_link, eclipse_ide_link, get_audacious_link,
    get_brave_link, get_burp_suite_link, get_eclipse_ide_link, get_kubernetes_link,
    get_libreoffice_link, get_librewolf_link, get_mongodb_link, get_nmap_link,
    get_notepadplusplus_link, get_npcap_link, get_obs_studio_link, get_okular_link,
    get_oracle_vbox_ext_pack_link, get_oracle_virtualbox_link, get_owasp_zap_link,
    get_postgresql_link, get_putty_link, get_rufus_link, get_seamonkey_link, get_seven_zip_link,
    get_sublime_text_link, get_tor_link, get_vlc_link, get_vscodium_link, get_waterfox_link,
    get_winrar_link, get_wireshark_link, get_xampp_link, kubernetes_link, libreoffice_link,
    librewolf_link, mongodb_link, nmap_link, notepadplusplus_link, npcap_link, obs_studio_link,
    okular_link, oracle_vbox_ext_pack_link, oracle_virtualbox_link, owasp_zap_link, postgresql_link,
    putty_link, rufus_link, seamonkey_link, seven_zip_link, sublime_text_link, tor_link, vlc_link,
    vscodium_link, waterfox_link, winrar_link, wireshark_link, xampp_link,
};
use crate::text::same_text;

verus! {

/// A web browser.
#[derive(Debug, Clone, Copy, PartialEq, Eq, Structural)]
pub enum Browser {
    Brave,
    Chrome,
    Chromium,
    Edge,
    Firefox,
    Librewolf,
    Opera,
    OperaGX,
    PaleMoon,
    SeaMonkey,
    Tor,
    Vivaldi,
    Waterfox,
}

/// A gaming tool or launcher.
#[derive(Debug, Clone, Copy, PartialEq, Eq, Structural)]
pub enum Gaming {
    AMDAutoDetect,
    BattleNetLauncher,
    BluestacksEmulator,
    CPUZ,
    CurseForge,
    EpicGamesLauncher,
    GPUZ,
    HWiNFO,
    HWMonitor,
    MSIAfterburner,
    NvidiaApp,
    OBSStudio,
    Parsec,
    PingPlotter,
    ProcessLasso,
    RazerCortex,
    Reshade,
    RockstarLauncher,
    RobloxLauncher,
    StreamlabsOBS,
    SteamLauncher,
    WTFast,
}

/// A development tool.
#[derive(Debug, Clone, Copy, PartialEq, Eq, Structural)]
pub enum Programming {
    AndroidStudio,
    AzureDataStudio,
    BurpSuite,
    DockerDesktop,
    FileZilla(FilezillaType),
    GithubDesktop,
    EclipseIDE,
    FiddlerClassic,
    FiddlerEverywhere,
    Kubernetes,
    MongoDB,
    MySQLWorkbench,
    Nmap,
    NodeJS,
    NotepadPlusPlus,
    Npcap,
    Ollama,
    OracleVirtualBox,
    OracleVirtualBoxExtPack,
    OWASPZAP,
    PostgreSQL,
    Postman,
    Python2_7_18,
    Python3_8_10,
    Python3_9_10,
    Python3_10_10,
    Python3_11_10,
    Python3_12_9,
    Python3_13_2,
    PuTTY,
    SublimeText,
    UTM,
    VisualStudio,
    VisualStudioCode,
    VSCodium,
    WebStorm,
    WinGet,
    WireShark,
    XAMPP,
}

/// The two FileZilla editions.
#[derive(Debug, Clone, Copy, PartialEq, Eq, Structural)]
pub enum FilezillaType {
    Client,
    Server,
}

/// A system utility.
#[derive(Debug, Clone, Copy, PartialEq, Eq, Structural)]
pub enum Utility {
    SevenZip,
    Audacious,
    LibreOffice,
    ModernCSV,
    NoMacs,
    Okular,
    Rufus,
    VLC,
    WinRAR,
}

/// A catalog title, by category.
#[derive(Debug, Clone, Copy, PartialEq, Eq, Structural)]
pub enum KeyType {
    Browser(Browser),
    Gaming(Gaming),
    Programming(Programming),
    Utility(Utility),
}

/// The identifier of title `t` in configuration.
pub open spec fn config_key(t: KeyType) -> Seq<char> {
    match t {
        KeyType::Browser(Browser::Brave) => "Brave"@,
        KeyType::Browser(Browser::Chrome) => "Chrome"@,
        KeyType::Browser(Browser::Chromium) => "Chromium"@,
        KeyType::Browser(Browser::Edge) => "Edge"@,
        KeyType::Browser(Browser::Firefox) => "Firefox"@,
        KeyType::Browser(Browser::Librewolf) => "Librewolf"@,
        KeyType::Browser(Browser::Opera) => "Opera"@,
        KeyType::Browser(Browser::OperaGX) => "OperaGX"@,
        KeyType::Browser(Browser::PaleMoon) => "PaleMoon"@,
        KeyType::Browser(Browser::SeaMonkey) => "Seamonkey-Experimental"@,
        KeyType::Browser(Browser::Tor) => "Tor"@,
        KeyType::Browser(Browser::Vivaldi) => "Vivaldi-Experimental"@,
        KeyType::Browser(Browser::Waterfox) => "Waterfox"@,
        KeyType::Gaming(Gaming::AMDAutoDetect) => "AMDAutoDetect"@,
        KeyType::Gaming(Gaming::BattleNetLauncher) => "BattleNetLauncher"@,
        KeyType::Gaming(Gaming::BluestacksEmulator) => "BluestacksEmulator"@,
        KeyType::Gaming(Gaming::CPUZ) => "CPUZ"@,
        KeyType::Gaming(Gaming::CurseForge) => "CurseForge"@,
        KeyType::Gaming(Gaming::EpicGamesLauncher) => "EpicGamesLauncher"@,
        KeyType::Gaming(Gaming::GPUZ) => "GPUZ"@,
        KeyType::Gaming(Gaming::HWiNFO) => "HWiNFO"@,
        KeyType::Gaming(Gaming::HWMonitor) => "HWMonitor"@,
        KeyType::Gaming(Gaming::MSIAfterburner) => "MSIAfterburner"@,
        KeyType::Gaming(Gaming::NvidiaApp) => "NvidiaApp"@,
        KeyType::Gaming(Gaming::OBSStudio) => "OBSStudio"@,
        KeyType::Gaming(Gaming::Parsec) => "Parsec"@,
        KeyType::Gaming(Gaming::PingPlotter) => "PingPlotter"@,
        KeyType::Gaming(Gaming::ProcessLasso) => "ProcessLasso"@,
        KeyType::Gaming(Gaming::RazerCortex) => "RazerCortex"@,
        KeyType::Gaming(Gaming::Reshade) => "Reshade"@,
        KeyType::Gaming(Gaming::RockstarLauncher) => "RockstarLauncher"@,
        KeyType::Gaming(Gaming::RobloxLauncher) => "RobloxLauncher"@,
        KeyType::Gaming(Gaming::StreamlabsOBS) => "StreamlabsOBS"@,
        KeyType::Gaming(Gaming::SteamLauncher) => "SteamLauncher"@,
        KeyType::Gaming(Gaming::WTFast) => "WTFast"@,
        KeyType::Programming(Programming::AndroidStudio) => "AndroidStudio"@,
        KeyType::Programming(Programming::AzureDataStudio) => "AzureDataStudio"@,
        KeyType::Programming(Programming::BurpSuite) => "BurpSuite"@,
        KeyType::Programming(Programming::DockerDesktop) => "DockerDesktop"@,
        KeyType::Programming(Programming::FileZilla(FilezillaType::Client)) => "FileZillaClient"@,
        KeyType::Programming(Programming::FileZilla(FilezillaType::Server)) => "FileZillaServer"@,
        KeyType::Programming(Programming::GithubDesktop) => "GithubDesktop"@,
        KeyType::Programming(Programming::EclipseIDE) => "EclipseIDE"@,
        KeyType::Programming(Programming::FiddlerClassic) => "FiddlerClassic"@,
        KeyType::Programming(Programming::FiddlerEverywhere) => "FiddlerEverywhere"@,
        KeyType::Programming(Programming::Kubernetes) => "Kubernetes"@,
        KeyType::Programming(Programming::MongoDB) => "MongoDB"@,
        KeyType::Programming(Programming::MySQLWorkbench) => "MySQLWorkbench"@,
        KeyType::Programming(Programming::Nmap) => "Nmap"@,
        KeyType::Programming(Programming::NodeJS) => "NodeJS"@,
        KeyType::Programming(Programming::NotepadPlusPlus) => "NotepadPlusPlus"@,
        KeyType::Programming(Programming::Npcap) => "Npcap"@,
        KeyType::Programming(Programming::Ollama) => "Ollama"@,
        KeyType::Programming(Programming::OracleVirtualBox) => "OracleVirtualBox"@,
        KeyType::Programming(Programming::OracleVirtualBoxExtPack) => "OracleVirtualBoxExtPack"@,
        KeyType::Programming(Programming::OWASPZAP) => "OWASPZAP"@,
        KeyType::Programming(Programming::PostgreSQL) => "PostgreSQL"@,
        KeyType::Programming(Programming::Postman) => "Postman"@,
        KeyType::Programming(Programming::Python2_7_18) => "Python2_7_18"@,
        KeyType::Programming(Programming::Python3_8_10) => "Python3_8_10"@,
        KeyType::Programming(Programming::Python3_9_10) => "Python3_9_10"@,
        KeyType::Programming(Programming::Python3_10_10) => "Python3_10_10"@,
        KeyType::Programming(Programming::Python3_11_10) => "Python3_11_10"@,
        KeyType::Programming(Programming::Python3_12_9) => "Python3_12_9"@,
        KeyType::Programming(Programming::Python3_13_2) => "Python3_13_2"@,
        KeyType::Programming(Programming::PuTTY) => "PuTTY"@,
        KeyType::Programming(Programming::SublimeText) => "SublimeText"@,
        KeyType::Programming(Programming::UTM) => "UTM"@,
        KeyType::Programming(Programming::VisualStudio) => "VisualStudio"@,
        KeyType::Programming(Programming::VisualStudioCode) => "VisualStudioCode"@,
        KeyType::Programming(Programming::VSCodium) => "VSCodium"@,
        KeyType::Programming(Programming::WebStorm) => "WebStorm"@,
        KeyType::Programming(Programming::WinGet) => "WinGet"@,
        KeyType::Programming(Programming::WireShark) => "WireShark"@,
        KeyType::Programming(Programming::XAMPP) => "XAMPP"@,
        KeyType::Utility(Utility::SevenZip) => "7Zip"@,
        KeyType::Utility(Utility::Audacious) => "Audacious"@,
        KeyType::Utility(Utility::LibreOffice) => "LibreOffice"@,
        KeyType::Utility(Utility::ModernCSV) => "ModernCSV"@,
        KeyType::Utility(Utility::NoMacs) => "NoMacs"@,
        KeyType::Utility(Utility::Okular) => "Okular"@,
        KeyType::Utility(Utility::Rufus) => "Rufus"@,
        KeyType::Utility(Utility::VLC) => "VLC"@,
        KeyType::Utility(Utility::WinRAR) => "WinRAR"@,
    }
}

/// The title whose identifier is `id`, if any.
pub open spec fn title_of(id: Seq<char>) -> Option<KeyType> {
    if id == "Brave"@ {
        Some(KeyType::Browser(Browser::Brave))
    } else if id == "Chrome"@ {
        Some(KeyType::Browser(Browser::Chrome))
    } else if id == "Chromium"@ {
        Some(KeyType::Browser(Browser::Chromium))
    } else if id == "Edge"@ {
        Some(KeyType::Browser(Browser::Edge))
    } else if id == "Firefox"@ {
        Some(KeyType::Browser(Browser::Firefox))
    } else if id == "Librewolf"@ {
        Some(KeyType::Browser(Browser::Librewolf))
    } else if id == "Opera"@ {
        Some(KeyType::Browser(Browser::Opera))
    } else if id == "OperaGX"@ {
        Some(KeyType::Browser(Browser::OperaGX))
    } else if id == "PaleMoon"@ {
        Some(KeyType::Browser(Browser::PaleMoon))
    } else if id == "Seamonkey-Experimental"@ {
        Some(KeyType::Browser(Browser::SeaMonkey))
    } else if id == "Tor"@ {
        Some(KeyType::Browser(Browser::Tor))
    } else if id == "Vivaldi-Experimental"@ {
        Some(KeyType::Browser(Browser::Vivaldi))
    } else if id == "Waterfox"@ {
        Some(KeyType::Browser(Browser::Waterfox))
    } else if id == "AMDAutoDetect"@ {
        Some(KeyType::Gaming(Gaming::AMDAutoDetect))
    } else if id == "BattleNetLauncher"@ {
        Some(KeyType::Gaming(Gaming::BattleNetLauncher))
    } else if id == "BluestacksEmulator"@ {
        Some(KeyType::Gaming(Gaming::BluestacksEmulator))
    } else if id == "CPUZ"@ {
        Some(KeyType::Gaming(Gaming::CPUZ))
    } else if id == "CurseForge"@ {
        Some(KeyType::Gaming(Gaming::CurseForge))
    } else if id == "EpicGamesLauncher"@ {
        Some(KeyType::Gaming(Gaming::EpicGamesLauncher))
    } else if id == "GPUZ"@ {
        Some(KeyType::Gaming(Gaming::GPUZ))
    } else if id == "HWiNFO"@ {
        Some(KeyType::Gaming(Gaming::HWiNFO))
    } else if id == "HWMonitor"@ {
        Some(KeyType::Gaming(Gaming::HWMonitor))
    } else if id == "MSIAfterburner"@ {
        Some(KeyType::Gaming(Gaming::MSIAfterburner))
    } else if id == "NvidiaApp"@ {
        Some(KeyType::Gaming(Gaming::NvidiaApp))
    } else if id == "OBSStudio"@ {
        Some(KeyType::Gaming(Gaming::OBSStudio))
    } else if id == "Parsec"@ {
        Some(KeyType::Gaming(Gaming::Parsec))
    } else if id == "PingPlotter"@ {
        Some(KeyType::Gaming(Gaming::PingPlotter))
    } else if id == "ProcessLasso"@ {
        Some(KeyType::Gaming(Gaming::ProcessLasso))
    } else if id == "RazerCortex"@ {
        Some(KeyType::Gaming(Gaming::RazerCortex))
    } else if id == "Reshade"@ {
        Some(KeyType::Gaming(Gaming::Reshade))
    } else if id == "RockstarLauncher"@ {
        Some(KeyType::Gaming(Gaming::RockstarLauncher))
    } else if id == "RobloxLauncher"@ {
        Some(KeyType::Gaming(Gaming::RobloxLauncher))
    } else if id == "StreamlabsOBS"@ {
        Some(KeyType::Gaming(Gaming::StreamlabsOBS))
    } else if id == "SteamLauncher"@ {
        Some(KeyType::Gaming(Gaming::SteamLauncher))
    } else if id == "WTFast"@ {
        Some(KeyType::Gaming(Gaming::WTFast))
    } else if id == "AndroidStudio"@ {
        Some(KeyType::Programming(Programming::AndroidStudio))
    } else if id == "AzureDataStudio"@ {
        Some(KeyType::Programming(Programming::AzureDataStudio))
    } else if id == "BurpSuite"@ {
        Some(KeyType::Programming(Programming::BurpSuite))
    } else if id == "DockerDesktop"@ {
        Some(KeyType::Programming(Programming::DockerDesktop))
    } else if id == "FileZillaClient"@ {
        Some(KeyType::Programming(Programming::FileZilla(FilezillaType::Client)))
    } else if id == "FileZillaServer"@ {
        Some(KeyType::Programming(Programming::FileZilla(FilezillaType::Server)))
    } else if id == "GithubDesktop"@ {
        Some(KeyType::Programming(Programming::GithubDesktop))
    } else if id == "EclipseIDE"@ {
        Some(KeyType::Programming(Programming::EclipseIDE))
    } else if id == "FiddlerClassic"@ {
        Some(KeyType::Programming(Programming::FiddlerClassic))
    } else if id == "FiddlerEverywhere"@ {
        Some(KeyType::Programming(Programming::FiddlerEverywhere))
    } else if id == "Kubernetes"@ {
        Some(KeyType::Programming(Programming::Kubernetes))
    } else if id == "MongoDB"@ {
        Some(KeyType::Programming(Programming::MongoDB))
    } else if id == "MySQLWorkbench"@ {
        Some(KeyType::Programming(Programming::MySQLWorkbench))
    } else if id == "Nmap"@ {
        Some(KeyType::Programming(Programming::Nmap))
    } else if id == "NodeJS"@ {
        Some(KeyType::Programming(Programming::NodeJS))
    } else if id == "NotepadPlusPlus"@ {
        Some(KeyType::Programming(Programming::NotepadPlusPlus))
    } else if id == "Npcap"@ {
        Some(KeyType::Programming(Programming::Npcap))
    } else if id == "Ollama"@ {
        Some(KeyType::Programming(Programming::Ollama))
    } else if id == "OracleVirtualBox"@ {
        Some(KeyType::Programming(Programming::OracleVirtualBox))
    } else if id == "OracleVirtualBoxExtPack"@ {
        Some(KeyType::Programming(Programming::OracleVirtualBoxExtPack))
    } else if id == "OWASPZAP"@ {
        Some(KeyType::Programming(Programming::OWASPZAP))
    } else if id == "PostgreSQL"@ {
        Some(KeyType::Programming(Programming::PostgreSQL))
    } else if id == "Postman"@ {
        Some(KeyType::Programming(Programming::Postman))
    } else if id == "Python2_7_18"@ {
        Some(KeyType::Programming(Programming::Python2_7_18))
    } else if id == "Python3_8_10"@ {
        Some(KeyType::Programming(Programming::Python3_8_10))
    } else if id == "Python3_9_10"@ {
        Some(KeyType::Programming(Programming::Python3_9_10))
    } else if id == "Python3_10_10"@ {
        Some(KeyType::Programming(Programming::Python3_10_10))
    } else if id == "Python3_11_10"@ {
        Some(KeyType::Programming(Programming::Python3_11_10))
    } else if id == "Python3_12_9"@ {
        Some(KeyType::Programming(Programming::Python3_12_9))
    } else if id == "Python3_13_2"@ {
        Some(KeyType::Programming(Programming::Python3_13_2))
    } else if id == "PuTTY"@ {
        Some(KeyType::Programming(Programming::PuTTY))
    } else if id == "SublimeText"@ {
        Some(KeyType::Programming(Programming::SublimeText))
    } else if id == "UTM"@ {
        Some(KeyType::Programming(Programming::UTM))
    } else if id == "VisualStudio"@ {
        Some(KeyType::Programming(Programming::VisualStudio))
    } else if id == "VisualStudioCode"@ {
        Some(KeyType::Programming(Programming::VisualStudioCode))
    } else if id == "VSCodium"@ {
        Some(KeyType::Programming(Programming::VSCodium))
    } else if id == "WebStorm"@ {
        Some(KeyType::Programming(Programming::WebStorm))
    } else if id == "WinGet"@ {
        Some(KeyType::Programming(Programming::WinGet))
    } else if id == "WireShark"@ {
        Some(KeyType::Programming(Programming::WireShark))
    } else if id == "XAMPP"@ {
        Some(KeyType::Programming(Programming::XAMPP))
    } else if id == "7Zip"@ {
        Some(KeyType::Utility(Utility::SevenZip))
    } else if id == "Audacious"@ {
        Some(KeyType::Utility(Utility::Audacious))
    } else if id == "LibreOffice"@ {
        Some(KeyType::Utility(Utility::LibreOffice))
    } else if id == "ModernCSV"@ {
        Some(KeyType::Utility(Utility::ModernCSV))
    } else if id == "NoMacs"@ {
        Some(KeyType::Utility(Utility::NoMacs))
    } else if id == "Okular"@ {
        Some(KeyType::Utility(Utility::Okular))
    } else if id == "Rufus"@ {
        Some(KeyType::Utility(Utility::Rufus))
    } else if id == "VLC"@ {
        Some(KeyType::Utility(Utility::VLC))
    } else if id == "WinRAR"@ {
        Some(KeyType::Utility(Utility::WinRAR))
    } else {
        None
    }
}

/// Looks up the title with identifier `config_key`; `None` where the catalog has none, which
/// callers treat as a configuration error.
#[verifier::rlimit(50)]
pub fn map_config_key_to_function_name(config_key: &str) -> (r: Option<KeyType>)
    ensures
        r == title_of(config_key@),
{
    if same_text(config_key, "Brave") {
        Some(KeyType::Browser(Browser::Brave))
    } else if same_text(config_key, "Chrome") {
        Some(KeyType::Browser(Browser::Chrome))
    } else if same_text(config_key, "Chromium") {
        Some(KeyType::Browser(Browser::Chromium))
    } else if same_text(config_key, "Edge") {
        Some(KeyType::Browser(Browser::Edge))
    } else if same_text(config_key, "Firefox") {
        Some(KeyType::Browser(Browser::Firefox))
    } else if same_text(config_key, "Librewolf") {
        Some(KeyType::Browser(Browser::Librewolf))
    } else if same_text(config_key, "Opera") {
        Some(KeyType::Browser(Browser::Opera))
    } else if same_text(config_key, "OperaGX") {
        Some(KeyType::Browser(Browser::OperaGX))
    } else if same_text(config_key, "PaleMoon") {
        Some(KeyType::Browser(Browser::PaleMoon))
    } else if same_text(config_key, "Seamonkey-Experimental") {
        Some(KeyType::Browser(Browser::SeaMonkey))
    } else if same_text(config_key, "Tor") {
        Some(KeyType::Browser(Browser::Tor))
    } else if same_text(config_key, "Vivaldi-Experimental") {
        Some(KeyType::Browser(Browser::Vivaldi))
    } else if same_text(config_key, "Waterfox") {
        Some(KeyType::Browser(Browser::Waterfox))
    } else if same_text(config_key, "AMDAutoDetect") {
        Some(KeyType::Gaming(Gaming::AMDAutoDetect))
    } else if same_text(config_key, "BattleNetLauncher") {
        Some(KeyType::Gaming(Gaming::BattleNetLauncher))
    } else if same_text(config_key, "BluestacksEmulator") {
        Some(KeyType::Gaming(Gaming::BluestacksEmulator))
    } else if same_text(config_key, "CPUZ") {
        Some(KeyType::Gaming(Gaming::CPUZ))
    } else if same_text(config_key, "CurseForge") {
        Some(KeyType::Gaming(Gaming::CurseForge))
    } else if same_text(config_key, "EpicGamesLauncher") {
        Some(KeyType::Gaming(Gaming::EpicGamesLauncher))
    } else if same_text(config_key, "GPUZ") {
        Some(KeyType::Gaming(Gaming::GPUZ))
    } else if same_text(config_key, "HWiNFO") {
        Some(KeyType::Gaming(Gaming::HWiNFO))
    } else if same_text(config_key, "HWMonitor") {
        Some(KeyType::Gaming(Gaming::HWMonitor))
    } else if same_text(config_key, "MSIAfterburner") {
        Some(KeyType::Gaming(Gaming::MSIAfterburner))
    } else if same_text(config_key, "NvidiaApp") {
        Some(KeyType::Gaming(Gaming::NvidiaApp))
    } else if same_text(config_key, "OBSStudio") {
        Some(KeyType::Gaming(Gaming::OBSStudio))
    } else if same_text(config_key, "Parsec") {
        Some(KeyType::Gaming(Gaming::Parsec))
    } else if same_text(config_key, "PingPlotter") {
        Some(KeyType::Gaming(Gaming::PingPlotter))
    } else if same_text(config_key, "ProcessLasso") {
        Some(KeyType::Gaming(Gaming::ProcessLasso))
    } else if same_text(config_key, "RazerCortex") {
        Some(KeyType::Gaming(Gaming::RazerCortex))
    } else if same_text(config_key, "Reshade") {
        Some(KeyType::Gaming(Gaming::Reshade))
    } else if same_text(config_key, "RockstarLauncher") {
        Some(KeyType::Gaming(Gaming::RockstarLauncher))
    } else if same_text(config_key, "RobloxLauncher") {
        Some(KeyType::Gaming(Gaming::RobloxLauncher))
    } else if same_text(config_key, "StreamlabsOBS") {
        Some(KeyType::Gaming(Gaming::StreamlabsOBS))
    } else if same_text(config_key, "SteamLauncher") {
        Some(KeyType::Gaming(Gaming::SteamLauncher))
    } else if same_text(config_key, "WTFast") {
        Some(KeyType::Gaming(Gaming::WTFast))
    } else if same_text(config_key, "AndroidStudio") {
        Some(KeyType::Programming(Programming::AndroidStudio))
    } else if same_text(config_key, "AzureDataStudio") {
        Some(KeyType::Programming(Programming::AzureDataStudio))
    } else if same_text(config_key, "BurpSuite") {
        Some(KeyType::Programming(Programming::BurpSuite))
    } else if same_text(config_key, "DockerDesktop") {
        Some(KeyType::Programming(Programming::DockerDesktop))
    } else if same_text(config_key, "FileZillaClient") {
        Some(KeyType::Programming(Programming::FileZilla(FilezillaType::Client)))
    } else if same_text(config_key, "FileZillaServer") {
        Some(KeyType::Programming(Programming::FileZilla(FilezillaType::Server)))
    } else if same_text(config_key, "GithubDesktop") {
        Some(KeyType::Programming(Programming::GithubDesktop))
    } else if same_text(config_key, "EclipseIDE") {
        Some(KeyType::Programming(Programming::EclipseIDE))
    } else if same_text(config_key, "FiddlerClassic") {
        Some(KeyType::Programming(Programming::FiddlerClassic))
    } else if same_text(config_key, "FiddlerEverywhere") {
        Some(KeyType::Programming(Programming::FiddlerEverywhere))
    } else if same_text(config_key, "Kubernetes") {
        Some(KeyType::Programming(Programming::Kubernetes))
    } else if same_text(config_key, "MongoDB") {
        Some(KeyType::Programming(Programming::MongoDB))
    } else if same_text(config_key, "MySQLWorkbench") {
        Some(KeyType::Programming(Programming::MySQLWorkbench))
    } else if same_text(config_key, "Nmap") {
        Some(KeyType::Programming(Programming::Nmap))
    } else if same_text(config_key, "NodeJS") {
        Some(KeyType::Programming(Programming::NodeJS))
    } else if same_text(config_key, "NotepadPlusPlus") {
        Some(KeyType::Programming(Programming::NotepadPlusPlus))
    } else if same_text(config_key, "Npcap") {
        Some(KeyType::Programming(Programming::Npcap))
    } else if same_text(config_key, "Ollama") {
        Some(KeyType::Programming(Programming::Ollama))
    } else if same_text(config_key, "OracleVirtualBox") {
        Some(KeyType::Programming(Programming::OracleVirtualBox))
    } else if same_text(config_key, "OracleVirtualBoxExtPack") {
        Some(KeyType::Programming(Programming::OracleVirtualBoxExtPack))
    } else if same_text(config_key, "OWASPZAP") {
        Some(KeyType::Programming(Programming::OWASPZAP))
    } else if same_text(config_key, "PostgreSQL") {
        Some(KeyType::Programming(Programming::PostgreSQL))
    } else if same_text(config_key, "Postman") {
        Some(KeyType::Programming(Programming::Postman))
    } else if same_text(config_key, "Python2_7_18") {
        Some(KeyType::Programming(Programming::Python2_7_18))
    } else if same_text(config_key, "Python3_8_10") {
        Some(KeyType::Programming(Programming::Python3_8_10))
    } else if same_text(config_key, "Python3_9_10") {
        Some(KeyType::Programming(Programming::Python3_9_10))
    } else if same_text(config_key, "Python3_10_10") {
        Some(KeyType::Programming(Programming::Python3_10_10))
    } else if same_text(config_key, "Python3_11_10") {
        Some(KeyType::Programming(Programming::Python3_11_10))
    } else if same_text(config_key, "Python3_12_9") {
        Some(KeyType::Programming(Programming::Python3_12_9))
    } else if same_text(config_key, "Python3_13_2") {
        Some(KeyType::Programming(Programming::Python3_13_2))
    } else if same_text(config_key, "PuTTY") {
        Some(KeyType::Programming(Programming::PuTTY))
    } else if same_text(config_key, "SublimeText") {
        Some(KeyType::Programming(Programming::SublimeText))
    } else if same_text(config_key, "UTM") {
        Some(KeyType::Programming(Programming::UTM))
    } else if same_text(config_key, "VisualStudio") {
        Some(KeyType::Programming(Programming::VisualStudio))
    } else if same_text(config_key, "VisualStudioCode") {
        Some(KeyType::Programming(Programming::VisualStudioCode))
    } else if same_text(config_key, "VSCodium") {
        Some(KeyType::Programming(Programming::VSCodium))
    } else if same_text(config_key, "WebStorm") {
        Some(KeyType::Programming(Programming::WebStorm))
    } else if same_text(config_key, "WinGet") {
        Some(KeyType::Programming(Programming::WinGet))
    } else if same_text(config_key, "WireShark") {
        Some(KeyType::Programming(Programming::WireShark))
    } else if same_text(config_key, "XAMPP") {
        Some(KeyType::Programming(Programming::XAMPP))
    } else if same_text(config_key, "7Zip") {
        Some(KeyType::Utility(Utility::SevenZip))
    } else if same_text(config_key, "Audacious") {
        Some(KeyType::Utility(Utility::Audacious))
    } else if same_text(config_key, "LibreOffice") {
        Some(KeyType::Utility(Utility::LibreOffice))
    } else if same_text(config_key, "ModernCSV") {
        Some(KeyType::Utility(Utility::ModernCSV))
    } else if same_text(config_key, "NoMacs") {
        Some(KeyType::Utility(Utility::NoMacs))
    } else if same_text(config_key, "Okular") {
        Some(KeyType::Utility(Utility::Okular))
    } else if same_text(config_key, "Rufus") {
        Some(KeyType::Utility(Utility::Rufus))
    } else if same_text(config_key, "VLC") {
        Some(KeyType::Utility(Utility::VLC))
    } else if same_text(config_key, "WinRAR") {
        Some(KeyType::Utility(Utility::WinRAR))
    } else {
        None
    }
}

/// Every title of the catalog is found under its own identifier, and under no other title:
/// identifiers are unique and lookup is a function of the identifier.
#[verifier::rlimit(100)]
pub proof fn lemma_lookup_finds_each_title(t: KeyType)
    ensures
        title_of(config_key(t)) == Some(t),
{
    // Reveal each identifier, and name its length and the characters that tell it apart from
    // the identifiers of the same length, so that the solver sees the identifiers differ.
    reveal_strlit("Brave");
    reveal_strlit("Chrome");
    reveal_strlit("Chromium");
    reveal_strlit("Edge");
    reveal_strlit("Firefox");
    reveal_strlit("Librewolf");
    reveal_strlit("Opera");
    reveal_strlit("OperaGX");
    reveal_strlit("PaleMoon");
    reveal_strlit("Seamonkey-Experimental");
    reveal_strlit("Tor");
    reveal_strlit("Vivaldi-Experimental");
    reveal_strlit("Waterfox");
    reveal_strlit("AMDAutoDetect");
    reveal_strlit("BattleNetLauncher");
    reveal_strlit("BluestacksEmulator");
    reveal_strlit("CPUZ");
    reveal_strlit("CurseForge");
    reveal_strlit("EpicGamesLauncher");
    reveal_strlit("GPUZ");
    reveal_strlit("HWiNFO");
    reveal_strlit("HWMonitor");
    reveal_strlit("MSIAfterburner");
    reveal_strlit("NvidiaApp");
    reveal_strlit("OBSStudio");
    reveal_strlit("Parsec");
    reveal_strlit("PingPlotter");
    reveal_strlit("ProcessLasso");
    reveal_strlit("RazerCortex");
    reveal_strlit("Reshade");
    reveal_strlit("RockstarLauncher");
    reveal_strlit("RobloxLauncher");
    reveal_strlit("StreamlabsOBS");
    reveal_strlit("SteamLauncher");
    reveal_strlit("WTFast");
    reveal_strlit("AndroidStudio");
    reveal_strlit("AzureDataStudio");
    reveal_strlit("BurpSuite");
    reveal_strlit("DockerDesktop");
    reveal_strlit("FileZillaClient");
    reveal_strlit("FileZillaServer");
    reveal_strlit("GithubDesktop");
    reveal_strlit("EclipseIDE");
    reveal_strlit("FiddlerClassic");
    reveal_strlit("FiddlerEverywhere");
    reveal_strlit("Kubernetes");
    reveal_strlit("MongoDB");
    reveal_strlit("MySQLWorkbench");
    reveal_strlit("Nmap");
    reveal_strlit("NodeJS");
    reveal_strlit("NotepadPlusPlus");
    reveal_strlit("Npcap");
    reveal_strlit("Ollama");
    reveal_strlit("OracleVirtualBox");
    reveal_strlit("OracleVirtualBoxExtPack");
    reveal_strlit("OWASPZAP");
    reveal_strlit("PostgreSQL");
    reveal_strlit("Postman");
    reveal_strlit("Python2_7_18");
    reveal_strlit("Python3_8_10");
    reveal_strlit("Python3_9_10");
    reveal_strlit("Python3_10_10");
    reveal_strlit("Python3_11_10");
    reveal_strlit("Python3_12_9");
    reveal_strlit("Python3_13_2");
    reveal_strlit("PuTTY");
    reveal_strlit("SublimeText");
    reveal_strlit("UTM");
    reveal_strlit("VisualStudio");
    reveal_strlit("VisualStudioCode");
    reveal_strlit("VSCodium");
    reveal_strlit("WebStorm");
    reveal_strlit("WinGet");
    reveal_strlit("WireShark");
    reveal_strlit("XAMPP");
    reveal_strlit("7Zip");
    reveal_strlit("Audacious");
    reveal_strlit("LibreOffice");
    reveal_strlit("ModernCSV");
    reveal_strlit("NoMacs");
    reveal_strlit("Okular");
    reveal_strlit("Rufus");
    reveal_strlit("VLC");
    reveal_strlit("WinRAR");
    assert("Brave"@.len() == 5);
    assert("Brave"@[0] == 'B');
    assert("Chrome"@.len() == 6);
    assert("Chrome"@[0] == 'C');
    assert("Chromium"@.len() == 8);
    assert("Chromium"@[0] == 'C');
    assert("Edge"@.len() == 4);
    assert("Edge"@[0] == 'E');
    assert("Firefox"@.len() == 7);
    assert("Firefox"@[0] == 'F');
    assert("Librewolf"@.len() == 9);
    assert("Librewolf"@[0] == 'L');
    assert("Opera"@.len() == 5);
    assert("Opera"@[0] == 'O');
    assert("OperaGX"@.len() == 7);
    assert("OperaGX"@[0] == 'O');
    assert("PaleMoon"@.len() == 8);
    assert("PaleMoon"@[0] == 'P');
    assert("Seamonkey-Experimental"@.len() == 22);
    assert("Tor"@.len() == 3);
    assert("Tor"@[0] == 'T');
    assert("Vivaldi-Experimental"@.len() == 20);
    assert("Waterfox"@.len() == 8);
    assert("Waterfox"@[0] == 'W');
    assert("Waterfox"@[1] == 'a');
    assert("AMDAutoDetect"@.len() == 13);
    assert("AMDAutoDetect"@[0] == 'A');
    assert("AMDAutoDetect"@[1] == 'M');
    assert("BattleNetLauncher"@.len() == 17);
    assert("BattleNetLauncher"@[0] == 'B');
    assert("BluestacksEmulator"@.len() == 18);
    assert("CPUZ"@.len() == 4);
    assert("CPUZ"@[0] == 'C');
    assert("CurseForge"@.len() == 10);
    assert("CurseForge"@[0] == 'C');
    assert("EpicGamesLauncher"@.len() == 17);
    assert("EpicGamesLauncher"@[0] == 'E');
    assert("GPUZ"@.len() == 4);
    assert("GPUZ"@[0] == 'G');
    assert("HWiNFO"@.len() == 6);
    assert("HWiNFO"@[0] == 'H');
    assert("HWMonitor"@.len() == 9);
    assert("HWMonitor"@[0] == 'H');
    assert("MSIAfterburner"@.len() == 14);
    assert("MSIAfterburner"@[0] == 'M');
    assert("MSIAfterburner"@[1] == 'S');
    assert("NvidiaApp"@.len() == 9);
    assert("NvidiaApp"@[0] == 'N');
    assert("OBSStudio"@.len() == 9);
    assert("OBSStudio"@[0] == 'O');
    assert("Parsec"@.len() == 6);
    assert("Parsec"@[0] == 'P');
    assert("PingPlotter"@.len() == 11);
    assert("PingPlotter"@[0] == 'P');
    assert("ProcessLasso"@.len() == 12);
    assert("ProcessLasso"@[0] == 'P');
    assert("ProcessLasso"@[1] == 'r');
    assert("RazerCortex"@.len() == 11);
    assert("RazerCortex"@[0] == 'R');
    assert("Reshade"@.len() == 7);
    assert("Reshade"@[0] == 'R');
    assert("RockstarLauncher"@.len() == 16);
    assert("RockstarLauncher"@[0] == 'R');
    assert("RobloxLauncher"@.len() == 14);
    assert("RobloxLauncher"@[0] == 'R');
    assert("StreamlabsOBS"@.len() == 13);
    assert("StreamlabsOBS"@[0] == 'S');
    assert("StreamlabsOBS"@[2] == 'r');
    assert("SteamLauncher"@.len() == 13);
    assert("SteamLauncher"@[0] == 'S');
    assert("SteamLauncher"@[2] == 'e');
    assert("WTFast"@.len() == 6);
    assert("WTFast"@[0] == 'W');
    assert("WTFast"@[1] == 'T');
    assert("AndroidStudio"@.len() == 13);
    assert("AndroidStudio"@[0] == 'A');
    assert("AndroidStudio"@[1] == 'n');
    assert("AzureDataStudio"@.len() == 15);
    assert("AzureDataStudio"@[0] == 'A');
    assert("BurpSuite"@.len() == 9);
    assert("BurpSuite"@[0] == 'B');
    assert("DockerDesktop"@.len() == 13);
    assert("DockerDesktop"@[0] == 'D');
    assert("FileZillaClient"@.len() == 15);
    assert("FileZillaClient"@[0] == 'F');
    assert("FileZillaClient"@[9] == 'C');
    assert("FileZillaServer"@.len() == 15);
    assert("FileZillaServer"@[0] == 'F');
    assert("FileZillaServer"@[9] == 'S');
    assert("GithubDesktop"@.len() == 13);
    assert("GithubDesktop"@[0] == 'G');
    assert("EclipseIDE"@.len() == 10);
    assert("EclipseIDE"@[0] == 'E');
    assert("FiddlerClassic"@.len() == 14);
    assert("FiddlerClassic"@[0] == 'F');
    assert("FiddlerEverywhere"@.len() == 17);
    assert("FiddlerEverywhere"@[0] == 'F');
    assert("Kubernetes"@.len() == 10);
    assert("Kubernetes"@[0] == 'K');
    assert("MongoDB"@.len() == 7);
    assert("MongoDB"@[0] == 'M');
    assert("MySQLWorkbench"@.len() == 14);
    assert("MySQLWorkbench"@[0] == 'M');
    assert("MySQLWorkbench"@[1] == 'y');
    assert("Nmap"@.len() == 4);
    assert("Nmap"@[0] == 'N');
    assert("NodeJS"@.len() == 6);
    assert("NodeJS"@[0] == 'N');
    assert("NodeJS"@[2] == 'd');
    assert("NotepadPlusPlus"@.len() == 15);
    assert("NotepadPlusPlus"@[0] == 'N');
    assert("Npcap"@.len() == 5);
    assert("Npcap"@[0] == 'N');
    assert("Ollama"@.len() == 6);
    assert("Ollama"@[0] == 'O');
    assert("Ollama"@[1] == 'l');
    assert("OracleVirtualBox"@.len() == 16);
    assert("OracleVirtualBox"@[0] == 'O');
    assert("OracleVirtualBoxExtPack"@.len() == 23);
    assert("OWASPZAP"@.len() == 8);
    assert("OWASPZAP"@[0] == 'O');
    assert("PostgreSQL"@.len() == 10);
    assert("PostgreSQL"@[0] == 'P');
    assert("Postman"@.len() == 7);
    assert("Postman"@[0] == 'P');
    assert("Python2_7_18"@.len() == 12);
    assert("Python2_7_18"@[0] == 'P');
    assert("Python2_7_18"@[1] == 'y');
    assert("Python2_7_18"@[6] == '2');
    assert("Python3_8_10"@.len() == 12);
    assert("Python3_8_10"@[0] == 'P');
    assert("Python3_8_10"@[1] == 'y');
    assert("Python3_8_10"@[6] == '3');
    assert("Python3_8_10"@[8] == '8');
    assert("Python3_9_10"@.len() == 12);
    assert("Python3_9_10"@[0] == 'P');
    assert("Python3_9_10"@[1] == 'y');
    assert("Python3_9_10"@[6] == '3');
    assert("Python3_9_10"@[8] == '9');
    assert("Python3_10_10"@.len() == 13);
    assert("Python3_10_10"@[0] == 'P');
    assert("Python3_10_10"@[9] == '0');
    assert("Python3_11_10"@.len() == 13);
    assert("Python3_11_10"@[0] == 'P');
    assert("Python3_11_10"@[9] == '1');
    assert("Python3_12_9"@.len() == 12);
    assert("Python3_12_9"@[0] == 'P');
    assert("Python3_12_9"@[1] == 'y');
    assert("Python3_12_9"@[6] == '3');
    assert("Python3_12_9"@[8] == '1');
    assert("Python3_12_9"@[9] == '2');
    assert("Python3_13_2"@.len() == 12);
    assert("Python3_13_2"@[0] == 'P');
    assert("Python3_13_2"@[1] == 'y');
    assert("Python3_13_2"@[6] == '3');
    assert("Python3_13_2"@[8] == '1');
    assert("Python3_13_2"@[9] == '3');
    assert("PuTTY"@.len() == 5);
    assert("PuTTY"@[0] == 'P');
    assert("SublimeText"@.len() == 11);
    assert("SublimeText"@[0] == 'S');
    assert("UTM"@.len() == 3);
    assert("UTM"@[0] == 'U');
    assert("VisualStudio"@.len() == 12);
    assert("VisualStudio"@[0] == 'V');
    assert("VisualStudioCode"@.len() == 16);
    assert("VisualStudioCode"@[0] == 'V');
    assert("VSCodium"@.len() == 8);
    assert("VSCodium"@[0] == 'V');
    assert("WebStorm"@.len() == 8);
    assert("WebStorm"@[0] == 'W');
    assert("WebStorm"@[1] == 'e');
    assert("WinGet"@.len() == 6);
    assert("WinGet"@[0] == 'W');
    assert("WinGet"@[1] == 'i');
    assert("WinGet"@[3] == 'G');
    assert("WireShark"@.len() == 9);
    assert("WireShark"@[0] == 'W');
    assert("XAMPP"@.len() == 5);
    assert("XAMPP"@[0] == 'X');
    assert("7Zip"@.len() == 4);
    assert("7Zip"@[0] == '7');
    assert("Audacious"@.len() == 9);
    assert("Audacious"@[0] == 'A');
    assert("LibreOffice"@.len() == 11);
    assert("LibreOffice"@[0] == 'L');
    assert("ModernCSV"@.len() == 9);
    assert("ModernCSV"@[0] == 'M');
    assert("NoMacs"@.len() == 6);
    assert("NoMacs"@[0] == 'N');
    assert("NoMacs"@[2] == 'M');
    assert("Okular"@.len() == 6);
    assert("Okular"@[0] == 'O');
    assert("Okular"@[1] == 'k');
    assert("Rufus"@.len() == 5);
    assert("Rufus"@[0] == 'R');
    assert("VLC"@.len() == 3);
    assert("VLC"@[0] == 'V');
    assert("WinRAR"@.len() == 6);
    assert("WinRAR"@[0] == 'W');
    assert("WinRAR"@[1] == 'i');
    assert("WinRAR"@[3] == 'R');
}

/// The vendor pages that scraped rules read.
#[derive(Debug, Clone, Copy, PartialEq, Eq, Structural)]
pub enum PageScraper {
    Brave,
    LibreWolf,
    SeaMonkey,
    Tor,
    Waterfox,
    ObsStudio,
    BurpSuite,
    EclipseIde,
    Kubernetes,
    MongoDb,
    Nmap,
    NotepadPlusPlus,
    Npcap,
    OracleVirtualBox,
    OracleVBoxExtPack,
    OwaspZap,
    PostgreSql,
    PuTTY,
    SublimeText,
    VSCodium,
    WireShark,
    Xampp,
    SevenZip,
    Audacious,
    LibreOffice,
    Okular,
    Rufus,
    Vlc,
    WinRar,
}

impl PageScraper {
    /// The page that the rule fetches.
    pub open spec fn source(self) -> Seq<char> {
        match self {
            PageScraper::Brave => "https://github.com/brave/brave-browser/releases/latest"@,
            PageScraper::LibreWolf => "https://gitlab.com/librewolf-community/browser/bsys6/-/releases.atom"@,
            PageScraper::SeaMonkey => "https://www.seamonkey-project.org/releases/"@,
            PageScraper::Tor => "https://www.torproject.org/download/tor/"@,
            PageScraper::Waterfox => "https://waterfox.net/download/"@,
            PageScraper::ObsStudio => "https://github.com/obsproject/obs-studio/releases/latest"@,
            PageScraper::BurpSuite => "https://portswigger.net/burp/releases"@,
            PageScraper::EclipseIde => "https://www.eclipse.org/downloads/packages/"@,
            PageScraper::Kubernetes => "https://dl.k8s.io/release/stable.txt"@,
            PageScraper::MongoDb => "https://www.mongodb.com/try/download/compass"@,
            PageScraper::Nmap => "https://nmap.org/download.html#windows"@,
            PageScraper::NotepadPlusPlus => "https://notepad-plus-plus.org/downloads/"@,
            PageScraper::Npcap => "https://nmap.org/download.html#windows"@,
            PageScraper::OracleVirtualBox => "https://www.virtualbox.org/wiki/Downloads"@,
            PageScraper::OracleVBoxExtPack => "https://www.virtualbox.org/wiki/Downloads"@,
            PageScraper::OwaspZap => "https://www.zaproxy.org/download/"@,
            PageScraper::PostgreSql => "https://www.enterprisedb.com/downloads/postgres-postgresql-downloads"@,
            PageScraper::PuTTY => "https://www.chiark.greenend.org.uk/~sgtatham/putty/latest.html"@,
            PageScraper::SublimeText => "https://www.sublimetext.com/download_thanks?target=win-x64"@,
            PageScraper::VSCodium => "https://github.com/VSCodium/vscodium/releases/latest"@,
            PageScraper::WireShark => "https://www.wireshark.org/download.html"@,
            PageScraper::Xampp => "https://www.apachefriends.org/download.html"@,
            PageScraper::SevenZip => "https://7-zip.org/download.html"@,
            PageScraper::Audacious => "https://www.audacityteam.org/download/windows/"@,
            PageScraper::LibreOffice => "https://www.libreoffice.org/download/download-libreoffice/"@,
            PageScraper::Okular => "https://cdn.kde.org/ci-builds/graphics/okular/master/windows/"@,
            PageScraper::Rufus => "https://github.com/pbatard/rufus/releases/latest"@,
            PageScraper::Vlc => "https://www.videolan.org/vlc/download-windows.html"@,
            PageScraper::WinRar => "https://www.rarlab.com/download.htm"@,
        }
    }

    /// The link that the rule extracts from `page`, if any.
    pub open spec fn extracted(self, page: Seq<char>) -> Option<Seq<char>> {
        match self {
            PageScraper::Brave => brave_link(page),
            PageScraper::LibreWolf => librewolf_link(page),
            PageScraper::SeaMonkey => seamonkey_link(page),
            PageScraper::Tor => tor_link(page),
            PageScraper::Waterfox => waterfox_link(page),
            PageScraper::ObsStudio => obs_studio_link(page),
            PageScraper::BurpSuite => burp_suite_link(page),
            PageScraper::EclipseIde => eclipse_ide_link(page),
            PageScraper::Kubernetes => kubernetes_link(page),
            PageScraper::MongoDb => mongodb_link(page),
            PageScraper::Nmap => nmap_link(page),
            PageScraper::NotepadPlusPlus => notepadplusplus_link(page),
            PageScraper::Npcap => npcap_link(page),
            PageScraper::OracleVirtualBox => oracle_virtualbox_link(page),
            PageScraper::OracleVBoxExtPack => oracle_vbox_ext_pack_link(page),
            PageScraper::OwaspZap => owasp_zap_link(page),
            PageScraper::PostgreSql => postgresql_link(page),
            PageScraper::PuTTY => putty_link(page),
            PageScraper::SublimeText => sublime_text_link(page),
            PageScraper::VSCodium => vscodium_link(page),
            PageScraper::WireShark => wireshark_link(page),
            PageScraper::Xampp => xampp_link(page),
            PageScraper::SevenZip => seven_zip_link(page),
            PageScraper::Audacious => audacious_link(page),
            PageScraper::LibreOffice => libreoffice_link(page),
            PageScraper::Okular => okular_link(page),
            PageScraper::Rufus => rufus_link(page),
            PageScraper::Vlc => vlc_link(page),
            PageScraper::WinRar => winrar_link(page),
        }
    }

    /// The page that the rule fetches.
    pub fn source_url(&self) -> (r: String)
        ensures
            r@ == self.source(),
    {
        match self {
            PageScraper::Brave => "https://github.com/brave/brave-browser/releases/latest".to_owned(),
            PageScraper::LibreWolf => "https://gitlab.com/librewolf-community/browser/bsys6/-/releases.atom".to_owned(),
            PageScraper::SeaMonkey => "https://www.seamonkey-project.org/releases/".to_owned(),
            PageScraper::Tor => "https://www.torproject.org/download/tor/".to_owned(),
            PageScraper::Waterfox => "https://waterfox.net/download/".to_owned(),
            PageScraper::ObsStudio => "https://github.com/obsproject/obs-studio/releases/latest".to_owned(),
            PageScraper::BurpSuite => "https://portswigger.net/burp/releases".to_owned(),
            PageScraper::EclipseIde => "https://www.eclipse.org/downloads/packages/".to_owned(),
            PageScraper::Kubernetes => "https://dl.k8s.io/release/stable.txt".to_owned(),
            PageScraper::MongoDb => "https://www.mongodb.com/try/download/compass".to_owned(),
            PageScraper::Nmap => "https://nmap.org/download.html#windows".to_owned(),
            PageScraper::NotepadPlusPlus => "https://notepad-plus-plus.org/downloads/".to_owned(),
            PageScraper::Npcap => "https://nmap.org/download.html#windows".to_owned(),
            PageScraper::OracleVirtualBox => "https://www.virtualbox.org/wiki/Downloads".to_owned(),
            PageScraper::OracleVBoxExtPack => "https://www.virtualbox.org/wiki/Downloads".to_owned(),
            PageScraper::OwaspZap => "https://www.zaproxy.org/download/".to_owned(),
            PageScraper::PostgreSql => "https://www.enterprisedb.com/downloads/postgres-postgresql-downloads".to_owned(),
            PageScraper::PuTTY => "https://www.chiark.greenend.org.uk/~sgtatham/putty/latest.html".to_owned(),
            PageScraper::SublimeText => "https://www.sublimetext.com/download_thanks?target=win-x64".to_owned(),
            PageScraper::VSCodium => "https://github.com/VSCodium/vscodium/releases/latest".to_owned(),
            PageScraper::WireShark => "https://www.wireshark.org/download.html".to_owned(),
            PageScraper::Xampp => "https://www.apachefriends.org/download.html".to_owned(),
            PageScraper::SevenZip => "https://7-zip.org/download.html".to_owned(),
            PageScraper::Audacious => "https://www.audacityteam.org/download/windows/".to_owned(),
            PageScraper::LibreOffice => "https://www.libreoffice.org/download/download-libreoffice/".to_owned(),
            PageScraper::Okular => "https://cdn.kde.org/ci-builds/graphics/okular/master/windows/".to_owned(),
            PageScraper::Rufus => "https://github.com/pbatard/rufus/releases/latest".to_owned(),
            PageScraper::Vlc => "https://www.videolan.org/vlc/download-windows.html".to_owned(),
            PageScraper::WinRar => "https://www.rarlab.com/download.htm".to_owned(),
        }
    }

    /// The page is fetched with a browser user agent, which these vendors require.
    pub open spec fn wants_browser_agent(self) -> bool {
        self == PageScraper::PostgreSql || self == PageScraper::PuTTY
            || self == PageScraper::SublimeText || self == PageScraper::WireShark
            || self == PageScraper::Xampp
    }

    /// Whether the page is fetched with a browser user agent.
    pub fn needs_browser_agent(&self) -> (r: bool)
        ensures
            r == self.wants_browser_agent(),
    {
        match self {
            PageScraper::PostgreSql | PageScraper::PuTTY | PageScraper::SublimeText
            | PageScraper::WireShark | PageScraper::Xampp => true,
            _ => false,
        }
    }

    /// Extracts the link from the fetched page.
    pub fn extract(&self, page: &str) -> (r: Option<String>)
        ensures
            r.deep_view() == self.extracted(page@),
    {
        match self {
            PageScraper::Brave => get_brave_link(page),
            PageScraper::LibreWolf => get_librewolf_link(page),
            PageScraper::SeaMonkey => get_seamonkey_link(page),
            PageScraper::Tor => get_tor_link(page),
            PageScraper::Waterfox => get_waterfox_link(page),
            PageScraper::ObsStudio => get_obs_studio_link(page),
            PageScraper::BurpSuite => get_burp_suite_link(page),
            PageScraper::EclipseIde => get_eclipse_ide_link(page),
            PageScraper::Kubernetes => get_kubernetes_link(page),
            PageScraper::MongoDb => get_mongodb_link(page),
            PageScraper::Nmap => get_nmap_link(page),
            PageScraper::NotepadPlusPlus => get_notepadplusplus_link(page),
            PageScraper::Npcap => get_npcap_link(page),
            PageScraper::OracleVirtualBox => get_oracle_virtualbox_link(page),
            PageScraper::OracleVBoxExtPack => get_oracle_vbox_ext_pack_link(page),
            PageScraper::OwaspZap => get_owasp_zap_link(page),
            PageScraper::PostgreSql => get_postgresql_link(page),
            PageScraper::PuTTY => get_putty_link(page),
            PageScraper::SublimeText => get_sublime_text_link(page),
            PageScraper::VSCodium => get_vscodium_link(page),
            PageScraper::WireShark => get_wireshark_link(page),
            PageScraper::Xampp => get_xampp_link(page),
            PageScraper::SevenZip => get_seven_zip_link(page),
            PageScraper::Audacious => get_audacious_link(page),
            PageScraper::LibreOffice => get_libreoffice_link(page),
            PageScraper::Okular => get_okular_link(page),
            PageScraper::Rufus => get_rufus_link(page),
            PageScraper::Vlc => get_vlc_link(page),
            PageScraper::WinRar => get_winrar_link(page),
        }
    }
}

/// How a title is resolved.
pub enum ResolutionRule {
    /// A fixed link.
    Static(String),
    /// A link read from a vendor page.
    Scraped(PageScraper),
    /// A download left to the external delegate, under this name.
    Delegated(String),
}

/// A resolution rule as a value.
pub enum RuleModel {
    Static(Seq<char>),
    Scraped(PageScraper),
    Delegated(Seq<char>),
}

impl View for ResolutionRule {
    type V = RuleModel;

    open spec fn view(&self) -> RuleModel {
        match self {
            ResolutionRule::Static(u) => RuleModel::Static(u@),
            ResolutionRule::Scraped(s) => RuleModel::Scraped(*s),
            ResolutionRule::Delegated(n) => RuleModel::Delegated(n@),
        }
    }
}

/// The outcome of resolving a title.
#[derive(Debug, PartialEq, Eq)]
pub enum ResolvedLink {
    /// Download from this URL.
    Url(String),
    /// No link could be found; the title is skipped.
    NotFound,
    /// Hand this name to the external delegate.
    Delegate(String),
}

/// A resolved link as a value.
pub enum LinkModel {
    Url(Seq<char>),
    NotFound,
    Delegate(Seq<char>),
}

impl View for ResolvedLink {
    type V = LinkModel;

    open spec fn view(&self) -> LinkModel {
        match self {
            ResolvedLink::Url(u) => LinkModel::Url(u@),
            ResolvedLink::NotFound => LinkModel::NotFound,
            ResolvedLink::Delegate(n) => LinkModel::Delegate(n@),
        }
    }
}

/// What resolving `rule` gives, given the fetched page where the rule reads one (`None`
/// where the fetch failed): a scraped rule that extracts nothing is not found.
pub open spec fn resolution(rule: RuleModel, page: Option<Seq<char>>) -> LinkModel {
    match rule {
        RuleModel::Static(u) => LinkModel::Url(u),
        RuleModel::Delegated(n) => LinkModel::Delegate(n),
        RuleModel::Scraped(s) => match page {
            None => LinkModel::NotFound,
            Some(p) => match s.extracted(p) {
                Some(u) => LinkModel::Url(u),
                None => LinkModel::NotFound,
            },
        },
    }
}

/// A static rule resolves to its fixed link on every call, whatever was fetched before
/// either call.
pub proof fn lemma_static_rule_is_invariant(
    rule: RuleModel,
    page1: Option<Seq<char>>,
    page2: Option<Seq<char>>,
)
    requires
        rule is Static,
    ensures
        resolution(rule, page1) == resolution(rule, page2),
        resolution(rule, page1) == LinkModel::Url(rule->Static_0),
{
}

impl ResolutionRule {
    /// Resolves the rule; `page` is the fetched source page of a scraped rule, `None` where
    /// the fetch failed, and is not read by the other rules.
    pub fn resolve(&self, page: Option<&str>) -> (r: ResolvedLink)
        ensures
            r@ == resolution(self@, opt_page(page)),
    {
        match self {
            ResolutionRule::Static(u) => ResolvedLink::Url(u.clone()),
            ResolutionRule::Delegated(n) => ResolvedLink::Delegate(n.clone()),
            ResolutionRule::Scraped(s) => match page {
                None => ResolvedLink::NotFound,
                Some(p) => match s.extract(p) {
                    Some(u) => ResolvedLink::Url(u),
                    None => ResolvedLink::NotFound,
                },
            },
        }
    }
}

/// The view of an optional page.
pub open spec fn opt_page(page: Option<&str>) -> Option<Seq<char>> {
    match page {
        Some(p) => Some(p@),
        None => None,
    }
}

/// The rule that resolves title `t`.
pub open spec fn title_rule(t: KeyType) -> RuleModel {
    match t {
        KeyType::Browser(Browser::Brave) => RuleModel::Scraped(PageScraper::Brave),
        KeyType::Browser(Browser::Chrome) => RuleModel::Static(CHROME_LINK@),
        KeyType::Browser(Browser::Chromium) => RuleModel::Static(CHROMIUM_LINK@),
        KeyType::Browser(Browser::Edge) => RuleModel::Static(EDGE_LINK@),
        KeyType::Browser(Browser::Firefox) => RuleModel::Static(FIREFOX_LINK@),
        KeyType::Browser(Browser::Librewolf) => RuleModel::Scraped(PageScraper::LibreWolf),
        KeyType::Browser(Browser::Opera) => RuleModel::Static(OPERA_LINK@),
        KeyType::Browser(Browser::OperaGX) => RuleModel::Static(OPERA_GX_LINK@),
        KeyType::Browser(Browser::PaleMoon) => RuleModel::Static(PALE_MOON_LINK@),
        KeyType::Browser(Browser::SeaMonkey) => RuleModel::Scraped(PageScraper::SeaMonkey),
        KeyType::Browser(Browser::Tor) => RuleModel::Scraped(PageScraper::Tor),
        KeyType::Browser(Browser::Vivaldi) => RuleModel::Delegated("Vivaldi"@),
        KeyType::Browser(Browser::Waterfox) => RuleModel::Scraped(PageScraper::Waterfox),
        KeyType::Gaming(Gaming::AMDAutoDetect) => RuleModel::Delegated("AMD"@),
        KeyType::Gaming(Gaming::BattleNetLauncher) => RuleModel::Static(BATTLE_NET_LINK@),
        KeyType::Gaming(Gaming::BluestacksEmulator) => RuleModel::Static(BLUESTACKS_LINK@),
        KeyType::Gaming(Gaming::CPUZ) => RuleModel::Static(CPU_Z_LINK@),
        KeyType::Gaming(Gaming::CurseForge) => RuleModel::Static(CURSE_FORGE_LINK@),
        KeyType::Gaming(Gaming::EpicGamesLauncher) => RuleModel::Static(EPIC_GAMES_LINK@),
        KeyType::Gaming(Gaming::GPUZ) => RuleModel::Static(GPU_Z_LINK@),
        KeyType::Gaming(Gaming::HWiNFO) => RuleModel::Static(HWINFO_LINK@),
        KeyType::Gaming(Gaming::HWMonitor) => RuleModel::Static(HWMONITOR_LINK@),
        KeyType::Gaming(Gaming::MSIAfterburner) => RuleModel::Static(MSI_AFTERBURNER_LINK@),
        KeyType::Gaming(Gaming::NvidiaApp) => RuleModel::Static(NVIDIA_APP_LINK@),
        KeyType::Gaming(Gaming::OBSStudio) => RuleModel::Scraped(PageScraper::ObsStudio),
        KeyType::Gaming(Gaming::Parsec) => RuleModel::Static(PARSEC_LINK@),
        KeyType::Gaming(Gaming::PingPlotter) => RuleModel::Static(PING_PLOTTER_LINK@),
        KeyType::Gaming(Gaming::ProcessLasso) => RuleModel::Static(PROCESS_LASSO_LINK@),
        KeyType::Gaming(Gaming::RazerCortex) => RuleModel::Static(RAZER_CORTEX_LINK@),
        KeyType::Gaming(Gaming::Reshade) => RuleModel::Static(RESHADE_LINK@),
        KeyType::Gaming(Gaming::RockstarLauncher) => RuleModel::Static(ROCKSTAR_LAUNCHER_LINK@),
        KeyType::Gaming(Gaming::RobloxLauncher) => RuleModel::Delegated("Roblox"@),
        KeyType::Gaming(Gaming::StreamlabsOBS) => RuleModel::Static(STREAMLABS_OBS_LINK@),
        KeyType::Gaming(Gaming::SteamLauncher) => RuleModel::Static(STEAM_LINK@),
        KeyType::Gaming(Gaming::WTFast) => RuleModel::Static(WTFAST_LINK@),
        KeyType::Programming(Programming::AndroidStudio) => RuleModel::Static(ANDROID_STUDIO_LINK@),
        KeyType::Programming(Programming::AzureDataStudio) => RuleModel::Static(AZURE_DATA_STUDIO_LINK@),
        KeyType::Programming(Programming::BurpSuite) => RuleModel::Scraped(PageScraper::BurpSuite),
        KeyType::Programming(Programming::DockerDesktop) => RuleModel::Static(DOCKER_DESKTOP_LINK@),
        KeyType::Programming(Programming::FileZilla(FilezillaType::Client)) => RuleModel::Static(FILEZILLA_CLIENT_LINK@),
        KeyType::Programming(Programming::FileZilla(FilezillaType::Server)) => RuleModel::Static(FILEZILLA_SERVER_LINK@),
        KeyType::Programming(Programming::GithubDesktop) => RuleModel::Static(GITHUB_DESKTOP_LINK@),
        KeyType::Programming(Programming::EclipseIDE) => RuleModel::Scraped(PageScraper::EclipseIde),
        KeyType::Programming(Programming::FiddlerClassic) => RuleModel::Static(FIDDLER_CLASSIC_LINK@),
        KeyType::Programming(Programming::FiddlerEverywhere) => RuleModel::Static(FIDDLER_EVERYWHERE_LINK@),
        KeyType::Programming(Programming::Kubernetes) => RuleModel::Scraped(PageScraper::Kubernetes),
        KeyType::Programming(Programming::MongoDB) => RuleModel::Scraped(PageScraper::MongoDb),
        KeyType::Programming(Programming::MySQLWorkbench) => RuleModel::Static(MYSQL_WORKBENCH_LINK@),
        KeyType::Programming(Programming::Nmap) => RuleModel::Scraped(PageScraper::Nmap),
        KeyType::Programming(Programming::NodeJS) => RuleModel::Static(NODE_JS_LINK@),
        KeyType::Programming(Programming::NotepadPlusPlus) => RuleModel::Scraped(PageScraper::NotepadPlusPlus),
        KeyType::Programming(Programming::Npcap) => RuleModel::Scraped(PageScraper::Npcap),
        KeyType::Programming(Programming::Ollama) => RuleModel::Static(OLLAMA_LINK@),
        KeyType::Programming(Programming::OracleVirtualBox) => RuleModel::Scraped(PageScraper::OracleVirtualBox),
        KeyType::Programming(Programming::OracleVirtualBoxExtPack) => RuleModel::Scraped(PageScraper::OracleVBoxExtPack),
        KeyType::Programming(Programming::OWASPZAP) => RuleModel::Scraped(PageScraper::OwaspZap),
        KeyType::Programming(Programming::PostgreSQL) => RuleModel::Scraped(PageScraper::PostgreSql),
        KeyType::Programming(Programming::Postman) => RuleModel::Static(POSTMAN_LINK@),
        KeyType::Programming(Programming::Python2_7_18) => RuleModel::Static(PYTHON_2_7_18_LINK@),
        KeyType::Programming(Programming::Python3_8_10) => RuleModel::Static(PYTHON_3_8_10_LINK@),
        KeyType::Programming(Programming::Python3_9_10) => RuleModel::Static(PYTHON_3_9_10_LINK@),
        KeyType::Programming(Programming::Python3_10_10) => RuleModel::Static(PYTHON_3_10_10_LINK@),
        KeyType::Programming(Programming::Python3_11_10) => RuleModel::Static(PYTHON_3_11_10_LINK@),
        KeyType::Programming(Programming::Python3_12_9) => RuleModel::Static(PYTHON_3_12_9_LINK@),
        KeyType::Programming(Programming::Python3_13_2) => RuleModel::Static(PYTHON_3_13_2_LINK@),
        KeyType::Programming(Programming::PuTTY) => RuleModel::Scraped(PageScraper::PuTTY),
        KeyType::Programming(Programming::SublimeText) => RuleModel::Scraped(PageScraper::SublimeText),
        KeyType::Programming(Programming::UTM) => RuleModel::Static(UTM_LINK@),
        KeyType::Programming(Programming::VisualStudio) => RuleModel::Static(VISUAL_STUDIO_LINK@),
        KeyType::Programming(Programming::VisualStudioCode) => RuleModel::Static(VS_CODE_LINK@),
        KeyType::Programming(Programming::VSCodium) => RuleModel::Scraped(PageScraper::VSCodium),
        KeyType::Programming(Programming::WebStorm) => RuleModel::Static(WEBSTORM_LINK@),
        KeyType::Programming(Programming::WinGet) => RuleModel::Static(WINGET_LINK@),
        KeyType::Programming(Programming::WireShark) => RuleModel::Scraped(PageScraper::WireShark),
        KeyType::Programming(Programming::XAMPP) => RuleModel::Scraped(PageScraper::Xampp),
        KeyType::Utility(Utility::SevenZip) => RuleModel::Scraped(PageScraper::SevenZip),
        KeyType::Utility(Utility::Audacious) => RuleModel::Scraped(PageScraper::Audacious),
        KeyType::Utility(Utility::LibreOffice) => RuleModel::Scraped(PageScraper::LibreOffice),
        KeyType::Utility(Utility::ModernCSV) => RuleModel::Static(MODERN_CSV_LINK@),
        KeyType::Utility(Utility::NoMacs) => RuleModel::Static(NOMACS_LINK@),
        KeyType::Utility(Utility::Okular) => RuleModel::Scraped(PageScraper::Okular),
        KeyType::Utility(Utility::Rufus) => RuleModel::Scraped(PageScraper::Rufus),
        KeyType::Utility(Utility::VLC) => RuleModel::Scraped(PageScraper::Vlc),
        KeyType::Utility(Utility::WinRAR) => RuleModel::Scraped(PageScraper::WinRar),
    }
}

impl Browser {
    /// The rule that resolves this title.
    pub fn rule(&self) -> (r: ResolutionRule)
        ensures
            r@ == title_rule(KeyType::Browser(*self)),
    {
        match self {
            Browser::Brave => ResolutionRule::Scraped(PageScraper::Brave),
            Browser::Chrome => ResolutionRule::Static(get_chrome_link()),
            Browser::Chromium => ResolutionRule::Static(get_chromium_link()),
            Browser::Edge => ResolutionRule::Static(get_edge_link()),
            Browser::Firefox => ResolutionRule::Static(get_firefox_link()),
            Browser::Librewolf => ResolutionRule::Scraped(PageScraper::LibreWolf),
            Browser::Opera => ResolutionRule::Static(get_opera_link()),
            Browser::OperaGX => ResolutionRule::Static(get_operagx_link()),
            Browser::PaleMoon => ResolutionRule::Static(get_palemoon_link()),
            Browser::SeaMonkey => ResolutionRule::Scraped(PageScraper::SeaMonkey),
            Browser::Tor => ResolutionRule::Scraped(PageScraper::Tor),
            Browser::Vivaldi => ResolutionRule::Delegated("Vivaldi".to_owned()),
            Browser::Waterfox => ResolutionRule::Scraped(PageScraper::Waterfox),
        }
    }

    /// Resolves this title; `page` is its fetched source page where its rule reads one.
    pub fn get_link(&self, page: Option<&str>) -> (r: ResolvedLink)
        ensures
            r@ == resolution(title_rule(KeyType::Browser(*self)), opt_page(page)),
    {
        self.rule().resolve(page)
    }
}

impl Gaming {
    /// The rule that resolves this title.
    pub fn rule(&self) -> (r: ResolutionRule)
        ensures
            r@ == title_rule(KeyType::Gaming(*self)),
    {
        match self {
            Gaming::AMDAutoDetect => ResolutionRule::Delegated("AMD".to_owned()),
            Gaming::BattleNetLauncher => ResolutionRule::Static(get_battlenet_link()),
            Gaming::BluestacksEmulator => ResolutionRule::Static(get_bluestacks_link()),
            Gaming::CPUZ => ResolutionRule::Static(get_cpuz_link()),
            Gaming::CurseForge => ResolutionRule::Static(get_curseforge_link()),
            Gaming::EpicGamesLauncher => ResolutionRule::Static(get_epic_games_link()),
            Gaming::GPUZ => ResolutionRule::Static(get_gpuz_link()),
            Gaming::HWiNFO => ResolutionRule::Static(get_hwinfo_link()),
            Gaming::HWMonitor => ResolutionRule::Static(get_hwmonitor_link()),
            Gaming::MSIAfterburner => ResolutionRule::Static(get_msi_afterburner_link()),
            Gaming::NvidiaApp => ResolutionRule::Static(get_nvda_app_link()),
            Gaming::OBSStudio => ResolutionRule::Scraped(PageScraper::ObsStudio),
            Gaming::Parsec => ResolutionRule::Static(get_parsec_link()),
            Gaming::PingPlotter => ResolutionRule::Static(get_pingplotter_link()),
            Gaming::ProcessLasso => ResolutionRule::Static(get_process_lasso_link()),
            Gaming::RazerCortex => ResolutionRule::Static(get_razer_cortex_link()),
            Gaming::Reshade => ResolutionRule::Static(get_reshade_link()),
            Gaming::RockstarLauncher => ResolutionRule::Static(get_rockstar_launcher_link()),
            Gaming::RobloxLauncher => ResolutionRule::Delegated("Roblox".to_owned()),
            Gaming::StreamlabsOBS => ResolutionRule::Static(get_streamlabs_obs_link()),
            Gaming::SteamLauncher => ResolutionRule::Static(get_steam_link()),
            Gaming::WTFast => ResolutionRule::Static(get_wtfast_link()),
        }
    }

    /// Resolves this title; `page` is its fetched source page where its rule reads one.
    pub fn get_link(&self, page: Option<&str>) -> (r: ResolvedLink)
        ensures
            r@ == resolution(title_rule(KeyType::Gaming(*self)), opt_page(page)),
    {
        self.rule().resolve(page)
    }
}

impl Programming {
    /// The rule that resolves this title.
    pub fn rule(&self) -> (r: ResolutionRule)
        ensures
            r@ == title_rule(KeyType::Programming(*self)),
    {
        match self {
            Programming::AndroidStudio => ResolutionRule::Static(get_android_studio_link()),
            Programming::AzureDataStudio => ResolutionRule::Static(get_azure_link()),
            Programming::BurpSuite => ResolutionRule::Scraped(PageScraper::BurpSuite),
            Programming::DockerDesktop => ResolutionRule::Static(get_docker_desktop_link()),
            Programming::FileZilla(FilezillaType::Client) => ResolutionRule::Static(get_filezilla_link(FilezillaType::Client)),
            Programming::FileZilla(FilezillaType::Server) => ResolutionRule::Static(get_filezilla_link(FilezillaType::Server)),
            Programming::GithubDesktop => ResolutionRule::Static(get_github_desktop_link()),
            Programming::EclipseIDE => ResolutionRule::Scraped(PageScraper::EclipseIde),
            Programming::FiddlerClassic => ResolutionRule::Static(get_fiddler_classic_link()),
            Programming::FiddlerEverywhere => ResolutionRule::Static(get_fiddler_everywhere_link()),
            Programming::Kubernetes => ResolutionRule::Scraped(PageScraper::Kubernetes),
            Programming::MongoDB => ResolutionRule::Scraped(PageScraper::MongoDb),
            Programming::MySQLWorkbench => ResolutionRule::Static(get_mysql_workbench_link()),
            Programming::Nmap => ResolutionRule::Scraped(PageScraper::Nmap),
            Programming::NodeJS => ResolutionRule::Static(get_nodejs_link()),
            Programming::NotepadPlusPlus => ResolutionRule::Scraped(PageScraper::NotepadPlusPlus),
            Programming::Npcap => ResolutionRule::Scraped(PageScraper::Npcap),
            Programming::Ollama => ResolutionRule::Static(get_ollama_link()),
            Programming::OracleVirtualBox => ResolutionRule::Scraped(PageScraper::OracleVirtualBox),
            Programming::OracleVirtualBoxExtPack => ResolutionRule::Scraped(PageScraper::OracleVBoxExtPack),
            Programming::OWASPZAP => ResolutionRule::Scraped(PageScraper::OwaspZap),
            Programming::PostgreSQL => ResolutionRule::Scraped(PageScraper::PostgreSql),
            Programming::Postman => ResolutionRule::Static(get_postman_link()),
            Programming::Python2_7_18 => ResolutionRule::Static(get_python2_7_18_link()),
            Programming::Python3_8_10 => ResolutionRule::Static(get_python3_8_10_link()),
            Programming::Python3_9_10 => ResolutionRule::Static(get_python3_9_10_link()),
            Programming::Python3_10_10 => ResolutionRule::Static(get_python3_10_10_link()),
            Programming::Python3_11_10 => ResolutionRule::Static(get_python3_11_10_link()),
            Programming::Python3_12_9 => ResolutionRule::Static(get_python3_12_9_link()),
            Programming::Python3_13_2 => ResolutionRule::Static(get_python3_13_2_link()),
            Programming::PuTTY => ResolutionRule::Scraped(PageScraper::PuTTY),
            Programming::SublimeText => ResolutionRule::Scraped(PageScraper::SublimeText),
            Programming::UTM => ResolutionRule::Static(get_utm_link()),
            Programming::VisualStudio => ResolutionRule::Static(get_visual_studio_link()),
            Programming::VisualStudioCode => ResolutionRule::Static(get_vscode_link()),
            Programming::VSCodium => ResolutionRule::Scraped(PageScraper::VSCodium),
            Programming::WebStorm => ResolutionRule::Static(get_webstorm_link()),
            Programming::WinGet => ResolutionRule::Static(get_winget_link()),
            Programming::WireShark => ResolutionRule::Scraped(PageScraper::WireShark),
            Programming::XAMPP => ResolutionRule::Scraped(PageScraper::Xampp),
        }
    }

    /// Resolves this title; `page` is its fetched source page where its rule reads one.
    pub fn get_link(&self, page: Option<&str>) -> (r: ResolvedLink)
        ensures
            r@ == resolution(title_rule(KeyType::Programming(*self)), opt_page(page)),
    {
        self.rule().resolve(page)
    }
}

impl Utility {
    /// The rule that resolves this title.
    pub fn rule(&self) -> (r: ResolutionRule)
        ensures
            r@ == title_rule(KeyType::Utility(*self)),
    {
        match self {
            Utility::SevenZip => ResolutionRule::Scraped(PageScraper::SevenZip),
            Utility::Audacious => ResolutionRule::Scraped(PageScraper::Audacious),
            Utility::LibreOffice => ResolutionRule::Scraped(PageScraper::LibreOffice),
            Utility::ModernCSV => ResolutionRule::Static(get_modern_csv_link()),
            Utility::NoMacs => ResolutionRule::Static(get_nomacs_link()),
            Utility::Okular => ResolutionRule::Scraped(PageScraper::Okular),
            Utility::Rufus => ResolutionRule::Scraped(PageScraper::Rufus),
            Utility::VLC => ResolutionRule::Scraped(PageScraper::Vlc),
            Utility::WinRAR => ResolutionRule::Scraped(PageScraper::WinRar),
        }
    }

    /// Resolves this title; `page` is its fetched source page where its rule reads one.
    pub fn get_link(&self, page: Option<&str>) -> (r: ResolvedLink)
        ensures
            r@ == resolution(title_rule(KeyType::Utility(*self)), opt_page(page)),
    {
        self.rule().resolve(page)
    }
}

impl KeyType {
    /// The rule that resolves this title.
    pub fn rule(&self) -> (r: ResolutionRule)
        ensures
            r@ == title_rule(*self),
    {
        match self {
            KeyType::Browser(b) => b.rule(),
            KeyType::Gaming(g) => g.rule(),
            KeyType::Programming(p) => p.rule(),
            KeyType::Utility(u) => u.rule(),
        }
    }

    /// Resolves this title; `page` is its fetched source page where its rule reads one.
    pub fn get_download_link(&self, page: Option<&str>) -> (r: ResolvedLink)
        ensures
            r@ == resolution(title_rule(*self), opt_page(page)),
    {
        match self {
            KeyType::Browser(b) => b.get_link(page),
            KeyType::Gaming(g) => g.get_link(page),
            KeyType::Programming(p) => p.get_link(page),
            KeyType::Utility(u) => u.get_link(page),
        }
    }
}

} // verus!
