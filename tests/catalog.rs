use win_stall_buddy::catalog::{
    map_config_key_to_function_name, Browser, FilezillaType, Gaming, KeyType, PageScraper,
    Programming, ResolutionRule, ResolvedLink, Utility,
};
use win_stall_buddy::delegate::{classify_delegate_error, delegate_target, DelegateFailure};
use win_stall_buddy::links::{
    _get_amd_autodetect_link_old,
    _get_roblox_launcher_link_old,
    get_amd_autodetect_link,
    get_android_studio_link,
    get_azure_link,
    get_battlenet_link,
    get_bluestacks_link,
    get_chrome_link,
    get_chromium_link,
    get_cpuz_link,
    get_curseforge_link,
    get_docker_desktop_link,
    get_edge_link,
    get_epic_games_link,
    get_fiddler_classic_link,
    get_fiddler_everywhere_link,
    get_filezilla_link,
    get_firefox_link,
    get_github_desktop_link,
    get_gpuz_link,
    get_hwinfo_link,
    get_hwmonitor_link,
    get_modern_csv_link,
    get_msi_afterburner_link,
    get_mysql_workbench_link,
    get_nodejs_link,
    get_nomacs_link,
    get_nvda_app_link,
    get_ollama_link,
    get_opera_link,
    get_operagx_link,
    get_palemoon_link,
    get_parsec_link,
    get_pingplotter_link,
    get_postman_link,
    get_process_lasso_link,
    get_python2_7_18_link,
    get_python3_10_10_link,
    get_python3_11_10_link,
    get_python3_12_9_link,
    get_python3_13_2_link,
    get_python3_8_10_link,
    get_python3_9_10_link,
    get_razer_cortex_link,
    get_reshade_link,
    get_roblox_launcher_link,
    get_rockstar_launcher_link,
    get_steam_link,
    get_streamlabs_obs_link,
    get_utm_link,
    get_visual_studio_link,
    get_vivaldi_link,
    get_vscode_link,
    get_webstorm_link,
    get_winget_link,
    get_wtfast_link,
};

#[test]
fn every_identifier_finds_its_title() {
    assert_eq!(map_config_key_to_function_name("Brave"), Some(KeyType::Browser(Browser::Brave)));
    assert_eq!(map_config_key_to_function_name("Chrome"), Some(KeyType::Browser(Browser::Chrome)));
    assert_eq!(map_config_key_to_function_name("Chromium"), Some(KeyType::Browser(Browser::Chromium)));
    assert_eq!(map_config_key_to_function_name("Edge"), Some(KeyType::Browser(Browser::Edge)));
    assert_eq!(map_config_key_to_function_name("Firefox"), Some(KeyType::Browser(Browser::Firefox)));
    assert_eq!(map_config_key_to_function_name("Librewolf"), Some(KeyType::Browser(Browser::Librewolf)));
    assert_eq!(map_config_key_to_function_name("Opera"), Some(KeyType::Browser(Browser::Opera)));
    assert_eq!(map_config_key_to_function_name("OperaGX"), Some(KeyType::Browser(Browser::OperaGX)));
    assert_eq!(map_config_key_to_function_name("PaleMoon"), Some(KeyType::Browser(Browser::PaleMoon)));
    assert_eq!(map_config_key_to_function_name("Seamonkey-Experimental"), Some(KeyType::Browser(Browser::SeaMonkey)));
    assert_eq!(map_config_key_to_function_name("Tor"), Some(KeyType::Browser(Browser::Tor)));
    assert_eq!(map_config_key_to_function_name("Vivaldi-Experimental"), Some(KeyType::Browser(Browser::Vivaldi)));
    assert_eq!(map_config_key_to_function_name("Waterfox"), Some(KeyType::Browser(Browser::Waterfox)));
    assert_eq!(map_config_key_to_function_name("AMDAutoDetect"), Some(KeyType::Gaming(Gaming::AMDAutoDetect)));
    assert_eq!(map_config_key_to_function_name("BattleNetLauncher"), Some(KeyType::Gaming(Gaming::BattleNetLauncher)));
    assert_eq!(map_config_key_to_function_name("BluestacksEmulator"), Some(KeyType::Gaming(Gaming::BluestacksEmulator)));
    assert_eq!(map_config_key_to_function_name("CPUZ"), Some(KeyType::Gaming(Gaming::CPUZ)));
    assert_eq!(map_config_key_to_function_name("CurseForge"), Some(KeyType::Gaming(Gaming::CurseForge)));
    assert_eq!(map_config_key_to_function_name("EpicGamesLauncher"), Some(KeyType::Gaming(Gaming::EpicGamesLauncher)));
    assert_eq!(map_config_key_to_function_name("GPUZ"), Some(KeyType::Gaming(Gaming::GPUZ)));
    assert_eq!(map_config_key_to_function_name("HWiNFO"), Some(KeyType::Gaming(Gaming::HWiNFO)));
    assert_eq!(map_config_key_to_function_name("HWMonitor"), Some(KeyType::Gaming(Gaming::HWMonitor)));
    assert_eq!(map_config_key_to_function_name("MSIAfterburner"), Some(KeyType::Gaming(Gaming::MSIAfterburner)));
    assert_eq!(map_config_key_to_function_name("NvidiaApp"), Some(KeyType::Gaming(Gaming::NvidiaApp)));
    assert_eq!(map_config_key_to_function_name("OBSStudio"), Some(KeyType::Gaming(Gaming::OBSStudio)));
    assert_eq!(map_config_key_to_function_name("Parsec"), Some(KeyType::Gaming(Gaming::Parsec)));
    assert_eq!(map_config_key_to_function_name("PingPlotter"), Some(KeyType::Gaming(Gaming::PingPlotter)));
    assert_eq!(map_config_key_to_function_name("ProcessLasso"), Some(KeyType::Gaming(Gaming::ProcessLasso)));
    assert_eq!(map_config_key_to_function_name("RazerCortex"), Some(KeyType::Gaming(Gaming::RazerCortex)));
    assert_eq!(map_config_key_to_function_name("Reshade"), Some(KeyType::Gaming(Gaming::Reshade)));
    assert_eq!(map_config_key_to_function_name("RockstarLauncher"), Some(KeyType::Gaming(Gaming::RockstarLauncher)));
    assert_eq!(map_config_key_to_function_name("RobloxLauncher"), Some(KeyType::Gaming(Gaming::RobloxLauncher)));
    assert_eq!(map_config_key_to_function_name("StreamlabsOBS"), Some(KeyType::Gaming(Gaming::StreamlabsOBS)));
    assert_eq!(map_config_key_to_function_name("SteamLauncher"), Some(KeyType::Gaming(Gaming::SteamLauncher)));
    assert_eq!(map_config_key_to_function_name("WTFast"), Some(KeyType::Gaming(Gaming::WTFast)));
    assert_eq!(map_config_key_to_function_name("AndroidStudio"), Some(KeyType::Programming(Programming::AndroidStudio)));
    assert_eq!(map_config_key_to_function_name("AzureDataStudio"), Some(KeyType::Programming(Programming::AzureDataStudio)));
    assert_eq!(map_config_key_to_function_name("BurpSuite"), Some(KeyType::Programming(Programming::BurpSuite)));
    assert_eq!(map_config_key_to_function_name("DockerDesktop"), Some(KeyType::Programming(Programming::DockerDesktop)));
    assert_eq!(map_config_key_to_function_name("FileZillaClient"), Some(KeyType::Programming(Programming::FileZilla(FilezillaType::Client))));
    assert_eq!(map_config_key_to_function_name("FileZillaServer"), Some(KeyType::Programming(Programming::FileZilla(FilezillaType::Server))));
    assert_eq!(map_config_key_to_function_name("GithubDesktop"), Some(KeyType::Programming(Programming::GithubDesktop)));
    assert_eq!(map_config_key_to_function_name("EclipseIDE"), Some(KeyType::Programming(Programming::EclipseIDE)));
    assert_eq!(map_config_key_to_function_name("FiddlerClassic"), Some(KeyType::Programming(Programming::FiddlerClassic)));
    assert_eq!(map_config_key_to_function_name("FiddlerEverywhere"), Some(KeyType::Programming(Programming::FiddlerEverywhere)));
    assert_eq!(map_config_key_to_function_name("Kubernetes"), Some(KeyType::Programming(Programming::Kubernetes)));
    assert_eq!(map_config_key_to_function_name("MongoDB"), Some(KeyType::Programming(Programming::MongoDB)));
    assert_eq!(map_config_key_to_function_name("MySQLWorkbench"), Some(KeyType::Programming(Programming::MySQLWorkbench)));
    assert_eq!(map_config_key_to_function_name("Nmap"), Some(KeyType::Programming(Programming::Nmap)));
    assert_eq!(map_config_key_to_function_name("NodeJS"), Some(KeyType::Programming(Programming::NodeJS)));
    assert_eq!(map_config_key_to_function_name("NotepadPlusPlus"), Some(KeyType::Programming(Programming::NotepadPlusPlus)));
    assert_eq!(map_config_key_to_function_name("Npcap"), Some(KeyType::Programming(Programming::Npcap)));
    assert_eq!(map_config_key_to_function_name("Ollama"), Some(KeyType::Programming(Programming::Ollama)));
    assert_eq!(map_config_key_to_function_name("OracleVirtualBox"), Some(KeyType::Programming(Programming::OracleVirtualBox)));
    assert_eq!(map_config_key_to_function_name("OracleVirtualBoxExtPack"), Some(KeyType::Programming(Programming::OracleVirtualBoxExtPack)));
    assert_eq!(map_config_key_to_function_name("OWASPZAP"), Some(KeyType::Programming(Programming::OWASPZAP)));
    assert_eq!(map_config_key_to_function_name("PostgreSQL"), Some(KeyType::Programming(Programming::PostgreSQL)));
    assert_eq!(map_config_key_to_function_name("Postman"), Some(KeyType::Programming(Programming::Postman)));
    assert_eq!(map_config_key_to_function_name("Python2_7_18"), Some(KeyType::Programming(Programming::Python2_7_18)));
    assert_eq!(map_config_key_to_function_name("Python3_8_10"), Some(KeyType::Programming(Programming::Python3_8_10)));
    assert_eq!(map_config_key_to_function_name("Python3_9_10"), Some(KeyType::Programming(Programming::Python3_9_10)));
    assert_eq!(map_config_key_to_function_name("Python3_10_10"), Some(KeyType::Programming(Programming::Python3_10_10)));
    assert_eq!(map_config_key_to_function_name("Python3_11_10"), Some(KeyType::Programming(Programming::Python3_11_10)));
    assert_eq!(map_config_key_to_function_name("Python3_12_9"), Some(KeyType::Programming(Programming::Python3_12_9)));
    assert_eq!(map_config_key_to_function_name("Python3_13_2"), Some(KeyType::Programming(Programming::Python3_13_2)));
    assert_eq!(map_config_key_to_function_name("PuTTY"), Some(KeyType::Programming(Programming::PuTTY)));
    assert_eq!(map_config_key_to_function_name("SublimeText"), Some(KeyType::Programming(Programming::SublimeText)));
    assert_eq!(map_config_key_to_function_name("UTM"), Some(KeyType::Programming(Programming::UTM)));
    assert_eq!(map_config_key_to_function_name("VisualStudio"), Some(KeyType::Programming(Programming::VisualStudio)));
    assert_eq!(map_config_key_to_function_name("VisualStudioCode"), Some(KeyType::Programming(Programming::VisualStudioCode)));
    assert_eq!(map_config_key_to_function_name("VSCodium"), Some(KeyType::Programming(Programming::VSCodium)));
    assert_eq!(map_config_key_to_function_name("WebStorm"), Some(KeyType::Programming(Programming::WebStorm)));
    assert_eq!(map_config_key_to_function_name("WinGet"), Some(KeyType::Programming(Programming::WinGet)));
    assert_eq!(map_config_key_to_function_name("WireShark"), Some(KeyType::Programming(Programming::WireShark)));
    assert_eq!(map_config_key_to_function_name("XAMPP"), Some(KeyType::Programming(Programming::XAMPP)));
    assert_eq!(map_config_key_to_function_name("7Zip"), Some(KeyType::Utility(Utility::SevenZip)));
    assert_eq!(map_config_key_to_function_name("Audacious"), Some(KeyType::Utility(Utility::Audacious)));
    assert_eq!(map_config_key_to_function_name("LibreOffice"), Some(KeyType::Utility(Utility::LibreOffice)));
    assert_eq!(map_config_key_to_function_name("ModernCSV"), Some(KeyType::Utility(Utility::ModernCSV)));
    assert_eq!(map_config_key_to_function_name("NoMacs"), Some(KeyType::Utility(Utility::NoMacs)));
    assert_eq!(map_config_key_to_function_name("Okular"), Some(KeyType::Utility(Utility::Okular)));
    assert_eq!(map_config_key_to_function_name("Rufus"), Some(KeyType::Utility(Utility::Rufus)));
    assert_eq!(map_config_key_to_function_name("VLC"), Some(KeyType::Utility(Utility::VLC)));
    assert_eq!(map_config_key_to_function_name("WinRAR"), Some(KeyType::Utility(Utility::WinRAR)));
}

#[test]
fn lookup_is_deterministic() {
    for key in ["Brave", "OBSStudio", "FileZillaServer", "7Zip", "Python3_12_9"] {
        assert_eq!(
            map_config_key_to_function_name(key),
            map_config_key_to_function_name(key)
        );
    }
}

#[test]
fn unknown_identifiers_are_rejected() {
    assert_eq!(map_config_key_to_function_name("NotATitle"), None);
    assert_eq!(map_config_key_to_function_name(""), None);
    assert_eq!(map_config_key_to_function_name("brave"), None);
    // names of titles that the catalog does not carry
    assert_eq!(map_config_key_to_function_name("Librefox"), None);
    assert_eq!(map_config_key_to_function_name("ItchIoLauncher"), None);
    assert_eq!(map_config_key_to_function_name("NexusManager"), None);
}

#[test]
fn static_links() {
    assert_eq!(get_chrome_link(), "https://dl.google.com/chrome/install/ChromeStandaloneSetup64.exe");
    assert_eq!(get_chromium_link(), "https://download-chromium.appspot.com/dl/Win_x64?type=snapshots");
    assert_eq!(get_edge_link(), "https://msedge.sf.dl.delivery.mp.microsoft.com/filestreamingservice/files/f9137856-3c6a-4a53-8a62-6c3b539149b0/MicrosoftEdgeEnterpriseX64.msi");
    assert_eq!(get_firefox_link(), "https://download.mozilla.org/?product=firefox-stub&os=win&lang=en-US");
    assert_eq!(get_opera_link(), "https://net.geo.opera.com/opera/stable/windows");
    assert_eq!(get_operagx_link(), "https://net.geo.opera.com/opera_gx/stable/windows");
    assert_eq!(get_palemoon_link(), "https://www.palemoon.org/download.php?mirror=us&bits=64&type=installer");
    assert_eq!(get_battlenet_link(), "https://downloader.battle.net/download/getInstaller?os=win&installer=Battle.net-Setup.exe");
    assert_eq!(get_bluestacks_link(), "https://cloud.bluestacks.com/api/getdownloadnow?platform=win&win_version=10&bluestacks_version=bs5");
    assert_eq!(get_cpuz_link(), "https://www.cpuid.com/downloads/cpu-z/cpu-z_2.15-en.exe");
    assert_eq!(get_curseforge_link(), "https://download.overwolf.com/install/Download?ExtensionId=cfiahnpaolfnlgaihhmobmnjdafknjnjdpdabpcm");
    assert_eq!(get_epic_games_link(), "https://launcher-public-service-prod06.ol.epicgames.com/launcher/api/installer/download/EpicGamesLauncherInstaller.msi");
    assert_eq!(get_gpuz_link(), "https://us9-dl.techpowerup.com/files/kv4QONlJeD527EtQMrtjYQ/1743512769/GPU-Z.2.64.0.exe");
    assert_eq!(get_hwinfo_link(), "https://www.hwinfo.com/files/hwi64_822.exe");
    assert_eq!(get_hwmonitor_link(), "https://www.cpuid.com/downloads/hwmonitor/hwmonitor_1.56.exe");
    assert_eq!(get_msi_afterburner_link(), "https://www.guru3d.com/getdownload/2c1b2414f56a6594ffef91236a87c0e976d52e0518b43f3846bab016c2f20c7c4d6ce7dfe1991cc241d59b5c8cb07e5018b083a5902ac6c67fbe3b852ca022b0f73541638028a2d270eb576309b5208d7642bced763e8806fd9c5a9bca00d71e03e3f895d9924372aebbd01f8d3b8f4f270059bd6d5516b53f1cebbb3340fa764f68932d48b5bb538878337e2e92244ec842c6bc8fbe77fb2097b27ac094473cbbffdfdca7be83b46c55febb094e360b65a50d97cc2f5ebe7b2f727003a739d719662666b53ff47a62585c6739");
    assert_eq!(get_nvda_app_link(), "https://us.download.nvidia.com/nvapp/client/11.0.3.213/NVIDIA_app_beta_v11.0.3.213.exe");
    assert_eq!(get_parsec_link(), "https://builds.parsec.app/package/parsec-windows.exe");
    assert_eq!(get_pingplotter_link(), "https://www.pingplotter.com/downloads/pingplotter_install.exe");
    assert_eq!(get_process_lasso_link(), "https://dl.bitsum.com/files/processlassosetup64.exe");
    assert_eq!(get_razer_cortex_link(), "https://dl.razerzone.com/drivers/GameBooster/RazerCortexInstaller.exe");
    assert_eq!(get_reshade_link(), "https://reshade.me/downloads/ReShade_Setup_6.4.1.exe");
    assert_eq!(get_rockstar_launcher_link(), "https://gamedownloads.rockstargames.com/public/installer/Rockstar-Games-Launcher.exe");
    assert_eq!(get_streamlabs_obs_link(), "https://streamlabs.com/streamlabs-desktop/download");
    assert_eq!(get_steam_link(), "https://cdn.fastly.steamstatic.com/client/installer/SteamSetup.exe");
    assert_eq!(get_wtfast_link(), "https://download.wtfast.com/product/wtfast/");
    assert_eq!(get_android_studio_link(), "https://redirector.gvt1.com/edgedl/android/studio/install/2024.3.1.14/android-studio-2024.3.1.14-windows.exe");
    assert_eq!(get_azure_link(), "https://go.microsoft.com/fwlink/?linkid=2302007");
    assert_eq!(get_docker_desktop_link(), "https://desktop.docker.com/win/main/amd64/Docker%20Desktop%20Installer.exe");
    assert_eq!(get_github_desktop_link(), "https://central.github.com/deployments/desktop/desktop/latest/win32");
    assert_eq!(get_fiddler_classic_link(), "https://downloads.getfiddler.com/fiddler-classic/FiddlerSetup.5.0.20251.1171-latest.exe");
    assert_eq!(get_fiddler_everywhere_link(), "https://downloads.getfiddler.com/win/Fiddler%20Everywhere%206.3.0.exe");
    assert_eq!(get_mysql_workbench_link(), "https://dev.mysql.com/downloads/file/?id=536668");
    assert_eq!(get_nodejs_link(), "https://nodejs.org/download/release/latest/win-x64/node.exe");
    assert_eq!(get_ollama_link(), "https://ollama.com/download/OllamaSetup.exe");
    assert_eq!(get_postman_link(), "https://dl.pstmn.io/download/latest/win64");
    assert_eq!(get_python2_7_18_link(), "https://www.python.org/ftp/python/2.7.18/python-2.7.18.amd64.msi");
    assert_eq!(get_python3_8_10_link(), "https://www.python.org/ftp/python/3.8.10/python-3.8.10-amd64.exe");
    assert_eq!(get_python3_9_10_link(), "https://www.python.org/ftp/python/3.9.10/python-3.9.10-amd64.exe");
    assert_eq!(get_python3_10_10_link(), "https://www.python.org/ftp/python/3.10.10/python-3.10.10-amd64.exe");
    assert_eq!(get_python3_11_10_link(), "https://www.python.org/ftp/python/3.11.10/python-3.11.10-amd64.exe");
    assert_eq!(get_python3_12_9_link(), "https://www.python.org/ftp/python/3.12.9/python-3.12.9-amd64.exe");
    assert_eq!(get_python3_13_2_link(), "https://www.python.org/ftp/python/3.13.2/python-3.13.2-amd64.exe");
    assert_eq!(get_utm_link(), "https://getutm.app/downloads/utm-guest-tools-latest.iso");
    assert_eq!(get_visual_studio_link(), "https://c2rsetup.officeapps.live.com/c2r/downloadVS.aspx?sku=community&channel=Release&version=VS2022&source=VSLandingPage&cid=2030");
    assert_eq!(get_vscode_link(), "https://code.visualstudio.com/sha/download?build=stable&os=win32-x64");
    assert_eq!(get_webstorm_link(), "https://download.jetbrains.com/webstorm/WebStorm-2024.3.5.exe");
    assert_eq!(get_winget_link(), "https://aka.ms/getwingetpreview");
    assert_eq!(get_modern_csv_link(), "https://www.moderncsv.com/download-windows");
    assert_eq!(get_nomacs_link(), "https://github.com/nomacs/nomacs/releases/latest/download/nomacs-setup-x64.msi");
    assert_eq!(
        get_filezilla_link(FilezillaType::Client),
        "https://download.filezilla-project.org/client/FileZilla_3.68.1_win64_sponsored2-setup.exe"
    );
    assert_eq!(
        get_filezilla_link(FilezillaType::Server),
        "https://dl3.cdn.filezilla-project.org/server/FileZilla_Server_1.9.4_win64-setup.exe?h=Tkmnw8TQh-e_FicKR3lm4Q&x=1742954205"
    );
}

#[test]
fn former_fixed_links() {
    assert_eq!(
        _get_amd_autodetect_link_old(),
        "https://drivers.amd.com/drivers/installer/24.30/whql/amd-software-adrenalin-edition-25.3.1-minimalsetup-250312_web.exe"
    );
    assert_eq!(
        _get_roblox_launcher_link_old(),
        "https://www.roblox.com/download/client?os=win"
    );
}

#[test]
fn delegate_markers() {
    assert_eq!(get_vivaldi_link(), "DU_CLI.exe download Vivaldi");
    assert_eq!(get_amd_autodetect_link(), "DU_CLI.exe download AMD");
    assert_eq!(get_roblox_launcher_link(), "DU_CLI.exe download Roblox");
    assert_eq!(delegate_target(&get_vivaldi_link()), Some("Vivaldi".to_string()));
    assert_eq!(delegate_target("DU_CLI.exe download"), None);
    assert_eq!(delegate_target("DU_CLI.exe download two words"), None);
    assert_eq!(delegate_target("https://example.com/a b c"), None);
}

#[test]
fn static_rule_resolves_the_same_every_time() {
    let title = KeyType::Browser(Browser::Chrome);
    let first = title.get_download_link(None);
    let second = title.get_download_link(Some("<html>anything</html>"));
    assert_eq!(first, second);
    assert_eq!(first, ResolvedLink::Url(get_chrome_link()));
}

#[test]
fn delegated_rules() {
    assert_eq!(
        KeyType::Browser(Browser::Vivaldi).get_download_link(None),
        ResolvedLink::Delegate("Vivaldi".to_string())
    );
    assert_eq!(
        Gaming::RobloxLauncher.get_link(None),
        ResolvedLink::Delegate("Roblox".to_string())
    );
    assert_eq!(
        Gaming::AMDAutoDetect.get_link(Some("ignored")),
        ResolvedLink::Delegate("AMD".to_string())
    );
}

#[test]
fn scraped_rule_without_page_is_not_found() {
    assert_eq!(Browser::Brave.get_link(None), ResolvedLink::NotFound);
    assert_eq!(Utility::VLC.get_link(None), ResolvedLink::NotFound);
    assert_eq!(
        Programming::Kubernetes.get_link(Some("")),
        ResolvedLink::NotFound
    );
}

#[test]
fn scraped_rule_with_page_resolves() {
    assert_eq!(
        Programming::Kubernetes.get_link(Some("v1.33.1")),
        ResolvedLink::Url(
            "https://dl.k8s.io/release/v1.33.1/bin/windows/amd64/kubectl.exe".to_string()
        )
    );
    let page = r#"<html><body><span class="ml-1">v1.80.0</span></body></html>"#;
    assert_eq!(
        KeyType::Browser(Browser::Brave).get_download_link(Some(page)),
        ResolvedLink::Url(
            "https://github.com/brave/brave-browser/releases/download/v1.80.0/BraveBrowserSetup.exe"
                .to_string()
        )
    );
}

#[test]
fn rules_by_kind() {
    assert!(matches!(
        KeyType::Utility(Utility::ModernCSV).rule(),
        ResolutionRule::Static(_)
    ));
    assert!(matches!(
        KeyType::Utility(Utility::WinRAR).rule(),
        ResolutionRule::Scraped(PageScraper::WinRar)
    ));
    assert!(matches!(
        KeyType::Programming(Programming::FileZilla(FilezillaType::Client)).rule(),
        ResolutionRule::Static(_)
    ));
    assert_eq!(
        PageScraper::Kubernetes.source_url(),
        "https://dl.k8s.io/release/stable.txt"
    );
    assert_eq!(
        PageScraper::Npcap.source_url(),
        PageScraper::Nmap.source_url()
    );
}

#[test]
fn delegate_error_classes() {
    assert_eq!(
        classify_delegate_error(Some(101), false, ""),
        DelegateFailure::MissingExecutable
    );
    assert_eq!(
        classify_delegate_error(Some(216), false, ""),
        DelegateFailure::WrongArchitecture
    );
    assert_eq!(
        classify_delegate_error(Some(5), true, ""),
        DelegateFailure::Unexpected
    );
    assert_eq!(
        classify_delegate_error(None, true, "not found"),
        DelegateFailure::MissingExecutable
    );
    assert_eq!(
        classify_delegate_error(
            None,
            false,
            "This app can't run. Check your computer's system information and then contact the software publisher."
        ),
        DelegateFailure::WrongArchitecture
    );
    assert_eq!(
        classify_delegate_error(None, false, "access denied"),
        DelegateFailure::Unexpected
    );
}
