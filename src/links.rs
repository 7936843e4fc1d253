//! The fixed links of the catalog: installers served from a stable URL, and the markers that
//! hand a title to the external delegate.
use vstd::prelude::*;
use crate::catalog::FilezillaType;
use crate::text::join2;

verus! {

pub const CHROME_LINK: &'static str = "https://dl.google.com/chrome/install/ChromeStandaloneSetup64.exe";

/// The fixed installer link for Chrome.
pub fn get_chrome_link() -> (r: String)
    ensures
        r@ == CHROME_LINK@,
{
    CHROME_LINK.to_owned()
}

pub const CHROMIUM_LINK: &'static str = "https://download-chromium.appspot.com/dl/Win_x64?type=snapshots";

/// The fixed installer link for Chromium.
pub fn get_chromium_link() -> (r: String)
    ensures
        r@ == CHROMIUM_LINK@,
{
    CHROMIUM_LINK.to_owned()
}

pub const EDGE_LINK: &'static str = "https://msedge.sf.dl.delivery.mp.microsoft.com/filestreamingservice/files/f9137856-3c6a-4a53-8a62-6c3b539149b0/MicrosoftEdgeEnterpriseX64.msi";

/// The fixed installer link for Edge.
pub fn get_edge_link() -> (r: String)
    ensures
        r@ == EDGE_LINK@,
{
    EDGE_LINK.to_owned()
}

pub const FIREFOX_LINK: &'static str = "https://download.mozilla.org/?product=firefox-stub&os=win&lang=en-US";

/// The fixed installer link for Firefox.
pub fn get_firefox_link() -> (r: String)
    ensures
        r@ == FIREFOX_LINK@,
{
    FIREFOX_LINK.to_owned()
}

pub const OPERA_LINK: &'static str = "https://net.geo.opera.com/opera/stable/windows";

/// The fixed installer link for Opera.
pub fn get_opera_link() -> (r: String)
    ensures
        r@ == OPERA_LINK@,
{
    OPERA_LINK.to_owned()
}

pub const OPERA_GX_LINK: &'static str = "https://net.geo.opera.com/opera_gx/stable/windows";

/// The fixed installer link for OperaGX.
pub fn get_operagx_link() -> (r: String)
    ensures
        r@ == OPERA_GX_LINK@,
{
    OPERA_GX_LINK.to_owned()
}

pub const PALE_MOON_LINK: &'static str = "https://www.palemoon.org/download.php?mirror=us&bits=64&type=installer";

/// The fixed installer link for PaleMoon.
pub fn get_palemoon_link() -> (r: String)
    ensures
        r@ == PALE_MOON_LINK@,
{
    PALE_MOON_LINK.to_owned()
}

pub const BATTLE_NET_LINK: &'static str = "https://downloader.battle.net/download/getInstaller?os=win&installer=Battle.net-Setup.exe";

/// The fixed installer link for BattleNetLauncher.
pub fn get_battlenet_link() -> (r: String)
    ensures
        r@ == BATTLE_NET_LINK@,
{
    BATTLE_NET_LINK.to_owned()
}

pub const BLUESTACKS_LINK: &'static str = "https://cloud.bluestacks.com/api/getdownloadnow?platform=win&win_version=10&bluestacks_version=bs5";

/// The fixed installer link for BluestacksEmulator.
pub fn get_bluestacks_link() -> (r: String)
    ensures
        r@ == BLUESTACKS_LINK@,
{
    BLUESTACKS_LINK.to_owned()
}

pub const CPU_Z_LINK: &'static str = "https://www.cpuid.com/downloads/cpu-z/cpu-z_2.15-en.exe";

/// The fixed installer link for CPUZ.
pub fn get_cpuz_link() -> (r: String)
    ensures
        r@ == CPU_Z_LINK@,
{
    CPU_Z_LINK.to_owned()
}

pub const CURSE_FORGE_LINK: &'static str = "https://download.overwolf.com/install/Download?ExtensionId=cfiahnpaolfnlgaihhmobmnjdafknjnjdpdabpcm";

/// The fixed installer link for CurseForge.
pub fn get_curseforge_link() -> (r: String)
    ensures
        r@ == CURSE_FORGE_LINK@,
{
    CURSE_FORGE_LINK.to_owned()
}

pub const EPIC_GAMES_LINK: &'static str = "https://launcher-public-service-prod06.ol.epicgames.com/launcher/api/installer/download/EpicGamesLauncherInstaller.msi";

/// The fixed installer link for EpicGamesLauncher.
pub fn get_epic_games_link() -> (r: String)
    ensures
        r@ == EPIC_GAMES_LINK@,
{
    EPIC_GAMES_LINK.to_owned()
}

pub const GPU_Z_LINK: &'static str = "https://us9-dl.techpowerup.com/files/kv4QONlJeD527EtQMrtjYQ/1743512769/GPU-Z.2.64.0.exe";

/// The fixed installer link for GPUZ.
pub fn get_gpuz_link() -> (r: String)
    ensures
        r@ == GPU_Z_LINK@,
{
    GPU_Z_LINK.to_owned()
}

pub const HWINFO_LINK: &'static str = "https://www.hwinfo.com/files/hwi64_822.exe";

/// The fixed installer link for HWiNFO.
pub fn get_hwinfo_link() -> (r: String)
    ensures
        r@ == HWINFO_LINK@,
{
    HWINFO_LINK.to_owned()
}

pub const HWMONITOR_LINK: &'static str = "https://www.cpuid.com/downloads/hwmonitor/hwmonitor_1.56.exe";

/// The fixed installer link for HWMonitor.
pub fn get_hwmonitor_link() -> (r: String)
    ensures
        r@ == HWMONITOR_LINK@,
{
    HWMONITOR_LINK.to_owned()
}

pub const MSI_AFTERBURNER_LINK: &'static str = "https://www.guru3d.com/getdownload/2c1b2414f56a6594ffef91236a87c0e976d52e0518b43f3846bab016c2f20c7c4d6ce7dfe1991cc241d59b5c8cb07e5018b083a5902ac6c67fbe3b852ca022b0f73541638028a2d270eb576309b5208d7642bced763e8806fd9c5a9bca00d71e03e3f895d9924372aebbd01f8d3b8f4f270059bd6d5516b53f1cebbb3340fa764f68932d48b5bb538878337e2e92244ec842c6bc8fbe77fb2097b27ac094473cbbffdfdca7be83b46c55febb094e360b65a50d97cc2f5ebe7b2f727003a739d719662666b53ff47a62585c6739";

/// The fixed installer link for MSIAfterburner.
pub fn get_msi_afterburner_link() -> (r: String)
    ensures
        r@ == MSI_AFTERBURNER_LINK@,
{
    MSI_AFTERBURNER_LINK.to_owned()
}

pub const NVIDIA_APP_LINK: &'static str = "https://us.download.nvidia.com/nvapp/client/11.0.3.213/NVIDIA_app_beta_v11.0.3.213.exe";

/// The fixed installer link for NvidiaApp.
pub fn get_nvda_app_link() -> (r: String)
    ensures
        r@ == NVIDIA_APP_LINK@,
{
    NVIDIA_APP_LINK.to_owned()
}

pub const PARSEC_LINK: &'static str = "https://builds.parsec.app/package/parsec-windows.exe";

/// The fixed installer link for Parsec.
pub fn get_parsec_link() -> (r: String)
    ensures
        r@ == PARSEC_LINK@,
{
    PARSEC_LINK.to_owned()
}

pub const PING_PLOTTER_LINK: &'static str = "https://www.pingplotter.com/downloads/pingplotter_install.exe";

/// The fixed installer link for PingPlotter.
pub fn get_pingplotter_link() -> (r: String)
    ensures
        r@ == PING_PLOTTER_LINK@,
{
    PING_PLOTTER_LINK.to_owned()
}

pub const PROCESS_LASSO_LINK: &'static str = "https://dl.bitsum.com/files/processlassosetup64.exe";

/// The fixed installer link for ProcessLasso.
pub fn get_process_lasso_link() -> (r: String)
    ensures
        r@ == PROCESS_LASSO_LINK@,
{
    PROCESS_LASSO_LINK.to_owned()
}

pub const RAZER_CORTEX_LINK: &'static str = "https://dl.razerzone.com/drivers/GameBooster/RazerCortexInstaller.exe";

/// The fixed installer link for RazerCortex.
pub fn get_razer_cortex_link() -> (r: String)
    ensures
        r@ == RAZER_CORTEX_LINK@,
{
    RAZER_CORTEX_LINK.to_owned()
}

pub const RESHADE_LINK: &'static str = "https://reshade.me/downloads/ReShade_Setup_6.4.1.exe";

/// The fixed installer link for Reshade.
pub fn get_reshade_link() -> (r: String)
    ensures
        r@ == RESHADE_LINK@,
{
    RESHADE_LINK.to_owned()
}

pub const ROCKSTAR_LAUNCHER_LINK: &'static str = "https://gamedownloads.rockstargames.com/public/installer/Rockstar-Games-Launcher.exe";

/// The fixed installer link for RockstarLauncher.
pub fn get_rockstar_launcher_link() -> (r: String)
    ensures
        r@ == ROCKSTAR_LAUNCHER_LINK@,
{
    ROCKSTAR_LAUNCHER_LINK.to_owned()
}

pub const STREAMLABS_OBS_LINK: &'static str = "https://streamlabs.com/streamlabs-desktop/download";

/// The fixed installer link for StreamlabsOBS.
pub fn get_streamlabs_obs_link() -> (r: String)
    ensures
        r@ == STREAMLABS_OBS_LINK@,
{
    STREAMLABS_OBS_LINK.to_owned()
}

pub const STEAM_LINK: &'static str = "https://cdn.fastly.steamstatic.com/client/installer/SteamSetup.exe";

/// The fixed installer link for SteamLauncher.
pub fn get_steam_link() -> (r: String)
    ensures
        r@ == STEAM_LINK@,
{
    STEAM_LINK.to_owned()
}

pub const WTFAST_LINK: &'static str = "https://download.wtfast.com/product/wtfast/";

/// The fixed installer link for WTFast.
pub fn get_wtfast_link() -> (r: String)
    ensures
        r@ == WTFAST_LINK@,
{
    WTFAST_LINK.to_owned()
}

pub const ANDROID_STUDIO_LINK: &'static str = "https://redirector.gvt1.com/edgedl/android/studio/install/2024.3.1.14/android-studio-2024.3.1.14-windows.exe";

/// The fixed installer link for AndroidStudio.
pub fn get_android_studio_link() -> (r: String)
    ensures
        r@ == ANDROID_STUDIO_LINK@,
{
    ANDROID_STUDIO_LINK.to_owned()
}

pub const AZURE_DATA_STUDIO_LINK: &'static str = "https://go.microsoft.com/fwlink/?linkid=2302007";

/// The fixed installer link for AzureDataStudio.
pub fn get_azure_link() -> (r: String)
    ensures
        r@ == AZURE_DATA_STUDIO_LINK@,
{
    AZURE_DATA_STUDIO_LINK.to_owned()
}

pub const DOCKER_DESKTOP_LINK: &'static str = "https://desktop.docker.com/win/main/amd64/Docker%20Desktop%20Installer.exe";

/// The fixed installer link for DockerDesktop.
pub fn get_docker_desktop_link() -> (r: String)
    ensures
        r@ == DOCKER_DESKTOP_LINK@,
{
    DOCKER_DESKTOP_LINK.to_owned()
}

pub const FILEZILLA_CLIENT_LINK: &'static str = "https://download.filezilla-project.org/client/FileZilla_3.68.1_win64_sponsored2-setup.exe";

pub const FILEZILLA_SERVER_LINK: &'static str = "https://dl3.cdn.filezilla-project.org/server/FileZilla_Server_1.9.4_win64-setup.exe?h=Tkmnw8TQh-e_FicKR3lm4Q&x=1742954205";

pub const GITHUB_DESKTOP_LINK: &'static str = "https://central.github.com/deployments/desktop/desktop/latest/win32";

/// The fixed installer link for GithubDesktop.
pub fn get_github_desktop_link() -> (r: String)
    ensures
        r@ == GITHUB_DESKTOP_LINK@,
{
    GITHUB_DESKTOP_LINK.to_owned()
}

pub const FIDDLER_CLASSIC_LINK: &'static str = "https://downloads.getfiddler.com/fiddler-classic/FiddlerSetup.5.0.20251.1171-latest.exe";

/// The fixed installer link for FiddlerClassic.
pub fn get_fiddler_classic_link() -> (r: String)
    ensures
        r@ == FIDDLER_CLASSIC_LINK@,
{
    FIDDLER_CLASSIC_LINK.to_owned()
}

pub const FIDDLER_EVERYWHERE_LINK: &'static str = "https://downloads.getfiddler.com/win/Fiddler%20Everywhere%206.3.0.exe";

/// The fixed installer link for FiddlerEverywhere.
pub fn get_fiddler_everywhere_link() -> (r: String)
    ensures
        r@ == FIDDLER_EVERYWHERE_LINK@,
{
    FIDDLER_EVERYWHERE_LINK.to_owned()
}

pub const MYSQL_WORKBENCH_LINK: &'static str = "https://dev.mysql.com/downloads/file/?id=536668";

/// The fixed installer link for MySQLWorkbench.
pub fn get_mysql_workbench_link() -> (r: String)
    ensures
        r@ == MYSQL_WORKBENCH_LINK@,
{
    MYSQL_WORKBENCH_LINK.to_owned()
}

pub const NODE_JS_LINK: &'static str = "https://nodejs.org/download/release/latest/win-x64/node.exe";

/// The fixed installer link for NodeJS.
pub fn get_nodejs_link() -> (r: String)
    ensures
        r@ == NODE_JS_LINK@,
{
    NODE_JS_LINK.to_owned()
}

pub const OLLAMA_LINK: &'static str = "https://ollama.com/download/OllamaSetup.exe";

/// The fixed installer link for Ollama.
pub fn get_ollama_link() -> (r: String)
    ensures
        r@ == OLLAMA_LINK@,
{
    OLLAMA_LINK.to_owned()
}

pub const POSTMAN_LINK: &'static str = "https://dl.pstmn.io/download/latest/win64";

/// The fixed installer link for Postman.
pub fn get_postman_link() -> (r: String)
    ensures
        r@ == POSTMAN_LINK@,
{
    POSTMAN_LINK.to_owned()
}

pub const PYTHON_2_7_18_LINK: &'static str = "https://www.python.org/ftp/python/2.7.18/python-2.7.18.amd64.msi";

/// The fixed installer link for Python2_7_18.
pub fn get_python2_7_18_link() -> (r: String)
    ensures
        r@ == PYTHON_2_7_18_LINK@,
{
    PYTHON_2_7_18_LINK.to_owned()
}

pub const PYTHON_3_8_10_LINK: &'static str = "https://www.python.org/ftp/python/3.8.10/python-3.8.10-amd64.exe";

/// The fixed installer link for Python3_8_10.
pub fn get_python3_8_10_link() -> (r: String)
    ensures
        r@ == PYTHON_3_8_10_LINK@,
{
    PYTHON_3_8_10_LINK.to_owned()
}

pub const PYTHON_3_9_10_LINK: &'static str = "https://www.python.org/ftp/python/3.9.10/python-3.9.10-amd64.exe";

/// The fixed installer link for Python3_9_10.
pub fn get_python3_9_10_link() -> (r: String)
    ensures
        r@ == PYTHON_3_9_10_LINK@,
{
    PYTHON_3_9_10_LINK.to_owned()
}

pub const PYTHON_3_10_10_LINK: &'static str = "https://www.python.org/ftp/python/3.10.10/python-3.10.10-amd64.exe";

/// The fixed installer link for Python3_10_10.
pub fn get_python3_10_10_link() -> (r: String)
    ensures
        r@ == PYTHON_3_10_10_LINK@,
{
    PYTHON_3_10_10_LINK.to_owned()
}

pub const PYTHON_3_11_10_LINK: &'static str = "https://www.python.org/ftp/python/3.11.10/python-3.11.10-amd64.exe";

/// The fixed installer link for Python3_11_10.
pub fn get_python3_11_10_link() -> (r: String)
    ensures
        r@ == PYTHON_3_11_10_LINK@,
{
    PYTHON_3_11_10_LINK.to_owned()
}

pub const PYTHON_3_12_9_LINK: &'static str = "https://www.python.org/ftp/python/3.12.9/python-3.12.9-amd64.exe";

/// The fixed installer link for Python3_12_9.
pub fn get_python3_12_9_link() -> (r: String)
    ensures
        r@ == PYTHON_3_12_9_LINK@,
{
    PYTHON_3_12_9_LINK.to_owned()
}

pub const PYTHON_3_13_2_LINK: &'static str = "https://www.python.org/ftp/python/3.13.2/python-3.13.2-amd64.exe";

/// The fixed installer link for Python3_13_2.
pub fn get_python3_13_2_link() -> (r: String)
    ensures
        r@ == PYTHON_3_13_2_LINK@,
{
    PYTHON_3_13_2_LINK.to_owned()
}

pub const UTM_LINK: &'static str = "https://getutm.app/downloads/utm-guest-tools-latest.iso";

/// The fixed installer link for UTM.
pub fn get_utm_link() -> (r: String)
    ensures
        r@ == UTM_LINK@,
{
    UTM_LINK.to_owned()
}

pub const VISUAL_STUDIO_LINK: &'static str = "https://c2rsetup.officeapps.live.com/c2r/downloadVS.aspx?sku=community&channel=Release&version=VS2022&source=VSLandingPage&cid=2030";

/// The fixed installer link for VisualStudio.
pub fn get_visual_studio_link() -> (r: String)
    ensures
        r@ == VISUAL_STUDIO_LINK@,
{
    VISUAL_STUDIO_LINK.to_owned()
}

pub const VS_CODE_LINK: &'static str = "https://code.visualstudio.com/sha/download?build=stable&os=win32-x64";

/// The fixed installer link for VisualStudioCode.
pub fn get_vscode_link() -> (r: String)
    ensures
        r@ == VS_CODE_LINK@,
{
    VS_CODE_LINK.to_owned()
}

pub const WEBSTORM_LINK: &'static str = "https://download.jetbrains.com/webstorm/WebStorm-2024.3.5.exe";

/// The fixed installer link for WebStorm.
pub fn get_webstorm_link() -> (r: String)
    ensures
        r@ == WEBSTORM_LINK@,
{
    WEBSTORM_LINK.to_owned()
}

pub const WINGET_LINK: &'static str = "https://aka.ms/getwingetpreview";

/// The fixed installer link for WinGet.
pub fn get_winget_link() -> (r: String)
    ensures
        r@ == WINGET_LINK@,
{
    WINGET_LINK.to_owned()
}

pub const MODERN_CSV_LINK: &'static str = "https://www.moderncsv.com/download-windows";

/// The fixed installer link for ModernCSV.
pub fn get_modern_csv_link() -> (r: String)
    ensures
        r@ == MODERN_CSV_LINK@,
{
    MODERN_CSV_LINK.to_owned()
}

pub const NOMACS_LINK: &'static str = "https://github.com/nomacs/nomacs/releases/latest/download/nomacs-setup-x64.msi";

/// The fixed installer link for NoMacs.
pub fn get_nomacs_link() -> (r: String)
    ensures
        r@ == NOMACS_LINK@,
{
    NOMACS_LINK.to_owned()
}

/// The installer link of the FileZilla edition `filezilla_type`.
pub fn get_filezilla_link(filezilla_type: FilezillaType) -> (r: String)
    ensures
        r@ == match filezilla_type {
            FilezillaType::Client => FILEZILLA_CLIENT_LINK@,
            FilezillaType::Server => FILEZILLA_SERVER_LINK@,
        },
{
    match filezilla_type {
        FilezillaType::Client => FILEZILLA_CLIENT_LINK.to_owned(),
        FilezillaType::Server => FILEZILLA_SERVER_LINK.to_owned(),
    }
}

/// The prefix that marks a link as a task for the external delegate.
pub const DELEGATE_PREFIX: &'static str = "DU_CLI.exe download ";

/// The link text that hands the title `name` to the external delegate.
pub open spec fn delegate_marker(name: Seq<char>) -> Seq<char> {
    DELEGATE_PREFIX@ + name
}

/// Vivaldi-Experimental is downloaded by the external delegate.
pub fn get_vivaldi_link() -> (r: String)
    ensures
        r@ == delegate_marker("Vivaldi"@),
{
    join2(DELEGATE_PREFIX, "Vivaldi")
}

/// AMDAutoDetect is downloaded by the external delegate.
pub fn get_amd_autodetect_link() -> (r: String)
    ensures
        r@ == delegate_marker("AMD"@),
{
    join2(DELEGATE_PREFIX, "AMD")
}

/// RobloxLauncher is downloaded by the external delegate.
pub fn get_roblox_launcher_link() -> (r: String)
    ensures
        r@ == delegate_marker("Roblox"@),
{
    join2(DELEGATE_PREFIX, "Roblox")
}

/// The AMD driver installer formerly linked directly, before AMD went to the delegate.
pub const AMD_ADRENALIN_LINK: &'static str = "https://drivers.amd.com/drivers/installer/24.30/whql/amd-software-adrenalin-edition-25.3.1-minimalsetup-250312_web.exe";

/// The former fixed link for AMD Auto-Detect.
pub fn _get_amd_autodetect_link_old() -> (r: String)
    ensures
        r@ == AMD_ADRENALIN_LINK@,
{
    AMD_ADRENALIN_LINK.to_owned()
}

/// The Roblox client download endpoint formerly linked directly.
pub const ROBLOX_CLIENT_LINK: &'static str = "https://www.roblox.com/download/client?os=win";

/// The former fixed link for the Roblox launcher.
pub fn _get_roblox_launcher_link_old() -> (r: String)
    ensures
        r@ == ROBLOX_CLIENT_LINK@,
{
    ROBLOX_CLIENT_LINK.to_owned()
}

} // verus!
