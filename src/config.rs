//! The configuration that selects titles: an INI file with four sections of `key = true`
//! flags, read through rust-ini.
use vstd::prelude::*;
use crate::catalog::{
    lemma_lookup_finds_each_title, title_of, Browser, FilezillaType, Gaming, KeyType, Programming,
    Utility,
};
use crate::text::same_text;

verus! {

#[verifier::external_type_specification]
#[verifier::external_body]
pub struct ExIni(ini::Ini);

#[verifier::external_type_specification]
#[verifier::external_body]
pub struct ExProperties(ini::Properties);

/// The key-value pairs of a section, in the order of the file.
pub uninterp spec fn property_entries(p: ini::Properties) -> Seq<(Seq<char>, Seq<char>)>;

/// For each section name of a configuration, the entries of the first section of that name.
pub uninterp spec fn ini_sections(i: ini::Ini) -> Map<Seq<char>, Seq<(Seq<char>, Seq<char>)>>;

/// The value of the first entry with key `key`.
pub open spec fn first_value(entries: Seq<(Seq<char>, Seq<char>)>, key: Seq<char>) -> Option<Seq<char>>
    decreases entries.len(),
{
    if entries.len() == 0 {
        None
    } else if entries[0].0 == key {
        Some(entries[0].1)
    } else {
        first_value(entries.drop_first(), key)
    }
}

/// Relies on `ini::Properties::get`: the first value, in insertion order, stored under `key`.
#[verifier::external_body]
fn property(p: &ini::Properties, key: &str) -> (r: Option<String>)
    ensures
        r.deep_view() == first_value(property_entries(*p), key@),
{
    p.get(key).map(String::from)
}

/// Relies on `ini::Ini::section`: the first section named `name`.
#[verifier::external_body]
fn section<'a>(i: &'a ini::Ini, name: &str) -> (r: Option<&'a ini::Properties>)
    ensures
        r is Some <==> ini_sections(*i).contains_key(name@),
        r matches Some(p) ==> property_entries(*p) == ini_sections(*i)[name@],
{
    i.section(Some(name))
}

/// The four sections of the configuration file.
#[derive(Debug, Clone, Copy, PartialEq, Eq, Structural)]
pub enum ConfigSection {
    Browser,
    Gaming,
    Programming,
    System,
}

/// The name of a section in the file.
pub open spec fn section_name(s: ConfigSection) -> Seq<char> {
    match s {
            ConfigSection::Browser => "browser"@,
            ConfigSection::Gaming => "gaming"@,
            ConfigSection::Programming => "programming"@,
            ConfigSection::System => "system"@,
    }
}

/// The keys that a section is read for, in order.
pub open spec fn section_keys(s: ConfigSection) -> Seq<&'static str> {
    match s {
            ConfigSection::Browser => seq![
                "Brave",
                "Chrome",
                "Chromium",
                "Edge",
                "Firefox",
                "Librewolf",
                "Opera",
                "OperaGX",
                "PaleMoon",
                "Seamonkey-Experimental",
                "Tor",
                "Vivaldi-Experimental",
                "Waterfox",
            ],
            ConfigSection::Gaming => seq![
                "AMDAutoDetect",
                "BattleNetLauncher",
                "BluestacksEmulator",
                "CPUZ",
                "CurseForge",
                "EpicGamesLauncher",
                "GPUZ",
                "HWiNFO",
                "HWMonitor",
                "MSIAfterburner",
                "NvidiaApp",
                "OBSStudio",
                "Parsec",
                "PingPlotter",
                "ProcessLasso",
                "RazerCortex",
                "Reshade",
                "RockstarLauncher",
                "RobloxLauncher",
                "StreamlabsOBS",
                "SteamLauncher",
                "WTFast",
            ],
            ConfigSection::Programming => seq![
                "AndroidStudio",
                "AzureDataStudio",
                "BurpSuite",
                "DockerDesktop",
                "FileZillaClient",
                "FileZillaServer",
                "GithubDesktop",
                "EclipseIDE",
                "FiddlerClassic",
                "FiddlerEverywhere",
                "Kubernetes",
                "MongoDB",
                "MySQLWorkbench",
                "Nmap",
                "NodeJS",
                "NotepadPlusPlus",
                "Npcap",
                "Ollama",
                "OracleVirtualBox",
                "OracleVirtualBoxExtPack",
                "OWASPZAP",
                "PostgreSQL",
                "Postman",
                "Python2_7_18",
                "Python3_8_10",
                "Python3_9_10",
                "Python3_10_10",
                "Python3_11_10",
                "Python3_12_9",
                "Python3_13_2",
                "PuTTY",
                "SublimeText",
                "UTM",
                "VisualStudio",
                "VisualStudioCode",
                "VSCodium",
                "WebStorm",
                "WinGet",
                "WireShark",
                "XAMPP",
            ],
            ConfigSection::System => seq![
                "7Zip",
                "Audacious",
                "LibreOffice",
                "ModernCSV",
                "NoMacs",
                "Okular",
                "Rufus",
                "VLC",
                "WinRAR",
            ],
    }
}

impl ConfigSection {
    /// The name of this section in the file.
    pub fn name(&self) -> (r: &'static str)
        ensures
            r@ == section_name(*self),
    {
        match self {
            ConfigSection::Browser => "browser",
            ConfigSection::Gaming => "gaming",
            ConfigSection::Programming => "programming",
            ConfigSection::System => "system",
        }
    }

    /// The keys that this section is read for, in order.
    pub fn keys(&self) -> (r: Vec<&'static str>)
        ensures
            r@ == section_keys(*self),
    {
        match self {
            ConfigSection::Browser => {
                let v: Vec<&'static str> = vec![
                    "Brave", "Chrome", "Chromium", "Edge", "Firefox", "Librewolf", "Opera",
                    "OperaGX", "PaleMoon", "Seamonkey-Experimental", "Tor", "Vivaldi-Experimental",
                    "Waterfox",
                ];
                assert(v@ == seq![
                    "Brave", "Chrome", "Chromium", "Edge", "Firefox", "Librewolf", "Opera",
                    "OperaGX", "PaleMoon", "Seamonkey-Experimental", "Tor", "Vivaldi-Experimental",
                    "Waterfox",
                ]);
                v
            },
            ConfigSection::Gaming => {
                let v: Vec<&'static str> = vec![
                    "AMDAutoDetect", "BattleNetLauncher", "BluestacksEmulator", "CPUZ",
                    "CurseForge", "EpicGamesLauncher", "GPUZ", "HWiNFO", "HWMonitor",
                    "MSIAfterburner", "NvidiaApp", "OBSStudio", "Parsec", "PingPlotter",
                    "ProcessLasso", "RazerCortex", "Reshade", "RockstarLauncher", "RobloxLauncher",
                    "StreamlabsOBS", "SteamLauncher", "WTFast",
                ];
                assert(v@ == seq![
                    "AMDAutoDetect", "BattleNetLauncher", "BluestacksEmulator", "CPUZ",
                    "CurseForge", "EpicGamesLauncher", "GPUZ", "HWiNFO", "HWMonitor",
                    "MSIAfterburner", "NvidiaApp", "OBSStudio", "Parsec", "PingPlotter",
                    "ProcessLasso", "RazerCortex", "Reshade", "RockstarLauncher", "RobloxLauncher",
                    "StreamlabsOBS", "SteamLauncher", "WTFast",
                ]);
                v
            },
            ConfigSection::Programming => {
                let v: Vec<&'static str> = vec![
                    "AndroidStudio", "AzureDataStudio", "BurpSuite", "DockerDesktop",
                    "FileZillaClient", "FileZillaServer", "GithubDesktop", "EclipseIDE",
                    "FiddlerClassic", "FiddlerEverywhere", "Kubernetes", "MongoDB",
                    "MySQLWorkbench", "Nmap", "NodeJS", "NotepadPlusPlus", "Npcap", "Ollama",
                    "OracleVirtualBox", "OracleVirtualBoxExtPack", "OWASPZAP", "PostgreSQL",
                    "Postman", "Python2_7_18", "Python3_8_10", "Python3_9_10", "Python3_10_10",
                    "Python3_11_10", "Python3_12_9", "Python3_13_2", "PuTTY", "SublimeText", "UTM",
                    "VisualStudio", "VisualStudioCode", "VSCodium", "WebStorm", "WinGet",
                    "WireShark", "XAMPP",
                ];
                assert(v@ == seq![
                    "AndroidStudio", "AzureDataStudio", "BurpSuite", "DockerDesktop",
                    "FileZillaClient", "FileZillaServer", "GithubDesktop", "EclipseIDE",
                    "FiddlerClassic", "FiddlerEverywhere", "Kubernetes", "MongoDB",
                    "MySQLWorkbench", "Nmap", "NodeJS", "NotepadPlusPlus", "Npcap", "Ollama",
                    "OracleVirtualBox", "OracleVirtualBoxExtPack", "OWASPZAP", "PostgreSQL",
                    "Postman", "Python2_7_18", "Python3_8_10", "Python3_9_10", "Python3_10_10",
                    "Python3_11_10", "Python3_12_9", "Python3_13_2", "PuTTY", "SublimeText", "UTM",
                    "VisualStudio", "VisualStudioCode", "VSCodium", "WebStorm", "WinGet",
                    "WireShark", "XAMPP",
                ]);
                v
            },
            ConfigSection::System => {
                let v: Vec<&'static str> = vec![
                    "7Zip", "Audacious", "LibreOffice", "ModernCSV", "NoMacs", "Okular", "Rufus",
                    "VLC", "WinRAR",
                ];
                assert(v@ == seq![
                    "7Zip", "Audacious", "LibreOffice", "ModernCSV", "NoMacs", "Okular", "Rufus",
                    "VLC", "WinRAR",
                ]);
                v
            },
        }
    }
}

/// The titles that the keys of a section name, in order.
pub open spec fn section_titles(s: ConfigSection) -> Seq<KeyType> {
    match s {
        ConfigSection::Browser => seq![
            KeyType::Browser(Browser::Brave),
            KeyType::Browser(Browser::Chrome),
            KeyType::Browser(Browser::Chromium),
            KeyType::Browser(Browser::Edge),
            KeyType::Browser(Browser::Firefox),
            KeyType::Browser(Browser::Librewolf),
            KeyType::Browser(Browser::Opera),
            KeyType::Browser(Browser::OperaGX),
            KeyType::Browser(Browser::PaleMoon),
            KeyType::Browser(Browser::SeaMonkey),
            KeyType::Browser(Browser::Tor),
            KeyType::Browser(Browser::Vivaldi),
            KeyType::Browser(Browser::Waterfox),
        ],
        ConfigSection::Gaming => seq![
            KeyType::Gaming(Gaming::AMDAutoDetect),
            KeyType::Gaming(Gaming::BattleNetLauncher),
            KeyType::Gaming(Gaming::BluestacksEmulator),
            KeyType::Gaming(Gaming::CPUZ),
            KeyType::Gaming(Gaming::CurseForge),
            KeyType::Gaming(Gaming::EpicGamesLauncher),
            KeyType::Gaming(Gaming::GPUZ),
            KeyType::Gaming(Gaming::HWiNFO),
            KeyType::Gaming(Gaming::HWMonitor),
            KeyType::Gaming(Gaming::MSIAfterburner),
            KeyType::Gaming(Gaming::NvidiaApp),
            KeyType::Gaming(Gaming::OBSStudio),
            KeyType::Gaming(Gaming::Parsec),
            KeyType::Gaming(Gaming::PingPlotter),
            KeyType::Gaming(Gaming::ProcessLasso),
            KeyType::Gaming(Gaming::RazerCortex),
            KeyType::Gaming(Gaming::Reshade),
            KeyType::Gaming(Gaming::RockstarLauncher),
            KeyType::Gaming(Gaming::RobloxLauncher),
            KeyType::Gaming(Gaming::StreamlabsOBS),
            KeyType::Gaming(Gaming::SteamLauncher),
            KeyType::Gaming(Gaming::WTFast),
        ],
        ConfigSection::Programming => seq![
            KeyType::Programming(Programming::AndroidStudio),
            KeyType::Programming(Programming::AzureDataStudio),
            KeyType::Programming(Programming::BurpSuite),
            KeyType::Programming(Programming::DockerDesktop),
            KeyType::Programming(Programming::FileZilla(FilezillaType::Client)),
            KeyType::Programming(Programming::FileZilla(FilezillaType::Server)),
            KeyType::Programming(Programming::GithubDesktop),
            KeyType::Programming(Programming::EclipseIDE),
            KeyType::Programming(Programming::FiddlerClassic),
            KeyType::Programming(Programming::FiddlerEverywhere),
            KeyType::Programming(Programming::Kubernetes),
            KeyType::Programming(Programming::MongoDB),
            KeyType::Programming(Programming::MySQLWorkbench),
            KeyType::Programming(Programming::Nmap),
            KeyType::Programming(Programming::NodeJS),
            KeyType::Programming(Programming::NotepadPlusPlus),
            KeyType::Programming(Programming::Npcap),
            KeyType::Programming(Programming::Ollama),
            KeyType::Programming(Programming::OracleVirtualBox),
            KeyType::Programming(Programming::OracleVirtualBoxExtPack),
            KeyType::Programming(Programming::OWASPZAP),
            KeyType::Programming(Programming::PostgreSQL),
            KeyType::Programming(Programming::Postman),
            KeyType::Programming(Programming::Python2_7_18),
            KeyType::Programming(Programming::Python3_8_10),
            KeyType::Programming(Programming::Python3_9_10),
            KeyType::Programming(Programming::Python3_10_10),
            KeyType::Programming(Programming::Python3_11_10),
            KeyType::Programming(Programming::Python3_12_9),
            KeyType::Programming(Programming::Python3_13_2),
            KeyType::Programming(Programming::PuTTY),
            KeyType::Programming(Programming::SublimeText),
            KeyType::Programming(Programming::UTM),
            KeyType::Programming(Programming::VisualStudio),
            KeyType::Programming(Programming::VisualStudioCode),
            KeyType::Programming(Programming::VSCodium),
            KeyType::Programming(Programming::WebStorm),
            KeyType::Programming(Programming::WinGet),
            KeyType::Programming(Programming::WireShark),
            KeyType::Programming(Programming::XAMPP),
        ],
        ConfigSection::System => seq![
            KeyType::Utility(Utility::SevenZip),
            KeyType::Utility(Utility::Audacious),
            KeyType::Utility(Utility::LibreOffice),
            KeyType::Utility(Utility::ModernCSV),
            KeyType::Utility(Utility::NoMacs),
            KeyType::Utility(Utility::Okular),
            KeyType::Utility(Utility::Rufus),
            KeyType::Utility(Utility::VLC),
            KeyType::Utility(Utility::WinRAR),
        ],
    }
}

/// Every key that a section is read for is the identifier of a catalog title, so a selected
/// key never stops the run as unknown.
pub proof fn lemma_section_keys_name_titles(s: ConfigSection, i: int)
    requires
        0 <= i < section_keys(s).len(),
    ensures
        section_titles(s).len() == section_keys(s).len(),
        title_of(section_keys(s)[i]@) == Some(section_titles(s)[i]),
{
    match s {
        ConfigSection::Browser => {
            if i == 0 {
                lemma_lookup_finds_each_title(KeyType::Browser(Browser::Brave));
            } else if i == 1 {
                lemma_lookup_finds_each_title(KeyType::Browser(Browser::Chrome));
            } else if i == 2 {
                lemma_lookup_finds_each_title(KeyType::Browser(Browser::Chromium));
            } else if i == 3 {
                lemma_lookup_finds_each_title(KeyType::Browser(Browser::Edge));
            } else if i == 4 {
                lemma_lookup_finds_each_title(KeyType::Browser(Browser::Firefox));
            } else if i == 5 {
                lemma_lookup_finds_each_title(KeyType::Browser(Browser::Librewolf));
            } else if i == 6 {
                lemma_lookup_finds_each_title(KeyType::Browser(Browser::Opera));
            } else if i == 7 {
                lemma_lookup_finds_each_title(KeyType::Browser(Browser::OperaGX));
            } else if i == 8 {
                lemma_lookup_finds_each_title(KeyType::Browser(Browser::PaleMoon));
            } else if i == 9 {
                lemma_lookup_finds_each_title(KeyType::Browser(Browser::SeaMonkey));
            } else if i == 10 {
                lemma_lookup_finds_each_title(KeyType::Browser(Browser::Tor));
            } else if i == 11 {
                lemma_lookup_finds_each_title(KeyType::Browser(Browser::Vivaldi));
            } else if i == 12 {
                lemma_lookup_finds_each_title(KeyType::Browser(Browser::Waterfox));
            }
        },
        ConfigSection::Gaming => {
            if i == 0 {
                lemma_lookup_finds_each_title(KeyType::Gaming(Gaming::AMDAutoDetect));
            } else if i == 1 {
                lemma_lookup_finds_each_title(KeyType::Gaming(Gaming::BattleNetLauncher));
            } else if i == 2 {
                lemma_lookup_finds_each_title(KeyType::Gaming(Gaming::BluestacksEmulator));
            } else if i == 3 {
                lemma_lookup_finds_each_title(KeyType::Gaming(Gaming::CPUZ));
            } else if i == 4 {
                lemma_lookup_finds_each_title(KeyType::Gaming(Gaming::CurseForge));
            } else if i == 5 {
                lemma_lookup_finds_each_title(KeyType::Gaming(Gaming::EpicGamesLauncher));
            } else if i == 6 {
                lemma_lookup_finds_each_title(KeyType::Gaming(Gaming::GPUZ));
            } else if i == 7 {
                lemma_lookup_finds_each_title(KeyType::Gaming(Gaming::HWiNFO));
            } else if i == 8 {
                lemma_lookup_finds_each_title(KeyType::Gaming(Gaming::HWMonitor));
            } else if i == 9 {
                lemma_lookup_finds_each_title(KeyType::Gaming(Gaming::MSIAfterburner));
            } else if i == 10 {
                lemma_lookup_finds_each_title(KeyType::Gaming(Gaming::NvidiaApp));
            } else if i == 11 {
                lemma_lookup_finds_each_title(KeyType::Gaming(Gaming::OBSStudio));
            } else if i == 12 {
                lemma_lookup_finds_each_title(KeyType::Gaming(Gaming::Parsec));
            } else if i == 13 {
                lemma_lookup_finds_each_title(KeyType::Gaming(Gaming::PingPlotter));
            } else if i == 14 {
                lemma_lookup_finds_each_title(KeyType::Gaming(Gaming::ProcessLasso));
            } else if i == 15 {
                lemma_lookup_finds_each_title(KeyType::Gaming(Gaming::RazerCortex));
            } else if i == 16 {
                lemma_lookup_finds_each_title(KeyType::Gaming(Gaming::Reshade));
            } else if i == 17 {
                lemma_lookup_finds_each_title(KeyType::Gaming(Gaming::RockstarLauncher));
            } else if i == 18 {
                lemma_lookup_finds_each_title(KeyType::Gaming(Gaming::RobloxLauncher));
            } else if i == 19 {
                lemma_lookup_finds_each_title(KeyType::Gaming(Gaming::StreamlabsOBS));
            } else if i == 20 {
                lemma_lookup_finds_each_title(KeyType::Gaming(Gaming::SteamLauncher));
            } else if i == 21 {
                lemma_lookup_finds_each_title(KeyType::Gaming(Gaming::WTFast));
            }
        },
        ConfigSection::Programming => {
            if i == 0 {
                lemma_lookup_finds_each_title(KeyType::Programming(Programming::AndroidStudio));
            } else if i == 1 {
                lemma_lookup_finds_each_title(KeyType::Programming(Programming::AzureDataStudio));
            } else if i == 2 {
                lemma_lookup_finds_each_title(KeyType::Programming(Programming::BurpSuite));
            } else if i == 3 {
                lemma_lookup_finds_each_title(KeyType::Programming(Programming::DockerDesktop));
            } else if i == 4 {
                lemma_lookup_finds_each_title(KeyType::Programming(Programming::FileZilla(FilezillaType::Client)));
            } else if i == 5 {
                lemma_lookup_finds_each_title(KeyType::Programming(Programming::FileZilla(FilezillaType::Server)));
            } else if i == 6 {
                lemma_lookup_finds_each_title(KeyType::Programming(Programming::GithubDesktop));
            } else if i == 7 {
                lemma_lookup_finds_each_title(KeyType::Programming(Programming::EclipseIDE));
            } else if i == 8 {
                lemma_lookup_finds_each_title(KeyType::Programming(Programming::FiddlerClassic));
            } else if i == 9 {
                lemma_lookup_finds_each_title(KeyType::Programming(Programming::FiddlerEverywhere));
            } else if i == 10 {
                lemma_lookup_finds_each_title(KeyType::Programming(Programming::Kubernetes));
            } else if i == 11 {
                lemma_lookup_finds_each_title(KeyType::Programming(Programming::MongoDB));
            } else if i == 12 {
                lemma_lookup_finds_each_title(KeyType::Programming(Programming::MySQLWorkbench));
            } else if i == 13 {
                lemma_lookup_finds_each_title(KeyType::Programming(Programming::Nmap));
            } else if i == 14 {
                lemma_lookup_finds_each_title(KeyType::Programming(Programming::NodeJS));
            } else if i == 15 {
                lemma_lookup_finds_each_title(KeyType::Programming(Programming::NotepadPlusPlus));
            } else if i == 16 {
                lemma_lookup_finds_each_title(KeyType::Programming(Programming::Npcap));
            } else if i == 17 {
                lemma_lookup_finds_each_title(KeyType::Programming(Programming::Ollama));
            } else if i == 18 {
                lemma_lookup_finds_each_title(KeyType::Programming(Programming::OracleVirtualBox));
            } else if i == 19 {
                lemma_lookup_finds_each_title(KeyType::Programming(Programming::OracleVirtualBoxExtPack));
            } else if i == 20 {
                lemma_lookup_finds_each_title(KeyType::Programming(Programming::OWASPZAP));
            } else if i == 21 {
                lemma_lookup_finds_each_title(KeyType::Programming(Programming::PostgreSQL));
            } else if i == 22 {
                lemma_lookup_finds_each_title(KeyType::Programming(Programming::Postman));
            } else if i == 23 {
                lemma_lookup_finds_each_title(KeyType::Programming(Programming::Python2_7_18));
            } else if i == 24 {
                lemma_lookup_finds_each_title(KeyType::Programming(Programming::Python3_8_10));
            } else if i == 25 {
                lemma_lookup_finds_each_title(KeyType::Programming(Programming::Python3_9_10));
            } else if i == 26 {
                lemma_lookup_finds_each_title(KeyType::Programming(Programming::Python3_10_10));
            } else if i == 27 {
                lemma_lookup_finds_each_title(KeyType::Programming(Programming::Python3_11_10));
            } else if i == 28 {
                lemma_lookup_finds_each_title(KeyType::Programming(Programming::Python3_12_9));
            } else if i == 29 {
                lemma_lookup_finds_each_title(KeyType::Programming(Programming::Python3_13_2));
            } else if i == 30 {
                lemma_lookup_finds_each_title(KeyType::Programming(Programming::PuTTY));
            } else if i == 31 {
                lemma_lookup_finds_each_title(KeyType::Programming(Programming::SublimeText));
            } else if i == 32 {
                lemma_lookup_finds_each_title(KeyType::Programming(Programming::UTM));
            } else if i == 33 {
                lemma_lookup_finds_each_title(KeyType::Programming(Programming::VisualStudio));
            } else if i == 34 {
                lemma_lookup_finds_each_title(KeyType::Programming(Programming::VisualStudioCode));
            } else if i == 35 {
                lemma_lookup_finds_each_title(KeyType::Programming(Programming::VSCodium));
            } else if i == 36 {
                lemma_lookup_finds_each_title(KeyType::Programming(Programming::WebStorm));
            } else if i == 37 {
                lemma_lookup_finds_each_title(KeyType::Programming(Programming::WinGet));
            } else if i == 38 {
                lemma_lookup_finds_each_title(KeyType::Programming(Programming::WireShark));
            } else if i == 39 {
                lemma_lookup_finds_each_title(KeyType::Programming(Programming::XAMPP));
            }
        },
        ConfigSection::System => {
            if i == 0 {
                lemma_lookup_finds_each_title(KeyType::Utility(Utility::SevenZip));
            } else if i == 1 {
                lemma_lookup_finds_each_title(KeyType::Utility(Utility::Audacious));
            } else if i == 2 {
                lemma_lookup_finds_each_title(KeyType::Utility(Utility::LibreOffice));
            } else if i == 3 {
                lemma_lookup_finds_each_title(KeyType::Utility(Utility::ModernCSV));
            } else if i == 4 {
                lemma_lookup_finds_each_title(KeyType::Utility(Utility::NoMacs));
            } else if i == 5 {
                lemma_lookup_finds_each_title(KeyType::Utility(Utility::Okular));
            } else if i == 6 {
                lemma_lookup_finds_each_title(KeyType::Utility(Utility::Rufus));
            } else if i == 7 {
                lemma_lookup_finds_each_title(KeyType::Utility(Utility::VLC));
            } else if i == 8 {
                lemma_lookup_finds_each_title(KeyType::Utility(Utility::WinRAR));
            }
        },
    }
}

/// The flag of `key`: its value where the section has one, else `"false"`.
pub open spec fn flag_of(entries: Seq<(Seq<char>, Seq<char>)>, key: Seq<char>) -> Seq<char> {
    match first_value(entries, key) {
        Some(v) => v,
        None => "false"@,
    }
}

/// Each of `keys` paired with its flag in `entries`.
pub open spec fn loaded(entries: Seq<(Seq<char>, Seq<char>)>, keys: Seq<&'static str>) -> Seq<(Seq<char>, Seq<char>)> {
    Seq::new(keys.len(), |i: int| (keys[i]@, flag_of(entries, keys[i]@)))
}

/// Reads the flag of each key of `which` from the section `props`; a missing key reads as
/// `"false"`.
pub fn load_section(props: &ini::Properties, which: ConfigSection) -> (r: Vec<(String, String)>)
    ensures
        r.deep_view() == loaded(property_entries(*props), section_keys(which)),
{
    let keys = which.keys();
    let mut r: Vec<(String, String)> = Vec::new();
    let mut i: usize = 0;
    while i < keys.len()
        invariant
            keys@ == section_keys(which),
            i <= keys@.len(),
            r.deep_view() =~= loaded(property_entries(*props), keys@).subrange(0, i as int),
        decreases keys@.len() - i,
    {
        let value = match property(props, keys[i]) {
            Some(v) => v,
            None => "false".to_owned(),
        };
        let key = keys[i].to_owned();
        assert(value@ == flag_of(property_entries(*props), keys@[i as int]@));
        let ghost before = r.deep_view();
        r.push((key, value));
        assert(r.deep_view() =~= before.push((keys@[i as int]@, value@)));
        i = i + 1;
    }
    r
}

/// The keys whose flag is exactly `"true"`, in order.
pub open spec fn selected(entries: Seq<(Seq<char>, Seq<char>)>) -> Seq<Seq<char>>
    decreases entries.len(),
{
    if entries.len() == 0 {
        Seq::empty()
    } else if entries.last().1 == "true"@ {
        selected(entries.drop_last()).push(entries.last().0)
    } else {
        selected(entries.drop_last())
    }
}

/// The titles to download: the selected keys of the browser, gaming, programming and system
/// sections, in that order.
pub open spec fn desired(
    browsers: Seq<(Seq<char>, Seq<char>)>,
    gaming: Seq<(Seq<char>, Seq<char>)>,
    programming: Seq<(Seq<char>, Seq<char>)>,
    systems: Seq<(Seq<char>, Seq<char>)>,
) -> Seq<Seq<char>> {
    selected(browsers) + selected(gaming) + selected(programming) + selected(systems)
}

fn select_into(out: &mut Vec<String>, entries: Vec<(String, String)>)
    ensures
        final(out).deep_view() == old(out).deep_view() + selected(entries.deep_view()),
{
    let ghost start = out.deep_view();
    let mut i: usize = 0;
    while i < entries.len()
        invariant
            i <= entries@.len(),
            out.deep_view() == start + selected(entries.deep_view().subrange(0, i as int)),
        decreases entries@.len() - i,
    {
        assert(entries.deep_view().subrange(0, i + 1).drop_last() =~= entries.deep_view().subrange(0, i as int));
        let (key, value) = &entries[i];
        assert(entries.deep_view()[i as int] == (key@, value@));
        if same_text(value.as_str(), "true") {
            let ghost before = out.deep_view();
            out.push(key.clone());
            assert(out.deep_view() =~= before.push(key@));
            assert(out.deep_view() =~= start + selected(entries.deep_view().subrange(0, i + 1)));
        }
        i = i + 1;
    }
    assert(entries.deep_view().subrange(0, entries@.len() as int) =~= entries.deep_view());
}

/// The titles to download, from the flags of the four sections: every key whose flag is
/// exactly `"true"`, section by section, in order.
pub fn get_desired_downloads(
    browsers: Vec<(String, String)>,
    gaming: Vec<(String, String)>,
    programming: Vec<(String, String)>,
    systems: Vec<(String, String)>,
) -> (r: Vec<String>)
    ensures
        r.deep_view() == desired(
            browsers.deep_view(),
            gaming.deep_view(),
            programming.deep_view(),
            systems.deep_view(),
        ),
{
    let mut r: Vec<String> = Vec::new();
    select_into(&mut r, browsers);
    select_into(&mut r, gaming);
    select_into(&mut r, programming);
    select_into(&mut r, systems);
    r
}

/// A configuration with no flag set to `"true"` selects no title, so the batch is empty and
/// no request is made.
pub proof fn lemma_nothing_selected_gives_empty_batch(
    browsers: Seq<(Seq<char>, Seq<char>)>,
    gaming: Seq<(Seq<char>, Seq<char>)>,
    programming: Seq<(Seq<char>, Seq<char>)>,
    systems: Seq<(Seq<char>, Seq<char>)>,
)
    requires
        forall|i: int| 0 <= i < browsers.len() ==> browsers[i].1 != "true"@,
        forall|i: int| 0 <= i < gaming.len() ==> gaming[i].1 != "true"@,
        forall|i: int| 0 <= i < programming.len() ==> programming[i].1 != "true"@,
        forall|i: int| 0 <= i < systems.len() ==> systems[i].1 != "true"@,
    ensures
        desired(browsers, gaming, programming, systems).len() == 0,
{
    lemma_none_selected(browsers);
    lemma_none_selected(gaming);
    lemma_none_selected(programming);
    lemma_none_selected(systems);
}

proof fn lemma_none_selected(entries: Seq<(Seq<char>, Seq<char>)>)
    requires
        forall|i: int| 0 <= i < entries.len() ==> entries[i].1 != "true"@,
    ensures
        selected(entries).len() == 0,
    decreases entries.len(),
{
    if entries.len() > 0 {
        assert(entries.last().1 != "true"@);
        lemma_none_selected(entries.drop_last());
    }
}

/// Why the configuration could not be read.
#[derive(Debug, Clone, Copy, PartialEq, Eq, Structural)]
pub enum ConfigError {
    /// The file has no section of this name.
    MissingSection(ConfigSection),
}

/// The titles that the configuration `config` selects, or the first of the four sections,
/// in order, that it lacks.
pub fn desired_downloads_from_config(config: &ini::Ini) -> (r: Result<Vec<String>, ConfigError>)
    ensures
        !ini_sections(*config).contains_key(section_name(ConfigSection::Browser)) ==> r
            == Err::<Vec<String>, ConfigError>(ConfigError::MissingSection(ConfigSection::Browser)),
        r matches Err(ConfigError::MissingSection(s)) ==> !ini_sections(*config).contains_key(
            section_name(s),
        ),
        r is Ok <==> (forall|s: ConfigSection| ini_sections(*config).contains_key(#[trigger] section_name(s))),
        r matches Ok(v) ==> v.deep_view() == desired(
            loaded(ini_sections(*config)[section_name(ConfigSection::Browser)], section_keys(ConfigSection::Browser)),
            loaded(ini_sections(*config)[section_name(ConfigSection::Gaming)], section_keys(ConfigSection::Gaming)),
            loaded(ini_sections(*config)[section_name(ConfigSection::Programming)], section_keys(ConfigSection::Programming)),
            loaded(ini_sections(*config)[section_name(ConfigSection::System)], section_keys(ConfigSection::System)),
        ),
{
    let b = match section(config, ConfigSection::Browser.name()) {
        Some(p) => load_section(p, ConfigSection::Browser),
        None => return Err(ConfigError::MissingSection(ConfigSection::Browser)),
    };
    let g = match section(config, ConfigSection::Gaming.name()) {
        Some(p) => load_section(p, ConfigSection::Gaming),
        None => return Err(ConfigError::MissingSection(ConfigSection::Gaming)),
    };
    let p = match section(config, ConfigSection::Programming.name()) {
        Some(p) => load_section(p, ConfigSection::Programming),
        None => return Err(ConfigError::MissingSection(ConfigSection::Programming)),
    };
    let s = match section(config, ConfigSection::System.name()) {
        Some(p) => load_section(p, ConfigSection::System),
        None => return Err(ConfigError::MissingSection(ConfigSection::System)),
    };
    assert forall|sec: ConfigSection| ini_sections(*config).contains_key(#[trigger] section_name(sec)) by {
        match sec {
            ConfigSection::Browser => {},
            ConfigSection::Gaming => {},
            ConfigSection::Programming => {},
            ConfigSection::System => {},
        }
    }
    Ok(get_desired_downloads(b, g, p, s))
}

} // verus!
