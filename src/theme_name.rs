use vstd::prelude::*;
use vstd::string::StrSliceExecFns;

verus! {

/// A colour theme of the application, by name.
#[derive(Debug, Clone, Copy, PartialEq, Eq, Structural, Default)]
pub enum ThemeName {
    Light,
    #[default]
    Dark,
    Dracula,
    Nord,
    SolarizedLight,
    SolarizedDark,
    GruvboxLight,
    GruvboxDark,
    CatppuccinLatte,
    CatppuccinFrappe,
    CatppuccinMacchiato,
    CatppuccinMocha,
    TokyoNight,
    TokyoNightStorm,
    TokyoNightLight,
    KanagawaWave,
    KanagawaDragon,
    KanagawaLotus,
    Moonfly,
    Nightfly,
    Oxocarbon,
    Ferra,
    /// A theme built by hand rather than picked from the list.
    Custom,
}

/// The key under which a theme is stored in the settings file.
pub open spec fn theme_key(theme: ThemeName) -> Seq<char> {
    match theme {
        ThemeName::Light => "light"@,
        ThemeName::Dark => "dark"@,
        ThemeName::Dracula => "dracula"@,
        ThemeName::Nord => "nord"@,
        ThemeName::SolarizedLight => "solarized_light"@,
        ThemeName::SolarizedDark => "solarized_dark"@,
        ThemeName::GruvboxLight => "gruvbox_light"@,
        ThemeName::GruvboxDark => "gruvbox_dark"@,
        ThemeName::CatppuccinLatte => "catppuccin_latte"@,
        ThemeName::CatppuccinFrappe => "catppuccin_frappe"@,
        ThemeName::CatppuccinMacchiato => "catppuccin_macchiato"@,
        ThemeName::CatppuccinMocha => "catppuccin_mocha"@,
        ThemeName::TokyoNight => "tokyo_night"@,
        ThemeName::TokyoNightStorm => "tokyo_night_storm"@,
        ThemeName::TokyoNightLight => "tokyo_night_light"@,
        ThemeName::KanagawaWave => "kanagawa_wave"@,
        ThemeName::KanagawaDragon => "kanagawa_dragon"@,
        ThemeName::KanagawaLotus => "kanagawa_lotus"@,
        ThemeName::Moonfly => "moonfly"@,
        ThemeName::Nightfly => "nightfly"@,
        ThemeName::Oxocarbon => "oxocarbon"@,
        ThemeName::Ferra => "ferra"@,
        ThemeName::Custom => "custom"@,
    }
}

/// The theme stored under `key`: a listed theme by its key, and the dark
/// theme for any other text. A custom theme is never read back.
pub open spec fn theme_for_key(key: Seq<char>) -> ThemeName {
    if key == "light"@ {
        ThemeName::Light
    } else     if key == "dark"@ {
        ThemeName::Dark
    } else     if key == "dracula"@ {
        ThemeName::Dracula
    } else     if key == "nord"@ {
        ThemeName::Nord
    } else     if key == "solarized_light"@ {
        ThemeName::SolarizedLight
    } else     if key == "solarized_dark"@ {
        ThemeName::SolarizedDark
    } else     if key == "gruvbox_light"@ {
        ThemeName::GruvboxLight
    } else     if key == "gruvbox_dark"@ {
        ThemeName::GruvboxDark
    } else     if key == "catppuccin_latte"@ {
        ThemeName::CatppuccinLatte
    } else     if key == "catppuccin_frappe"@ {
        ThemeName::CatppuccinFrappe
    } else     if key == "catppuccin_macchiato"@ {
        ThemeName::CatppuccinMacchiato
    } else     if key == "catppuccin_mocha"@ {
        ThemeName::CatppuccinMocha
    } else     if key == "tokyo_night"@ {
        ThemeName::TokyoNight
    } else     if key == "tokyo_night_storm"@ {
        ThemeName::TokyoNightStorm
    } else     if key == "tokyo_night_light"@ {
        ThemeName::TokyoNightLight
    } else     if key == "kanagawa_wave"@ {
        ThemeName::KanagawaWave
    } else     if key == "kanagawa_dragon"@ {
        ThemeName::KanagawaDragon
    } else     if key == "kanagawa_lotus"@ {
        ThemeName::KanagawaLotus
    } else     if key == "moonfly"@ {
        ThemeName::Moonfly
    } else     if key == "nightfly"@ {
        ThemeName::Nightfly
    } else     if key == "oxocarbon"@ {
        ThemeName::Oxocarbon
    } else     if key == "ferra"@ {
        ThemeName::Ferra
    } else {
        ThemeName::Dark
    }
}

/// The result of `str::to_lowercase` on `s`.
pub uninterp spec fn lower_of(s: Seq<char>) -> Seq<char>;

/// Relies on `str::to_lowercase`: the lower-case form of the text depends on
/// its characters alone, and empty text stays empty.
#[verifier::external_body]
fn lowercase(s: &str) -> (r: String)
    ensures
        r@ == lower_of(s@),
        s@.len() == 0 ==> r@.len() == 0,
{
    s.to_lowercase()
}

/// Whether two texts hold the same characters.
fn same_text(a: &str, b: &str) -> (r: bool)
    ensures
        r == (a@ == b@),
{
    let n = a.unicode_len();
    if n != b.unicode_len() {
        return false;
    }
    let mut i: usize = 0;
    while i < n
        invariant
            n == a@.len(),
            n == b@.len(),
            i <= n,
            forall|j: int| 0 <= j < i ==> a@[j] == b@[j],
        decreases n - i,
    {
        if a.get_char(i) != b.get_char(i) {
            return false;
        }
        i = i + 1;
    }
    assert(a@ =~= b@);
    true
}

impl ThemeName {
    /// The themes that can be picked, in the order they are offered.
    pub fn all() -> (r: Vec<ThemeName>)
        ensures
            r@ == seq![
            ThemeName::Light,
            ThemeName::Dark,
            ThemeName::Dracula,
            ThemeName::Nord,
            ThemeName::SolarizedLight,
            ThemeName::SolarizedDark,
            ThemeName::GruvboxLight,
            ThemeName::GruvboxDark,
            ThemeName::CatppuccinLatte,
            ThemeName::CatppuccinFrappe,
            ThemeName::CatppuccinMacchiato,
            ThemeName::CatppuccinMocha,
            ThemeName::TokyoNight,
            ThemeName::TokyoNightStorm,
            ThemeName::TokyoNightLight,
            ThemeName::KanagawaWave,
            ThemeName::KanagawaDragon,
            ThemeName::KanagawaLotus,
            ThemeName::Moonfly,
            ThemeName::Nightfly,
            ThemeName::Oxocarbon,
            ThemeName::Ferra
        ],
    {
        vec![
            ThemeName::Light,
            ThemeName::Dark,
            ThemeName::Dracula,
            ThemeName::Nord,
            ThemeName::SolarizedLight,
            ThemeName::SolarizedDark,
            ThemeName::GruvboxLight,
            ThemeName::GruvboxDark,
            ThemeName::CatppuccinLatte,
            ThemeName::CatppuccinFrappe,
            ThemeName::CatppuccinMacchiato,
            ThemeName::CatppuccinMocha,
            ThemeName::TokyoNight,
            ThemeName::TokyoNightStorm,
            ThemeName::TokyoNightLight,
            ThemeName::KanagawaWave,
            ThemeName::KanagawaDragon,
            ThemeName::KanagawaLotus,
            ThemeName::Moonfly,
            ThemeName::Nightfly,
            ThemeName::Oxocarbon,
            ThemeName::Ferra
        ]
    }

    /// The key under which the theme is stored.
    pub fn key(&self) -> (r: &'static str)
        ensures
            r@ == theme_key(*self),
    {
        match self {
            ThemeName::Light => "light",
            ThemeName::Dark => "dark",
            ThemeName::Dracula => "dracula",
            ThemeName::Nord => "nord",
            ThemeName::SolarizedLight => "solarized_light",
            ThemeName::SolarizedDark => "solarized_dark",
            ThemeName::GruvboxLight => "gruvbox_light",
            ThemeName::GruvboxDark => "gruvbox_dark",
            ThemeName::CatppuccinLatte => "catppuccin_latte",
            ThemeName::CatppuccinFrappe => "catppuccin_frappe",
            ThemeName::CatppuccinMacchiato => "catppuccin_macchiato",
            ThemeName::CatppuccinMocha => "catppuccin_mocha",
            ThemeName::TokyoNight => "tokyo_night",
            ThemeName::TokyoNightStorm => "tokyo_night_storm",
            ThemeName::TokyoNightLight => "tokyo_night_light",
            ThemeName::KanagawaWave => "kanagawa_wave",
            ThemeName::KanagawaDragon => "kanagawa_dragon",
            ThemeName::KanagawaLotus => "kanagawa_lotus",
            ThemeName::Moonfly => "moonfly",
            ThemeName::Nightfly => "nightfly",
            ThemeName::Oxocarbon => "oxocarbon",
            ThemeName::Ferra => "ferra",
            ThemeName::Custom => "custom",
        }
    }

    /// The theme stored under `key`, which is already in lower case.
    pub fn from_lowercase_key(key: &str) -> (r: ThemeName)
        ensures
            r == theme_for_key(key@),
    {
        if same_text(key, "light") {
            ThemeName::Light
        } else         if same_text(key, "dark") {
            ThemeName::Dark
        } else         if same_text(key, "dracula") {
            ThemeName::Dracula
        } else         if same_text(key, "nord") {
            ThemeName::Nord
        } else         if same_text(key, "solarized_light") {
            ThemeName::SolarizedLight
        } else         if same_text(key, "solarized_dark") {
            ThemeName::SolarizedDark
        } else         if same_text(key, "gruvbox_light") {
            ThemeName::GruvboxLight
        } else         if same_text(key, "gruvbox_dark") {
            ThemeName::GruvboxDark
        } else         if same_text(key, "catppuccin_latte") {
            ThemeName::CatppuccinLatte
        } else         if same_text(key, "catppuccin_frappe") {
            ThemeName::CatppuccinFrappe
        } else         if same_text(key, "catppuccin_macchiato") {
            ThemeName::CatppuccinMacchiato
        } else         if same_text(key, "catppuccin_mocha") {
            ThemeName::CatppuccinMocha
        } else         if same_text(key, "tokyo_night") {
            ThemeName::TokyoNight
        } else         if same_text(key, "tokyo_night_storm") {
            ThemeName::TokyoNightStorm
        } else         if same_text(key, "tokyo_night_light") {
            ThemeName::TokyoNightLight
        } else         if same_text(key, "kanagawa_wave") {
            ThemeName::KanagawaWave
        } else         if same_text(key, "kanagawa_dragon") {
            ThemeName::KanagawaDragon
        } else         if same_text(key, "kanagawa_lotus") {
            ThemeName::KanagawaLotus
        } else         if same_text(key, "moonfly") {
            ThemeName::Moonfly
        } else         if same_text(key, "nightfly") {
            ThemeName::Nightfly
        } else         if same_text(key, "oxocarbon") {
            ThemeName::Oxocarbon
        } else         if same_text(key, "ferra") {
            ThemeName::Ferra
        } else {
            ThemeName::Dark
        }
    }

    /// The theme stored under `text`, in any case.
    pub fn from_key(text: &str) -> (r: ThemeName)
        ensures
            r == theme_for_key(lower_of(text@)),
    {
        let key = lowercase(text);
        ThemeName::from_lowercase_key(key.as_str())
    }
}

} // verus!
