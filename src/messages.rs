use vstd::prelude::*;
use crate::progress::BuilderProgress;

verus! {

/// What drives the builder tab.
#[derive(Debug)]
pub enum BuilderMessage {
    /// A report from the run with the given number: its progress, or the text
    /// of a failure to deliver it.
    Communication(u64, Result<BuilderProgress, String>),
    StartBinary,
    StopBinary,
}

impl Clone for BuilderMessage {
    fn clone(&self) -> Self {
        match self {
            BuilderMessage::Communication(run, Ok(progress)) => BuilderMessage::Communication(
                *run,
                Ok(progress.clone()),
            ),
            BuilderMessage::Communication(run, Err(message)) => BuilderMessage::Communication(
                *run,
                Err(message.clone()),
            ),
            BuilderMessage::StartBinary => BuilderMessage::StartBinary,
            BuilderMessage::StopBinary => BuilderMessage::StopBinary,
        }
    }
}

/// Edits of the gear selections of the configuration form.
#[derive(Debug, Clone)]
pub enum GearMessage {
    HelmetSelected(usize, String),
    AddHelmet,
    ChestplateSelected(usize, String),
    AddChestplate,
    LeggingsSelected(usize, String),
    AddLeggings,
    BootsSelected(usize, String),
    AddBoots,
    RingsSelected(usize, String),
    AddRings,
    BraceletsSelected(usize, String),
    AddBracelets,
    NecklacesSelected(usize, String),
    AddNecklaces,
    WeaponSelected(String),
    RemoveHelmet(usize),
    RemoveChestplate(usize),
    RemoveLeggings(usize),
    RemoveBoots(usize),
    RemoveRings(usize),
    RemoveBracelets(usize),
    RemoveNecklaces(usize),
}

#[derive(Debug, Clone)]
pub enum PlayerMessage {
    LevelChanged(String),
    AvailablePointChanged(String),
    BaseHpChanged(String),
}

#[derive(Debug, Clone)]
pub enum ThresholdFirstMessage {
    HpChanged(String),
}

#[derive(Debug, Clone)]
pub enum ThresholdSecondMessage {
    HprRawChanged(String),
    HprPctChanged(String),
    MrChanged(String),
    LsChanged(String),
    MsChanged(String),
    SpdChanged(String),
    SdRawChanged(String),
    SdPctChanged(String),
    HprChanged(String),
    ExpBonusChanged(String),
}

#[derive(Debug, Clone)]
pub enum ThresholdThirdMessage {
    EarthDefChanged(String),
    ThunderDefChanged(String),
    WaterDefChanged(String),
    FireDefChanged(String),
    AirDefChanged(String),
}

#[derive(Debug, Clone)]
pub enum ThresholdFourthMessage {
    NeutralDamPctChanged(String),
    EarthDamPctChanged(String),
    ThunderDamPctChanged(String),
    WaterDamPctChanged(String),
    FireDamPctChanged(String),
    AirDamPctChanged(String),
}

#[derive(Debug, Clone)]
pub enum ThresholdFifthMessage {
    EarthPointChanged(String),
    ThunderPointChanged(String),
    WaterPointChanged(String),
    FirePointChanged(String),
    AirPointChanged(String),
    EhpChanged(String),
}

#[derive(Debug, Clone)]
pub enum HppengMessage {
    UrlPrefixChanged(String),
    UrlSuffixChanged(String),
    DbPathChanged(String),
    MigrationsPathChanged(String),
    ItemsFileChanged(String),
    LogBuildsChanged(bool),
    LogDbErrorsChanged(bool),
    DbRetryCountChanged(String),
}

/// Edits of the configuration form, by section.
#[derive(Debug, Clone)]
pub enum ConfigMessage {
    Gear(GearMessage),
    Player(PlayerMessage),
    ThresholdFirst(ThresholdFirstMessage),
    ThresholdSecond(ThresholdSecondMessage),
    ThresholdThird(ThresholdThirdMessage),
    ThresholdFourth(ThresholdFourthMessage),
    ThresholdFifth(ThresholdFifthMessage),
    Hppeng(HppengMessage),
}

} // verus!
