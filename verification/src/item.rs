//! The item types of the game database, and what a missing item means.

use vstd::prelude::*;

use crate::game::Game;
use crate::vic3::data::DbItemKind;
use crate::report::{Confidence, Severity};

verus! {

/// The types of items that scripts refer to by name.
#[derive(Clone, Copy, Debug, PartialEq, Eq, Hash, Structural)]
pub enum Item {
    Accessory,
    AccessoryTag,
    AccessoryVariation,
    AccessoryVariationLayout,
    AccessoryVariationTextures,
    AiStrategicRegionStanceType,
    ArmyDiorama,
    BattleCondition,
    BuildingType,
    CharacterRole,
    Coa,
    CoaColorList,
    CoaColoredEmblemList,
    CoaPatternList,
    CoaTemplate,
    CoaTemplateList,
    CoaTexturedEmblemList,
    CombatUnit,
    CombatUnitGroup,
    Country,
    Culture,
    CustomLocalization,
    Define,
    EffectLocalization,
    Entity,
    Ethnicity,
    File,
    FleetDiorama,
    FleetEntity,
    GameConcept,
    Goods,
    GuiTemplate,
    GuiType,
    InterestTierType,
    JournalEntry,
    JournalEntryGroup,
    LawType,
    Localization,
    MapEnvironment,
    MapLayer,
    Modifier,
    ModifierTypeDefinition,
    NamedColor,
    NavalBattleCondition,
    NavalMissionType,
    PortraitAnimation,
    PortraitCamera,
    PortraitEnvironment,
    Province,
    ScriptedButton,
    ScriptedProgressBar,
    ShipGroup,
    ShipModification,
    ShipModificationSlot,
    ShipNameDefinition,
    ShipType,
    ShipVeterancyLevel,
    Sound,
    Sprite,
    StateRegion,
    StateTrait,
    StraitDefinition,
    Technology,
    TerrainManipulator,
    TerrainMask,
    TerrainMaterial,
    TextFormat,
    TextIcon,
    TextureFile,
    TreatyArticle,
    TriggerLocalization,
    TutorialLesson,
}

/// The name of an item type, as written in its declaration.
pub open spec fn spec_item_name(item: Item) -> Seq<char> {
    match item {
        Item::Accessory => "Accessory"@,
        Item::AccessoryTag => "AccessoryTag"@,
        Item::AccessoryVariation => "AccessoryVariation"@,
        Item::AccessoryVariationLayout => "AccessoryVariationLayout"@,
        Item::AccessoryVariationTextures => "AccessoryVariationTextures"@,
        Item::AiStrategicRegionStanceType => "AiStrategicRegionStanceType"@,
        Item::ArmyDiorama => "ArmyDiorama"@,
        Item::BattleCondition => "BattleCondition"@,
        Item::BuildingType => "BuildingType"@,
        Item::CharacterRole => "CharacterRole"@,
        Item::Coa => "Coa"@,
        Item::CoaColorList => "CoaColorList"@,
        Item::CoaColoredEmblemList => "CoaColoredEmblemList"@,
        Item::CoaPatternList => "CoaPatternList"@,
        Item::CoaTemplate => "CoaTemplate"@,
        Item::CoaTemplateList => "CoaTemplateList"@,
        Item::CoaTexturedEmblemList => "CoaTexturedEmblemList"@,
        Item::CombatUnit => "CombatUnit"@,
        Item::CombatUnitGroup => "CombatUnitGroup"@,
        Item::Country => "Country"@,
        Item::Culture => "Culture"@,
        Item::CustomLocalization => "CustomLocalization"@,
        Item::Define => "Define"@,
        Item::EffectLocalization => "EffectLocalization"@,
        Item::Entity => "Entity"@,
        Item::Ethnicity => "Ethnicity"@,
        Item::File => "File"@,
        Item::FleetDiorama => "FleetDiorama"@,
        Item::FleetEntity => "FleetEntity"@,
        Item::GameConcept => "GameConcept"@,
        Item::Goods => "Goods"@,
        Item::GuiTemplate => "GuiTemplate"@,
        Item::GuiType => "GuiType"@,
        Item::InterestTierType => "InterestTierType"@,
        Item::JournalEntry => "JournalEntry"@,
        Item::JournalEntryGroup => "JournalEntryGroup"@,
        Item::LawType => "LawType"@,
        Item::Localization => "Localization"@,
        Item::MapEnvironment => "MapEnvironment"@,
        Item::MapLayer => "MapLayer"@,
        Item::Modifier => "Modifier"@,
        Item::ModifierTypeDefinition => "ModifierTypeDefinition"@,
        Item::NamedColor => "NamedColor"@,
        Item::NavalBattleCondition => "NavalBattleCondition"@,
        Item::NavalMissionType => "NavalMissionType"@,
        Item::PortraitAnimation => "PortraitAnimation"@,
        Item::PortraitCamera => "PortraitCamera"@,
        Item::PortraitEnvironment => "PortraitEnvironment"@,
        Item::Province => "Province"@,
        Item::ScriptedButton => "ScriptedButton"@,
        Item::ScriptedProgressBar => "ScriptedProgressBar"@,
        Item::ShipGroup => "ShipGroup"@,
        Item::ShipModification => "ShipModification"@,
        Item::ShipModificationSlot => "ShipModificationSlot"@,
        Item::ShipNameDefinition => "ShipNameDefinition"@,
        Item::ShipType => "ShipType"@,
        Item::ShipVeterancyLevel => "ShipVeterancyLevel"@,
        Item::Sound => "Sound"@,
        Item::Sprite => "Sprite"@,
        Item::StateRegion => "StateRegion"@,
        Item::StateTrait => "StateTrait"@,
        Item::StraitDefinition => "StraitDefinition"@,
        Item::Technology => "Technology"@,
        Item::TerrainManipulator => "TerrainManipulator"@,
        Item::TerrainMask => "TerrainMask"@,
        Item::TerrainMaterial => "TerrainMaterial"@,
        Item::TextFormat => "TextFormat"@,
        Item::TextIcon => "TextIcon"@,
        Item::TextureFile => "TextureFile"@,
        Item::TreatyArticle => "TreatyArticle"@,
        Item::TriggerLocalization => "TriggerLocalization"@,
        Item::TutorialLesson => "TutorialLesson"@,
    }
}

/// The name of an item type, as written in its declaration.
pub fn item_name(item: Item) -> (res: &'static str)
    ensures
        res@ == spec_item_name(item),
{
    match item {
        Item::Accessory => "Accessory",
        Item::AccessoryTag => "AccessoryTag",
        Item::AccessoryVariation => "AccessoryVariation",
        Item::AccessoryVariationLayout => "AccessoryVariationLayout",
        Item::AccessoryVariationTextures => "AccessoryVariationTextures",
        Item::AiStrategicRegionStanceType => "AiStrategicRegionStanceType",
        Item::ArmyDiorama => "ArmyDiorama",
        Item::BattleCondition => "BattleCondition",
        Item::BuildingType => "BuildingType",
        Item::CharacterRole => "CharacterRole",
        Item::Coa => "Coa",
        Item::CoaColorList => "CoaColorList",
        Item::CoaColoredEmblemList => "CoaColoredEmblemList",
        Item::CoaPatternList => "CoaPatternList",
        Item::CoaTemplate => "CoaTemplate",
        Item::CoaTemplateList => "CoaTemplateList",
        Item::CoaTexturedEmblemList => "CoaTexturedEmblemList",
        Item::CombatUnit => "CombatUnit",
        Item::CombatUnitGroup => "CombatUnitGroup",
        Item::Country => "Country",
        Item::Culture => "Culture",
        Item::CustomLocalization => "CustomLocalization",
        Item::Define => "Define",
        Item::EffectLocalization => "EffectLocalization",
        Item::Entity => "Entity",
        Item::Ethnicity => "Ethnicity",
        Item::File => "File",
        Item::FleetDiorama => "FleetDiorama",
        Item::FleetEntity => "FleetEntity",
        Item::GameConcept => "GameConcept",
        Item::Goods => "Goods",
        Item::GuiTemplate => "GuiTemplate",
        Item::GuiType => "GuiType",
        Item::InterestTierType => "InterestTierType",
        Item::JournalEntry => "JournalEntry",
        Item::JournalEntryGroup => "JournalEntryGroup",
        Item::LawType => "LawType",
        Item::Localization => "Localization",
        Item::MapEnvironment => "MapEnvironment",
        Item::MapLayer => "MapLayer",
        Item::Modifier => "Modifier",
        Item::ModifierTypeDefinition => "ModifierTypeDefinition",
        Item::NamedColor => "NamedColor",
        Item::NavalBattleCondition => "NavalBattleCondition",
        Item::NavalMissionType => "NavalMissionType",
        Item::PortraitAnimation => "PortraitAnimation",
        Item::PortraitCamera => "PortraitCamera",
        Item::PortraitEnvironment => "PortraitEnvironment",
        Item::Province => "Province",
        Item::ScriptedButton => "ScriptedButton",
        Item::ScriptedProgressBar => "ScriptedProgressBar",
        Item::ShipGroup => "ShipGroup",
        Item::ShipModification => "ShipModification",
        Item::ShipModificationSlot => "ShipModificationSlot",
        Item::ShipNameDefinition => "ShipNameDefinition",
        Item::ShipType => "ShipType",
        Item::ShipVeterancyLevel => "ShipVeterancyLevel",
        Item::Sound => "Sound",
        Item::Sprite => "Sprite",
        Item::StateRegion => "StateRegion",
        Item::StateTrait => "StateTrait",
        Item::StraitDefinition => "StraitDefinition",
        Item::Technology => "Technology",
        Item::TerrainManipulator => "TerrainManipulator",
        Item::TerrainMask => "TerrainMask",
        Item::TerrainMaterial => "TerrainMaterial",
        Item::TextFormat => "TextFormat",
        Item::TextIcon => "TextIcon",
        Item::TextureFile => "TextureFile",
        Item::TreatyArticle => "TreatyArticle",
        Item::TriggerLocalization => "TriggerLocalization",
        Item::TutorialLesson => "TutorialLesson",
    }
}

/// Items whose absence only affects visuals or presentation in games built on
/// the Jomini engine (Vic3).
pub open spec fn jomini_presentation_item(item: Item) -> bool {
    item is Accessory || item is AccessoryTag || item is AccessoryVariation || item is AccessoryVariationLayout
        || item is AccessoryVariationTextures || item is Coa || item is CoaColorList || item is CoaColoredEmblemList
        || item is CoaPatternList || item is CoaTemplate || item is CoaTemplateList || item is CoaTexturedEmblemList
        || item is CustomLocalization || item is EffectLocalization || item is Ethnicity || item is GameConcept
        || item is NamedColor || item is PortraitAnimation || item is PortraitCamera || item is PortraitEnvironment
        || item is Sound || item is TextFormat || item is TextIcon || item is TextureFile || item is TriggerLocalization
}

/// Vic3 items whose absence only affects visuals.
pub open spec fn vic3_presentation_item(item: Item) -> bool {
    item is MapLayer || item is ModifierTypeDefinition || item is TerrainManipulator || item is TerrainMask
        || item is TerrainMaterial
}

/// The confidence of a report that an item of this type is missing.
pub open spec fn spec_item_confidence(item: Item) -> Confidence {
    if item is AccessoryTag || item is GuiType || item is GuiTemplate || item is Sound {
        Confidence::Weak
    } else {
        Confidence::Strong
    }
}

/// The severity of a report that an item of this type is missing.
pub open spec fn spec_item_severity(item: Item, game: Game) -> Severity {
    if item is GuiType || item is GuiTemplate {
        Severity::Untidy
    } else if item is File || item is Localization || item is MapEnvironment {
        Severity::Warning
    } else if game is Vic3 && (jomini_presentation_item(item) || vic3_presentation_item(item)) {
        Severity::Warning
    } else if game is Hoi4 && item is Sprite {
        Severity::Warning
    } else {
        Severity::Error
    }
}

/// What it means when an item is missing.
pub trait ItemExt {
    /// Confidence to use when reporting that an item is missing.
    fn confidence(self) -> Confidence;

    /// Severity to use when reporting that an item is missing:
    /// `Untidy` for things that hardly matter, `Warning` for things that only
    /// affect visuals or presentation, `Error` for most things.
    fn severity(self, game: Game) -> Severity;
}

impl ItemExt for Item {
    fn confidence(self) -> (res: Confidence)
        ensures
            res == spec_item_confidence(self),
    {
        match self {
            Item::AccessoryTag => Confidence::Weak,
            // Referring to templates of other mods is a common compatibility technique.
            Item::GuiType | Item::GuiTemplate | Item::Sound => Confidence::Weak,
            _ => Confidence::Strong,
        }
    }

    fn severity(self, game: Game) -> (res: Severity)
        ensures
            res == spec_item_severity(self, game),
    {
        match self {
            Item::GuiType | Item::GuiTemplate => Severity::Untidy,
            Item::File | Item::Localization | Item::MapEnvironment => Severity::Warning,
            Item::Accessory | Item::AccessoryTag | Item::AccessoryVariation | Item::AccessoryVariationLayout
            | Item::AccessoryVariationTextures | Item::Coa | Item::CoaColorList | Item::CoaColoredEmblemList
            | Item::CoaPatternList | Item::CoaTemplate | Item::CoaTemplateList | Item::CoaTexturedEmblemList
            | Item::CustomLocalization | Item::EffectLocalization | Item::Ethnicity | Item::GameConcept
            | Item::NamedColor | Item::PortraitAnimation | Item::PortraitCamera | Item::PortraitEnvironment
            | Item::Sound | Item::TextFormat | Item::TextIcon | Item::TextureFile | Item::TriggerLocalization
            | Item::MapLayer | Item::ModifierTypeDefinition | Item::TerrainManipulator | Item::TerrainMask
            | Item::TerrainMaterial => match game {
                Game::Vic3 => Severity::Warning,
                Game::Hoi4 => Severity::Error,
            },
            Item::Sprite => match game {
                Game::Hoi4 => Severity::Warning,
                Game::Vic3 => Severity::Error,
            },
            _ => Severity::Error,
        }
    }
}

/// Whether a whole file is loaded as one item, or as a series of items.
#[derive(Clone, Copy, Debug, PartialEq, Eq, Structural)]
pub enum LoadAsFile {
    Yes,
    No,
}

/// Whether subfolders of an item type's folder are loaded too; `Maybe` means
/// that the game decides.
#[derive(Clone, Copy, Debug, PartialEq, Eq, Structural)]
pub enum Recursive {
    Yes,
    No,
    Maybe,
}

/// A set of games.
#[derive(Clone, Copy, Debug, PartialEq, Eq, Structural)]
pub struct GameFlags {
    pub vic3: bool,
    pub hoi4: bool,
}

impl GameFlags {
    /// Whether `game` is in the set.
    pub open spec fn has(self, game: Game) -> bool {
        match game {
            Game::Vic3 => self.vic3,
            Game::Hoi4 => self.hoi4,
        }
    }

    /// The set of just `game`.
    pub fn from_game(game: Game) -> (res: GameFlags)
        ensures
            forall|g: Game| res.has(g) <==> g == game,
    {
        match game {
            Game::Vic3 => GameFlags { vic3: true, hoi4: false },
            Game::Hoi4 => GameFlags { vic3: false, hoi4: true },
        }
    }

    /// Whether `game` is in the set.
    pub fn contains(&self, game: Game) -> (res: bool)
        ensures
            res == self.has(game),
    {
        match game {
            Game::Vic3 => self.vic3,
            Game::Hoi4 => self.hoi4,
        }
    }
}

/// How the script files of an item type are encoded.
#[derive(Clone, Copy, Debug, PartialEq, Eq, Structural)]
pub enum PdxEncoding {
    /// UTF-8 with a byte order mark.
    Utf8Bom,
    /// UTF-8 without a byte order mark.
    Utf8NoBom,
}

/// How the files of an item type are found and loaded into the database:
/// the games it is for, the item type (whose folder is read), and the kind
/// of item that each definition is added as. `Full` also gives the files'
/// encoding, their extension (with the dot), whether a whole file is one
/// item, and whether subfolders are read.
#[derive(Clone, Copy, Debug)]
pub enum ItemLoader {
    Normal(GameFlags, Item, DbItemKind),
    Full(GameFlags, Item, PdxEncoding, &'static str, LoadAsFile, Recursive, DbItemKind),
}

impl ItemLoader {
    /// Whether this loader is used for `game`.
    pub fn for_game(&self, game: Game) -> (res: bool)
        ensures
            res == match *self {
                ItemLoader::Normal(f, _, _) => f.has(game),
                ItemLoader::Full(f, _, _, _, _, _, _) => f.has(game),
            },
    {
        match self {
            ItemLoader::Normal(f, _, _) | ItemLoader::Full(f, _, _, _, _, _, _) => f.contains(game),
        }
    }

    /// The item type whose folder is read.
    pub fn itype(&self) -> (res: Item)
        ensures
            res == match *self {
                ItemLoader::Normal(_, i, _) => i,
                ItemLoader::Full(_, i, _, _, _, _, _) => i,
            },
    {
        match self {
            ItemLoader::Normal(_, i, _) | ItemLoader::Full(_, i, _, _, _, _, _) => *i,
        }
    }

    /// The encoding of the files: for `Normal` loaders, UTF-8 without a byte
    /// order mark in Hearts of Iron IV and with one elsewhere.
    pub fn encoding(&self, game: Game) -> (res: PdxEncoding)
        ensures
            res == match *self {
                ItemLoader::Normal(_, _, _) => if game is Hoi4 { PdxEncoding::Utf8NoBom } else { PdxEncoding::Utf8Bom },
                ItemLoader::Full(_, _, e, _, _, _, _) => e,
            },
    {
        match self {
            ItemLoader::Normal(_, _, _) => match game {
                Game::Hoi4 => PdxEncoding::Utf8NoBom,
                Game::Vic3 => PdxEncoding::Utf8Bom,
            },
            ItemLoader::Full(_, _, e, _, _, _, _) => *e,
        }
    }

    /// The extension of the files, with the dot: `.txt` for `Normal` loaders.
    pub fn extension(&self) -> (res: &'static str)
        ensures
            res@ == match *self {
                ItemLoader::Normal(_, _, _) => ".txt"@,
                ItemLoader::Full(_, _, _, x, _, _, _) => x@,
            },
    {
        match self {
            ItemLoader::Normal(_, _, _) => ".txt",
            ItemLoader::Full(_, _, _, x, _, _, _) => x,
        }
    }

    /// Whether a whole file is loaded as one item.
    pub fn whole_file(&self) -> (res: bool)
        ensures
            res == match *self {
                ItemLoader::Normal(_, _, _) => false,
                ItemLoader::Full(_, _, _, _, l, _, _) => l is Yes,
            },
    {
        match self {
            ItemLoader::Normal(_, _, _) => false,
            ItemLoader::Full(_, _, _, _, l, _, _) => match l {
                LoadAsFile::Yes => true,
                LoadAsFile::No => false,
            },
        }
    }

    /// Whether subfolders are read too. Only `Recursive::Yes` asks for them:
    /// the games handled here read the subfolders of no item type's folder
    /// by default.
    pub fn recursive(&self) -> (res: bool)
        ensures
            res == match *self {
                ItemLoader::Normal(_, _, _) => false,
                ItemLoader::Full(_, _, _, _, _, r, _) => r is Yes,
            },
    {
        match self {
            ItemLoader::Normal(_, _, _) => false,
            ItemLoader::Full(_, _, _, _, _, r, _) => match r {
                Recursive::Yes => true,
                Recursive::No | Recursive::Maybe => false,
            },
        }
    }

    /// The kind of item that each definition is added as (see
    /// [`DbItemKind::add`]).
    pub fn adder(&self) -> (res: DbItemKind)
        ensures
            res == match *self {
                ItemLoader::Normal(_, _, k) => k,
                ItemLoader::Full(_, _, _, _, _, _, k) => k,
            },
    {
        match self {
            ItemLoader::Normal(_, _, k) | ItemLoader::Full(_, _, _, _, _, _, k) => *k,
        }
    }
}

} // verus!
