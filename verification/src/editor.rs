//! The skin editor: its scenes, the skin elements that it can select and
//! edit, and which positions a drag of each element moves.
use vstd::prelude::*;
use vstd::string::*;

use crate::model::Judgement;
use crate::text::{after_last_separator, after_last_separator_str, decimal, push_decimal, str_eq};

verus! {

/// The scenes that the skin editor can preview.
#[derive(Debug, PartialEq, Eq, Clone, Copy, Structural)]
pub enum EditorScene {
    Gameplay4K,
    Gameplay7K,
    SongSelect,
    ResultScreen,
}

impl EditorScene {
    /// The name that the scene selector shows.
    pub open spec fn name_spec(self) -> Seq<char> {
        match self {
            EditorScene::Gameplay4K => "Gameplay (4K)"@,
            EditorScene::Gameplay7K => "Gameplay (7K)"@,
            EditorScene::SongSelect => "Song Select"@,
            EditorScene::ResultScreen => "Result Screen"@,
        }
    }

    /// The name that the scene selector shows.
    pub fn name(&self) -> (r: &'static str)
        ensures
            r@ == self.name_spec(),
    {
        match self {
            EditorScene::Gameplay4K => "Gameplay (4K)",
            EditorScene::Gameplay7K => "Gameplay (7K)",
            EditorScene::SongSelect => "Song Select",
            EditorScene::ResultScreen => "Result Screen",
        }
    }
}

/// The right-hand panel that lists the scene's elements.
pub struct AssetBrowser;

impl AssetBrowser {
    pub fn new() -> (r: Self) {
        AssetBrowser
    }
}

/// The left-hand panel that edits the selected element.
pub struct ElementInspector;

impl ElementInspector {
    pub fn new() -> (r: Self) {
        ElementInspector
    }
}

/// The central preview of the game, where elements are clicked and dragged.
pub struct GamePreviewViewport;

impl GamePreviewViewport {
    pub fn new() -> (r: Self) {
        GamePreviewViewport
    }
}

/// The skin elements that the editor lists, selects and edits.
#[derive(Debug, PartialEq, Eq, Clone, Copy, Structural)]
pub enum SkinElement {
    NotesDefault,
    HoldBody,
    HoldEnd,
    BurstBody,
    BurstEnd,
    Mines,
    ReceptorsDefault,
    HitBar,
    Playfield,
    Columns4K,
    Columns5K,
    Columns6K,
    Columns7K,
    ScoreDisplay,
    ComboCounter,
    Accuracy,
    NpsDisplay,
    NotesRemaining,
    ScrollSpeed,
    TimeLeft,
    FlashAll,
    FlashMarvelous,
    FlashPerfect,
    FlashGreat,
    FlashGood,
    FlashBad,
    FlashMiss,
    FlashGhostTap,
    JudgementPanel,
    Background,
    SongButton,
    SongButtonSelected,
    DifficultyButton,
    SearchBar,
    SearchPanel,
    BeatmapInfo,
    Leaderboard,
    PanelStyle,
    SkinInfo,
    Font,
}

/// The identifier under which an element is selected.
pub open spec fn element_id_spec(e: SkinElement) -> Seq<char> {
    match e {
            SkinElement::NotesDefault => "Notes - Default"@,
            SkinElement::HoldBody => "Hold - Body"@,
            SkinElement::HoldEnd => "Hold - End"@,
            SkinElement::BurstBody => "Burst - Body"@,
            SkinElement::BurstEnd => "Burst - End"@,
            SkinElement::Mines => "💣 Mines"@,
            SkinElement::ReceptorsDefault => "Receptors - Default"@,
            SkinElement::HitBar => "📊 Hit Bar"@,
            SkinElement::Playfield => "🎮 Playfield"@,
            SkinElement::Columns4K => "🎹 4K Columns"@,
            SkinElement::Columns5K => "🎹 5K Columns"@,
            SkinElement::Columns6K => "🎹 6K Columns"@,
            SkinElement::Columns7K => "🎹 7K Columns"@,
            SkinElement::ScoreDisplay => "Score Display"@,
            SkinElement::ComboCounter => "Combo Counter"@,
            SkinElement::Accuracy => "Accuracy"@,
            SkinElement::NpsDisplay => "NPS Display"@,
            SkinElement::NotesRemaining => "📝 Notes Remaining"@,
            SkinElement::ScrollSpeed => "⚡ Scroll Speed"@,
            SkinElement::TimeLeft => "⏱️ Time Left"@,
            SkinElement::FlashAll => "Flash - All"@,
            SkinElement::FlashMarvelous => "Flash - Marvelous"@,
            SkinElement::FlashPerfect => "Flash - Perfect"@,
            SkinElement::FlashGreat => "Flash - Great"@,
            SkinElement::FlashGood => "Flash - Good"@,
            SkinElement::FlashBad => "Flash - Bad"@,
            SkinElement::FlashMiss => "Flash - Miss"@,
            SkinElement::FlashGhostTap => "Flash - Ghost Tap"@,
            SkinElement::JudgementPanel => "📋 Judgement Panel"@,
            SkinElement::Background => "Background"@,
            SkinElement::SongButton => "Song Button"@,
            SkinElement::SongButtonSelected => "Song Button Selected"@,
            SkinElement::DifficultyButton => "Difficulty Button"@,
            SkinElement::SearchBar => "Search Bar"@,
            SkinElement::SearchPanel => "Search Panel"@,
            SkinElement::BeatmapInfo => "Beatmap Info"@,
            SkinElement::Leaderboard => "Leaderboard"@,
            SkinElement::PanelStyle => "🎨 Panel Style"@,
            SkinElement::SkinInfo => "Skin Info"@,
            SkinElement::Font => "Font"@,
    }
}

/// The element that an identifier selects, if any.
pub open spec fn element_from_id_spec(id: Seq<char>) -> Option<SkinElement> {
    if id == "Notes - Default"@ {
        Some(SkinElement::NotesDefault)
    } else if id == "Hold - Body"@ {
        Some(SkinElement::HoldBody)
    } else if id == "Hold - End"@ {
        Some(SkinElement::HoldEnd)
    } else if id == "Burst - Body"@ {
        Some(SkinElement::BurstBody)
    } else if id == "Burst - End"@ {
        Some(SkinElement::BurstEnd)
    } else if id == "💣 Mines"@ {
        Some(SkinElement::Mines)
    } else if id == "Receptors - Default"@ {
        Some(SkinElement::ReceptorsDefault)
    } else if id == "📊 Hit Bar"@ {
        Some(SkinElement::HitBar)
    } else if id == "🎮 Playfield"@ {
        Some(SkinElement::Playfield)
    } else if id == "🎹 4K Columns"@ {
        Some(SkinElement::Columns4K)
    } else if id == "🎹 5K Columns"@ {
        Some(SkinElement::Columns5K)
    } else if id == "🎹 6K Columns"@ {
        Some(SkinElement::Columns6K)
    } else if id == "🎹 7K Columns"@ {
        Some(SkinElement::Columns7K)
    } else if id == "Score Display"@ {
        Some(SkinElement::ScoreDisplay)
    } else if id == "Combo Counter"@ {
        Some(SkinElement::ComboCounter)
    } else if id == "Accuracy"@ {
        Some(SkinElement::Accuracy)
    } else if id == "NPS Display"@ {
        Some(SkinElement::NpsDisplay)
    } else if id == "📝 Notes Remaining"@ {
        Some(SkinElement::NotesRemaining)
    } else if id == "⚡ Scroll Speed"@ {
        Some(SkinElement::ScrollSpeed)
    } else if id == "⏱️ Time Left"@ {
        Some(SkinElement::TimeLeft)
    } else if id == "Flash - All"@ {
        Some(SkinElement::FlashAll)
    } else if id == "Flash - Marvelous"@ {
        Some(SkinElement::FlashMarvelous)
    } else if id == "Flash - Perfect"@ {
        Some(SkinElement::FlashPerfect)
    } else if id == "Flash - Great"@ {
        Some(SkinElement::FlashGreat)
    } else if id == "Flash - Good"@ {
        Some(SkinElement::FlashGood)
    } else if id == "Flash - Bad"@ {
        Some(SkinElement::FlashBad)
    } else if id == "Flash - Miss"@ {
        Some(SkinElement::FlashMiss)
    } else if id == "Flash - Ghost Tap"@ {
        Some(SkinElement::FlashGhostTap)
    } else if id == "📋 Judgement Panel"@ {
        Some(SkinElement::JudgementPanel)
    } else if id == "Background"@ {
        Some(SkinElement::Background)
    } else if id == "Song Button"@ {
        Some(SkinElement::SongButton)
    } else if id == "Song Button Selected"@ {
        Some(SkinElement::SongButtonSelected)
    } else if id == "Difficulty Button"@ {
        Some(SkinElement::DifficultyButton)
    } else if id == "Search Bar"@ {
        Some(SkinElement::SearchBar)
    } else if id == "Search Panel"@ {
        Some(SkinElement::SearchPanel)
    } else if id == "Beatmap Info"@ {
        Some(SkinElement::BeatmapInfo)
    } else if id == "Leaderboard"@ {
        Some(SkinElement::Leaderboard)
    } else if id == "🎨 Panel Style"@ {
        Some(SkinElement::PanelStyle)
    } else if id == "Skin Info"@ {
        Some(SkinElement::SkinInfo)
    } else if id == "Font"@ {
        Some(SkinElement::Font)
    } else {
        None
    }
}

impl SkinElement {
    /// The identifier under which the element is selected.
    pub fn id(&self) -> (r: &'static str)
        ensures
            r@ == element_id_spec(*self),
    {
        match self {
            SkinElement::NotesDefault => "Notes - Default",
            SkinElement::HoldBody => "Hold - Body",
            SkinElement::HoldEnd => "Hold - End",
            SkinElement::BurstBody => "Burst - Body",
            SkinElement::BurstEnd => "Burst - End",
            SkinElement::Mines => "💣 Mines",
            SkinElement::ReceptorsDefault => "Receptors - Default",
            SkinElement::HitBar => "📊 Hit Bar",
            SkinElement::Playfield => "🎮 Playfield",
            SkinElement::Columns4K => "🎹 4K Columns",
            SkinElement::Columns5K => "🎹 5K Columns",
            SkinElement::Columns6K => "🎹 6K Columns",
            SkinElement::Columns7K => "🎹 7K Columns",
            SkinElement::ScoreDisplay => "Score Display",
            SkinElement::ComboCounter => "Combo Counter",
            SkinElement::Accuracy => "Accuracy",
            SkinElement::NpsDisplay => "NPS Display",
            SkinElement::NotesRemaining => "📝 Notes Remaining",
            SkinElement::ScrollSpeed => "⚡ Scroll Speed",
            SkinElement::TimeLeft => "⏱️ Time Left",
            SkinElement::FlashAll => "Flash - All",
            SkinElement::FlashMarvelous => "Flash - Marvelous",
            SkinElement::FlashPerfect => "Flash - Perfect",
            SkinElement::FlashGreat => "Flash - Great",
            SkinElement::FlashGood => "Flash - Good",
            SkinElement::FlashBad => "Flash - Bad",
            SkinElement::FlashMiss => "Flash - Miss",
            SkinElement::FlashGhostTap => "Flash - Ghost Tap",
            SkinElement::JudgementPanel => "📋 Judgement Panel",
            SkinElement::Background => "Background",
            SkinElement::SongButton => "Song Button",
            SkinElement::SongButtonSelected => "Song Button Selected",
            SkinElement::DifficultyButton => "Difficulty Button",
            SkinElement::SearchBar => "Search Bar",
            SkinElement::SearchPanel => "Search Panel",
            SkinElement::BeatmapInfo => "Beatmap Info",
            SkinElement::Leaderboard => "Leaderboard",
            SkinElement::PanelStyle => "🎨 Panel Style",
            SkinElement::SkinInfo => "Skin Info",
            SkinElement::Font => "Font",
        }
    }
}

/// The element that an identifier selects, if any.
pub fn element_from_id(id: &str) -> (r: Option<SkinElement>)
    ensures
        r == element_from_id_spec(id@),
{
    if str_eq(id, "Notes - Default") {
        Some(SkinElement::NotesDefault)
    } else if str_eq(id, "Hold - Body") {
        Some(SkinElement::HoldBody)
    } else if str_eq(id, "Hold - End") {
        Some(SkinElement::HoldEnd)
    } else if str_eq(id, "Burst - Body") {
        Some(SkinElement::BurstBody)
    } else if str_eq(id, "Burst - End") {
        Some(SkinElement::BurstEnd)
    } else if str_eq(id, "💣 Mines") {
        Some(SkinElement::Mines)
    } else if str_eq(id, "Receptors - Default") {
        Some(SkinElement::ReceptorsDefault)
    } else if str_eq(id, "📊 Hit Bar") {
        Some(SkinElement::HitBar)
    } else if str_eq(id, "🎮 Playfield") {
        Some(SkinElement::Playfield)
    } else if str_eq(id, "🎹 4K Columns") {
        Some(SkinElement::Columns4K)
    } else if str_eq(id, "🎹 5K Columns") {
        Some(SkinElement::Columns5K)
    } else if str_eq(id, "🎹 6K Columns") {
        Some(SkinElement::Columns6K)
    } else if str_eq(id, "🎹 7K Columns") {
        Some(SkinElement::Columns7K)
    } else if str_eq(id, "Score Display") {
        Some(SkinElement::ScoreDisplay)
    } else if str_eq(id, "Combo Counter") {
        Some(SkinElement::ComboCounter)
    } else if str_eq(id, "Accuracy") {
        Some(SkinElement::Accuracy)
    } else if str_eq(id, "NPS Display") {
        Some(SkinElement::NpsDisplay)
    } else if str_eq(id, "📝 Notes Remaining") {
        Some(SkinElement::NotesRemaining)
    } else if str_eq(id, "⚡ Scroll Speed") {
        Some(SkinElement::ScrollSpeed)
    } else if str_eq(id, "⏱️ Time Left") {
        Some(SkinElement::TimeLeft)
    } else if str_eq(id, "Flash - All") {
        Some(SkinElement::FlashAll)
    } else if str_eq(id, "Flash - Marvelous") {
        Some(SkinElement::FlashMarvelous)
    } else if str_eq(id, "Flash - Perfect") {
        Some(SkinElement::FlashPerfect)
    } else if str_eq(id, "Flash - Great") {
        Some(SkinElement::FlashGreat)
    } else if str_eq(id, "Flash - Good") {
        Some(SkinElement::FlashGood)
    } else if str_eq(id, "Flash - Bad") {
        Some(SkinElement::FlashBad)
    } else if str_eq(id, "Flash - Miss") {
        Some(SkinElement::FlashMiss)
    } else if str_eq(id, "Flash - Ghost Tap") {
        Some(SkinElement::FlashGhostTap)
    } else if str_eq(id, "📋 Judgement Panel") {
        Some(SkinElement::JudgementPanel)
    } else if str_eq(id, "Background") {
        Some(SkinElement::Background)
    } else if str_eq(id, "Song Button") {
        Some(SkinElement::SongButton)
    } else if str_eq(id, "Song Button Selected") {
        Some(SkinElement::SongButtonSelected)
    } else if str_eq(id, "Difficulty Button") {
        Some(SkinElement::DifficultyButton)
    } else if str_eq(id, "Search Bar") {
        Some(SkinElement::SearchBar)
    } else if str_eq(id, "Search Panel") {
        Some(SkinElement::SearchPanel)
    } else if str_eq(id, "Beatmap Info") {
        Some(SkinElement::BeatmapInfo)
    } else if str_eq(id, "Leaderboard") {
        Some(SkinElement::Leaderboard)
    } else if str_eq(id, "🎨 Panel Style") {
        Some(SkinElement::PanelStyle)
    } else if str_eq(id, "Skin Info") {
        Some(SkinElement::SkinInfo)
    } else if str_eq(id, "Font") {
        Some(SkinElement::Font)
    } else {
        None
    }
}

/// Each element is found again from its identifier: the identifiers of
/// distinct elements differ.
pub proof fn lemma_element_id_roundtrip(e: SkinElement)
    ensures
        element_from_id_spec(element_id_spec(e)) == Some(e),
{
    match e {
        SkinElement::NotesDefault => {
            reveal_strlit("Notes - Default");
        },
        SkinElement::HoldBody => {
            reveal_strlit("Hold - Body");
            reveal_strlit("Notes - Default");
            assert("Hold - Body"@.len() != "Notes - Default"@.len());
        },
        SkinElement::HoldEnd => {
            reveal_strlit("Hold - End");
            reveal_strlit("Notes - Default");
            assert("Hold - End"@.len() != "Notes - Default"@.len());
            reveal_strlit("Hold - Body");
            assert("Hold - End"@.len() != "Hold - Body"@.len());
        },
        SkinElement::BurstBody => {
            reveal_strlit("Burst - Body");
            reveal_strlit("Notes - Default");
            assert("Burst - Body"@.len() != "Notes - Default"@.len());
            reveal_strlit("Hold - Body");
            assert("Burst - Body"@.len() != "Hold - Body"@.len());
            reveal_strlit("Hold - End");
            assert("Burst - Body"@.len() != "Hold - End"@.len());
        },
        SkinElement::BurstEnd => {
            reveal_strlit("Burst - End");
            reveal_strlit("Notes - Default");
            assert("Burst - End"@.len() != "Notes - Default"@.len());
            reveal_strlit("Hold - Body");
            assert("Burst - End"@[0] != "Hold - Body"@[0]);
            reveal_strlit("Hold - End");
            assert("Burst - End"@.len() != "Hold - End"@.len());
            reveal_strlit("Burst - Body");
            assert("Burst - End"@.len() != "Burst - Body"@.len());
        },
        SkinElement::Mines => {
            reveal_strlit("💣 Mines");
            reveal_strlit("Notes - Default");
            assert("💣 Mines"@.len() != "Notes - Default"@.len());
            reveal_strlit("Hold - Body");
            assert("💣 Mines"@.len() != "Hold - Body"@.len());
            reveal_strlit("Hold - End");
            assert("💣 Mines"@.len() != "Hold - End"@.len());
            reveal_strlit("Burst - Body");
            assert("💣 Mines"@.len() != "Burst - Body"@.len());
            reveal_strlit("Burst - End");
            assert("💣 Mines"@.len() != "Burst - End"@.len());
        },
        SkinElement::ReceptorsDefault => {
            reveal_strlit("Receptors - Default");
            reveal_strlit("Notes - Default");
            assert("Receptors - Default"@.len() != "Notes - Default"@.len());
            reveal_strlit("Hold - Body");
            assert("Receptors - Default"@.len() != "Hold - Body"@.len());
            reveal_strlit("Hold - End");
            assert("Receptors - Default"@.len() != "Hold - End"@.len());
            reveal_strlit("Burst - Body");
            assert("Receptors - Default"@.len() != "Burst - Body"@.len());
            reveal_strlit("Burst - End");
            assert("Receptors - Default"@.len() != "Burst - End"@.len());
            reveal_strlit("💣 Mines");
            assert("Receptors - Default"@.len() != "💣 Mines"@.len());
        },
        SkinElement::HitBar => {
            reveal_strlit("📊 Hit Bar");
            reveal_strlit("Notes - Default");
            assert("📊 Hit Bar"@.len() != "Notes - Default"@.len());
            reveal_strlit("Hold - Body");
            assert("📊 Hit Bar"@.len() != "Hold - Body"@.len());
            reveal_strlit("Hold - End");
            assert("📊 Hit Bar"@.len() != "Hold - End"@.len());
            reveal_strlit("Burst - Body");
            assert("📊 Hit Bar"@.len() != "Burst - Body"@.len());
            reveal_strlit("Burst - End");
            assert("📊 Hit Bar"@.len() != "Burst - End"@.len());
            reveal_strlit("💣 Mines");
            assert("📊 Hit Bar"@.len() != "💣 Mines"@.len());
            reveal_strlit("Receptors - Default");
            assert("📊 Hit Bar"@.len() != "Receptors - Default"@.len());
        },
        SkinElement::Playfield => {
            reveal_strlit("🎮 Playfield");
            reveal_strlit("Notes - Default");
            assert("🎮 Playfield"@.len() != "Notes - Default"@.len());
            reveal_strlit("Hold - Body");
            assert("🎮 Playfield"@[0] != "Hold - Body"@[0]);
            reveal_strlit("Hold - End");
            assert("🎮 Playfield"@.len() != "Hold - End"@.len());
            reveal_strlit("Burst - Body");
            assert("🎮 Playfield"@.len() != "Burst - Body"@.len());
            reveal_strlit("Burst - End");
            assert("🎮 Playfield"@[0] != "Burst - End"@[0]);
            reveal_strlit("💣 Mines");
            assert("🎮 Playfield"@.len() != "💣 Mines"@.len());
            reveal_strlit("Receptors - Default");
            assert("🎮 Playfield"@.len() != "Receptors - Default"@.len());
            reveal_strlit("📊 Hit Bar");
            assert("🎮 Playfield"@.len() != "📊 Hit Bar"@.len());
        },
        SkinElement::Columns4K => {
            reveal_strlit("🎹 4K Columns");
            reveal_strlit("Notes - Default");
            assert("🎹 4K Columns"@.len() != "Notes - Default"@.len());
            reveal_strlit("Hold - Body");
            assert("🎹 4K Columns"@.len() != "Hold - Body"@.len());
            reveal_strlit("Hold - End");
            assert("🎹 4K Columns"@.len() != "Hold - End"@.len());
            reveal_strlit("Burst - Body");
            assert("🎹 4K Columns"@[0] != "Burst - Body"@[0]);
            reveal_strlit("Burst - End");
            assert("🎹 4K Columns"@.len() != "Burst - End"@.len());
            reveal_strlit("💣 Mines");
            assert("🎹 4K Columns"@.len() != "💣 Mines"@.len());
            reveal_strlit("Receptors - Default");
            assert("🎹 4K Columns"@.len() != "Receptors - Default"@.len());
            reveal_strlit("📊 Hit Bar");
            assert("🎹 4K Columns"@.len() != "📊 Hit Bar"@.len());
            reveal_strlit("🎮 Playfield");
            assert("🎹 4K Columns"@.len() != "🎮 Playfield"@.len());
        },
        SkinElement::Columns5K => {
            reveal_strlit("🎹 5K Columns");
            reveal_strlit("Notes - Default");
            assert("🎹 5K Columns"@.len() != "Notes - Default"@.len());
            reveal_strlit("Hold - Body");
            assert("🎹 5K Columns"@.len() != "Hold - Body"@.len());
            reveal_strlit("Hold - End");
            assert("🎹 5K Columns"@.len() != "Hold - End"@.len());
            reveal_strlit("Burst - Body");
            assert("🎹 5K Columns"@[0] != "Burst - Body"@[0]);
            reveal_strlit("Burst - End");
            assert("🎹 5K Columns"@.len() != "Burst - End"@.len());
            reveal_strlit("💣 Mines");
            assert("🎹 5K Columns"@.len() != "💣 Mines"@.len());
            reveal_strlit("Receptors - Default");
            assert("🎹 5K Columns"@.len() != "Receptors - Default"@.len());
            reveal_strlit("📊 Hit Bar");
            assert("🎹 5K Columns"@.len() != "📊 Hit Bar"@.len());
            reveal_strlit("🎮 Playfield");
            assert("🎹 5K Columns"@.len() != "🎮 Playfield"@.len());
            reveal_strlit("🎹 4K Columns");
            assert("🎹 5K Columns"@[2] != "🎹 4K Columns"@[2]);
        },
        SkinElement::Columns6K => {
            reveal_strlit("🎹 6K Columns");
            reveal_strlit("Notes - Default");
            assert("🎹 6K Columns"@.len() != "Notes - Default"@.len());
            reveal_strlit("Hold - Body");
            assert("🎹 6K Columns"@.len() != "Hold - Body"@.len());
            reveal_strlit("Hold - End");
            assert("🎹 6K Columns"@.len() != "Hold - End"@.len());
            reveal_strlit("Burst - Body");
            assert("🎹 6K Columns"@[0] != "Burst - Body"@[0]);
            reveal_strlit("Burst - End");
            assert("🎹 6K Columns"@.len() != "Burst - End"@.len());
            reveal_strlit("💣 Mines");
            assert("🎹 6K Columns"@.len() != "💣 Mines"@.len());
            reveal_strlit("Receptors - Default");
            assert("🎹 6K Columns"@.len() != "Receptors - Default"@.len());
            reveal_strlit("📊 Hit Bar");
            assert("🎹 6K Columns"@.len() != "📊 Hit Bar"@.len());
            reveal_strlit("🎮 Playfield");
            assert("🎹 6K Columns"@.len() != "🎮 Playfield"@.len());
            reveal_strlit("🎹 4K Columns");
            assert("🎹 6K Columns"@[2] != "🎹 4K Columns"@[2]);
            reveal_strlit("🎹 5K Columns");
            assert("🎹 6K Columns"@[2] != "🎹 5K Columns"@[2]);
        },
        SkinElement::Columns7K => {
            reveal_strlit("🎹 7K Columns");
            reveal_strlit("Notes - Default");
            assert("🎹 7K Columns"@.len() != "Notes - Default"@.len());
            reveal_strlit("Hold - Body");
            assert("🎹 7K Columns"@.len() != "Hold - Body"@.len());
            reveal_strlit("Hold - End");
            assert("🎹 7K Columns"@.len() != "Hold - End"@.len());
            reveal_strlit("Burst - Body");
            assert("🎹 7K Columns"@[0] != "Burst - Body"@[0]);
            reveal_strlit("Burst - End");
            assert("🎹 7K Columns"@.len() != "Burst - End"@.len());
            reveal_strlit("💣 Mines");
            assert("🎹 7K Columns"@.len() != "💣 Mines"@.len());
            reveal_strlit("Receptors - Default");
            assert("🎹 7K Columns"@.len() != "Receptors - Default"@.len());
            reveal_strlit("📊 Hit Bar");
            assert("🎹 7K Columns"@.len() != "📊 Hit Bar"@.len());
            reveal_strlit("🎮 Playfield");
            assert("🎹 7K Columns"@.len() != "🎮 Playfield"@.len());
            reveal_strlit("🎹 4K Columns");
            assert("🎹 7K Columns"@[2] != "🎹 4K Columns"@[2]);
            reveal_strlit("🎹 5K Columns");
            assert("🎹 7K Columns"@[2] != "🎹 5K Columns"@[2]);
            reveal_strlit("🎹 6K Columns");
            assert("🎹 7K Columns"@[2] != "🎹 6K Columns"@[2]);
        },
        SkinElement::ScoreDisplay => {
            reveal_strlit("Score Display");
            reveal_strlit("Notes - Default");
            assert("Score Display"@.len() != "Notes - Default"@.len());
            reveal_strlit("Hold - Body");
            assert("Score Display"@.len() != "Hold - Body"@.len());
            reveal_strlit("Hold - End");
            assert("Score Display"@.len() != "Hold - End"@.len());
            reveal_strlit("Burst - Body");
            assert("Score Display"@.len() != "Burst - Body"@.len());
            reveal_strlit("Burst - End");
            assert("Score Display"@.len() != "Burst - End"@.len());
            reveal_strlit("💣 Mines");
            assert("Score Display"@.len() != "💣 Mines"@.len());
            reveal_strlit("Receptors - Default");
            assert("Score Display"@.len() != "Receptors - Default"@.len());
            reveal_strlit("📊 Hit Bar");
            assert("Score Display"@.len() != "📊 Hit Bar"@.len());
            reveal_strlit("🎮 Playfield");
            assert("Score Display"@.len() != "🎮 Playfield"@.len());
            reveal_strlit("🎹 4K Columns");
            assert("Score Display"@.len() != "🎹 4K Columns"@.len());
            reveal_strlit("🎹 5K Columns");
            assert("Score Display"@.len() != "🎹 5K Columns"@.len());
            reveal_strlit("🎹 6K Columns");
            assert("Score Display"@.len() != "🎹 6K Columns"@.len());
            reveal_strlit("🎹 7K Columns");
            assert("Score Display"@.len() != "🎹 7K Columns"@.len());
        },
        SkinElement::ComboCounter => {
            reveal_strlit("Combo Counter");
            reveal_strlit("Notes - Default");
            assert("Combo Counter"@.len() != "Notes - Default"@.len());
            reveal_strlit("Hold - Body");
            assert("Combo Counter"@.len() != "Hold - Body"@.len());
            reveal_strlit("Hold - End");
            assert("Combo Counter"@.len() != "Hold - End"@.len());
            reveal_strlit("Burst - Body");
            assert("Combo Counter"@.len() != "Burst - Body"@.len());
            reveal_strlit("Burst - End");
            assert("Combo Counter"@.len() != "Burst - End"@.len());
            reveal_strlit("💣 Mines");
            assert("Combo Counter"@.len() != "💣 Mines"@.len());
            reveal_strlit("Receptors - Default");
            assert("Combo Counter"@.len() != "Receptors - Default"@.len());
            reveal_strlit("📊 Hit Bar");
            assert("Combo Counter"@.len() != "📊 Hit Bar"@.len());
            reveal_strlit("🎮 Playfield");
            assert("Combo Counter"@.len() != "🎮 Playfield"@.len());
            reveal_strlit("🎹 4K Columns");
            assert("Combo Counter"@.len() != "🎹 4K Columns"@.len());
            reveal_strlit("🎹 5K Columns");
            assert("Combo Counter"@.len() != "🎹 5K Columns"@.len());
            reveal_strlit("🎹 6K Columns");
            assert("Combo Counter"@.len() != "🎹 6K Columns"@.len());
            reveal_strlit("🎹 7K Columns");
            assert("Combo Counter"@.len() != "🎹 7K Columns"@.len());
            reveal_strlit("Score Display");
            assert("Combo Counter"@[0] != "Score Display"@[0]);
        },
        SkinElement::Accuracy => {
            reveal_strlit("Accuracy");
            reveal_strlit("Notes - Default");
            assert("Accuracy"@.len() != "Notes - Default"@.len());
            reveal_strlit("Hold - Body");
            assert("Accuracy"@.len() != "Hold - Body"@.len());
            reveal_strlit("Hold - End");
            assert("Accuracy"@.len() != "Hold - End"@.len());
            reveal_strlit("Burst - Body");
            assert("Accuracy"@.len() != "Burst - Body"@.len());
            reveal_strlit("Burst - End");
            assert("Accuracy"@.len() != "Burst - End"@.len());
            reveal_strlit("💣 Mines");
            assert("Accuracy"@.len() != "💣 Mines"@.len());
            reveal_strlit("Receptors - Default");
            assert("Accuracy"@.len() != "Receptors - Default"@.len());
            reveal_strlit("📊 Hit Bar");
            assert("Accuracy"@.len() != "📊 Hit Bar"@.len());
            reveal_strlit("🎮 Playfield");
            assert("Accuracy"@.len() != "🎮 Playfield"@.len());
            reveal_strlit("🎹 4K Columns");
            assert("Accuracy"@.len() != "🎹 4K Columns"@.len());
            reveal_strlit("🎹 5K Columns");
            assert("Accuracy"@.len() != "🎹 5K Columns"@.len());
            reveal_strlit("🎹 6K Columns");
            assert("Accuracy"@.len() != "🎹 6K Columns"@.len());
            reveal_strlit("🎹 7K Columns");
            assert("Accuracy"@.len() != "🎹 7K Columns"@.len());
            reveal_strlit("Score Display");
            assert("Accuracy"@.len() != "Score Display"@.len());
            reveal_strlit("Combo Counter");
            assert("Accuracy"@.len() != "Combo Counter"@.len());
        },
        SkinElement::NpsDisplay => {
            reveal_strlit("NPS Display");
            reveal_strlit("Notes - Default");
            assert("NPS Display"@.len() != "Notes - Default"@.len());
            reveal_strlit("Hold - Body");
            assert("NPS Display"@[0] != "Hold - Body"@[0]);
            reveal_strlit("Hold - End");
            assert("NPS Display"@.len() != "Hold - End"@.len());
            reveal_strlit("Burst - Body");
            assert("NPS Display"@.len() != "Burst - Body"@.len());
            reveal_strlit("Burst - End");
            assert("NPS Display"@[0] != "Burst - End"@[0]);
            reveal_strlit("💣 Mines");
            assert("NPS Display"@.len() != "💣 Mines"@.len());
            reveal_strlit("Receptors - Default");
            assert("NPS Display"@.len() != "Receptors - Default"@.len());
            reveal_strlit("📊 Hit Bar");
            assert("NPS Display"@.len() != "📊 Hit Bar"@.len());
            reveal_strlit("🎮 Playfield");
            assert("NPS Display"@[0] != "🎮 Playfield"@[0]);
            reveal_strlit("🎹 4K Columns");
            assert("NPS Display"@.len() != "🎹 4K Columns"@.len());
            reveal_strlit("🎹 5K Columns");
            assert("NPS Display"@.len() != "🎹 5K Columns"@.len());
            reveal_strlit("🎹 6K Columns");
            assert("NPS Display"@.len() != "🎹 6K Columns"@.len());
            reveal_strlit("🎹 7K Columns");
            assert("NPS Display"@.len() != "🎹 7K Columns"@.len());
            reveal_strlit("Score Display");
            assert("NPS Display"@.len() != "Score Display"@.len());
            reveal_strlit("Combo Counter");
            assert("NPS Display"@.len() != "Combo Counter"@.len());
            reveal_strlit("Accuracy");
            assert("NPS Display"@.len() != "Accuracy"@.len());
        },
        SkinElement::NotesRemaining => {
            reveal_strlit("📝 Notes Remaining");
            reveal_strlit("Notes - Default");
            assert("📝 Notes Remaining"@.len() != "Notes - Default"@.len());
            reveal_strlit("Hold - Body");
            assert("📝 Notes Remaining"@.len() != "Hold - Body"@.len());
            reveal_strlit("Hold - End");
            assert("📝 Notes Remaining"@.len() != "Hold - End"@.len());
            reveal_strlit("Burst - Body");
            assert("📝 Notes Remaining"@.len() != "Burst - Body"@.len());
            reveal_strlit("Burst - End");
            assert("📝 Notes Remaining"@.len() != "Burst - End"@.len());
            reveal_strlit("💣 Mines");
            assert("📝 Notes Remaining"@.len() != "💣 Mines"@.len());
            reveal_strlit("Receptors - Default");
            assert("📝 Notes Remaining"@.len() != "Receptors - Default"@.len());
            reveal_strlit("📊 Hit Bar");
            assert("📝 Notes Remaining"@.len() != "📊 Hit Bar"@.len());
            reveal_strlit("🎮 Playfield");
            assert("📝 Notes Remaining"@.len() != "🎮 Playfield"@.len());
            reveal_strlit("🎹 4K Columns");
            assert("📝 Notes Remaining"@.len() != "🎹 4K Columns"@.len());
            reveal_strlit("🎹 5K Columns");
            assert("📝 Notes Remaining"@.len() != "🎹 5K Columns"@.len());
            reveal_strlit("🎹 6K Columns");
            assert("📝 Notes Remaining"@.len() != "🎹 6K Columns"@.len());
            reveal_strlit("🎹 7K Columns");
            assert("📝 Notes Remaining"@.len() != "🎹 7K Columns"@.len());
            reveal_strlit("Score Display");
            assert("📝 Notes Remaining"@.len() != "Score Display"@.len());
            reveal_strlit("Combo Counter");
            assert("📝 Notes Remaining"@.len() != "Combo Counter"@.len());
            reveal_strlit("Accuracy");
            assert("📝 Notes Remaining"@.len() != "Accuracy"@.len());
            reveal_strlit("NPS Display");
            assert("📝 Notes Remaining"@.len() != "NPS Display"@.len());
        },
        SkinElement::ScrollSpeed => {
            reveal_strlit("⚡ Scroll Speed");
            reveal_strlit("Notes - Default");
            assert("⚡ Scroll Speed"@.len() != "Notes - Default"@.len());
            reveal_strlit("Hold - Body");
            assert("⚡ Scroll Speed"@.len() != "Hold - Body"@.len());
            reveal_strlit("Hold - End");
            assert("⚡ Scroll Speed"@.len() != "Hold - End"@.len());
            reveal_strlit("Burst - Body");
            assert("⚡ Scroll Speed"@.len() != "Burst - Body"@.len());
            reveal_strlit("Burst - End");
            assert("⚡ Scroll Speed"@.len() != "Burst - End"@.len());
            reveal_strlit("💣 Mines");
            assert("⚡ Scroll Speed"@.len() != "💣 Mines"@.len());
            reveal_strlit("Receptors - Default");
            assert("⚡ Scroll Speed"@.len() != "Receptors - Default"@.len());
            reveal_strlit("📊 Hit Bar");
            assert("⚡ Scroll Speed"@.len() != "📊 Hit Bar"@.len());
            reveal_strlit("🎮 Playfield");
            assert("⚡ Scroll Speed"@.len() != "🎮 Playfield"@.len());
            reveal_strlit("🎹 4K Columns");
            assert("⚡ Scroll Speed"@.len() != "🎹 4K Columns"@.len());
            reveal_strlit("🎹 5K Columns");
            assert("⚡ Scroll Speed"@.len() != "🎹 5K Columns"@.len());
            reveal_strlit("🎹 6K Columns");
            assert("⚡ Scroll Speed"@.len() != "🎹 6K Columns"@.len());
            reveal_strlit("🎹 7K Columns");
            assert("⚡ Scroll Speed"@.len() != "🎹 7K Columns"@.len());
            reveal_strlit("Score Display");
            assert("⚡ Scroll Speed"@.len() != "Score Display"@.len());
            reveal_strlit("Combo Counter");
            assert("⚡ Scroll Speed"@.len() != "Combo Counter"@.len());
            reveal_strlit("Accuracy");
            assert("⚡ Scroll Speed"@.len() != "Accuracy"@.len());
            reveal_strlit("NPS Display");
            assert("⚡ Scroll Speed"@.len() != "NPS Display"@.len());
            reveal_strlit("📝 Notes Remaining");
            assert("⚡ Scroll Speed"@.len() != "📝 Notes Remaining"@.len());
        },
        SkinElement::TimeLeft => {
            reveal_strlit("⏱️ Time Left");
            reveal_strlit("Notes - Default");
            assert("⏱️ Time Left"@.len() != "Notes - Default"@.len());
            reveal_strlit("Hold - Body");
            assert("⏱️ Time Left"@.len() != "Hold - Body"@.len());
            reveal_strlit("Hold - End");
            assert("⏱️ Time Left"@.len() != "Hold - End"@.len());
            reveal_strlit("Burst - Body");
            assert("⏱️ Time Left"@[0] != "Burst - Body"@[0]);
            reveal_strlit("Burst - End");
            assert("⏱️ Time Left"@.len() != "Burst - End"@.len());
            reveal_strlit("💣 Mines");
            assert("⏱️ Time Left"@.len() != "💣 Mines"@.len());
            reveal_strlit("Receptors - Default");
            assert("⏱️ Time Left"@.len() != "Receptors - Default"@.len());
            reveal_strlit("📊 Hit Bar");
            assert("⏱️ Time Left"@.len() != "📊 Hit Bar"@.len());
            reveal_strlit("🎮 Playfield");
            assert("⏱️ Time Left"@.len() != "🎮 Playfield"@.len());
            reveal_strlit("🎹 4K Columns");
            assert("⏱️ Time Left"@[0] != "🎹 4K Columns"@[0]);
            reveal_strlit("🎹 5K Columns");
            assert("⏱️ Time Left"@[0] != "🎹 5K Columns"@[0]);
            reveal_strlit("🎹 6K Columns");
            assert("⏱️ Time Left"@[0] != "🎹 6K Columns"@[0]);
            reveal_strlit("🎹 7K Columns");
            assert("⏱️ Time Left"@[0] != "🎹 7K Columns"@[0]);
            reveal_strlit("Score Display");
            assert("⏱️ Time Left"@.len() != "Score Display"@.len());
            reveal_strlit("Combo Counter");
            assert("⏱️ Time Left"@.len() != "Combo Counter"@.len());
            reveal_strlit("Accuracy");
            assert("⏱️ Time Left"@.len() != "Accuracy"@.len());
            reveal_strlit("NPS Display");
            assert("⏱️ Time Left"@.len() != "NPS Display"@.len());
            reveal_strlit("📝 Notes Remaining");
            assert("⏱️ Time Left"@.len() != "📝 Notes Remaining"@.len());
            reveal_strlit("⚡ Scroll Speed");
            assert("⏱️ Time Left"@.len() != "⚡ Scroll Speed"@.len());
        },
        SkinElement::FlashAll => {
            reveal_strlit("Flash - All");
            reveal_strlit("Notes - Default");
            assert("Flash - All"@.len() != "Notes - Default"@.len());
            reveal_strlit("Hold - Body");
            assert("Flash - All"@[0] != "Hold - Body"@[0]);
            reveal_strlit("Hold - End");
            assert("Flash - All"@.len() != "Hold - End"@.len());
            reveal_strlit("Burst - Body");
            assert("Flash - All"@.len() != "Burst - Body"@.len());
            reveal_strlit("Burst - End");
            assert("Flash - All"@[0] != "Burst - End"@[0]);
            reveal_strlit("💣 Mines");
            assert("Flash - All"@.len() != "💣 Mines"@.len());
            reveal_strlit("Receptors - Default");
            assert("Flash - All"@.len() != "Receptors - Default"@.len());
            reveal_strlit("📊 Hit Bar");
            assert("Flash - All"@.len() != "📊 Hit Bar"@.len());
            reveal_strlit("🎮 Playfield");
            assert("Flash - All"@[0] != "🎮 Playfield"@[0]);
            reveal_strlit("🎹 4K Columns");
            assert("Flash - All"@.len() != "🎹 4K Columns"@.len());
            reveal_strlit("🎹 5K Columns");
            assert("Flash - All"@.len() != "🎹 5K Columns"@.len());
            reveal_strlit("🎹 6K Columns");
            assert("Flash - All"@.len() != "🎹 6K Columns"@.len());
            reveal_strlit("🎹 7K Columns");
            assert("Flash - All"@.len() != "🎹 7K Columns"@.len());
            reveal_strlit("Score Display");
            assert("Flash - All"@.len() != "Score Display"@.len());
            reveal_strlit("Combo Counter");
            assert("Flash - All"@.len() != "Combo Counter"@.len());
            reveal_strlit("Accuracy");
            assert("Flash - All"@.len() != "Accuracy"@.len());
            reveal_strlit("NPS Display");
            assert("Flash - All"@[0] != "NPS Display"@[0]);
            reveal_strlit("📝 Notes Remaining");
            assert("Flash - All"@.len() != "📝 Notes Remaining"@.len());
            reveal_strlit("⚡ Scroll Speed");
            assert("Flash - All"@.len() != "⚡ Scroll Speed"@.len());
            reveal_strlit("⏱️ Time Left");
            assert("Flash - All"@.len() != "⏱️ Time Left"@.len());
        },
        SkinElement::FlashMarvelous => {
            reveal_strlit("Flash - Marvelous");
            reveal_strlit("Notes - Default");
            assert("Flash - Marvelous"@.len() != "Notes - Default"@.len());
            reveal_strlit("Hold - Body");
            assert("Flash - Marvelous"@.len() != "Hold - Body"@.len());
            reveal_strlit("Hold - End");
            assert("Flash - Marvelous"@.len() != "Hold - End"@.len());
            reveal_strlit("Burst - Body");
            assert("Flash - Marvelous"@.len() != "Burst - Body"@.len());
            reveal_strlit("Burst - End");
            assert("Flash - Marvelous"@.len() != "Burst - End"@.len());
            reveal_strlit("💣 Mines");
            assert("Flash - Marvelous"@.len() != "💣 Mines"@.len());
            reveal_strlit("Receptors - Default");
            assert("Flash - Marvelous"@.len() != "Receptors - Default"@.len());
            reveal_strlit("📊 Hit Bar");
            assert("Flash - Marvelous"@.len() != "📊 Hit Bar"@.len());
            reveal_strlit("🎮 Playfield");
            assert("Flash - Marvelous"@.len() != "🎮 Playfield"@.len());
            reveal_strlit("🎹 4K Columns");
            assert("Flash - Marvelous"@.len() != "🎹 4K Columns"@.len());
            reveal_strlit("🎹 5K Columns");
            assert("Flash - Marvelous"@.len() != "🎹 5K Columns"@.len());
            reveal_strlit("🎹 6K Columns");
            assert("Flash - Marvelous"@.len() != "🎹 6K Columns"@.len());
            reveal_strlit("🎹 7K Columns");
            assert("Flash - Marvelous"@.len() != "🎹 7K Columns"@.len());
            reveal_strlit("Score Display");
            assert("Flash - Marvelous"@.len() != "Score Display"@.len());
            reveal_strlit("Combo Counter");
            assert("Flash - Marvelous"@.len() != "Combo Counter"@.len());
            reveal_strlit("Accuracy");
            assert("Flash - Marvelous"@.len() != "Accuracy"@.len());
            reveal_strlit("NPS Display");
            assert("Flash - Marvelous"@.len() != "NPS Display"@.len());
            reveal_strlit("📝 Notes Remaining");
            assert("Flash - Marvelous"@[0] != "📝 Notes Remaining"@[0]);
            reveal_strlit("⚡ Scroll Speed");
            assert("Flash - Marvelous"@.len() != "⚡ Scroll Speed"@.len());
            reveal_strlit("⏱️ Time Left");
            assert("Flash - Marvelous"@.len() != "⏱️ Time Left"@.len());
            reveal_strlit("Flash - All");
            assert("Flash - Marvelous"@.len() != "Flash - All"@.len());
        },
        SkinElement::FlashPerfect => {
            reveal_strlit("Flash - Perfect");
            reveal_strlit("Notes - Default");
            assert("Flash - Perfect"@[0] != "Notes - Default"@[0]);
            reveal_strlit("Hold - Body");
            assert("Flash - Perfect"@.len() != "Hold - Body"@.len());
            reveal_strlit("Hold - End");
            assert("Flash - Perfect"@.len() != "Hold - End"@.len());
            reveal_strlit("Burst - Body");
            assert("Flash - Perfect"@.len() != "Burst - Body"@.len());
            reveal_strlit("Burst - End");
            assert("Flash - Perfect"@.len() != "Burst - End"@.len());
            reveal_strlit("💣 Mines");
            assert("Flash - Perfect"@.len() != "💣 Mines"@.len());
            reveal_strlit("Receptors - Default");
            assert("Flash - Perfect"@.len() != "Receptors - Default"@.len());
            reveal_strlit("📊 Hit Bar");
            assert("Flash - Perfect"@.len() != "📊 Hit Bar"@.len());
            reveal_strlit("🎮 Playfield");
            assert("Flash - Perfect"@.len() != "🎮 Playfield"@.len());
            reveal_strlit("🎹 4K Columns");
            assert("Flash - Perfect"@.len() != "🎹 4K Columns"@.len());
            reveal_strlit("🎹 5K Columns");
            assert("Flash - Perfect"@.len() != "🎹 5K Columns"@.len());
            reveal_strlit("🎹 6K Columns");
            assert("Flash - Perfect"@.len() != "🎹 6K Columns"@.len());
            reveal_strlit("🎹 7K Columns");
            assert("Flash - Perfect"@.len() != "🎹 7K Columns"@.len());
            reveal_strlit("Score Display");
            assert("Flash - Perfect"@.len() != "Score Display"@.len());
            reveal_strlit("Combo Counter");
            assert("Flash - Perfect"@.len() != "Combo Counter"@.len());
            reveal_strlit("Accuracy");
            assert("Flash - Perfect"@.len() != "Accuracy"@.len());
            reveal_strlit("NPS Display");
            assert("Flash - Perfect"@.len() != "NPS Display"@.len());
            reveal_strlit("📝 Notes Remaining");
            assert("Flash - Perfect"@.len() != "📝 Notes Remaining"@.len());
            reveal_strlit("⚡ Scroll Speed");
            assert("Flash - Perfect"@.len() != "⚡ Scroll Speed"@.len());
            reveal_strlit("⏱️ Time Left");
            assert("Flash - Perfect"@.len() != "⏱️ Time Left"@.len());
            reveal_strlit("Flash - All");
            assert("Flash - Perfect"@.len() != "Flash - All"@.len());
            reveal_strlit("Flash - Marvelous");
            assert("Flash - Perfect"@.len() != "Flash - Marvelous"@.len());
        },
        SkinElement::FlashGreat => {
            reveal_strlit("Flash - Great");
            reveal_strlit("Notes - Default");
            assert("Flash - Great"@.len() != "Notes - Default"@.len());
            reveal_strlit("Hold - Body");
            assert("Flash - Great"@.len() != "Hold - Body"@.len());
            reveal_strlit("Hold - End");
            assert("Flash - Great"@.len() != "Hold - End"@.len());
            reveal_strlit("Burst - Body");
            assert("Flash - Great"@.len() != "Burst - Body"@.len());
            reveal_strlit("Burst - End");
            assert("Flash - Great"@.len() != "Burst - End"@.len());
            reveal_strlit("💣 Mines");
            assert("Flash - Great"@.len() != "💣 Mines"@.len());
            reveal_strlit("Receptors - Default");
            assert("Flash - Great"@.len() != "Receptors - Default"@.len());
            reveal_strlit("📊 Hit Bar");
            assert("Flash - Great"@.len() != "📊 Hit Bar"@.len());
            reveal_strlit("🎮 Playfield");
            assert("Flash - Great"@.len() != "🎮 Playfield"@.len());
            reveal_strlit("🎹 4K Columns");
            assert("Flash - Great"@.len() != "🎹 4K Columns"@.len());
            reveal_strlit("🎹 5K Columns");
            assert("Flash - Great"@.len() != "🎹 5K Columns"@.len());
            reveal_strlit("🎹 6K Columns");
            assert("Flash - Great"@.len() != "🎹 6K Columns"@.len());
            reveal_strlit("🎹 7K Columns");
            assert("Flash - Great"@.len() != "🎹 7K Columns"@.len());
            reveal_strlit("Score Display");
            assert("Flash - Great"@[0] != "Score Display"@[0]);
            reveal_strlit("Combo Counter");
            assert("Flash - Great"@[0] != "Combo Counter"@[0]);
            reveal_strlit("Accuracy");
            assert("Flash - Great"@.len() != "Accuracy"@.len());
            reveal_strlit("NPS Display");
            assert("Flash - Great"@.len() != "NPS Display"@.len());
            reveal_strlit("📝 Notes Remaining");
            assert("Flash - Great"@.len() != "📝 Notes Remaining"@.len());
            reveal_strlit("⚡ Scroll Speed");
            assert("Flash - Great"@.len() != "⚡ Scroll Speed"@.len());
            reveal_strlit("⏱️ Time Left");
            assert("Flash - Great"@.len() != "⏱️ Time Left"@.len());
            reveal_strlit("Flash - All");
            assert("Flash - Great"@.len() != "Flash - All"@.len());
            reveal_strlit("Flash - Marvelous");
            assert("Flash - Great"@.len() != "Flash - Marvelous"@.len());
            reveal_strlit("Flash - Perfect");
            assert("Flash - Great"@.len() != "Flash - Perfect"@.len());
        },
        SkinElement::FlashGood => {
            reveal_strlit("Flash - Good");
            reveal_strlit("Notes - Default");
            assert("Flash - Good"@.len() != "Notes - Default"@.len());
            reveal_strlit("Hold - Body");
            assert("Flash - Good"@.len() != "Hold - Body"@.len());
            reveal_strlit("Hold - End");
            assert("Flash - Good"@.len() != "Hold - End"@.len());
            reveal_strlit("Burst - Body");
            assert("Flash - Good"@[0] != "Burst - Body"@[0]);
            reveal_strlit("Burst - End");
            assert("Flash - Good"@.len() != "Burst - End"@.len());
            reveal_strlit("💣 Mines");
            assert("Flash - Good"@.len() != "💣 Mines"@.len());
            reveal_strlit("Receptors - Default");
            assert("Flash - Good"@.len() != "Receptors - Default"@.len());
            reveal_strlit("📊 Hit Bar");
            assert("Flash - Good"@.len() != "📊 Hit Bar"@.len());
            reveal_strlit("🎮 Playfield");
            assert("Flash - Good"@.len() != "🎮 Playfield"@.len());
            reveal_strlit("🎹 4K Columns");
            assert("Flash - Good"@[0] != "🎹 4K Columns"@[0]);
            reveal_strlit("🎹 5K Columns");
            assert("Flash - Good"@[0] != "🎹 5K Columns"@[0]);
            reveal_strlit("🎹 6K Columns");
            assert("Flash - Good"@[0] != "🎹 6K Columns"@[0]);
            reveal_strlit("🎹 7K Columns");
            assert("Flash - Good"@[0] != "🎹 7K Columns"@[0]);
            reveal_strlit("Score Display");
            assert("Flash - Good"@.len() != "Score Display"@.len());
            reveal_strlit("Combo Counter");
            assert("Flash - Good"@.len() != "Combo Counter"@.len());
            reveal_strlit("Accuracy");
            assert("Flash - Good"@.len() != "Accuracy"@.len());
            reveal_strlit("NPS Display");
            assert("Flash - Good"@.len() != "NPS Display"@.len());
            reveal_strlit("📝 Notes Remaining");
            assert("Flash - Good"@.len() != "📝 Notes Remaining"@.len());
            reveal_strlit("⚡ Scroll Speed");
            assert("Flash - Good"@.len() != "⚡ Scroll Speed"@.len());
            reveal_strlit("⏱️ Time Left");
            assert("Flash - Good"@[0] != "⏱️ Time Left"@[0]);
            reveal_strlit("Flash - All");
            assert("Flash - Good"@.len() != "Flash - All"@.len());
            reveal_strlit("Flash - Marvelous");
            assert("Flash - Good"@.len() != "Flash - Marvelous"@.len());
            reveal_strlit("Flash - Perfect");
            assert("Flash - Good"@.len() != "Flash - Perfect"@.len());
            reveal_strlit("Flash - Great");
            assert("Flash - Good"@.len() != "Flash - Great"@.len());
        },
        SkinElement::FlashBad => {
            reveal_strlit("Flash - Bad");
            reveal_strlit("Notes - Default");
            assert("Flash - Bad"@.len() != "Notes - Default"@.len());
            reveal_strlit("Hold - Body");
            assert("Flash - Bad"@[0] != "Hold - Body"@[0]);
            reveal_strlit("Hold - End");
            assert("Flash - Bad"@.len() != "Hold - End"@.len());
            reveal_strlit("Burst - Body");
            assert("Flash - Bad"@.len() != "Burst - Body"@.len());
            reveal_strlit("Burst - End");
            assert("Flash - Bad"@[0] != "Burst - End"@[0]);
            reveal_strlit("💣 Mines");
            assert("Flash - Bad"@.len() != "💣 Mines"@.len());
            reveal_strlit("Receptors - Default");
            assert("Flash - Bad"@.len() != "Receptors - Default"@.len());
            reveal_strlit("📊 Hit Bar");
            assert("Flash - Bad"@.len() != "📊 Hit Bar"@.len());
            reveal_strlit("🎮 Playfield");
            assert("Flash - Bad"@[0] != "🎮 Playfield"@[0]);
            reveal_strlit("🎹 4K Columns");
            assert("Flash - Bad"@.len() != "🎹 4K Columns"@.len());
            reveal_strlit("🎹 5K Columns");
            assert("Flash - Bad"@.len() != "🎹 5K Columns"@.len());
            reveal_strlit("🎹 6K Columns");
            assert("Flash - Bad"@.len() != "🎹 6K Columns"@.len());
            reveal_strlit("🎹 7K Columns");
            assert("Flash - Bad"@.len() != "🎹 7K Columns"@.len());
            reveal_strlit("Score Display");
            assert("Flash - Bad"@.len() != "Score Display"@.len());
            reveal_strlit("Combo Counter");
            assert("Flash - Bad"@.len() != "Combo Counter"@.len());
            reveal_strlit("Accuracy");
            assert("Flash - Bad"@.len() != "Accuracy"@.len());
            reveal_strlit("NPS Display");
            assert("Flash - Bad"@[0] != "NPS Display"@[0]);
            reveal_strlit("📝 Notes Remaining");
            assert("Flash - Bad"@.len() != "📝 Notes Remaining"@.len());
            reveal_strlit("⚡ Scroll Speed");
            assert("Flash - Bad"@.len() != "⚡ Scroll Speed"@.len());
            reveal_strlit("⏱️ Time Left");
            assert("Flash - Bad"@.len() != "⏱️ Time Left"@.len());
            reveal_strlit("Flash - All");
            assert("Flash - Bad"@[8] != "Flash - All"@[8]);
            reveal_strlit("Flash - Marvelous");
            assert("Flash - Bad"@.len() != "Flash - Marvelous"@.len());
            reveal_strlit("Flash - Perfect");
            assert("Flash - Bad"@.len() != "Flash - Perfect"@.len());
            reveal_strlit("Flash - Great");
            assert("Flash - Bad"@.len() != "Flash - Great"@.len());
            reveal_strlit("Flash - Good");
            assert("Flash - Bad"@.len() != "Flash - Good"@.len());
        },
        SkinElement::FlashMiss => {
            reveal_strlit("Flash - Miss");
            reveal_strlit("Notes - Default");
            assert("Flash - Miss"@.len() != "Notes - Default"@.len());
            reveal_strlit("Hold - Body");
            assert("Flash - Miss"@.len() != "Hold - Body"@.len());
            reveal_strlit("Hold - End");
            assert("Flash - Miss"@.len() != "Hold - End"@.len());
            reveal_strlit("Burst - Body");
            assert("Flash - Miss"@[0] != "Burst - Body"@[0]);
            reveal_strlit("Burst - End");
            assert("Flash - Miss"@.len() != "Burst - End"@.len());
            reveal_strlit("💣 Mines");
            assert("Flash - Miss"@.len() != "💣 Mines"@.len());
            reveal_strlit("Receptors - Default");
            assert("Flash - Miss"@.len() != "Receptors - Default"@.len());
            reveal_strlit("📊 Hit Bar");
            assert("Flash - Miss"@.len() != "📊 Hit Bar"@.len());
            reveal_strlit("🎮 Playfield");
            assert("Flash - Miss"@.len() != "🎮 Playfield"@.len());
            reveal_strlit("🎹 4K Columns");
            assert("Flash - Miss"@[0] != "🎹 4K Columns"@[0]);
            reveal_strlit("🎹 5K Columns");
            assert("Flash - Miss"@[0] != "🎹 5K Columns"@[0]);
            reveal_strlit("🎹 6K Columns");
            assert("Flash - Miss"@[0] != "🎹 6K Columns"@[0]);
            reveal_strlit("🎹 7K Columns");
            assert("Flash - Miss"@[0] != "🎹 7K Columns"@[0]);
            reveal_strlit("Score Display");
            assert("Flash - Miss"@.len() != "Score Display"@.len());
            reveal_strlit("Combo Counter");
            assert("Flash - Miss"@.len() != "Combo Counter"@.len());
            reveal_strlit("Accuracy");
            assert("Flash - Miss"@.len() != "Accuracy"@.len());
            reveal_strlit("NPS Display");
            assert("Flash - Miss"@.len() != "NPS Display"@.len());
            reveal_strlit("📝 Notes Remaining");
            assert("Flash - Miss"@.len() != "📝 Notes Remaining"@.len());
            reveal_strlit("⚡ Scroll Speed");
            assert("Flash - Miss"@.len() != "⚡ Scroll Speed"@.len());
            reveal_strlit("⏱️ Time Left");
            assert("Flash - Miss"@[0] != "⏱️ Time Left"@[0]);
            reveal_strlit("Flash - All");
            assert("Flash - Miss"@.len() != "Flash - All"@.len());
            reveal_strlit("Flash - Marvelous");
            assert("Flash - Miss"@.len() != "Flash - Marvelous"@.len());
            reveal_strlit("Flash - Perfect");
            assert("Flash - Miss"@.len() != "Flash - Perfect"@.len());
            reveal_strlit("Flash - Great");
            assert("Flash - Miss"@.len() != "Flash - Great"@.len());
            reveal_strlit("Flash - Good");
            assert("Flash - Miss"@[8] != "Flash - Good"@[8]);
            reveal_strlit("Flash - Bad");
            assert("Flash - Miss"@.len() != "Flash - Bad"@.len());
        },
        SkinElement::FlashGhostTap => {
            reveal_strlit("Flash - Ghost Tap");
            reveal_strlit("Notes - Default");
            assert("Flash - Ghost Tap"@.len() != "Notes - Default"@.len());
            reveal_strlit("Hold - Body");
            assert("Flash - Ghost Tap"@.len() != "Hold - Body"@.len());
            reveal_strlit("Hold - End");
            assert("Flash - Ghost Tap"@.len() != "Hold - End"@.len());
            reveal_strlit("Burst - Body");
            assert("Flash - Ghost Tap"@.len() != "Burst - Body"@.len());
            reveal_strlit("Burst - End");
            assert("Flash - Ghost Tap"@.len() != "Burst - End"@.len());
            reveal_strlit("💣 Mines");
            assert("Flash - Ghost Tap"@.len() != "💣 Mines"@.len());
            reveal_strlit("Receptors - Default");
            assert("Flash - Ghost Tap"@.len() != "Receptors - Default"@.len());
            reveal_strlit("📊 Hit Bar");
            assert("Flash - Ghost Tap"@.len() != "📊 Hit Bar"@.len());
            reveal_strlit("🎮 Playfield");
            assert("Flash - Ghost Tap"@.len() != "🎮 Playfield"@.len());
            reveal_strlit("🎹 4K Columns");
            assert("Flash - Ghost Tap"@.len() != "🎹 4K Columns"@.len());
            reveal_strlit("🎹 5K Columns");
            assert("Flash - Ghost Tap"@.len() != "🎹 5K Columns"@.len());
            reveal_strlit("🎹 6K Columns");
            assert("Flash - Ghost Tap"@.len() != "🎹 6K Columns"@.len());
            reveal_strlit("🎹 7K Columns");
            assert("Flash - Ghost Tap"@.len() != "🎹 7K Columns"@.len());
            reveal_strlit("Score Display");
            assert("Flash - Ghost Tap"@.len() != "Score Display"@.len());
            reveal_strlit("Combo Counter");
            assert("Flash - Ghost Tap"@.len() != "Combo Counter"@.len());
            reveal_strlit("Accuracy");
            assert("Flash - Ghost Tap"@.len() != "Accuracy"@.len());
            reveal_strlit("NPS Display");
            assert("Flash - Ghost Tap"@.len() != "NPS Display"@.len());
            reveal_strlit("📝 Notes Remaining");
            assert("Flash - Ghost Tap"@[0] != "📝 Notes Remaining"@[0]);
            reveal_strlit("⚡ Scroll Speed");
            assert("Flash - Ghost Tap"@.len() != "⚡ Scroll Speed"@.len());
            reveal_strlit("⏱️ Time Left");
            assert("Flash - Ghost Tap"@.len() != "⏱️ Time Left"@.len());
            reveal_strlit("Flash - All");
            assert("Flash - Ghost Tap"@.len() != "Flash - All"@.len());
            reveal_strlit("Flash - Marvelous");
            assert("Flash - Ghost Tap"@[8] != "Flash - Marvelous"@[8]);
            reveal_strlit("Flash - Perfect");
            assert("Flash - Ghost Tap"@.len() != "Flash - Perfect"@.len());
            reveal_strlit("Flash - Great");
            assert("Flash - Ghost Tap"@.len() != "Flash - Great"@.len());
            reveal_strlit("Flash - Good");
            assert("Flash - Ghost Tap"@.len() != "Flash - Good"@.len());
            reveal_strlit("Flash - Bad");
            assert("Flash - Ghost Tap"@.len() != "Flash - Bad"@.len());
            reveal_strlit("Flash - Miss");
            assert("Flash - Ghost Tap"@.len() != "Flash - Miss"@.len());
        },
        SkinElement::JudgementPanel => {
            reveal_strlit("📋 Judgement Panel");
            reveal_strlit("Notes - Default");
            assert("📋 Judgement Panel"@.len() != "Notes - Default"@.len());
            reveal_strlit("Hold - Body");
            assert("📋 Judgement Panel"@.len() != "Hold - Body"@.len());
            reveal_strlit("Hold - End");
            assert("📋 Judgement Panel"@.len() != "Hold - End"@.len());
            reveal_strlit("Burst - Body");
            assert("📋 Judgement Panel"@.len() != "Burst - Body"@.len());
            reveal_strlit("Burst - End");
            assert("📋 Judgement Panel"@.len() != "Burst - End"@.len());
            reveal_strlit("💣 Mines");
            assert("📋 Judgement Panel"@.len() != "💣 Mines"@.len());
            reveal_strlit("Receptors - Default");
            assert("📋 Judgement Panel"@.len() != "Receptors - Default"@.len());
            reveal_strlit("📊 Hit Bar");
            assert("📋 Judgement Panel"@.len() != "📊 Hit Bar"@.len());
            reveal_strlit("🎮 Playfield");
            assert("📋 Judgement Panel"@.len() != "🎮 Playfield"@.len());
            reveal_strlit("🎹 4K Columns");
            assert("📋 Judgement Panel"@.len() != "🎹 4K Columns"@.len());
            reveal_strlit("🎹 5K Columns");
            assert("📋 Judgement Panel"@.len() != "🎹 5K Columns"@.len());
            reveal_strlit("🎹 6K Columns");
            assert("📋 Judgement Panel"@.len() != "🎹 6K Columns"@.len());
            reveal_strlit("🎹 7K Columns");
            assert("📋 Judgement Panel"@.len() != "🎹 7K Columns"@.len());
            reveal_strlit("Score Display");
            assert("📋 Judgement Panel"@.len() != "Score Display"@.len());
            reveal_strlit("Combo Counter");
            assert("📋 Judgement Panel"@.len() != "Combo Counter"@.len());
            reveal_strlit("Accuracy");
            assert("📋 Judgement Panel"@.len() != "Accuracy"@.len());
            reveal_strlit("NPS Display");
            assert("📋 Judgement Panel"@.len() != "NPS Display"@.len());
            reveal_strlit("📝 Notes Remaining");
            assert("📋 Judgement Panel"@[0] != "📝 Notes Remaining"@[0]);
            reveal_strlit("⚡ Scroll Speed");
            assert("📋 Judgement Panel"@.len() != "⚡ Scroll Speed"@.len());
            reveal_strlit("⏱️ Time Left");
            assert("📋 Judgement Panel"@.len() != "⏱️ Time Left"@.len());
            reveal_strlit("Flash - All");
            assert("📋 Judgement Panel"@.len() != "Flash - All"@.len());
            reveal_strlit("Flash - Marvelous");
            assert("📋 Judgement Panel"@[0] != "Flash - Marvelous"@[0]);
            reveal_strlit("Flash - Perfect");
            assert("📋 Judgement Panel"@.len() != "Flash - Perfect"@.len());
            reveal_strlit("Flash - Great");
            assert("📋 Judgement Panel"@.len() != "Flash - Great"@.len());
            reveal_strlit("Flash - Good");
            assert("📋 Judgement Panel"@.len() != "Flash - Good"@.len());
            reveal_strlit("Flash - Bad");
            assert("📋 Judgement Panel"@.len() != "Flash - Bad"@.len());
            reveal_strlit("Flash - Miss");
            assert("📋 Judgement Panel"@.len() != "Flash - Miss"@.len());
            reveal_strlit("Flash - Ghost Tap");
            assert("📋 Judgement Panel"@[0] != "Flash - Ghost Tap"@[0]);
        },
        SkinElement::Background => {
            reveal_strlit("Background");
            reveal_strlit("Notes - Default");
            assert("Background"@.len() != "Notes - Default"@.len());
            reveal_strlit("Hold - Body");
            assert("Background"@.len() != "Hold - Body"@.len());
            reveal_strlit("Hold - End");
            assert("Background"@[0] != "Hold - End"@[0]);
            reveal_strlit("Burst - Body");
            assert("Background"@.len() != "Burst - Body"@.len());
            reveal_strlit("Burst - End");
            assert("Background"@.len() != "Burst - End"@.len());
            reveal_strlit("💣 Mines");
            assert("Background"@.len() != "💣 Mines"@.len());
            reveal_strlit("Receptors - Default");
            assert("Background"@.len() != "Receptors - Default"@.len());
            reveal_strlit("📊 Hit Bar");
            assert("Background"@.len() != "📊 Hit Bar"@.len());
            reveal_strlit("🎮 Playfield");
            assert("Background"@.len() != "🎮 Playfield"@.len());
            reveal_strlit("🎹 4K Columns");
            assert("Background"@.len() != "🎹 4K Columns"@.len());
            reveal_strlit("🎹 5K Columns");
            assert("Background"@.len() != "🎹 5K Columns"@.len());
            reveal_strlit("🎹 6K Columns");
            assert("Background"@.len() != "🎹 6K Columns"@.len());
            reveal_strlit("🎹 7K Columns");
            assert("Background"@.len() != "🎹 7K Columns"@.len());
            reveal_strlit("Score Display");
            assert("Background"@.len() != "Score Display"@.len());
            reveal_strlit("Combo Counter");
            assert("Background"@.len() != "Combo Counter"@.len());
            reveal_strlit("Accuracy");
            assert("Background"@.len() != "Accuracy"@.len());
            reveal_strlit("NPS Display");
            assert("Background"@.len() != "NPS Display"@.len());
            reveal_strlit("📝 Notes Remaining");
            assert("Background"@.len() != "📝 Notes Remaining"@.len());
            reveal_strlit("⚡ Scroll Speed");
            assert("Background"@.len() != "⚡ Scroll Speed"@.len());
            reveal_strlit("⏱️ Time Left");
            assert("Background"@.len() != "⏱️ Time Left"@.len());
            reveal_strlit("Flash - All");
            assert("Background"@.len() != "Flash - All"@.len());
            reveal_strlit("Flash - Marvelous");
            assert("Background"@.len() != "Flash - Marvelous"@.len());
            reveal_strlit("Flash - Perfect");
            assert("Background"@.len() != "Flash - Perfect"@.len());
            reveal_strlit("Flash - Great");
            assert("Background"@.len() != "Flash - Great"@.len());
            reveal_strlit("Flash - Good");
            assert("Background"@.len() != "Flash - Good"@.len());
            reveal_strlit("Flash - Bad");
            assert("Background"@.len() != "Flash - Bad"@.len());
            reveal_strlit("Flash - Miss");
            assert("Background"@.len() != "Flash - Miss"@.len());
            reveal_strlit("Flash - Ghost Tap");
            assert("Background"@.len() != "Flash - Ghost Tap"@.len());
            reveal_strlit("📋 Judgement Panel");
            assert("Background"@.len() != "📋 Judgement Panel"@.len());
        },
        SkinElement::SongButton => {
            reveal_strlit("Song Button");
            reveal_strlit("Notes - Default");
            assert("Song Button"@.len() != "Notes - Default"@.len());
            reveal_strlit("Hold - Body");
            assert("Song Button"@[0] != "Hold - Body"@[0]);
            reveal_strlit("Hold - End");
            assert("Song Button"@.len() != "Hold - End"@.len());
            reveal_strlit("Burst - Body");
            assert("Song Button"@.len() != "Burst - Body"@.len());
            reveal_strlit("Burst - End");
            assert("Song Button"@[0] != "Burst - End"@[0]);
            reveal_strlit("💣 Mines");
            assert("Song Button"@.len() != "💣 Mines"@.len());
            reveal_strlit("Receptors - Default");
            assert("Song Button"@.len() != "Receptors - Default"@.len());
            reveal_strlit("📊 Hit Bar");
            assert("Song Button"@.len() != "📊 Hit Bar"@.len());
            reveal_strlit("🎮 Playfield");
            assert("Song Button"@[0] != "🎮 Playfield"@[0]);
            reveal_strlit("🎹 4K Columns");
            assert("Song Button"@.len() != "🎹 4K Columns"@.len());
            reveal_strlit("🎹 5K Columns");
            assert("Song Button"@.len() != "🎹 5K Columns"@.len());
            reveal_strlit("🎹 6K Columns");
            assert("Song Button"@.len() != "🎹 6K Columns"@.len());
            reveal_strlit("🎹 7K Columns");
            assert("Song Button"@.len() != "🎹 7K Columns"@.len());
            reveal_strlit("Score Display");
            assert("Song Button"@.len() != "Score Display"@.len());
            reveal_strlit("Combo Counter");
            assert("Song Button"@.len() != "Combo Counter"@.len());
            reveal_strlit("Accuracy");
            assert("Song Button"@.len() != "Accuracy"@.len());
            reveal_strlit("NPS Display");
            assert("Song Button"@[0] != "NPS Display"@[0]);
            reveal_strlit("📝 Notes Remaining");
            assert("Song Button"@.len() != "📝 Notes Remaining"@.len());
            reveal_strlit("⚡ Scroll Speed");
            assert("Song Button"@.len() != "⚡ Scroll Speed"@.len());
            reveal_strlit("⏱️ Time Left");
            assert("Song Button"@.len() != "⏱️ Time Left"@.len());
            reveal_strlit("Flash - All");
            assert("Song Button"@[0] != "Flash - All"@[0]);
            reveal_strlit("Flash - Marvelous");
            assert("Song Button"@.len() != "Flash - Marvelous"@.len());
            reveal_strlit("Flash - Perfect");
            assert("Song Button"@.len() != "Flash - Perfect"@.len());
            reveal_strlit("Flash - Great");
            assert("Song Button"@.len() != "Flash - Great"@.len());
            reveal_strlit("Flash - Good");
            assert("Song Button"@.len() != "Flash - Good"@.len());
            reveal_strlit("Flash - Bad");
            assert("Song Button"@[0] != "Flash - Bad"@[0]);
            reveal_strlit("Flash - Miss");
            assert("Song Button"@.len() != "Flash - Miss"@.len());
            reveal_strlit("Flash - Ghost Tap");
            assert("Song Button"@.len() != "Flash - Ghost Tap"@.len());
            reveal_strlit("📋 Judgement Panel");
            assert("Song Button"@.len() != "📋 Judgement Panel"@.len());
            reveal_strlit("Background");
            assert("Song Button"@.len() != "Background"@.len());
        },
        SkinElement::SongButtonSelected => {
            reveal_strlit("Song Button Selected");
            reveal_strlit("Notes - Default");
            assert("Song Button Selected"@.len() != "Notes - Default"@.len());
            reveal_strlit("Hold - Body");
            assert("Song Button Selected"@.len() != "Hold - Body"@.len());
            reveal_strlit("Hold - End");
            assert("Song Button Selected"@.len() != "Hold - End"@.len());
            reveal_strlit("Burst - Body");
            assert("Song Button Selected"@.len() != "Burst - Body"@.len());
            reveal_strlit("Burst - End");
            assert("Song Button Selected"@.len() != "Burst - End"@.len());
            reveal_strlit("💣 Mines");
            assert("Song Button Selected"@.len() != "💣 Mines"@.len());
            reveal_strlit("Receptors - Default");
            assert("Song Button Selected"@.len() != "Receptors - Default"@.len());
            reveal_strlit("📊 Hit Bar");
            assert("Song Button Selected"@.len() != "📊 Hit Bar"@.len());
            reveal_strlit("🎮 Playfield");
            assert("Song Button Selected"@.len() != "🎮 Playfield"@.len());
            reveal_strlit("🎹 4K Columns");
            assert("Song Button Selected"@.len() != "🎹 4K Columns"@.len());
            reveal_strlit("🎹 5K Columns");
            assert("Song Button Selected"@.len() != "🎹 5K Columns"@.len());
            reveal_strlit("🎹 6K Columns");
            assert("Song Button Selected"@.len() != "🎹 6K Columns"@.len());
            reveal_strlit("🎹 7K Columns");
            assert("Song Button Selected"@.len() != "🎹 7K Columns"@.len());
            reveal_strlit("Score Display");
            assert("Song Button Selected"@.len() != "Score Display"@.len());
            reveal_strlit("Combo Counter");
            assert("Song Button Selected"@.len() != "Combo Counter"@.len());
            reveal_strlit("Accuracy");
            assert("Song Button Selected"@.len() != "Accuracy"@.len());
            reveal_strlit("NPS Display");
            assert("Song Button Selected"@.len() != "NPS Display"@.len());
            reveal_strlit("📝 Notes Remaining");
            assert("Song Button Selected"@.len() != "📝 Notes Remaining"@.len());
            reveal_strlit("⚡ Scroll Speed");
            assert("Song Button Selected"@.len() != "⚡ Scroll Speed"@.len());
            reveal_strlit("⏱️ Time Left");
            assert("Song Button Selected"@.len() != "⏱️ Time Left"@.len());
            reveal_strlit("Flash - All");
            assert("Song Button Selected"@.len() != "Flash - All"@.len());
            reveal_strlit("Flash - Marvelous");
            assert("Song Button Selected"@.len() != "Flash - Marvelous"@.len());
            reveal_strlit("Flash - Perfect");
            assert("Song Button Selected"@.len() != "Flash - Perfect"@.len());
            reveal_strlit("Flash - Great");
            assert("Song Button Selected"@.len() != "Flash - Great"@.len());
            reveal_strlit("Flash - Good");
            assert("Song Button Selected"@.len() != "Flash - Good"@.len());
            reveal_strlit("Flash - Bad");
            assert("Song Button Selected"@.len() != "Flash - Bad"@.len());
            reveal_strlit("Flash - Miss");
            assert("Song Button Selected"@.len() != "Flash - Miss"@.len());
            reveal_strlit("Flash - Ghost Tap");
            assert("Song Button Selected"@.len() != "Flash - Ghost Tap"@.len());
            reveal_strlit("📋 Judgement Panel");
            assert("Song Button Selected"@.len() != "📋 Judgement Panel"@.len());
            reveal_strlit("Background");
            assert("Song Button Selected"@.len() != "Background"@.len());
            reveal_strlit("Song Button");
            assert("Song Button Selected"@.len() != "Song Button"@.len());
        },
        SkinElement::DifficultyButton => {
            reveal_strlit("Difficulty Button");
            reveal_strlit("Notes - Default");
            assert("Difficulty Button"@.len() != "Notes - Default"@.len());
            reveal_strlit("Hold - Body");
            assert("Difficulty Button"@.len() != "Hold - Body"@.len());
            reveal_strlit("Hold - End");
            assert("Difficulty Button"@.len() != "Hold - End"@.len());
            reveal_strlit("Burst - Body");
            assert("Difficulty Button"@.len() != "Burst - Body"@.len());
            reveal_strlit("Burst - End");
            assert("Difficulty Button"@.len() != "Burst - End"@.len());
            reveal_strlit("💣 Mines");
            assert("Difficulty Button"@.len() != "💣 Mines"@.len());
            reveal_strlit("Receptors - Default");
            assert("Difficulty Button"@.len() != "Receptors - Default"@.len());
            reveal_strlit("📊 Hit Bar");
            assert("Difficulty Button"@.len() != "📊 Hit Bar"@.len());
            reveal_strlit("🎮 Playfield");
            assert("Difficulty Button"@.len() != "🎮 Playfield"@.len());
            reveal_strlit("🎹 4K Columns");
            assert("Difficulty Button"@.len() != "🎹 4K Columns"@.len());
            reveal_strlit("🎹 5K Columns");
            assert("Difficulty Button"@.len() != "🎹 5K Columns"@.len());
            reveal_strlit("🎹 6K Columns");
            assert("Difficulty Button"@.len() != "🎹 6K Columns"@.len());
            reveal_strlit("🎹 7K Columns");
            assert("Difficulty Button"@.len() != "🎹 7K Columns"@.len());
            reveal_strlit("Score Display");
            assert("Difficulty Button"@.len() != "Score Display"@.len());
            reveal_strlit("Combo Counter");
            assert("Difficulty Button"@.len() != "Combo Counter"@.len());
            reveal_strlit("Accuracy");
            assert("Difficulty Button"@.len() != "Accuracy"@.len());
            reveal_strlit("NPS Display");
            assert("Difficulty Button"@.len() != "NPS Display"@.len());
            reveal_strlit("📝 Notes Remaining");
            assert("Difficulty Button"@[0] != "📝 Notes Remaining"@[0]);
            reveal_strlit("⚡ Scroll Speed");
            assert("Difficulty Button"@.len() != "⚡ Scroll Speed"@.len());
            reveal_strlit("⏱️ Time Left");
            assert("Difficulty Button"@.len() != "⏱️ Time Left"@.len());
            reveal_strlit("Flash - All");
            assert("Difficulty Button"@.len() != "Flash - All"@.len());
            reveal_strlit("Flash - Marvelous");
            assert("Difficulty Button"@[0] != "Flash - Marvelous"@[0]);
            reveal_strlit("Flash - Perfect");
            assert("Difficulty Button"@.len() != "Flash - Perfect"@.len());
            reveal_strlit("Flash - Great");
            assert("Difficulty Button"@.len() != "Flash - Great"@.len());
            reveal_strlit("Flash - Good");
            assert("Difficulty Button"@.len() != "Flash - Good"@.len());
            reveal_strlit("Flash - Bad");
            assert("Difficulty Button"@.len() != "Flash - Bad"@.len());
            reveal_strlit("Flash - Miss");
            assert("Difficulty Button"@.len() != "Flash - Miss"@.len());
            reveal_strlit("Flash - Ghost Tap");
            assert("Difficulty Button"@[0] != "Flash - Ghost Tap"@[0]);
            reveal_strlit("📋 Judgement Panel");
            assert("Difficulty Button"@[0] != "📋 Judgement Panel"@[0]);
            reveal_strlit("Background");
            assert("Difficulty Button"@.len() != "Background"@.len());
            reveal_strlit("Song Button");
            assert("Difficulty Button"@.len() != "Song Button"@.len());
            reveal_strlit("Song Button Selected");
            assert("Difficulty Button"@.len() != "Song Button Selected"@.len());
        },
        SkinElement::SearchBar => {
            reveal_strlit("Search Bar");
            reveal_strlit("Notes - Default");
            assert("Search Bar"@.len() != "Notes - Default"@.len());
            reveal_strlit("Hold - Body");
            assert("Search Bar"@.len() != "Hold - Body"@.len());
            reveal_strlit("Hold - End");
            assert("Search Bar"@[0] != "Hold - End"@[0]);
            reveal_strlit("Burst - Body");
            assert("Search Bar"@.len() != "Burst - Body"@.len());
            reveal_strlit("Burst - End");
            assert("Search Bar"@.len() != "Burst - End"@.len());
            reveal_strlit("💣 Mines");
            assert("Search Bar"@.len() != "💣 Mines"@.len());
            reveal_strlit("Receptors - Default");
            assert("Search Bar"@.len() != "Receptors - Default"@.len());
            reveal_strlit("📊 Hit Bar");
            assert("Search Bar"@.len() != "📊 Hit Bar"@.len());
            reveal_strlit("🎮 Playfield");
            assert("Search Bar"@.len() != "🎮 Playfield"@.len());
            reveal_strlit("🎹 4K Columns");
            assert("Search Bar"@.len() != "🎹 4K Columns"@.len());
            reveal_strlit("🎹 5K Columns");
            assert("Search Bar"@.len() != "🎹 5K Columns"@.len());
            reveal_strlit("🎹 6K Columns");
            assert("Search Bar"@.len() != "🎹 6K Columns"@.len());
            reveal_strlit("🎹 7K Columns");
            assert("Search Bar"@.len() != "🎹 7K Columns"@.len());
            reveal_strlit("Score Display");
            assert("Search Bar"@.len() != "Score Display"@.len());
            reveal_strlit("Combo Counter");
            assert("Search Bar"@.len() != "Combo Counter"@.len());
            reveal_strlit("Accuracy");
            assert("Search Bar"@.len() != "Accuracy"@.len());
            reveal_strlit("NPS Display");
            assert("Search Bar"@.len() != "NPS Display"@.len());
            reveal_strlit("📝 Notes Remaining");
            assert("Search Bar"@.len() != "📝 Notes Remaining"@.len());
            reveal_strlit("⚡ Scroll Speed");
            assert("Search Bar"@.len() != "⚡ Scroll Speed"@.len());
            reveal_strlit("⏱️ Time Left");
            assert("Search Bar"@.len() != "⏱️ Time Left"@.len());
            reveal_strlit("Flash - All");
            assert("Search Bar"@.len() != "Flash - All"@.len());
            reveal_strlit("Flash - Marvelous");
            assert("Search Bar"@.len() != "Flash - Marvelous"@.len());
            reveal_strlit("Flash - Perfect");
            assert("Search Bar"@.len() != "Flash - Perfect"@.len());
            reveal_strlit("Flash - Great");
            assert("Search Bar"@.len() != "Flash - Great"@.len());
            reveal_strlit("Flash - Good");
            assert("Search Bar"@.len() != "Flash - Good"@.len());
            reveal_strlit("Flash - Bad");
            assert("Search Bar"@.len() != "Flash - Bad"@.len());
            reveal_strlit("Flash - Miss");
            assert("Search Bar"@.len() != "Flash - Miss"@.len());
            reveal_strlit("Flash - Ghost Tap");
            assert("Search Bar"@.len() != "Flash - Ghost Tap"@.len());
            reveal_strlit("📋 Judgement Panel");
            assert("Search Bar"@.len() != "📋 Judgement Panel"@.len());
            reveal_strlit("Background");
            assert("Search Bar"@[0] != "Background"@[0]);
            reveal_strlit("Song Button");
            assert("Search Bar"@.len() != "Song Button"@.len());
            reveal_strlit("Song Button Selected");
            assert("Search Bar"@.len() != "Song Button Selected"@.len());
            reveal_strlit("Difficulty Button");
            assert("Search Bar"@.len() != "Difficulty Button"@.len());
        },
        SkinElement::SearchPanel => {
            reveal_strlit("Search Panel");
            reveal_strlit("Notes - Default");
            assert("Search Panel"@.len() != "Notes - Default"@.len());
            reveal_strlit("Hold - Body");
            assert("Search Panel"@.len() != "Hold - Body"@.len());
            reveal_strlit("Hold - End");
            assert("Search Panel"@.len() != "Hold - End"@.len());
            reveal_strlit("Burst - Body");
            assert("Search Panel"@[0] != "Burst - Body"@[0]);
            reveal_strlit("Burst - End");
            assert("Search Panel"@.len() != "Burst - End"@.len());
            reveal_strlit("💣 Mines");
            assert("Search Panel"@.len() != "💣 Mines"@.len());
            reveal_strlit("Receptors - Default");
            assert("Search Panel"@.len() != "Receptors - Default"@.len());
            reveal_strlit("📊 Hit Bar");
            assert("Search Panel"@.len() != "📊 Hit Bar"@.len());
            reveal_strlit("🎮 Playfield");
            assert("Search Panel"@.len() != "🎮 Playfield"@.len());
            reveal_strlit("🎹 4K Columns");
            assert("Search Panel"@[0] != "🎹 4K Columns"@[0]);
            reveal_strlit("🎹 5K Columns");
            assert("Search Panel"@[0] != "🎹 5K Columns"@[0]);
            reveal_strlit("🎹 6K Columns");
            assert("Search Panel"@[0] != "🎹 6K Columns"@[0]);
            reveal_strlit("🎹 7K Columns");
            assert("Search Panel"@[0] != "🎹 7K Columns"@[0]);
            reveal_strlit("Score Display");
            assert("Search Panel"@.len() != "Score Display"@.len());
            reveal_strlit("Combo Counter");
            assert("Search Panel"@.len() != "Combo Counter"@.len());
            reveal_strlit("Accuracy");
            assert("Search Panel"@.len() != "Accuracy"@.len());
            reveal_strlit("NPS Display");
            assert("Search Panel"@.len() != "NPS Display"@.len());
            reveal_strlit("📝 Notes Remaining");
            assert("Search Panel"@.len() != "📝 Notes Remaining"@.len());
            reveal_strlit("⚡ Scroll Speed");
            assert("Search Panel"@.len() != "⚡ Scroll Speed"@.len());
            reveal_strlit("⏱️ Time Left");
            assert("Search Panel"@[0] != "⏱️ Time Left"@[0]);
            reveal_strlit("Flash - All");
            assert("Search Panel"@.len() != "Flash - All"@.len());
            reveal_strlit("Flash - Marvelous");
            assert("Search Panel"@.len() != "Flash - Marvelous"@.len());
            reveal_strlit("Flash - Perfect");
            assert("Search Panel"@.len() != "Flash - Perfect"@.len());
            reveal_strlit("Flash - Great");
            assert("Search Panel"@.len() != "Flash - Great"@.len());
            reveal_strlit("Flash - Good");
            assert("Search Panel"@[0] != "Flash - Good"@[0]);
            reveal_strlit("Flash - Bad");
            assert("Search Panel"@.len() != "Flash - Bad"@.len());
            reveal_strlit("Flash - Miss");
            assert("Search Panel"@[0] != "Flash - Miss"@[0]);
            reveal_strlit("Flash - Ghost Tap");
            assert("Search Panel"@.len() != "Flash - Ghost Tap"@.len());
            reveal_strlit("📋 Judgement Panel");
            assert("Search Panel"@.len() != "📋 Judgement Panel"@.len());
            reveal_strlit("Background");
            assert("Search Panel"@.len() != "Background"@.len());
            reveal_strlit("Song Button");
            assert("Search Panel"@.len() != "Song Button"@.len());
            reveal_strlit("Song Button Selected");
            assert("Search Panel"@.len() != "Song Button Selected"@.len());
            reveal_strlit("Difficulty Button");
            assert("Search Panel"@.len() != "Difficulty Button"@.len());
            reveal_strlit("Search Bar");
            assert("Search Panel"@.len() != "Search Bar"@.len());
        },
        SkinElement::BeatmapInfo => {
            reveal_strlit("Beatmap Info");
            reveal_strlit("Notes - Default");
            assert("Beatmap Info"@.len() != "Notes - Default"@.len());
            reveal_strlit("Hold - Body");
            assert("Beatmap Info"@.len() != "Hold - Body"@.len());
            reveal_strlit("Hold - End");
            assert("Beatmap Info"@.len() != "Hold - End"@.len());
            reveal_strlit("Burst - Body");
            assert("Beatmap Info"@[1] != "Burst - Body"@[1]);
            reveal_strlit("Burst - End");
            assert("Beatmap Info"@.len() != "Burst - End"@.len());
            reveal_strlit("💣 Mines");
            assert("Beatmap Info"@.len() != "💣 Mines"@.len());
            reveal_strlit("Receptors - Default");
            assert("Beatmap Info"@.len() != "Receptors - Default"@.len());
            reveal_strlit("📊 Hit Bar");
            assert("Beatmap Info"@.len() != "📊 Hit Bar"@.len());
            reveal_strlit("🎮 Playfield");
            assert("Beatmap Info"@.len() != "🎮 Playfield"@.len());
            reveal_strlit("🎹 4K Columns");
            assert("Beatmap Info"@[0] != "🎹 4K Columns"@[0]);
            reveal_strlit("🎹 5K Columns");
            assert("Beatmap Info"@[0] != "🎹 5K Columns"@[0]);
            reveal_strlit("🎹 6K Columns");
            assert("Beatmap Info"@[0] != "🎹 6K Columns"@[0]);
            reveal_strlit("🎹 7K Columns");
            assert("Beatmap Info"@[0] != "🎹 7K Columns"@[0]);
            reveal_strlit("Score Display");
            assert("Beatmap Info"@.len() != "Score Display"@.len());
            reveal_strlit("Combo Counter");
            assert("Beatmap Info"@.len() != "Combo Counter"@.len());
            reveal_strlit("Accuracy");
            assert("Beatmap Info"@.len() != "Accuracy"@.len());
            reveal_strlit("NPS Display");
            assert("Beatmap Info"@.len() != "NPS Display"@.len());
            reveal_strlit("📝 Notes Remaining");
            assert("Beatmap Info"@.len() != "📝 Notes Remaining"@.len());
            reveal_strlit("⚡ Scroll Speed");
            assert("Beatmap Info"@.len() != "⚡ Scroll Speed"@.len());
            reveal_strlit("⏱️ Time Left");
            assert("Beatmap Info"@[0] != "⏱️ Time Left"@[0]);
            reveal_strlit("Flash - All");
            assert("Beatmap Info"@.len() != "Flash - All"@.len());
            reveal_strlit("Flash - Marvelous");
            assert("Beatmap Info"@.len() != "Flash - Marvelous"@.len());
            reveal_strlit("Flash - Perfect");
            assert("Beatmap Info"@.len() != "Flash - Perfect"@.len());
            reveal_strlit("Flash - Great");
            assert("Beatmap Info"@.len() != "Flash - Great"@.len());
            reveal_strlit("Flash - Good");
            assert("Beatmap Info"@[0] != "Flash - Good"@[0]);
            reveal_strlit("Flash - Bad");
            assert("Beatmap Info"@.len() != "Flash - Bad"@.len());
            reveal_strlit("Flash - Miss");
            assert("Beatmap Info"@[0] != "Flash - Miss"@[0]);
            reveal_strlit("Flash - Ghost Tap");
            assert("Beatmap Info"@.len() != "Flash - Ghost Tap"@.len());
            reveal_strlit("📋 Judgement Panel");
            assert("Beatmap Info"@.len() != "📋 Judgement Panel"@.len());
            reveal_strlit("Background");
            assert("Beatmap Info"@.len() != "Background"@.len());
            reveal_strlit("Song Button");
            assert("Beatmap Info"@.len() != "Song Button"@.len());
            reveal_strlit("Song Button Selected");
            assert("Beatmap Info"@.len() != "Song Button Selected"@.len());
            reveal_strlit("Difficulty Button");
            assert("Beatmap Info"@.len() != "Difficulty Button"@.len());
            reveal_strlit("Search Bar");
            assert("Beatmap Info"@.len() != "Search Bar"@.len());
            reveal_strlit("Search Panel");
            assert("Beatmap Info"@[0] != "Search Panel"@[0]);
        },
        SkinElement::Leaderboard => {
            reveal_strlit("Leaderboard");
            reveal_strlit("Notes - Default");
            assert("Leaderboard"@.len() != "Notes - Default"@.len());
            reveal_strlit("Hold - Body");
            assert("Leaderboard"@[0] != "Hold - Body"@[0]);
            reveal_strlit("Hold - End");
            assert("Leaderboard"@.len() != "Hold - End"@.len());
            reveal_strlit("Burst - Body");
            assert("Leaderboard"@.len() != "Burst - Body"@.len());
            reveal_strlit("Burst - End");
            assert("Leaderboard"@[0] != "Burst - End"@[0]);
            reveal_strlit("💣 Mines");
            assert("Leaderboard"@.len() != "💣 Mines"@.len());
            reveal_strlit("Receptors - Default");
            assert("Leaderboard"@.len() != "Receptors - Default"@.len());
            reveal_strlit("📊 Hit Bar");
            assert("Leaderboard"@.len() != "📊 Hit Bar"@.len());
            reveal_strlit("🎮 Playfield");
            assert("Leaderboard"@[0] != "🎮 Playfield"@[0]);
            reveal_strlit("🎹 4K Columns");
            assert("Leaderboard"@.len() != "🎹 4K Columns"@.len());
            reveal_strlit("🎹 5K Columns");
            assert("Leaderboard"@.len() != "🎹 5K Columns"@.len());
            reveal_strlit("🎹 6K Columns");
            assert("Leaderboard"@.len() != "🎹 6K Columns"@.len());
            reveal_strlit("🎹 7K Columns");
            assert("Leaderboard"@.len() != "🎹 7K Columns"@.len());
            reveal_strlit("Score Display");
            assert("Leaderboard"@.len() != "Score Display"@.len());
            reveal_strlit("Combo Counter");
            assert("Leaderboard"@.len() != "Combo Counter"@.len());
            reveal_strlit("Accuracy");
            assert("Leaderboard"@.len() != "Accuracy"@.len());
            reveal_strlit("NPS Display");
            assert("Leaderboard"@[0] != "NPS Display"@[0]);
            reveal_strlit("📝 Notes Remaining");
            assert("Leaderboard"@.len() != "📝 Notes Remaining"@.len());
            reveal_strlit("⚡ Scroll Speed");
            assert("Leaderboard"@.len() != "⚡ Scroll Speed"@.len());
            reveal_strlit("⏱️ Time Left");
            assert("Leaderboard"@.len() != "⏱️ Time Left"@.len());
            reveal_strlit("Flash - All");
            assert("Leaderboard"@[0] != "Flash - All"@[0]);
            reveal_strlit("Flash - Marvelous");
            assert("Leaderboard"@.len() != "Flash - Marvelous"@.len());
            reveal_strlit("Flash - Perfect");
            assert("Leaderboard"@.len() != "Flash - Perfect"@.len());
            reveal_strlit("Flash - Great");
            assert("Leaderboard"@.len() != "Flash - Great"@.len());
            reveal_strlit("Flash - Good");
            assert("Leaderboard"@.len() != "Flash - Good"@.len());
            reveal_strlit("Flash - Bad");
            assert("Leaderboard"@[0] != "Flash - Bad"@[0]);
            reveal_strlit("Flash - Miss");
            assert("Leaderboard"@.len() != "Flash - Miss"@.len());
            reveal_strlit("Flash - Ghost Tap");
            assert("Leaderboard"@.len() != "Flash - Ghost Tap"@.len());
            reveal_strlit("📋 Judgement Panel");
            assert("Leaderboard"@.len() != "📋 Judgement Panel"@.len());
            reveal_strlit("Background");
            assert("Leaderboard"@.len() != "Background"@.len());
            reveal_strlit("Song Button");
            assert("Leaderboard"@[0] != "Song Button"@[0]);
            reveal_strlit("Song Button Selected");
            assert("Leaderboard"@.len() != "Song Button Selected"@.len());
            reveal_strlit("Difficulty Button");
            assert("Leaderboard"@.len() != "Difficulty Button"@.len());
            reveal_strlit("Search Bar");
            assert("Leaderboard"@.len() != "Search Bar"@.len());
            reveal_strlit("Search Panel");
            assert("Leaderboard"@.len() != "Search Panel"@.len());
            reveal_strlit("Beatmap Info");
            assert("Leaderboard"@.len() != "Beatmap Info"@.len());
        },
        SkinElement::PanelStyle => {
            reveal_strlit("🎨 Panel Style");
            reveal_strlit("Notes - Default");
            assert("🎨 Panel Style"@.len() != "Notes - Default"@.len());
            reveal_strlit("Hold - Body");
            assert("🎨 Panel Style"@.len() != "Hold - Body"@.len());
            reveal_strlit("Hold - End");
            assert("🎨 Panel Style"@.len() != "Hold - End"@.len());
            reveal_strlit("Burst - Body");
            assert("🎨 Panel Style"@.len() != "Burst - Body"@.len());
            reveal_strlit("Burst - End");
            assert("🎨 Panel Style"@.len() != "Burst - End"@.len());
            reveal_strlit("💣 Mines");
            assert("🎨 Panel Style"@.len() != "💣 Mines"@.len());
            reveal_strlit("Receptors - Default");
            assert("🎨 Panel Style"@.len() != "Receptors - Default"@.len());
            reveal_strlit("📊 Hit Bar");
            assert("🎨 Panel Style"@.len() != "📊 Hit Bar"@.len());
            reveal_strlit("🎮 Playfield");
            assert("🎨 Panel Style"@.len() != "🎮 Playfield"@.len());
            reveal_strlit("🎹 4K Columns");
            assert("🎨 Panel Style"@.len() != "🎹 4K Columns"@.len());
            reveal_strlit("🎹 5K Columns");
            assert("🎨 Panel Style"@.len() != "🎹 5K Columns"@.len());
            reveal_strlit("🎹 6K Columns");
            assert("🎨 Panel Style"@.len() != "🎹 6K Columns"@.len());
            reveal_strlit("🎹 7K Columns");
            assert("🎨 Panel Style"@.len() != "🎹 7K Columns"@.len());
            reveal_strlit("Score Display");
            assert("🎨 Panel Style"@[0] != "Score Display"@[0]);
            reveal_strlit("Combo Counter");
            assert("🎨 Panel Style"@[0] != "Combo Counter"@[0]);
            reveal_strlit("Accuracy");
            assert("🎨 Panel Style"@.len() != "Accuracy"@.len());
            reveal_strlit("NPS Display");
            assert("🎨 Panel Style"@.len() != "NPS Display"@.len());
            reveal_strlit("📝 Notes Remaining");
            assert("🎨 Panel Style"@.len() != "📝 Notes Remaining"@.len());
            reveal_strlit("⚡ Scroll Speed");
            assert("🎨 Panel Style"@.len() != "⚡ Scroll Speed"@.len());
            reveal_strlit("⏱️ Time Left");
            assert("🎨 Panel Style"@.len() != "⏱️ Time Left"@.len());
            reveal_strlit("Flash - All");
            assert("🎨 Panel Style"@.len() != "Flash - All"@.len());
            reveal_strlit("Flash - Marvelous");
            assert("🎨 Panel Style"@.len() != "Flash - Marvelous"@.len());
            reveal_strlit("Flash - Perfect");
            assert("🎨 Panel Style"@.len() != "Flash - Perfect"@.len());
            reveal_strlit("Flash - Great");
            assert("🎨 Panel Style"@[0] != "Flash - Great"@[0]);
            reveal_strlit("Flash - Good");
            assert("🎨 Panel Style"@.len() != "Flash - Good"@.len());
            reveal_strlit("Flash - Bad");
            assert("🎨 Panel Style"@.len() != "Flash - Bad"@.len());
            reveal_strlit("Flash - Miss");
            assert("🎨 Panel Style"@.len() != "Flash - Miss"@.len());
            reveal_strlit("Flash - Ghost Tap");
            assert("🎨 Panel Style"@.len() != "Flash - Ghost Tap"@.len());
            reveal_strlit("📋 Judgement Panel");
            assert("🎨 Panel Style"@.len() != "📋 Judgement Panel"@.len());
            reveal_strlit("Background");
            assert("🎨 Panel Style"@.len() != "Background"@.len());
            reveal_strlit("Song Button");
            assert("🎨 Panel Style"@.len() != "Song Button"@.len());
            reveal_strlit("Song Button Selected");
            assert("🎨 Panel Style"@.len() != "Song Button Selected"@.len());
            reveal_strlit("Difficulty Button");
            assert("🎨 Panel Style"@.len() != "Difficulty Button"@.len());
            reveal_strlit("Search Bar");
            assert("🎨 Panel Style"@.len() != "Search Bar"@.len());
            reveal_strlit("Search Panel");
            assert("🎨 Panel Style"@.len() != "Search Panel"@.len());
            reveal_strlit("Beatmap Info");
            assert("🎨 Panel Style"@.len() != "Beatmap Info"@.len());
            reveal_strlit("Leaderboard");
            assert("🎨 Panel Style"@.len() != "Leaderboard"@.len());
        },
        SkinElement::SkinInfo => {
            reveal_strlit("Skin Info");
            reveal_strlit("Notes - Default");
            assert("Skin Info"@.len() != "Notes - Default"@.len());
            reveal_strlit("Hold - Body");
            assert("Skin Info"@.len() != "Hold - Body"@.len());
            reveal_strlit("Hold - End");
            assert("Skin Info"@.len() != "Hold - End"@.len());
            reveal_strlit("Burst - Body");
            assert("Skin Info"@.len() != "Burst - Body"@.len());
            reveal_strlit("Burst - End");
            assert("Skin Info"@.len() != "Burst - End"@.len());
            reveal_strlit("💣 Mines");
            assert("Skin Info"@.len() != "💣 Mines"@.len());
            reveal_strlit("Receptors - Default");
            assert("Skin Info"@.len() != "Receptors - Default"@.len());
            reveal_strlit("📊 Hit Bar");
            assert("Skin Info"@[0] != "📊 Hit Bar"@[0]);
            reveal_strlit("🎮 Playfield");
            assert("Skin Info"@.len() != "🎮 Playfield"@.len());
            reveal_strlit("🎹 4K Columns");
            assert("Skin Info"@.len() != "🎹 4K Columns"@.len());
            reveal_strlit("🎹 5K Columns");
            assert("Skin Info"@.len() != "🎹 5K Columns"@.len());
            reveal_strlit("🎹 6K Columns");
            assert("Skin Info"@.len() != "🎹 6K Columns"@.len());
            reveal_strlit("🎹 7K Columns");
            assert("Skin Info"@.len() != "🎹 7K Columns"@.len());
            reveal_strlit("Score Display");
            assert("Skin Info"@.len() != "Score Display"@.len());
            reveal_strlit("Combo Counter");
            assert("Skin Info"@.len() != "Combo Counter"@.len());
            reveal_strlit("Accuracy");
            assert("Skin Info"@.len() != "Accuracy"@.len());
            reveal_strlit("NPS Display");
            assert("Skin Info"@.len() != "NPS Display"@.len());
            reveal_strlit("📝 Notes Remaining");
            assert("Skin Info"@.len() != "📝 Notes Remaining"@.len());
            reveal_strlit("⚡ Scroll Speed");
            assert("Skin Info"@.len() != "⚡ Scroll Speed"@.len());
            reveal_strlit("⏱️ Time Left");
            assert("Skin Info"@.len() != "⏱️ Time Left"@.len());
            reveal_strlit("Flash - All");
            assert("Skin Info"@.len() != "Flash - All"@.len());
            reveal_strlit("Flash - Marvelous");
            assert("Skin Info"@.len() != "Flash - Marvelous"@.len());
            reveal_strlit("Flash - Perfect");
            assert("Skin Info"@.len() != "Flash - Perfect"@.len());
            reveal_strlit("Flash - Great");
            assert("Skin Info"@.len() != "Flash - Great"@.len());
            reveal_strlit("Flash - Good");
            assert("Skin Info"@.len() != "Flash - Good"@.len());
            reveal_strlit("Flash - Bad");
            assert("Skin Info"@.len() != "Flash - Bad"@.len());
            reveal_strlit("Flash - Miss");
            assert("Skin Info"@.len() != "Flash - Miss"@.len());
            reveal_strlit("Flash - Ghost Tap");
            assert("Skin Info"@.len() != "Flash - Ghost Tap"@.len());
            reveal_strlit("📋 Judgement Panel");
            assert("Skin Info"@.len() != "📋 Judgement Panel"@.len());
            reveal_strlit("Background");
            assert("Skin Info"@.len() != "Background"@.len());
            reveal_strlit("Song Button");
            assert("Skin Info"@.len() != "Song Button"@.len());
            reveal_strlit("Song Button Selected");
            assert("Skin Info"@.len() != "Song Button Selected"@.len());
            reveal_strlit("Difficulty Button");
            assert("Skin Info"@.len() != "Difficulty Button"@.len());
            reveal_strlit("Search Bar");
            assert("Skin Info"@.len() != "Search Bar"@.len());
            reveal_strlit("Search Panel");
            assert("Skin Info"@.len() != "Search Panel"@.len());
            reveal_strlit("Beatmap Info");
            assert("Skin Info"@.len() != "Beatmap Info"@.len());
            reveal_strlit("Leaderboard");
            assert("Skin Info"@.len() != "Leaderboard"@.len());
            reveal_strlit("🎨 Panel Style");
            assert("Skin Info"@.len() != "🎨 Panel Style"@.len());
        },
        SkinElement::Font => {
            reveal_strlit("Font");
            reveal_strlit("Notes - Default");
            assert("Font"@.len() != "Notes - Default"@.len());
            reveal_strlit("Hold - Body");
            assert("Font"@.len() != "Hold - Body"@.len());
            reveal_strlit("Hold - End");
            assert("Font"@.len() != "Hold - End"@.len());
            reveal_strlit("Burst - Body");
            assert("Font"@.len() != "Burst - Body"@.len());
            reveal_strlit("Burst - End");
            assert("Font"@.len() != "Burst - End"@.len());
            reveal_strlit("💣 Mines");
            assert("Font"@.len() != "💣 Mines"@.len());
            reveal_strlit("Receptors - Default");
            assert("Font"@.len() != "Receptors - Default"@.len());
            reveal_strlit("📊 Hit Bar");
            assert("Font"@.len() != "📊 Hit Bar"@.len());
            reveal_strlit("🎮 Playfield");
            assert("Font"@.len() != "🎮 Playfield"@.len());
            reveal_strlit("🎹 4K Columns");
            assert("Font"@.len() != "🎹 4K Columns"@.len());
            reveal_strlit("🎹 5K Columns");
            assert("Font"@.len() != "🎹 5K Columns"@.len());
            reveal_strlit("🎹 6K Columns");
            assert("Font"@.len() != "🎹 6K Columns"@.len());
            reveal_strlit("🎹 7K Columns");
            assert("Font"@.len() != "🎹 7K Columns"@.len());
            reveal_strlit("Score Display");
            assert("Font"@.len() != "Score Display"@.len());
            reveal_strlit("Combo Counter");
            assert("Font"@.len() != "Combo Counter"@.len());
            reveal_strlit("Accuracy");
            assert("Font"@.len() != "Accuracy"@.len());
            reveal_strlit("NPS Display");
            assert("Font"@.len() != "NPS Display"@.len());
            reveal_strlit("📝 Notes Remaining");
            assert("Font"@.len() != "📝 Notes Remaining"@.len());
            reveal_strlit("⚡ Scroll Speed");
            assert("Font"@.len() != "⚡ Scroll Speed"@.len());
            reveal_strlit("⏱️ Time Left");
            assert("Font"@.len() != "⏱️ Time Left"@.len());
            reveal_strlit("Flash - All");
            assert("Font"@.len() != "Flash - All"@.len());
            reveal_strlit("Flash - Marvelous");
            assert("Font"@.len() != "Flash - Marvelous"@.len());
            reveal_strlit("Flash - Perfect");
            assert("Font"@.len() != "Flash - Perfect"@.len());
            reveal_strlit("Flash - Great");
            assert("Font"@.len() != "Flash - Great"@.len());
            reveal_strlit("Flash - Good");
            assert("Font"@.len() != "Flash - Good"@.len());
            reveal_strlit("Flash - Bad");
            assert("Font"@.len() != "Flash - Bad"@.len());
            reveal_strlit("Flash - Miss");
            assert("Font"@.len() != "Flash - Miss"@.len());
            reveal_strlit("Flash - Ghost Tap");
            assert("Font"@.len() != "Flash - Ghost Tap"@.len());
            reveal_strlit("📋 Judgement Panel");
            assert("Font"@.len() != "📋 Judgement Panel"@.len());
            reveal_strlit("Background");
            assert("Font"@.len() != "Background"@.len());
            reveal_strlit("Song Button");
            assert("Font"@.len() != "Song Button"@.len());
            reveal_strlit("Song Button Selected");
            assert("Font"@.len() != "Song Button Selected"@.len());
            reveal_strlit("Difficulty Button");
            assert("Font"@.len() != "Difficulty Button"@.len());
            reveal_strlit("Search Bar");
            assert("Font"@.len() != "Search Bar"@.len());
            reveal_strlit("Search Panel");
            assert("Font"@.len() != "Search Panel"@.len());
            reveal_strlit("Beatmap Info");
            assert("Font"@.len() != "Beatmap Info"@.len());
            reveal_strlit("Leaderboard");
            assert("Font"@.len() != "Leaderboard"@.len());
            reveal_strlit("🎨 Panel Style");
            assert("Font"@.len() != "🎨 Panel Style"@.len());
            reveal_strlit("Skin Info");
            assert("Font"@.len() != "Skin Info"@.len());
        },
    }
}


/// A position of the skin that a drag in the preview moves.
#[derive(Debug, PartialEq, Eq, Clone, Copy, Structural)]
pub enum PositionTarget {
    Playfield,
    HitBar,
    Score,
    Combo,
    Accuracy,
    Nps,
    Flash(Judgement),
    JudgementPanel,
    NotesRemaining,
    ScrollSpeed,
    TimeLeft,
}

/// The judgements that have a flash of their own, in the order the skin
/// lists them.
pub open spec fn flash_judgements() -> Seq<Judgement> {
    seq![
        Judgement::Marv,
        Judgement::Perfect,
        Judgement::Great,
        Judgement::Good,
        Judgement::Bad,
        Judgement::Miss,
        Judgement::GhostTap,
    ]
}

/// The elements that edit one judgement flash each, in the same order.
pub open spec fn single_flash_elements() -> Seq<SkinElement> {
    seq![
        SkinElement::FlashMarvelous,
        SkinElement::FlashPerfect,
        SkinElement::FlashGreat,
        SkinElement::FlashGood,
        SkinElement::FlashBad,
        SkinElement::FlashMiss,
        SkinElement::FlashGhostTap,
    ]
}

/// The positions that dragging an element moves.
pub open spec fn movement_targets_spec(e: SkinElement) -> Seq<PositionTarget> {
    match e {
        SkinElement::NotesDefault => seq![PositionTarget::Playfield],
        SkinElement::ReceptorsDefault => seq![PositionTarget::Playfield],
        SkinElement::HitBar => seq![PositionTarget::HitBar],
        SkinElement::ScoreDisplay => seq![PositionTarget::Score],
        SkinElement::ComboCounter => seq![PositionTarget::Combo],
        SkinElement::Accuracy => seq![PositionTarget::Accuracy],
        SkinElement::NpsDisplay => seq![PositionTarget::Nps],
        SkinElement::FlashAll => flash_judgements().map_values(|j: Judgement| PositionTarget::Flash(j)),
        SkinElement::FlashMarvelous => seq![PositionTarget::Flash(Judgement::Marv)],
        SkinElement::FlashPerfect => seq![PositionTarget::Flash(Judgement::Perfect)],
        SkinElement::FlashGreat => seq![PositionTarget::Flash(Judgement::Great)],
        SkinElement::FlashGood => seq![PositionTarget::Flash(Judgement::Good)],
        SkinElement::FlashBad => seq![PositionTarget::Flash(Judgement::Bad)],
        SkinElement::FlashMiss => seq![PositionTarget::Flash(Judgement::Miss)],
        SkinElement::FlashGhostTap => seq![PositionTarget::Flash(Judgement::GhostTap)],
        SkinElement::JudgementPanel => seq![PositionTarget::JudgementPanel],
        SkinElement::NotesRemaining => seq![PositionTarget::NotesRemaining],
        SkinElement::ScrollSpeed => seq![PositionTarget::ScrollSpeed],
        SkinElement::TimeLeft => seq![PositionTarget::TimeLeft],
        _ => Seq::empty(),
    }
}

/// The positions that dragging an element in the preview moves.
pub fn movement_targets(e: SkinElement) -> (r: Vec<PositionTarget>)
    ensures
        r@ == movement_targets_spec(e),
{
    let r = match e {
        SkinElement::NotesDefault => vec![PositionTarget::Playfield],
        SkinElement::ReceptorsDefault => vec![PositionTarget::Playfield],
        SkinElement::HitBar => vec![PositionTarget::HitBar],
        SkinElement::ScoreDisplay => vec![PositionTarget::Score],
        SkinElement::ComboCounter => vec![PositionTarget::Combo],
        SkinElement::Accuracy => vec![PositionTarget::Accuracy],
        SkinElement::NpsDisplay => vec![PositionTarget::Nps],
        SkinElement::FlashAll => vec![
            PositionTarget::Flash(Judgement::Marv),
            PositionTarget::Flash(Judgement::Perfect),
            PositionTarget::Flash(Judgement::Great),
            PositionTarget::Flash(Judgement::Good),
            PositionTarget::Flash(Judgement::Bad),
            PositionTarget::Flash(Judgement::Miss),
            PositionTarget::Flash(Judgement::GhostTap),
        ],
        SkinElement::FlashMarvelous => vec![PositionTarget::Flash(Judgement::Marv)],
        SkinElement::FlashPerfect => vec![PositionTarget::Flash(Judgement::Perfect)],
        SkinElement::FlashGreat => vec![PositionTarget::Flash(Judgement::Great)],
        SkinElement::FlashGood => vec![PositionTarget::Flash(Judgement::Good)],
        SkinElement::FlashBad => vec![PositionTarget::Flash(Judgement::Bad)],
        SkinElement::FlashMiss => vec![PositionTarget::Flash(Judgement::Miss)],
        SkinElement::FlashGhostTap => vec![PositionTarget::Flash(Judgement::GhostTap)],
        SkinElement::JudgementPanel => vec![PositionTarget::JudgementPanel],
        SkinElement::NotesRemaining => vec![PositionTarget::NotesRemaining],
        SkinElement::ScrollSpeed => vec![PositionTarget::ScrollSpeed],
        SkinElement::TimeLeft => vec![PositionTarget::TimeLeft],
        _ => Vec::new(),
    };
    assert(r@ =~= movement_targets_spec(e));
    r
}

/// The position whose box the preview draws around a selected element.
pub open spec fn preview_target_spec(e: SkinElement) -> Option<PositionTarget> {
    match e {
        SkinElement::NotesDefault => Some(PositionTarget::Playfield),
        SkinElement::ReceptorsDefault => Some(PositionTarget::Playfield),
        SkinElement::HitBar => Some(PositionTarget::HitBar),
        SkinElement::FlashAll => Some(PositionTarget::Flash(Judgement::Marv)),
        SkinElement::FlashMarvelous => Some(PositionTarget::Flash(Judgement::Marv)),
        SkinElement::FlashPerfect => Some(PositionTarget::Flash(Judgement::Perfect)),
        SkinElement::FlashGreat => Some(PositionTarget::Flash(Judgement::Great)),
        SkinElement::FlashGood => Some(PositionTarget::Flash(Judgement::Good)),
        SkinElement::FlashBad => Some(PositionTarget::Flash(Judgement::Bad)),
        SkinElement::FlashMiss => Some(PositionTarget::Flash(Judgement::Miss)),
        SkinElement::FlashGhostTap => Some(PositionTarget::Flash(Judgement::GhostTap)),
        SkinElement::ScoreDisplay => Some(PositionTarget::Score),
        SkinElement::ComboCounter => Some(PositionTarget::Combo),
        SkinElement::Accuracy => Some(PositionTarget::Accuracy),
        SkinElement::NpsDisplay => Some(PositionTarget::Nps),
        SkinElement::JudgementPanel => Some(PositionTarget::JudgementPanel),
        SkinElement::NotesRemaining => Some(PositionTarget::NotesRemaining),
        SkinElement::ScrollSpeed => Some(PositionTarget::ScrollSpeed),
        SkinElement::TimeLeft => Some(PositionTarget::TimeLeft),
        _ => None,
    }
}

/// The position whose box the preview draws around a selected element;
/// `None` where the preview draws no box.
pub fn preview_target(e: SkinElement) -> (r: Option<PositionTarget>)
    ensures
        r == preview_target_spec(e),
{
    match e {
        SkinElement::NotesDefault => Some(PositionTarget::Playfield),
        SkinElement::ReceptorsDefault => Some(PositionTarget::Playfield),
        SkinElement::HitBar => Some(PositionTarget::HitBar),
        SkinElement::FlashAll => Some(PositionTarget::Flash(Judgement::Marv)),
        SkinElement::FlashMarvelous => Some(PositionTarget::Flash(Judgement::Marv)),
        SkinElement::FlashPerfect => Some(PositionTarget::Flash(Judgement::Perfect)),
        SkinElement::FlashGreat => Some(PositionTarget::Flash(Judgement::Great)),
        SkinElement::FlashGood => Some(PositionTarget::Flash(Judgement::Good)),
        SkinElement::FlashBad => Some(PositionTarget::Flash(Judgement::Bad)),
        SkinElement::FlashMiss => Some(PositionTarget::Flash(Judgement::Miss)),
        SkinElement::FlashGhostTap => Some(PositionTarget::Flash(Judgement::GhostTap)),
        SkinElement::ScoreDisplay => Some(PositionTarget::Score),
        SkinElement::ComboCounter => Some(PositionTarget::Combo),
        SkinElement::Accuracy => Some(PositionTarget::Accuracy),
        SkinElement::NpsDisplay => Some(PositionTarget::Nps),
        SkinElement::JudgementPanel => Some(PositionTarget::JudgementPanel),
        SkinElement::NotesRemaining => Some(PositionTarget::NotesRemaining),
        SkinElement::ScrollSpeed => Some(PositionTarget::ScrollSpeed),
        SkinElement::TimeLeft => Some(PositionTarget::TimeLeft),
        _ => None,
    }
}

/// "Flash - All" moves every judgement flash together: its targets are
/// those of the seven single flashes, in order.
pub proof fn lemma_flash_all_moves_every_flash()
    ensures
        movement_targets_spec(SkinElement::FlashAll) =~= single_flash_elements().map_values(
            |e: SkinElement| movement_targets_spec(e)[0],
        ),
{
}

/// The preview draws a box around an element exactly when dragging it
/// moves something, and the drag always moves the position whose box is
/// drawn.
pub proof fn lemma_preview_box_is_dragged(e: SkinElement)
    ensures
        preview_target_spec(e) is None <==> movement_targets_spec(e).len() == 0,
        preview_target_spec(e) matches Some(t) ==> movement_targets_spec(e).contains(t),
{
    if e == SkinElement::FlashAll {
        assert(movement_targets_spec(e)[0] == PositionTarget::Flash(Judgement::Marv));
    }
}

/// The judgement flash elements: all flashes and each single one.
pub open spec fn is_flash_element(e: SkinElement) -> bool {
    e == SkinElement::FlashAll || e == SkinElement::FlashMarvelous || e == SkinElement::FlashPerfect
        || e == SkinElement::FlashGreat || e == SkinElement::FlashGood || e == SkinElement::FlashBad
        || e == SkinElement::FlashMiss || e == SkinElement::FlashGhostTap
}

/// A drag of any element but "Flash - All" moves exactly the one position
/// whose box the preview draws, and nothing where no box is drawn; only the
/// flash elements move a judgement flash.
pub proof fn lemma_drag_moves_own_position(e: SkinElement)
    ensures
        e != SkinElement::FlashAll ==> match preview_target_spec(e) {
            Some(t) => movement_targets_spec(e) == seq![t],
            None => movement_targets_spec(e).len() == 0,
        },
        !is_flash_element(e) ==> forall|i: int|
            0 <= i < movement_targets_spec(e).len() ==> !(#[trigger] movement_targets_spec(e)[i] is Flash),
{
    assert(movement_targets_spec(e) =~= match e {
        SkinElement::FlashAll => movement_targets_spec(e),
        _ => match preview_target_spec(e) {
            Some(t) => seq![t],
            None => Seq::empty(),
        },
    });
}

/// Whether the inspector has an editor for the element ("Background" has
/// none: it shows the hint to select an element).
pub open spec fn is_inspectable_spec(e: SkinElement) -> bool {
    e != SkinElement::Background
}

/// Whether the inspector has an editor for the element.
pub fn is_inspectable(e: SkinElement) -> (r: bool)
    ensures
        r == is_inspectable_spec(e),
{
    !matches!(e, SkinElement::Background)
}

/// The elements that a click in the preview can select, in the order they
/// are tried.
pub open spec fn viewport_elements_spec() -> Seq<SkinElement> {
    seq![
        SkinElement::NotesDefault,
        SkinElement::ReceptorsDefault,
        SkinElement::ScoreDisplay,
        SkinElement::ComboCounter,
        SkinElement::Accuracy,
        SkinElement::NpsDisplay,
        SkinElement::HitBar,
        SkinElement::JudgementPanel,
        SkinElement::NotesRemaining,
        SkinElement::ScrollSpeed,
        SkinElement::TimeLeft,
        SkinElement::FlashAll,
        SkinElement::FlashMarvelous,
        SkinElement::FlashPerfect,
        SkinElement::FlashGreat,
        SkinElement::FlashGood,
        SkinElement::FlashBad,
        SkinElement::FlashMiss,
    ]
}

/// The elements that a click in the preview can select, in the order they
/// are tried.
pub fn viewport_elements() -> (r: Vec<SkinElement>)
    ensures
        r@ == viewport_elements_spec(),
{
    let r = vec![
        SkinElement::NotesDefault,
        SkinElement::ReceptorsDefault,
        SkinElement::ScoreDisplay,
        SkinElement::ComboCounter,
        SkinElement::Accuracy,
        SkinElement::NpsDisplay,
        SkinElement::HitBar,
        SkinElement::JudgementPanel,
        SkinElement::NotesRemaining,
        SkinElement::ScrollSpeed,
        SkinElement::TimeLeft,
        SkinElement::FlashAll,
        SkinElement::FlashMarvelous,
        SkinElement::FlashPerfect,
        SkinElement::FlashGreat,
        SkinElement::FlashGood,
        SkinElement::FlashBad,
        SkinElement::FlashMiss,
    ];
    assert(r@ =~= viewport_elements_spec());
    r
}

/// The element that a click selects: the first element, in the preview's
/// order, whose box holds the pointer (`hits[i]` tells whether the box of the
/// `i`-th element does).
pub fn pick_element(hits: &Vec<bool>) -> (r: Option<SkinElement>)
    requires
        hits@.len() == viewport_elements_spec().len(),
    ensures
        r matches Some(e) ==> exists|i: int|
            0 <= i < hits@.len() && hits@[i] && viewport_elements_spec()[i] == e && forall|j: int|
                0 <= j < i ==> !#[trigger] hits@[j],
        r is None <==> forall|i: int| 0 <= i < hits@.len() ==> !#[trigger] hits@[i],
{
    let elements = viewport_elements();
    let mut i: usize = 0;
    while i < hits.len()
        invariant
            i <= hits@.len(),
            hits@.len() == elements@.len(),
            elements@ == viewport_elements_spec(),
            forall|j: int| 0 <= j < i ==> !#[trigger] hits@[j],
        decreases hits.len() - i,
    {
        if hits[i] {
            return Some(elements[i]);
        }
        i = i + 1;
    }
    None
}

/// Every element that a click in the preview can select can be edited in
/// the inspector and dragged.
pub proof fn lemma_viewport_elements_are_editable(i: int)
    requires
        0 <= i < viewport_elements_spec().len(),
    ensures
        is_inspectable_spec(viewport_elements_spec()[i]),
        movement_targets_spec(viewport_elements_spec()[i]).len() > 0,
        preview_target_spec(viewport_elements_spec()[i]) is Some,
{
}


/// The title of the column editor of a key mode: "🎹 4K Column
/// Configuration".
pub fn column_section_title(keymode: usize) -> (r: String)
    ensures
        r@ == "🎹 "@ + decimal(keymode as nat) + "K Column Configuration"@,
{
    let mut r = String::from_str("🎹 ");
    push_decimal(&mut r, keymode as u64);
    r.append("K Column Configuration");
    r
}

/// The label of one column in the column editor: "Column 1 (4K)" for the
/// first column of 4K.
pub fn column_label(col: usize, keymode: usize) -> (r: String)
    requires
        col < usize::MAX,
    ensures
        r@ == "Column "@ + decimal((col + 1) as nat) + " ("@ + decimal(keymode as nat) + "K)"@,
{
    let mut r = String::from_str("Column ");
    push_decimal(&mut r, (col + 1) as u64);
    r.append(" (");
    push_decimal(&mut r, keymode as u64);
    r.append("K)");
    r
}

/// The labels of all columns of a key mode, in order.
pub fn column_labels(keymode: usize) -> (r: Vec<String>)
    ensures
        r@.len() == keymode,
        forall|c: int|
            0 <= c < keymode ==> #[trigger] r@[c]@ == "Column "@ + decimal((c + 1) as nat) + " ("@
                + decimal(keymode as nat) + "K)"@,
{
    let mut r: Vec<String> = Vec::new();
    let mut c: usize = 0;
    while c < keymode
        invariant
            c <= keymode,
            r@.len() == c,
            forall|k: int|
                0 <= k < c ==> #[trigger] r@[k]@ == "Column "@ + decimal((k + 1) as nat) + " ("@
                    + decimal(keymode as nat) + "K)"@,
        decreases keymode - c,
    {
        r.push(column_label(c, keymode));
        c = c + 1;
    }
    r
}

/// The text beside a file picker: "label: name", the name being what
/// follows the last path separator, or "None" when no file is set.
pub open spec fn file_display_text_spec(label: Seq<char>, path: Option<String>) -> Seq<char> {
    label + ": "@ + match path {
        Some(p) => after_last_separator(p@),
        None => "None"@,
    }
}

/// The text beside a file picker.
pub fn file_display_text(label: &str, path: &Option<String>) -> (r: String)
    ensures
        r@ == file_display_text_spec(label@, *path),
{
    let mut r = String::from_str(label);
    r.append(": ");
    match path {
        Some(p) => {
            let name = after_last_separator_str(p.as_str());
            r.append(name.as_str());
        },
        None => r.append("None"),
    }
    r
}

} // verus!
