//! Plain data shapes of the answers the surrounding bot receives from the
//! web services it queries (game status, dictionaries, jokes, trivia).  The
//! bot's network layer fills them in; here they are held as plain values so
//! replies can be assembled and trimmed by the verified text helpers.

use vstd::prelude::*;

verus! {

/// Status report for an online game, one region at a time.
#[derive(Clone)]
pub struct ValorantStatus {
    pub name: String,
    pub regions: Vec<Region>,
}

#[derive(Clone)]
pub struct Region {
    pub name: String,
    pub maintenances: Vec<Incident>,
    pub incidents: Vec<Incident>,
}

#[derive(Clone)]
pub struct Incident {
    pub description: String,
    pub created_at: String,
    pub platforms: Vec<String>,
    pub maintenance_status: Option<String>,
    pub incident_severity: Option<String>,
    pub updates: Vec<Update>,
    pub updated_at: Option<String>,
}

#[derive(Clone)]
pub struct Update {
    pub description: String,
    pub created_at: String,
    pub updated_at: String,
}

/// One crowd-sourced dictionary entry.
#[derive(Clone)]
pub struct UrbanDict {
    pub definition: String,
    pub permalink: String,
    pub thumbs_up: u32,
    pub thumbs_down: u32,
    pub author: String,
    pub written_on: String,
    pub example: String,
    pub word: String,
}

pub struct UrbanList {
    pub list: Vec<UrbanDict>,
}

/// One entry of a conventional dictionary.
pub struct DictionaryElement {
    pub word: String,
    pub phonetic: Option<String>,
    pub origin: Option<String>,
    pub meanings: Vec<Meaning>,
}

pub struct Meaning {
    pub part_of_speech: Option<String>,
    pub definitions: Vec<Definition>,
}

pub struct Definition {
    pub definition: String,
    pub synonyms: Option<Vec<String>>,
    pub example: Option<String>,
}

/// A random joke, with the categories it was filed under.
pub struct ChuckResponse {
    pub categories: Option<Vec<String>>,
    pub value: Option<String>,
}

/// A page of trivia questions.
#[derive(Clone)]
pub struct TriviaResponse {
    pub response_code: u8,
    pub results: Vec<TriviaResult>,
}

#[derive(Clone)]
pub struct TriviaResult {
    pub category: String,
    pub question_type: String,
    pub difficulty: String,
    pub question: String,
    pub correct_answer: String,
    pub incorrect_answers: Vec<String>,
}

/// The question categories the trivia service offers.
#[derive(Clone, Copy, PartialEq, Eq, Structural, Debug)]
pub enum TriviaCategory {
    Any,
    GeneralKnowledge,
    EntertainmentBooks,
    EntertainmentFilm,
    EntertainmentMusic,
    EntertainmentMusicalsAndTheatres,
    EntertainmentTelevision,
    EntertainmentVideoGames,
    EntertainmentBoardGames,
    ScienceNature,
    ScienceComputers,
    ScienceMathematics,
    Mythology,
    Sports,
    Geography,
    History,
    Politics,
    Art,
    Celebrities,
    Animals,
    Vehicles,
    EntertainmentComics,
    ScienceGadgets,
    EntertainmentJapaneseAnimeAndManga,
    EntertainmentCartoonAndAnimations,
}

/// The difficulty levels the trivia service offers.
#[derive(Clone, Copy, PartialEq, Eq, Structural, Debug)]
pub enum TriviaDifficulty {
    Any,
    Easy,
    Medium,
    Hard,
}

impl TriviaCategory {
    /// The category's position in the list above, which is the number the
    /// query parameter carries.
    pub fn api_id(&self) -> (r: u8)
        ensures
            r as int == match *self {
                TriviaCategory::Any => 0int,
                TriviaCategory::GeneralKnowledge => 1,
                TriviaCategory::EntertainmentBooks => 2,
                TriviaCategory::EntertainmentFilm => 3,
                TriviaCategory::EntertainmentMusic => 4,
                TriviaCategory::EntertainmentMusicalsAndTheatres => 5,
                TriviaCategory::EntertainmentTelevision => 6,
                TriviaCategory::EntertainmentVideoGames => 7,
                TriviaCategory::EntertainmentBoardGames => 8,
                TriviaCategory::ScienceNature => 9,
                TriviaCategory::ScienceComputers => 10,
                TriviaCategory::ScienceMathematics => 11,
                TriviaCategory::Mythology => 12,
                TriviaCategory::Sports => 13,
                TriviaCategory::Geography => 14,
                TriviaCategory::History => 15,
                TriviaCategory::Politics => 16,
                TriviaCategory::Art => 17,
                TriviaCategory::Celebrities => 18,
                TriviaCategory::Animals => 19,
                TriviaCategory::Vehicles => 20,
                TriviaCategory::EntertainmentComics => 21,
                TriviaCategory::ScienceGadgets => 22,
                TriviaCategory::EntertainmentJapaneseAnimeAndManga => 23,
                TriviaCategory::EntertainmentCartoonAndAnimations => 24,
            },
    {
        match *self {
            TriviaCategory::Any => 0,
            TriviaCategory::GeneralKnowledge => 1,
            TriviaCategory::EntertainmentBooks => 2,
            TriviaCategory::EntertainmentFilm => 3,
            TriviaCategory::EntertainmentMusic => 4,
            TriviaCategory::EntertainmentMusicalsAndTheatres => 5,
            TriviaCategory::EntertainmentTelevision => 6,
            TriviaCategory::EntertainmentVideoGames => 7,
            TriviaCategory::EntertainmentBoardGames => 8,
            TriviaCategory::ScienceNature => 9,
            TriviaCategory::ScienceComputers => 10,
            TriviaCategory::ScienceMathematics => 11,
            TriviaCategory::Mythology => 12,
            TriviaCategory::Sports => 13,
            TriviaCategory::Geography => 14,
            TriviaCategory::History => 15,
            TriviaCategory::Politics => 16,
            TriviaCategory::Art => 17,
            TriviaCategory::Celebrities => 18,
            TriviaCategory::Animals => 19,
            TriviaCategory::Vehicles => 20,
            TriviaCategory::EntertainmentComics => 21,
            TriviaCategory::ScienceGadgets => 22,
            TriviaCategory::EntertainmentJapaneseAnimeAndManga => 23,
            TriviaCategory::EntertainmentCartoonAndAnimations => 24,
        }
    }
}

impl TriviaDifficulty {
    /// The value the difficulty query parameter carries: the lowercase
    /// level name, or `0` for no preference.
    pub fn api_value(&self) -> (r: &'static str)
        ensures
            *self == TriviaDifficulty::Any ==> r@ == "0"@,
            *self == TriviaDifficulty::Easy ==> r@ == "easy"@,
            *self == TriviaDifficulty::Medium ==> r@ == "medium"@,
            *self == TriviaDifficulty::Hard ==> r@ == "hard"@,
    {
        match *self {
            TriviaDifficulty::Any => "0",
            TriviaDifficulty::Easy => "easy",
            TriviaDifficulty::Medium => "medium",
            TriviaDifficulty::Hard => "hard",
        }
    }
}

} // verus!
