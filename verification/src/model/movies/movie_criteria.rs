//! What a caller asks of the catalog.
use crate::model::scalar::Double;
use crate::util::json::{field_at, json_document, json_leaf, field_pointer, optional_number,
    optional_text, parse_document, read_optional_number, read_optional_text, JsonLeaf};
use vstd::prelude::*;

verus! {

/// A filter over the catalog. An absent field puts no constraint on the
/// records. `search` and `natural_language` carry the caller's wording on to
/// a search service; no record is kept or dropped on their account.
#[derive(Clone, Debug)]
pub struct MovieCriteria {
    pub search: Option<String>,
    pub genre: Option<String>,
    pub mpaa: Option<String>,
    pub release_date_min: Option<String>,
    pub release_date_max: Option<String>,
    /// The lowest score asked for; a movie with exactly this score is kept.
    /// The bound is held in double precision, as it was read, and is
    /// compared with the score of a movie without being rounded first.
    pub score_min: Option<Double>,
    /// The highest score asked for; a movie with exactly this score is
    /// kept. The bound is held in double precision, as it was read, and is
    /// compared with the score of a movie without being rounded first.
    pub score_max: Option<Double>,
    pub natural_language: Option<String>,
}

/// The criteria with each text as a sequence of characters.
pub struct MovieCriteriaView {
    pub search: Option<Seq<char>>,
    pub genre: Option<Seq<char>>,
    pub mpaa: Option<Seq<char>>,
    pub release_date_min: Option<Seq<char>>,
    pub release_date_max: Option<Seq<char>>,
    pub score_min: Option<Double>,
    pub score_max: Option<Double>,
    pub natural_language: Option<Seq<char>>,
}

/// The text that an optional string holds.
pub open spec fn text_of(value: Option<String>) -> Option<Seq<char>> {
    match value {
        Some(text) => Some(text@),
        None => None,
    }
}

impl View for MovieCriteria {
    type V = MovieCriteriaView;

    open spec fn view(&self) -> MovieCriteriaView {
        MovieCriteriaView {
            search: text_of(self.search),
            genre: text_of(self.genre),
            mpaa: text_of(self.mpaa),
            release_date_min: text_of(self.release_date_min),
            release_date_max: text_of(self.release_date_max),
            score_min: self.score_min,
            score_max: self.score_max,
            natural_language: text_of(self.natural_language),
        }
    }
}

impl MovieCriteria {
    /// Whether no field is set.
    pub open spec fn unconstrained(self) -> bool {
        &&& self.search is None
        &&& self.genre is None
        &&& self.mpaa is None
        &&& self.release_date_min is None
        &&& self.release_date_max is None
        &&& self.score_min is None
        &&& self.score_max is None
        &&& self.natural_language is None
    }

    pub fn builder() -> (b: MovieCriteriaBuilder)
        ensures
            b.criteria.unconstrained(),
    {
        MovieCriteriaBuilder::new()
    }
}

/// The direction of a sort.
#[derive(Clone, Copy, Debug, PartialEq, Eq)]
pub enum SortDirection {
    Asc,
    Desc,
}

/// A field to sort by.
#[derive(Clone, Debug)]
pub struct SortCriteria {
    pub field: String,
    pub direction: Option<SortDirection>,
}

/// Sorting and paging of a result.
#[derive(Clone, Debug)]
pub struct Criteria {
    pub sort: Option<Vec<SortCriteria>>,
    pub page: Option<i32>,
    pub page_size: Option<i32>,
}

/// Collects the fields of a `MovieCriteria` one at a time.
pub struct MovieCriteriaBuilder {
    pub criteria: MovieCriteria,
}

impl MovieCriteriaBuilder {
    pub fn new() -> (b: Self)
        ensures
            b.criteria.unconstrained(),
    {
        MovieCriteriaBuilder {
            criteria: MovieCriteria {
                search: None,
                genre: None,
                mpaa: None,
                release_date_min: None,
                release_date_max: None,
                score_min: None,
                score_max: None,
                natural_language: None,
            },
        }
    }

    pub fn search(self, search: String) -> (b: Self)
        ensures
            b.criteria == (MovieCriteria { search: Some(search), ..self.criteria }),
    {
        let mut b = self;
        b.criteria.search = Some(search);
        b
    }

    pub fn genre(self, genre: String) -> (b: Self)
        ensures
            b.criteria == (MovieCriteria { genre: Some(genre), ..self.criteria }),
    {
        let mut b = self;
        b.criteria.genre = Some(genre);
        b
    }

    pub fn mpaa(self, mpaa: String) -> (b: Self)
        ensures
            b.criteria == (MovieCriteria { mpaa: Some(mpaa), ..self.criteria }),
    {
        let mut b = self;
        b.criteria.mpaa = Some(mpaa);
        b
    }

    pub fn release_date_min(self, release_date_min: String) -> (b: Self)
        ensures
            b.criteria == (MovieCriteria {
                release_date_min: Some(release_date_min),
                ..self.criteria
            }),
    {
        let mut b = self;
        b.criteria.release_date_min = Some(release_date_min);
        b
    }

    pub fn release_date_max(self, release_date_max: String) -> (b: Self)
        ensures
            b.criteria == (MovieCriteria {
                release_date_max: Some(release_date_max),
                ..self.criteria
            }),
    {
        let mut b = self;
        b.criteria.release_date_max = Some(release_date_max);
        b
    }

    pub fn score_min(self, score_min: Double) -> (b: Self)
        ensures
            b.criteria == (MovieCriteria { score_min: Some(score_min), ..self.criteria }),
    {
        let mut b = self;
        b.criteria.score_min = Some(score_min);
        b
    }

    pub fn score_max(self, score_max: Double) -> (b: Self)
        ensures
            b.criteria == (MovieCriteria { score_max: Some(score_max), ..self.criteria }),
    {
        let mut b = self;
        b.criteria.score_max = Some(score_max);
        b
    }

    pub fn natural_language(self, natural_language: String) -> (b: Self)
        ensures
            b.criteria == (MovieCriteria {
                natural_language: Some(natural_language),
                ..self.criteria
            }),
    {
        let mut b = self;
        b.criteria.natural_language = Some(natural_language);
        b
    }

    pub fn build(self) -> (criteria: MovieCriteria)
        ensures
            criteria == self.criteria,
    {
        self.criteria
    }
}

/// What a JSON document holds at the places where criteria are looked for:
/// at the object itself and at each of its fields.
#[derive(Debug)]
pub struct CriteriaLeaves {
    pub object: JsonLeaf,
    pub search: JsonLeaf,
    pub genre: JsonLeaf,
    pub mpaa: JsonLeaf,
    pub release_date_min: JsonLeaf,
    pub release_date_max: JsonLeaf,
    pub score_min: JsonLeaf,
    pub score_max: JsonLeaf,
    pub natural_language: JsonLeaf,
}

/// The criteria that the leaves spell. There are none where the place of
/// the criteria holds no object, where a text field holds anything but a
/// text, or where a score holds anything but a number. A field that is
/// missing or null is absent from the criteria; fields of other names play
/// no part.
pub open spec fn criteria_of(leaves: CriteriaLeaves) -> Option<MovieCriteriaView> {
    if leaves.object is Object && optional_text(leaves.search) is Some && optional_text(
        leaves.genre,
    ) is Some && optional_text(leaves.mpaa) is Some && optional_text(leaves.release_date_min)
        is Some && optional_text(leaves.release_date_max) is Some && optional_number(
        leaves.score_min,
    ) is Some && optional_number(leaves.score_max) is Some && optional_text(
        leaves.natural_language,
    ) is Some {
        Some(
            MovieCriteriaView {
                search: optional_text(leaves.search)->0,
                genre: optional_text(leaves.genre)->0,
                mpaa: optional_text(leaves.mpaa)->0,
                release_date_min: optional_text(leaves.release_date_min)->0,
                release_date_max: optional_text(leaves.release_date_max)->0,
                score_min: optional_number(leaves.score_min)->0,
                score_max: optional_number(leaves.score_max)->0,
                natural_language: optional_text(leaves.natural_language)->0,
            },
        )
    } else {
        None
    }
}

/// The leaves of `document` at the object that `prefix` points to.
pub open spec fn leaves_at(document: serde_json::Value, prefix: Seq<char>) -> CriteriaLeaves {
    CriteriaLeaves {
        object: json_leaf(document, prefix),
        search: json_leaf(document, field_pointer(prefix, "search"@)),
        genre: json_leaf(document, field_pointer(prefix, "genre"@)),
        mpaa: json_leaf(document, field_pointer(prefix, "mpaa"@)),
        release_date_min: json_leaf(document, field_pointer(prefix, "release_date_min"@)),
        release_date_max: json_leaf(document, field_pointer(prefix, "release_date_max"@)),
        score_min: json_leaf(document, field_pointer(prefix, "score_min"@)),
        score_max: json_leaf(document, field_pointer(prefix, "score_max"@)),
        natural_language: json_leaf(document, field_pointer(prefix, "natural_language"@)),
    }
}

/// The criteria that a JSON text spells in the object that `prefix` points
/// to: none where the text is no JSON document.
pub open spec fn criteria_in(text: Seq<char>, prefix: Seq<char>) -> Option<MovieCriteriaView> {
    match json_document(text) {
        Some(document) => criteria_of(leaves_at(document, prefix)),
        None => None,
    }
}

/// The view of criteria that may be absent.
pub open spec fn criteria_view(criteria: Option<MovieCriteria>) -> Option<MovieCriteriaView> {
    match criteria {
        Some(c) => Some(c@),
        None => None,
    }
}

/// The leaves of `document` at the object that `prefix` points to.
pub fn read_leaves(document: &serde_json::Value, prefix: &str) -> (leaves: CriteriaLeaves)
    ensures
        leaves == leaves_at(*document, prefix@),
{
    CriteriaLeaves {
        object: crate::util::json::leaf_at(document, prefix),
        search: field_at(document, prefix, "search"),
        genre: field_at(document, prefix, "genre"),
        mpaa: field_at(document, prefix, "mpaa"),
        release_date_min: field_at(document, prefix, "release_date_min"),
        release_date_max: field_at(document, prefix, "release_date_max"),
        score_min: field_at(document, prefix, "score_min"),
        score_max: field_at(document, prefix, "score_max"),
        natural_language: field_at(document, prefix, "natural_language"),
    }
}

impl MovieCriteria {
    /// The criteria that the leaves spell.
    pub fn from_leaves(leaves: CriteriaLeaves) -> (criteria: Option<MovieCriteria>)
        ensures
            criteria_view(criteria) == criteria_of(leaves),
    {
        let is_object = match &leaves.object {
            JsonLeaf::Object => true,
            _ => false,
        };
        if !is_object {
            return None;
        }
        let score_min = match read_optional_number(&leaves.score_min) {
            Some(value) => value,
            None => {
                return None;
            },
        };
        let score_max = match read_optional_number(&leaves.score_max) {
            Some(value) => value,
            None => {
                return None;
            },
        };
        let search = match read_optional_text(leaves.search) {
            Some(value) => value,
            None => {
                return None;
            },
        };
        let genre = match read_optional_text(leaves.genre) {
            Some(value) => value,
            None => {
                return None;
            },
        };
        let mpaa = match read_optional_text(leaves.mpaa) {
            Some(value) => value,
            None => {
                return None;
            },
        };
        let release_date_min = match read_optional_text(leaves.release_date_min) {
            Some(value) => value,
            None => {
                return None;
            },
        };
        let release_date_max = match read_optional_text(leaves.release_date_max) {
            Some(value) => value,
            None => {
                return None;
            },
        };
        let natural_language = match read_optional_text(leaves.natural_language) {
            Some(value) => value,
            None => {
                return None;
            },
        };
        Some(
            MovieCriteria {
                search,
                genre,
                mpaa,
                release_date_min,
                release_date_max,
                score_min,
                score_max,
                natural_language,
            },
        )
    }

    /// The criteria that a JSON text spells in the object that `prefix`
    /// points to, or `None` where it spells none there. A score bound is
    /// the double nearest to the number in the text: it is not narrowed to
    /// single precision, so a bound of 7.3 keeps a movie whose score is 7.3.
    pub fn from_json_at(text: &str, prefix: &str) -> (criteria: Option<MovieCriteria>)
        ensures
            criteria_view(criteria) == criteria_in(text@, prefix@),
    {
        match parse_document(text) {
            Some(document) => MovieCriteria::from_leaves(read_leaves(&document, prefix)),
            None => None,
        }
    }

    /// The criteria that a JSON text spells: an object whose fields are the
    /// fields of the criteria.
    pub fn from_json(text: &str) -> (criteria: Option<MovieCriteria>)
        ensures
            criteria_view(criteria) == criteria_in(text@, Seq::<char>::empty()),
    {
        let criteria = MovieCriteria::from_json_at(text, "");
        proof {
            reveal_strlit("");
            assert(""@ =~= Seq::<char>::empty());
        }
        criteria
    }
}

} // verus!
