//! Preparing the embedding of the catalog: which movies still lack one,
//! what is sent to have a movie embedded, and where a new record goes in
//! the file of embeddings.
use crate::model::embedding_request_body::EmbeddingRequestBody;
use crate::model::movies::movie::TopRatedMovie;
use crate::model::movies::movie_embedding::MovieEmbedding;
use crate::util::text::texts;
use std::collections::HashSet;
use vstd::prelude::*;

verus! {

/// The model that embeds the movies.
pub const EMBEDDING_MODEL: &'static str = "text-embedding-3-large";

/// The length of the vectors that are asked for.
pub const EMBEDDING_DIMENSIONS: i32 = 1024;

/// The name under which the requests are sent.
pub const EMBEDDING_USER: &'static str = "ah-scraper";

/// The byte `]`, which closes the list of records.
pub const CLOSING_BRACKET: u8 = 0x5d;

/// The byte `,`, which parts two records.
pub const COMMA: u8 = 0x2c;

/// The byte that ends a line.
pub const LINE_FEED: u8 = 0x0a;

/// The ids of the movies that have a record.
pub open spec fn embedded_ids(movies_embedded: Seq<MovieEmbedding>) -> Set<i32> {
    Set::new(
        |id: i32|
            exists|i: int|
                0 <= i < movies_embedded.len() && (#[trigger] movies_embedded[i]).movie_id == id,
    )
}

/// The ids of the movies that have a record.
pub fn populate_existing_movie_ids(movies_embedded: Vec<MovieEmbedding>) -> (ids: HashSet<i32>)
    ensures
        ids@ == embedded_ids(movies_embedded@),
{
    broadcast use vstd::std_specs::hash::group_hash_axioms;

    let mut ids: HashSet<i32> = HashSet::new();
    let mut i: usize = 0;
    while i < movies_embedded.len()
        invariant
            i <= movies_embedded.len(),
            ids@ == embedded_ids(movies_embedded@.take(i as int)),
        decreases movies_embedded.len() - i,
    {
        ids.insert(movies_embedded[i].movie_id);
        proof {
            let before = movies_embedded@.take(i as int);
            let after = movies_embedded@.take(i + 1);
            assert forall|id: i32| #[trigger]
                ids@.contains(id) == embedded_ids(after).contains(id) by {
                if embedded_ids(after).contains(id) {
                    let k = choose|k: int|
                        0 <= k < after.len() && (#[trigger] after[k]).movie_id == id;
                    if k < i {
                        assert(before[k].movie_id == id);
                    }
                }
                if embedded_ids(before).contains(id) {
                    let k = choose|k: int|
                        0 <= k < before.len() && (#[trigger] before[k]).movie_id == id;
                    assert(after[k].movie_id == id);
                }
                if id == movies_embedded[i as int].movie_id {
                    assert(after[i as int].movie_id == id);
                }
            }
            assert(ids@ =~= embedded_ids(after));
        }
        i += 1;
    }
    assert(movies_embedded@.take(i as int) =~= movies_embedded@);
    ids
}

/// Whether the movie at `i` is still to be embedded: no record carries its
/// id, and no movie before it in the catalog does.
pub open spec fn is_pending(existing: Set<i32>, catalog: Seq<TopRatedMovie>, i: int) -> bool {
    &&& 0 <= i < catalog.len()
    &&& !existing.contains(catalog[i].id)
    &&& forall|j: int| 0 <= j < i ==> (#[trigger] catalog[j]).id != catalog[i].id
}

/// The places of the movies that are still to be embedded, in the order of
/// the catalog: each movie without a record, once.
pub fn pending_movies(catalog: &Vec<TopRatedMovie>, existing: HashSet<i32>) -> (places: Vec<usize>)
    ensures
        forall|k: int|
            0 <= k < places.len() ==> is_pending(
                existing@,
                catalog@,
                #[trigger] places[k] as int,
            ),
        forall|i: int|
            is_pending(existing@, catalog@, i) ==> exists|k: int|
                0 <= k < places.len() && #[trigger] places[k] == i,
        forall|k: int, l: int| 0 <= k < l < places.len() ==> places[k] < places[l],
{
    broadcast use vstd::std_specs::hash::group_hash_axioms;

    let mut seen = existing;
    let mut places: Vec<usize> = Vec::new();
    let mut i: usize = 0;
    while i < catalog.len()
        invariant
            i <= catalog.len(),
            forall|id: i32|
                seen@.contains(id) <==> existing@.contains(id) || exists|j: int|
                    0 <= j < i && (#[trigger] catalog[j]).id == id,
            forall|k: int|
                0 <= k < places.len() ==> is_pending(
                    existing@,
                    catalog@,
                    #[trigger] places[k] as int,
                ) && places[k] < i,
            forall|p: int|
                0 <= p < i && is_pending(existing@, catalog@, p) ==> exists|k: int|
                    0 <= k < places.len() && #[trigger] places[k] == p,
            forall|k: int, l: int| 0 <= k < l < places.len() ==> places[k] < places[l],
        decreases catalog.len() - i,
    {
        let id = catalog[i].id;
        let ghost before = places@;
        if !seen.contains(&id) {
            places.push(i);
            seen.insert(id);
            proof {
                assert(is_pending(existing@, catalog@, i as int));
                assert(places[places.len() - 1] == i);
            }
        } else {
            assert(!is_pending(existing@, catalog@, i as int)) by {
                if !existing@.contains(id) {
                    let j = choose|j: int| 0 <= j < i && (#[trigger] catalog[j]).id == id;
                    assert(catalog[j].id == catalog[i as int].id);
                }
            }
        }
        proof {
            assert forall|p: int|
                0 <= p < i + 1 && is_pending(existing@, catalog@, p) implies exists|k: int|
                0 <= k < places.len() && #[trigger] places[k] == p by {
                if p < i {
                    let k = choose|k: int| 0 <= k < before.len() && #[trigger] before[k] == p;
                    assert(places[k] == p);
                } else {
                    assert(places[places.len() - 1] == p);
                }
            }
            assert forall|id2: i32|
                seen@.contains(id2) <==> existing@.contains(id2) || exists|j: int|
                    0 <= j < i + 1 && (#[trigger] catalog[j]).id == id2 by {
                if id2 == id {
                    assert(catalog[i as int].id == id2);
                }
            }
        }
        i += 1;
    }
    places
}

/// The texts of a list, each followed by `separator` but the last.
pub open spec fn joined(list: Seq<Seq<char>>, separator: Seq<char>) -> Seq<char>
    decreases list.len(),
{
    if list.len() == 0 {
        Seq::empty()
    } else if list.len() == 1 {
        list[0]
    } else {
        joined(list.drop_last(), separator) + separator + list.last()
    }
}

/// The strings of a list, with a comma between one and the next.
pub fn join_with_commas(list: &Vec<String>) -> (text: String)
    ensures
        text@ == joined(texts(list@), ","@),
{
    let mut text = String::new();
    let mut i: usize = 0;
    while i < list.len()
        invariant
            i <= list.len(),
            text@ == joined(texts(list@).take(i as int), ","@),
        decreases list.len() - i,
    {
        proof {
            let taken = texts(list@).take(i + 1);
            assert(taken.drop_last() =~= texts(list@).take(i as int));
            assert(taken.last() == list@[i as int]@);
            if i == 0 {
                assert(joined(taken, ","@) == taken[0]);
                assert(Seq::<char>::empty() + list@[0]@ =~= list@[0]@);
            }
        }
        if i > 0 {
            text.append(",");
        }
        text.append(list[i].as_str());
        i += 1;
    }
    assert(texts(list@).take(i as int) =~= texts(list@));
    text
}

/// The text that an optional string holds, or the empty text.
pub open spec fn text_or_empty(value: Option<String>) -> Seq<char> {
    match value {
        Some(text) => text@,
        None => Seq::empty(),
    }
}

/// The texts of an optional list, with a comma between one and the next.
pub open spec fn joined_or_empty(value: Option<Vec<String>>) -> Seq<char> {
    match value {
        Some(list) => joined(texts(list@), ","@),
        None => Seq::empty(),
    }
}

/// What describes a movie to the embedding model: its overview, its
/// tagline, its genres, its keywords, its summaries and its synopsis, in
/// this order; lists are joined by commas, and what is absent is empty.
pub open spec fn embedding_texts(movie: TopRatedMovie) -> Seq<Seq<char>> {
    seq![
        text_or_empty(movie.overview),
        text_or_empty(movie.tagline),
        joined(texts(movie.genres@), ","@),
        joined_or_empty(movie.keywords),
        joined_or_empty(movie.summaries),
        text_or_empty(movie.synopsis),
    ]
}

fn string_or_empty(value: &Option<String>) -> (text: String)
    ensures
        text@ == text_or_empty(*value),
{
    match value {
        Some(text) => text.clone(),
        None => String::new(),
    }
}

fn join_or_empty(value: &Option<Vec<String>>) -> (text: String)
    ensures
        text@ == joined_or_empty(*value),
{
    match value {
        Some(list) => join_with_commas(list),
        None => String::new(),
    }
}

/// What describes a movie to the embedding model.
pub fn embedding_input(movie: &TopRatedMovie) -> (input: Vec<String>)
    ensures
        texts(input@) == embedding_texts(*movie),
{
    let mut input: Vec<String> = Vec::new();
    input.push(string_or_empty(&movie.overview));
    input.push(string_or_empty(&movie.tagline));
    input.push(join_with_commas(&movie.genres));
    input.push(join_or_empty(&movie.keywords));
    input.push(join_or_empty(&movie.summaries));
    input.push(string_or_empty(&movie.synopsis));
    assert(texts(input@) =~= embedding_texts(*movie));
    input
}

/// The request that has a movie embedded.
pub fn embedding_request(movie: &TopRatedMovie) -> (request: EmbeddingRequestBody)
    ensures
        texts(request.input@) == embedding_texts(*movie),
        request.model@ == EMBEDDING_MODEL@,
        request.encoding_format is None,
        request.dimensions == Some(EMBEDDING_DIMENSIONS),
        request.user is Some,
        request.user->0@ == EMBEDDING_USER@,
{
    EmbeddingRequestBody {
        input: embedding_input(movie),
        model: EMBEDDING_MODEL.to_owned(),
        encoding_format: None,
        dimensions: Some(EMBEDDING_DIMENSIONS),
        user: Some(EMBEDDING_USER.to_owned()),
    }
}

/// Where the last closing bracket of the file stands, or none.
pub open spec fn last_bracket(contents: Seq<u8>) -> Option<int>
    decreases contents.len(),
{
    if contents.len() == 0 {
        None
    } else if contents.last() == CLOSING_BRACKET {
        Some(contents.len() - 1)
    } else {
        last_bracket(contents.drop_last())
    }
}

/// Where a new record is written: over the last closing bracket of the
/// file, or at the end of a file that has none.
pub open spec fn append_offset(contents: Seq<u8>) -> int {
    match last_bracket(contents) {
        Some(place) => place,
        None => contents.len() as int,
    }
}

/// What is written at `append_offset`: a comma where records stand before
/// it, the record, and the closing bracket on a line of its own.
pub open spec fn appended_bytes(contents: Seq<u8>, record: Seq<u8>) -> Seq<u8> {
    let lead = if append_offset(contents) > 1 {
        seq![COMMA]
    } else {
        Seq::empty()
    };
    lead + record + seq![LINE_FEED, CLOSING_BRACKET, LINE_FEED]
}

/// Where a new record is written.
pub fn find_append_offset(contents: &Vec<u8>) -> (offset: usize)
    ensures
        offset == append_offset(contents@),
{
    let mut end: usize = contents.len();
    assert(contents@.take(end as int) =~= contents@);
    while end > 0
        invariant
            end <= contents.len(),
            last_bracket(contents@) == last_bracket(contents@.take(end as int)),
        decreases end,
    {
        if contents[end - 1] == CLOSING_BRACKET {
            return end - 1;
        }
        assert(contents@.take(end as int).drop_last() =~= contents@.take(end - 1));
        end -= 1;
    }
    contents.len()
}

/// Where a new record is written in the file of embeddings, and what is
/// written there.
pub fn append_record(contents: &Vec<u8>, record: &Vec<u8>) -> (write: (usize, Vec<u8>))
    ensures
        write.0 == append_offset(contents@),
        write.1@ == appended_bytes(contents@, record@),
{
    let offset = find_append_offset(contents);
    let mut bytes: Vec<u8> = Vec::new();
    if offset > 1 {
        bytes.push(COMMA);
    }
    let mut i: usize = 0;
    let ghost lead = bytes@;
    while i < record.len()
        invariant
            i <= record.len(),
            bytes@ == lead + record@.take(i as int),
        decreases record.len() - i,
    {
        bytes.push(record[i]);
        assert(record@.take(i + 1) =~= record@.take(i as int).push(record@[i as int]));
        i += 1;
    }
    assert(record@.take(i as int) =~= record@);
    bytes.push(LINE_FEED);
    bytes.push(CLOSING_BRACKET);
    bytes.push(LINE_FEED);
    assert(bytes@ =~= appended_bytes(contents@, record@));
    (offset, bytes)
}

} // verus!
