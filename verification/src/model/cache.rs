//! The embeddings and the catalog, read once and kept.
use crate::model::movies::movie::TopRatedMovie;
use crate::model::movies::movie_embedding::MovieEmbedding;
use vstd::prelude::*;

verus! {

/// The two collections that the service keeps in memory. Each starts empty
/// and is filled at most once: a collection that holds anything is never
/// read again, and a load that fails fills neither.
pub struct Cache {
    pub movie_embeddings: Vec<MovieEmbedding>,
    pub top_movies: Vec<TopRatedMovie>,
}

/// The source that could not be read.
#[derive(Clone, Copy, Debug, PartialEq, Eq, Structural)]
pub enum LoadError {
    MovieEmbeddings,
    TopMovies,
}

/// What a load has read: for each collection what is to be installed, or
/// `None` for a collection that was in memory already and was not read.
pub struct Loaded {
    pub movie_embeddings: Option<Vec<MovieEmbedding>>,
    pub top_movies: Option<Vec<TopRatedMovie>>,
}

impl Cache {
    /// Whether both collections hold something.
    pub open spec fn loaded(self) -> bool {
        self.movie_embeddings@.len() > 0 && self.top_movies@.len() > 0
    }

    /// A cache with nothing in it.
    pub fn new() -> (cache: Cache)
        ensures
            cache.movie_embeddings@.len() == 0,
            cache.top_movies@.len() == 0,
    {
        Cache { movie_embeddings: Vec::new(), top_movies: Vec::new() }
    }

    /// Whether both collections hold something.
    pub fn is_loaded(&self) -> (r: bool)
        ensures
            r == self.loaded(),
    {
        self.movie_embeddings.len() > 0 && self.top_movies.len() > 0
    }

    /// Installs what a load has read; a collection that was not read stays
    /// as it is.
    pub fn install(&mut self, loaded: Loaded)
        ensures
            final(self).movie_embeddings == match loaded.movie_embeddings {
                Some(data) => data,
                None => old(self).movie_embeddings,
            },
            final(self).top_movies == match loaded.top_movies {
                Some(data) => data,
                None => old(self).top_movies,
            },
    {
        match loaded.movie_embeddings {
            Some(data) => {
                self.movie_embeddings = data;
            },
            None => {},
        }
        match loaded.top_movies {
            Some(data) => {
                self.top_movies = data;
            },
            None => {},
        }
    }
}

/// What reading the missing collections gives, where `movie_embeddings_empty`
/// and `top_movies_empty` say which collections are missing: nothing where a
/// source does not exist; else what was read of each missing collection, or
/// the source that could not be read. The embeddings are read first, and a
/// failure ends the reading.
pub open spec fn read_outcome<
    E: FnOnce() -> Option<Vec<MovieEmbedding>>,
    T: FnOnce() -> Option<Vec<TopRatedMovie>>,
>(
    movie_embeddings_empty: bool,
    top_movies_empty: bool,
    movie_embeddings_exist: bool,
    top_movies_exist: bool,
    read_movie_embeddings: E,
    read_top_movies: T,
    outcome: Result<Option<Loaded>, LoadError>,
) -> bool {
    if !(movie_embeddings_exist && top_movies_exist) {
        outcome == Ok::<Option<Loaded>, LoadError>(None)
    } else {
        match outcome {
            Ok(Some(loaded)) => {
                &&& if movie_embeddings_empty {
                    loaded.movie_embeddings is Some && call_ensures(
                        read_movie_embeddings,
                        (),
                        loaded.movie_embeddings,
                    )
                } else {
                    loaded.movie_embeddings is None
                }
                &&& if top_movies_empty {
                    loaded.top_movies is Some && call_ensures(
                        read_top_movies,
                        (),
                        loaded.top_movies,
                    )
                } else {
                    loaded.top_movies is None
                }
            },
            Ok(None) => false,
            Err(LoadError::MovieEmbeddings) => movie_embeddings_empty && call_ensures(
                read_movie_embeddings,
                (),
                None,
            ),
            Err(LoadError::TopMovies) => {
                &&& movie_embeddings_empty ==> exists|data: Vec<MovieEmbedding>| #[trigger]
                    call_ensures(read_movie_embeddings, (), Some(data))
                &&& top_movies_empty
                &&& call_ensures(read_top_movies, (), None)
            },
        }
    }
}

/// Reads the collections that are missing, and installs nothing: what was
/// read is handed back, to be installed once all of it is in hand.
///
/// Where one of the two sources does not exist, nothing is read and the
/// result is `None`. Where both exist, each missing collection is read with
/// the reader given for it, the embeddings first; the reader of a collection
/// that is not missing is not called. A reader that returns `None` fails
/// the call, and what follows it is not read.
pub fn read_missing<E, T>(
    movie_embeddings_empty: bool,
    top_movies_empty: bool,
    movie_embeddings_exist: bool,
    top_movies_exist: bool,
    read_movie_embeddings: E,
    read_top_movies: T,
) -> (outcome: Result<Option<Loaded>, LoadError>) where
    E: FnOnce() -> Option<Vec<MovieEmbedding>>,
    T: FnOnce() -> Option<Vec<TopRatedMovie>>,

    requires
        movie_embeddings_exist && top_movies_exist && movie_embeddings_empty ==> call_requires(
            read_movie_embeddings,
            (),
        ),
        movie_embeddings_exist && top_movies_exist && top_movies_empty ==> call_requires(
            read_top_movies,
            (),
        ),
    ensures
        read_outcome(
            movie_embeddings_empty,
            top_movies_empty,
            movie_embeddings_exist,
            top_movies_exist,
            read_movie_embeddings,
            read_top_movies,
            outcome,
        ),
{
    if !(movie_embeddings_exist && top_movies_exist) {
        return Ok(None);
    }
    let movie_embeddings = if movie_embeddings_empty {
        match read_movie_embeddings() {
            Some(data) => Some(data),
            None => {
                return Err(LoadError::MovieEmbeddings);
            },
        }
    } else {
        None
    };
    let top_movies = if top_movies_empty {
        match read_top_movies() {
            Some(data) => Some(data),
            None => {
                return Err(LoadError::TopMovies);
            },
        }
    } else {
        None
    };
    Ok(Some(Loaded { movie_embeddings, top_movies }))
}

/// Whether a call reads the embeddings: both sources exist and the
/// collection is empty.
pub open spec fn reads_movie_embeddings(
    cache: Cache,
    movie_embeddings_exist: bool,
    top_movies_exist: bool,
) -> bool {
    movie_embeddings_exist && top_movies_exist && cache.movie_embeddings@.len() == 0
}

/// Whether a call reads the catalog, unless the embeddings failed before:
/// both sources exist and the collection is empty.
pub open spec fn reads_top_movies(
    cache: Cache,
    movie_embeddings_exist: bool,
    top_movies_exist: bool,
) -> bool {
    movie_embeddings_exist && top_movies_exist && cache.top_movies@.len() == 0
}

/// What a call that succeeds makes of the embeddings: an empty collection
/// takes what the reader returned, and a collection that holds anything
/// stays as it is.
pub open spec fn embeddings_step<E: FnOnce() -> Option<Vec<MovieEmbedding>>>(
    before: Cache,
    after: Cache,
    read: E,
) -> bool {
    if before.movie_embeddings@.len() == 0 {
        call_ensures(read, (), Some(after.movie_embeddings))
    } else {
        after.movie_embeddings == before.movie_embeddings
    }
}

/// What a call that succeeds makes of the catalog: an empty collection
/// takes what the reader returned, and a collection that holds anything
/// stays as it is.
pub open spec fn top_movies_step<T: FnOnce() -> Option<Vec<TopRatedMovie>>>(
    before: Cache,
    after: Cache,
    read: T,
) -> bool {
    if before.top_movies@.len() == 0 {
        call_ensures(read, (), Some(after.top_movies))
    } else {
        after.top_movies == before.top_movies
    }
}

/// Whether the embeddings were in place, or could be read, when the catalog
/// failed: a collection that held anything was not read, and an empty one
/// was read well.
pub open spec fn embeddings_were_at_hand<E: FnOnce() -> Option<Vec<MovieEmbedding>>>(
    before: Cache,
    read: E,
) -> bool {
    before.movie_embeddings@.len() == 0 ==> exists|data: Vec<MovieEmbedding>| #[trigger]
        call_ensures(read, (), Some(data))
}

/// What a call of `can_load_data` does: how the cache after the call and the
/// outcome follow from the cache before it, from the sources that exist and
/// from what the readers return. A call that fails leaves the cache as it
/// was: nothing is installed unless all that was to be read was read.
pub open spec fn load_outcome<
    E: FnOnce() -> Option<Vec<MovieEmbedding>>,
    T: FnOnce() -> Option<Vec<TopRatedMovie>>,
>(
    before: Cache,
    after: Cache,
    movie_embeddings_exist: bool,
    top_movies_exist: bool,
    read_movie_embeddings: E,
    read_top_movies: T,
    outcome: Result<bool, LoadError>,
) -> bool {
    if !(movie_embeddings_exist && top_movies_exist) {
        outcome == Ok::<bool, LoadError>(false) && after == before
    } else {
        match outcome {
            Ok(usable) => {
                &&& usable
                &&& embeddings_step(before, after, read_movie_embeddings)
                &&& top_movies_step(before, after, read_top_movies)
            },
            Err(LoadError::MovieEmbeddings) => {
                &&& before.movie_embeddings@.len() == 0
                &&& call_ensures(read_movie_embeddings, (), None)
                &&& after == before
            },
            Err(LoadError::TopMovies) => {
                &&& embeddings_were_at_hand(before, read_movie_embeddings)
                &&& before.top_movies@.len() == 0
                &&& call_ensures(read_top_movies, (), None)
                &&& after == before
            },
        }
    }
}

/// Makes sure that both collections are in memory, and says whether they
/// can be used.
///
/// Where one of the two sources does not exist, nothing is read and the
/// answer is `false`. Where both exist, each collection that is still empty
/// is read, with the reader given for it, the embeddings first; a
/// collection that holds anything is left alone and its reader is not
/// called, so a reader that can no longer be called does no harm. What was
/// read is installed only once all of it is in hand: a reader that returns
/// `None` fails the call, what follows it is not read, and the cache stays
/// as it was, also where the embeddings had been read well before the
/// catalog failed.
pub fn can_load_data<E, T>(
    cache: &mut Cache,
    movie_embeddings_exist: bool,
    top_movies_exist: bool,
    read_movie_embeddings: E,
    read_top_movies: T,
) -> (outcome: Result<bool, LoadError>) where
    E: FnOnce() -> Option<Vec<MovieEmbedding>>,
    T: FnOnce() -> Option<Vec<TopRatedMovie>>,

    requires
        reads_movie_embeddings(*old(cache), movie_embeddings_exist, top_movies_exist)
            ==> call_requires(read_movie_embeddings, ()),
        reads_top_movies(*old(cache), movie_embeddings_exist, top_movies_exist) ==> call_requires(
            read_top_movies,
            (),
        ),
    ensures
        load_outcome(
            *old(cache),
            *final(cache),
            movie_embeddings_exist,
            top_movies_exist,
            read_movie_embeddings,
            read_top_movies,
            outcome,
        ),
{
    let movie_embeddings_empty = cache.movie_embeddings.len() == 0;
    let top_movies_empty = cache.top_movies.len() == 0;
    match read_missing(
        movie_embeddings_empty,
        top_movies_empty,
        movie_embeddings_exist,
        top_movies_exist,
        read_movie_embeddings,
        read_top_movies,
    ) {
        Ok(Some(loaded)) => {
            cache.install(loaded);
            Ok(true)
        },
        Ok(None) => Ok(false),
        Err(e) => Err(e),
    }
}

/// Once both collections hold something, a further call reads nothing: it
/// asks nothing of its readers, leaves the cache as it is and answers
/// `true`, as long as both sources still exist.
pub proof fn lemma_loaded_cache_is_not_read_again<
    E: FnOnce() -> Option<Vec<MovieEmbedding>>,
    T: FnOnce() -> Option<Vec<TopRatedMovie>>,
>(before: Cache, after: Cache, read_movie_embeddings: E, read_top_movies: T, outcome: Result<
    bool,
    LoadError,
>)
    requires
        before.loaded(),
        load_outcome(before, after, true, true, read_movie_embeddings, read_top_movies, outcome),
    ensures
        !reads_movie_embeddings(before, true, true),
        !reads_top_movies(before, true, true),
        outcome == Ok::<bool, LoadError>(true),
        after == before,
{
}

/// A call that succeeds on sources that are no empty lists leaves both
/// collections filled, whatever the cache held before.
pub proof fn lemma_load_fills_the_cache<
    E: FnOnce() -> Option<Vec<MovieEmbedding>>,
    T: FnOnce() -> Option<Vec<TopRatedMovie>>,
>(before: Cache, after: Cache, read_movie_embeddings: E, read_top_movies: T)
    requires
        load_outcome(
            before,
            after,
            true,
            true,
            read_movie_embeddings,
            read_top_movies,
            Ok::<bool, LoadError>(true),
        ),
        forall|data: Vec<MovieEmbedding>| #[trigger]
            call_ensures(read_movie_embeddings, (), Some(data)) ==> data@.len() > 0,
        forall|data: Vec<TopRatedMovie>| #[trigger]
            call_ensures(read_top_movies, (), Some(data)) ==> data@.len() > 0,
    ensures
        after.loaded(),
{
}

/// Of two calls in a row, with both sources in place, the second reads
/// nothing: where the first succeeds, on sources that are no empty lists,
/// the second asks nothing of its readers, leaves the cache as the first
/// left it and answers `true`.
pub proof fn lemma_second_call_reads_nothing<
    E1: FnOnce() -> Option<Vec<MovieEmbedding>>,
    T1: FnOnce() -> Option<Vec<TopRatedMovie>>,
    E2: FnOnce() -> Option<Vec<MovieEmbedding>>,
    T2: FnOnce() -> Option<Vec<TopRatedMovie>>,
>(
    start: Cache,
    between: Cache,
    end: Cache,
    first_embeddings: E1,
    first_top_movies: T1,
    second_embeddings: E2,
    second_top_movies: T2,
    second: Result<bool, LoadError>,
)
    requires
        load_outcome(
            start,
            between,
            true,
            true,
            first_embeddings,
            first_top_movies,
            Ok::<bool, LoadError>(true),
        ),
        forall|data: Vec<MovieEmbedding>| #[trigger]
            call_ensures(first_embeddings, (), Some(data)) ==> data@.len() > 0,
        forall|data: Vec<TopRatedMovie>| #[trigger]
            call_ensures(first_top_movies, (), Some(data)) ==> data@.len() > 0,
        load_outcome(between, end, true, true, second_embeddings, second_top_movies, second),
    ensures
        !reads_movie_embeddings(between, true, true),
        !reads_top_movies(between, true, true),
        second == Ok::<bool, LoadError>(true),
        end == between,
{
    lemma_load_fills_the_cache(start, between, first_embeddings, first_top_movies);
    lemma_loaded_cache_is_not_read_again(
        between,
        end,
        second_embeddings,
        second_top_movies,
        second,
    );
}

/// A call that fails installs nothing, whichever source failed and whatever
/// had been read before it.
pub proof fn lemma_failed_load_installs_nothing<
    E: FnOnce() -> Option<Vec<MovieEmbedding>>,
    T: FnOnce() -> Option<Vec<TopRatedMovie>>,
>(
    before: Cache,
    after: Cache,
    movie_embeddings_exist: bool,
    top_movies_exist: bool,
    read_movie_embeddings: E,
    read_top_movies: T,
    outcome: Result<bool, LoadError>,
)
    requires
        load_outcome(
            before,
            after,
            movie_embeddings_exist,
            top_movies_exist,
            read_movie_embeddings,
            read_top_movies,
            outcome,
        ),
        outcome is Err,
    ensures
        after == before,
{
}

} // verus!
