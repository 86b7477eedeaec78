//! The bounded conversation cache: prompt/response pairs in the order they
//! were exchanged, oldest first, never more of them than the capacity.

use vstd::prelude::*;

verus! {

/// One exchange with the chat service, as it is kept in the cache file.
#[derive(Debug)]
pub struct CacheValue {
    pub prompt: String,
    pub response: String,
}

/// What a [`CacheValue`] holds, as mathematical text.
pub struct CachePair {
    pub prompt: Seq<char>,
    pub response: Seq<char>,
}

impl View for CacheValue {
    type V = CachePair;

    open spec fn view(&self) -> CachePair {
        CachePair { prompt: self.prompt@, response: self.response@ }
    }
}

impl DeepView for CacheValue {
    type V = CachePair;

    open spec fn deep_view(&self) -> CachePair {
        self@
    }
}

impl Clone for CacheValue {
    fn clone(&self) -> (copy: Self)
        ensures
            copy@ == self@,
    {
        CacheValue { prompt: self.prompt.clone(), response: self.response.clone() }
    }
}

/// The last `n` items of `s` in their order, or all of `s` where it has
/// no more than `n`.
pub open spec fn keep_last<T>(s: Seq<T>, n: nat) -> Seq<T> {
    if s.len() <= n {
        s
    } else {
        s.subrange(s.len() - n, s.len() as int)
    }
}

/// The cache after each of `pairs` was appended in turn, trimming to
/// `capacity` after every one.
pub open spec fn append_all<T>(cache: Seq<T>, pairs: Seq<T>, capacity: nat) -> Seq<T>
    decreases pairs.len(),
{
    if pairs.len() == 0 {
        cache
    } else {
        append_all(keep_last(cache.push(pairs[0]), capacity), pairs.drop_first(), capacity)
    }
}

/// Returns the pairs to replay as context: the last `window` pairs of the
/// cache, oldest first. A window wider than the cache takes all of it.
pub fn slice_for_context(cache: &Vec<CacheValue>, window: usize) -> (context: Vec<CacheValue>)
    ensures
        context.deep_view() == keep_last(cache.deep_view(), window as nat),
{
    let len = cache.len();
    let start = if window >= len { 0 } else { len - window };
    let mut context: Vec<CacheValue> = Vec::new();
    let mut i = start;
    while i < len
        invariant
            start <= i <= len,
            len == cache.len(),
            context.len() == i - start,
            forall|j: int| 0 <= j < context.len() ==> context[j]@ == cache[start + j]@,
        decreases len - i,
    {
        context.push(cache[i].clone());
        i += 1;
    }
    assert(context.deep_view() =~= keep_last(cache.deep_view(), window as nat));
    context
}

/// Appends `new_pair` to the cache, then drops pairs from the front until
/// no more than `capacity` are left. With a capacity of zero nothing is
/// kept, the new pair included.
pub fn append_and_trim(cache: Vec<CacheValue>, new_pair: CacheValue, capacity: usize) -> (kept: Vec<
    CacheValue,
>)
    ensures
        kept.deep_view() == keep_last(cache.deep_view().push(new_pair@), capacity as nat),
        kept.len() <= capacity,
{
    let mut all = cache;
    all.push(new_pair);
    assert(all.deep_view() =~= cache.deep_view().push(new_pair@));
    let len = all.len();
    if len <= capacity {
        all
    } else {
        let kept = all.split_off(len - capacity);
        assert(kept.deep_view() =~= keep_last(cache.deep_view().push(new_pair@), capacity as nat));
        kept
    }
}

/// The cache as a query reads it: what the cache file holds, and nothing
/// where there is no file yet.
pub fn load_cache(stored: Option<Vec<CacheValue>>) -> (cache: Vec<CacheValue>)
    ensures
        cache.deep_view() == match stored {
            Some(pairs) => pairs.deep_view(),
            None => Seq::empty(),
        },
{
    match stored {
        Some(pairs) => pairs,
        None => {
            let cache: Vec<CacheValue> = Vec::new();
            assert(cache.deep_view() =~= Seq::empty());
            cache
        },
    }
}

/// What initializing writes to the cache file, given whether the file
/// exists: nothing to a file that is there, the empty cache to one that
/// is not.
pub open spec fn initial_write(exists: bool) -> Option<Seq<CachePair>> {
    if exists {
        None
    } else {
        Some(Seq::empty())
    }
}

/// The cache file after it was initialized, `None` standing for no file.
pub open spec fn initialized(file: Option<Seq<CachePair>>) -> Option<Seq<CachePair>> {
    match initial_write(file is Some) {
        Some(pairs) => Some(pairs),
        None => file,
    }
}

/// Initializes the cache file: says what to write to it, given whether it
/// exists. A file that exists is left alone; one that does not is created
/// with the empty cache.
pub fn register_cache(exists: bool) -> (write: Option<Vec<CacheValue>>)
    ensures
        match write {
            Some(pairs) => initial_write(exists) == Some(pairs.deep_view()),
            None => initial_write(exists) is None,
        },
{
    if exists {
        None
    } else {
        let pairs: Vec<CacheValue> = Vec::new();
        assert(pairs.deep_view() =~= Seq::empty());
        Some(pairs)
    }
}

/// What the cache file is overwritten with when the cache is cleared: the
/// empty cache. The file itself stays.
pub fn clear_cache() -> (cache: Vec<CacheValue>)
    ensures
        cache@.len() == 0,
{
    Vec::new()
}

/// Initialization law. Initializing creates the empty cache where there
/// was no file, leaves an existing file as it is, and done a second time
/// changes nothing.
pub proof fn lemma_initialize_idempotent(file: Option<Seq<CachePair>>)
    ensures
        initialized(None) == Some(Seq::<CachePair>::empty()),
        file is Some ==> initialized(file) == file,
        initial_write(initialized(file) is Some) is None,
        initialized(initialized(file)) == initialized(file),
{
}

/// Trimming twice is trimming once: what leaves the front early would have
/// left it later.
pub proof fn lemma_keep_last_absorbs<T>(a: Seq<T>, r: Seq<T>, capacity: nat)
    ensures
        keep_last(keep_last(a, capacity) + r, capacity) == keep_last(a + r, capacity),
{
    assert(keep_last(keep_last(a, capacity) + r, capacity) =~= keep_last(a + r, capacity));
}

/// Capacity law. After one or more pairs were appended with the same
/// capacity, the cache holds no more than `capacity` pairs, and they are
/// the most recent ones of everything it was given, in order. Started
/// empty, it holds the last `capacity` of the appended pairs, or all of
/// them where there are fewer.
pub proof fn lemma_capacity_invariant<T>(cache: Seq<T>, pairs: Seq<T>, capacity: nat)
    requires
        pairs.len() > 0,
    ensures
        append_all(cache, pairs, capacity) == keep_last(cache + pairs, capacity),
        append_all(cache, pairs, capacity).len() <= capacity,
        append_all(Seq::<T>::empty(), pairs, capacity) == keep_last(pairs, capacity),
{
    lemma_capacity_invariant_from(cache, pairs, capacity);
    lemma_capacity_invariant_from(Seq::<T>::empty(), pairs, capacity);
    assert(Seq::<T>::empty() + pairs =~= pairs);
}

proof fn lemma_capacity_invariant_from<T>(cache: Seq<T>, pairs: Seq<T>, capacity: nat)
    requires
        pairs.len() > 0,
    ensures
        append_all(cache, pairs, capacity) == keep_last(cache + pairs, capacity),
    decreases pairs.len(),
{
    let first = keep_last(cache.push(pairs[0]), capacity);
    let rest = pairs.drop_first();
    assert(cache.push(pairs[0]) + rest =~= cache + pairs);
    if rest.len() == 0 {
        assert(append_all(first, rest, capacity) == first);
        assert(cache.push(pairs[0]) =~= cache + pairs);
    } else {
        lemma_capacity_invariant_from(first, rest, capacity);
        lemma_keep_last_absorbs(cache.push(pairs[0]), rest, capacity);
    }
}

/// Zero-capacity law. With a capacity of zero the cache is empty after
/// every append, whatever it held and whatever was appended.
pub proof fn lemma_zero_capacity<T>(cache: Seq<T>, pair: T)
    ensures
        keep_last(cache.push(pair), 0) == Seq::<T>::empty(),
{
    assert(keep_last(cache.push(pair), 0) =~= Seq::<T>::empty());
}

/// Clamp law. A window wider than the cache, or as wide, takes the whole
/// cache unchanged; a window of zero takes nothing.
pub proof fn lemma_window_clamps<T>(cache: Seq<T>, window: nat)
    ensures
        window >= cache.len() ==> keep_last(cache, window) == cache,
        keep_last(cache, 0) == Seq::<T>::empty(),
        keep_last(cache, window).len() == (if window <= cache.len() {
            window
        } else {
            cache.len()
        }),
{
    assert(keep_last(cache, 0) =~= Seq::<T>::empty());
}

} // verus!
