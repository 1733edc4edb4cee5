//! The list of requested songs: which tracks wait to be played, and how many
//! votes each has.

use crate::common::BasicSongInfo;
use rand::seq::SliceRandom;
use vstd::prelude::*;

verus! {

/// An entry leaves the list when its votes fall below this.
pub const EVICT_BELOW: i64 = -1;

/// A requested track: what is known of it, and how many votes it has.
#[derive(Debug, PartialEq)]
pub struct SongEntry {
    pub info: BasicSongInfo,
    pub votes: i64,
}

impl Clone for SongEntry {
    fn clone(&self) -> (res: Self)
        ensures
            res == *self,
    {
        SongEntry { info: self.info.clone(), votes: self.votes }
    }
}

/// The track identifier under which an entry is kept.
pub open spec fn key_of(e: SongEntry) -> Seq<char> {
    e.info.spotify_uri@
}

/// No two entries are kept under one track identifier.
pub open spec fn distinct_keys(es: Seq<SongEntry>) -> bool {
    forall|i: int, j: int|
        0 <= i < j < es.len() ==> key_of(#[trigger] es[i]) != key_of(#[trigger] es[j])
}

/// Whether an entry is kept under `k`.
pub open spec fn holds(es: Seq<SongEntry>, k: Seq<char>) -> bool {
    exists|i: int| 0 <= i < es.len() && key_of(#[trigger] es[i]) == k
}

/// The place of the entry kept under `k`, where there is one.
pub open spec fn place(es: Seq<SongEntry>, k: Seq<char>) -> int {
    choose|i: int| 0 <= i < es.len() && key_of(#[trigger] es[i]) == k
}

/// The entries by track identifier.
pub open spec fn as_map(es: Seq<SongEntry>) -> Map<Seq<char>, SongEntry> {
    Map::new(|k: Seq<char>| holds(es, k), |k: Seq<char>| es[place(es, k)])
}

/// What every list satisfies: finitely many entries, each under its own track
/// identifier, none with votes below the eviction bound.
pub open spec fn well_formed(m: Map<Seq<char>, SongEntry>) -> bool {
    &&& m.dom().finite()
    &&& forall|k: Seq<char>|
        m.contains_key(k) ==> key_of(#[trigger] m[k]) == k && m[k].votes >= EVICT_BELOW
}

/// The list once `song` has been requested: a first request enters it with one
/// vote, a repeated one adds a vote and keeps what was known of the track.
pub open spec fn after_add(m: Map<Seq<char>, SongEntry>, song: BasicSongInfo) -> Map<
    Seq<char>,
    SongEntry,
> {
    let k = song.spotify_uri@;
    if m.contains_key(k) {
        m.insert(k, SongEntry { info: m[k].info, votes: (m[k].votes + 1) as i64 })
    } else {
        m.insert(k, SongEntry { info: song, votes: 1 })
    }
}

/// The list once the track under `k` has been voted down: nothing changes
/// where it is not listed; else it loses a vote, and leaves the list if that
/// takes it below the eviction bound.
pub open spec fn after_downvote(m: Map<Seq<char>, SongEntry>, k: Seq<char>) -> Map<
    Seq<char>,
    SongEntry,
> {
    if !m.contains_key(k) {
        m
    } else if m[k].votes - 1 < EVICT_BELOW {
        m.remove(k)
    } else {
        m.insert(k, SongEntry { info: m[k].info, votes: (m[k].votes - 1) as i64 })
    }
}

/// Whether taking the next song from `before` may return `picked` and leave
/// `after`: nothing from an empty list, else any one listed track, which then
/// leaves the list.
pub open spec fn picks(
    before: Map<Seq<char>, SongEntry>,
    picked: Option<BasicSongInfo>,
    after: Map<Seq<char>, SongEntry>,
) -> bool {
    match picked {
        None => before.dom().len() == 0 && after == before,
        Some(song) => {
            &&& before.contains_key(song.spotify_uri@)
            &&& before[song.spotify_uri@].info == song
            &&& after == before.remove(song.spotify_uri@)
        },
    }
}

/// Voting down a track that is not listed changes nothing.
pub proof fn lemma_downvote_absent(m: Map<Seq<char>, SongEntry>, k: Seq<char>)
    requires
        !m.contains_key(k),
    ensures
        after_downvote(m, k) == m,
{
}

/// A vote down evicts exactly when it takes the votes below the bound;
/// otherwise the track stays, with one vote less and what was known of it.
pub proof fn lemma_downvote_evicts(m: Map<Seq<char>, SongEntry>, k: Seq<char>)
    requires
        m.contains_key(k),
    ensures
        m[k].votes - 1 < EVICT_BELOW <==> !after_downvote(m, k).contains_key(k),
        m[k].votes - 1 >= EVICT_BELOW ==> after_downvote(m, k)[k] == (SongEntry {
            info: m[k].info,
            votes: (m[k].votes - 1) as i64,
        }),
        forall|other: Seq<char>|
            other != k ==> (after_downvote(m, k).contains_key(other) <==> m.contains_key(other)),
        forall|other: Seq<char>|
            other != k && m.contains_key(other) ==> after_downvote(m, k)[other] == m[other],
{
}

/// A track that has just entered the list survives a vote down, with no votes
/// left; it survives a second one, at the bound; the third evicts it.
pub proof fn lemma_fresh_entry_downvoted(m: Map<Seq<char>, SongEntry>, song: BasicSongInfo)
    requires
        !m.contains_key(song.spotify_uri@),
    ensures
        ({
            let k = song.spotify_uri@;
            let fresh = after_add(m, song);
            let once = after_downvote(fresh, k);
            let twice = after_downvote(once, k);
            let thrice = after_downvote(twice, k);
            &&& fresh.contains_key(k) && fresh[k] == (SongEntry { info: song, votes: 1 })
            &&& once.contains_key(k) && once[k] == (SongEntry { info: song, votes: 0 })
            &&& twice.contains_key(k) && twice[k] == (SongEntry { info: song, votes: -1i64 })
            &&& !thrice.contains_key(k)
            &&& thrice == m
        }),
{
    let k = song.spotify_uri@;
    let fresh = after_add(m, song);
    let once = after_downvote(fresh, k);
    let twice = after_downvote(once, k);
    let thrice = after_downvote(twice, k);
    assert(thrice =~= m);
}

/// A repeated request adds one vote and keeps what the first request told of
/// the track.
pub proof fn lemma_add_again(m: Map<Seq<char>, SongEntry>, song: BasicSongInfo)
    requires
        m.contains_key(song.spotify_uri@),
    ensures
        after_add(m, song).dom() == m.dom(),
        after_add(m, song)[song.spotify_uri@].info == m[song.spotify_uri@].info,
        m[song.spotify_uri@].votes < i64::MAX ==> after_add(m, song)[song.spotify_uri@].votes
            == m[song.spotify_uri@].votes + 1,
{
    assert(after_add(m, song).dom() =~= m.dom());
}

/// Whether take number `i` (from 0) in a run of takes is a possible one:
/// `lists` holds the list before each take and after the last, `picked` what
/// each take returned.
pub open spec fn takes(
    lists: Seq<Map<Seq<char>, SongEntry>>,
    picked: Seq<Option<BasicSongInfo>>,
    i: int,
) -> bool {
    picks(lists[i], picked[i], lists[i + 1])
}

/// The track identifier of a song that was taken.
pub open spec fn picked_key(picked: Option<BasicSongInfo>) -> Seq<char> {
    picked.unwrap().spotify_uri@
}

spec fn kept(first: Map<Seq<char>, SongEntry>, now: Map<Seq<char>, SongEntry>) -> bool {
    forall|key: Seq<char>|
        #![trigger now.contains_key(key)]
        now.contains_key(key) ==> first.contains_key(key) && now[key] == first[key]
}

spec fn taken_before(
    first: Map<Seq<char>, SongEntry>,
    now: Map<Seq<char>, SongEntry>,
    picked: Seq<Option<BasicSongInfo>>,
    k: int,
) -> bool {
    forall|i: int|
        0 <= i < k ==> {
            &&& (#[trigger] picked[i]) is Some
            &&& first.contains_key(picked_key(picked[i]))
            &&& first[picked_key(picked[i])].info == picked[i].unwrap()
            &&& !now.contains_key(picked_key(picked[i]))
        }
}

spec fn was_taken(
    first: Map<Seq<char>, SongEntry>,
    picked: Seq<Option<BasicSongInfo>>,
    k: int,
    key: Seq<char>,
) -> bool {
    exists|i: int| 0 <= i < k && #[trigger] picked[i] == Some(first[key].info)
}

spec fn gone_taken(
    first: Map<Seq<char>, SongEntry>,
    now: Map<Seq<char>, SongEntry>,
    picked: Seq<Option<BasicSongInfo>>,
    k: int,
) -> bool {
    forall|key: Seq<char>|
        #![trigger now.contains_key(key)]
        first.contains_key(key) && !now.contains_key(key) ==> was_taken(first, picked, k, key)
}

spec fn drained(
    lists: Seq<Map<Seq<char>, SongEntry>>,
    picked: Seq<Option<BasicSongInfo>>,
    k: int,
) -> bool {
    &&& lists[k].dom().finite()
    &&& lists[k].dom().len() + k == lists[0].dom().len()
    &&& kept(lists[0], lists[k])
    &&& taken_before(lists[0], lists[k], picked, k)
    &&& gone_taken(lists[0], lists[k], picked, k)
}

proof fn lemma_drained_step(
    first: Map<Seq<char>, SongEntry>,
    before: Map<Seq<char>, SongEntry>,
    now: Map<Seq<char>, SongEntry>,
    picked: Seq<Option<BasicSongInfo>>,
    k: int,
)
    requires
        0 < k <= picked.len(),
        before.dom().finite(),
        before.dom().len() > 0,
        kept(first, before),
        taken_before(first, before, picked, k - 1),
        gone_taken(first, before, picked, k - 1),
        picks(before, picked[k - 1], now),
    ensures
        now.dom().finite(),
        now.dom().len() + 1 == before.dom().len(),
        kept(first, now),
        taken_before(first, now, picked, k),
        gone_taken(first, now, picked, k),
{
    let key = picked_key(picked[k - 1]);
    assert(picked[k - 1] is Some);
    assert(before.contains_key(key));
    assert(now == before.remove(key));
    assert(kept(first, now));
    assert forall|i: int| 0 <= i < k implies {
        &&& (#[trigger] picked[i]) is Some
        &&& first.contains_key(picked_key(picked[i]))
        &&& first[picked_key(picked[i])].info == picked[i].unwrap()
        &&& !now.contains_key(picked_key(picked[i]))
    } by {
        if i < k - 1 {
            assert(!before.contains_key(picked_key(picked[i])));
        }
    }
    assert forall|other: Seq<char>|
        #![trigger now.contains_key(other)]
        first.contains_key(other) && !now.contains_key(other) implies was_taken(
        first,
        picked,
        k,
        other,
    ) by {
        if other == key {
            assert(picked[k - 1] == Some(first[other].info));
        } else {
            assert(!before.contains_key(other));
            assert(was_taken(first, picked, k - 1, other));
            let i = choose|i: int| 0 <= i < k - 1 && #[trigger] picked[i] == Some(first[other].info);
            assert(0 <= i < k && picked[i] == Some(first[other].info));
        }
    }
}

proof fn lemma_drained(
    lists: Seq<Map<Seq<char>, SongEntry>>,
    picked: Seq<Option<BasicSongInfo>>,
    k: int,
)
    requires
        well_formed(lists[0]),
        lists.len() == picked.len() + 1,
        forall|i: int| 0 <= i < picked.len() ==> #[trigger] takes(lists, picked, i),
        0 <= k <= lists[0].dom().len(),
        k <= picked.len(),
    ensures
        drained(lists, picked, k),
    decreases k,
{
    if k > 0 {
        lemma_drained(lists, picked, k - 1);
        assert(takes(lists, picked, k - 1));
        lemma_drained_step(lists[0], lists[k - 1], lists[k], picked, k);
    }
}

/// Taking the next song again and again empties the list track by track: on
/// a list of N tracks the first N takes return N different listed tracks, so
/// each track once, and the take after them returns nothing.
pub proof fn lemma_nextup_exhausts(
    lists: Seq<Map<Seq<char>, SongEntry>>,
    picked: Seq<Option<BasicSongInfo>>,
)
    requires
        well_formed(lists[0]),
        lists.len() == picked.len() + 1,
        picked.len() == lists[0].dom().len() + 1,
        forall|i: int| 0 <= i < picked.len() ==> #[trigger] takes(lists, picked, i),
    ensures
        forall|i: int|
            0 <= i < picked.len() - 1 ==> {
                &&& (#[trigger] picked[i]) is Some
                &&& lists[0].contains_key(picked_key(picked[i]))
                &&& lists[0][picked_key(picked[i])].info == picked[i].unwrap()
            },
        forall|i: int, j: int|
            0 <= i < j < picked.len() - 1 ==> picked_key(#[trigger] picked[i]) != picked_key(
                #[trigger] picked[j],
            ),
        forall|key: Seq<char>|
            lists[0].contains_key(key) ==> exists|i: int|
                0 <= i < picked.len() - 1 && #[trigger] picked[i] == Some(lists[0][key].info),
        picked.last() is None,
        lists.last() == Map::<Seq<char>, SongEntry>::empty(),
{
    let n = lists[0].dom().len() as int;
    lemma_drained(lists, picked, n);
    assert(lists[n].dom().len() == 0);
    assert(lists[n].dom() =~= Set::<Seq<char>>::empty());
    assert(lists[n] =~= Map::<Seq<char>, SongEntry>::empty());
    assert forall|key: Seq<char>| lists[0].contains_key(key) implies exists|i: int|
        0 <= i < picked.len() - 1 && #[trigger] picked[i] == Some(lists[0][key].info) by {
        assert(!lists[n].contains_key(key));
        assert(was_taken(lists[0], picked, n, key));
    }
    assert(takes(lists, picked, n));
    assert(picked[n] is None) by {
        if picked[n] is Some {
            assert(lists[n].contains_key(picked_key(picked[n])));
        }
    }
    assert forall|i: int, j: int| 0 <= i < j < picked.len() - 1 implies picked_key(
        #[trigger] picked[i],
    ) != picked_key(#[trigger] picked[j]) by {
        lemma_drained(lists, picked, j);
        assert(takes(lists, picked, j));
        assert(lists[j].dom().len() > 0);
        assert(lists[j].contains_key(picked_key(picked[j])));
        assert(!lists[j].contains_key(picked_key(picked[i])));
    }
}

proof fn lemma_place(es: Seq<SongEntry>, i: int)
    requires
        distinct_keys(es),
        0 <= i < es.len(),
    ensures
        holds(es, key_of(es[i])),
        place(es, key_of(es[i])) == i,
        as_map(es).contains_key(key_of(es[i])),
        as_map(es)[key_of(es[i])] == es[i],
{
    let p = place(es, key_of(es[i]));
    assert(key_of(es[p]) == key_of(es[i]));
}

proof fn lemma_push(es: Seq<SongEntry>, e: SongEntry)
    requires
        distinct_keys(es),
        !holds(es, key_of(e)),
    ensures
        distinct_keys(es.push(e)),
        as_map(es.push(e)) == as_map(es).insert(key_of(e), e),
{
    let es2 = es.push(e);
    assert(distinct_keys(es2)) by {
        assert forall|i: int, j: int| 0 <= i < j < es2.len() implies key_of(#[trigger] es2[i])
            != key_of(#[trigger] es2[j]) by {
            assert(es2[i] == es[i]);
            if j < es.len() {
                assert(es2[j] == es[j]);
            }
        }
    }
    assert forall|k: Seq<char>| holds(es2, k) <==> (holds(es, k) || k == key_of(e)) by {
        if holds(es2, k) {
            let p = place(es2, k);
            if p < es.len() {
                assert(es2[p] == es[p]);
            }
        }
        if holds(es, k) {
            let p = place(es, k);
            assert(es2[p] == es[p]);
        }
        if k == key_of(e) {
            assert(es2[es.len() as int] == e);
        }
    }
    assert forall|k: Seq<char>| holds(es2, k) implies es2[place(es2, k)] == as_map(es).insert(
        key_of(e),
        e,
    )[k] by {
        if k == key_of(e) {
            lemma_place(es2, es.len() as int);
        } else {
            let p = place(es, k);
            assert(es2[p] == es[p]);
            lemma_place(es2, p);
        }
    }
    assert(as_map(es2) =~= as_map(es).insert(key_of(e), e));
}

proof fn lemma_update(es: Seq<SongEntry>, i: int, e: SongEntry)
    requires
        distinct_keys(es),
        0 <= i < es.len(),
        key_of(e) == key_of(es[i]),
    ensures
        distinct_keys(es.update(i, e)),
        as_map(es.update(i, e)) == as_map(es).insert(key_of(e), e),
{
    let es2 = es.update(i, e);
    assert(distinct_keys(es2)) by {
        assert forall|a: int, b: int| 0 <= a < b < es2.len() implies key_of(#[trigger] es2[a])
            != key_of(#[trigger] es2[b]) by {
            assert(key_of(es2[a]) == key_of(es[a]));
            assert(key_of(es2[b]) == key_of(es[b]));
        }
    }
    assert forall|k: Seq<char>| holds(es2, k) <==> holds(es, k) by {
        if holds(es2, k) {
            let p = place(es2, k);
            assert(key_of(es2[p]) == key_of(es[p]));
        }
        if holds(es, k) {
            let p = place(es, k);
            assert(key_of(es2[p]) == key_of(es[p]));
        }
    }
    lemma_place(es, i);
    assert forall|k: Seq<char>| holds(es2, k) implies es2[place(es2, k)] == as_map(es).insert(
        key_of(e),
        e,
    )[k] by {
        let p = place(es, k);
        assert(key_of(es2[p]) == key_of(es[p]));
        lemma_place(es2, p);
        if k != key_of(e) {
            assert(p != i);
        } else {
            lemma_place(es2, i);
        }
    }
    assert(as_map(es2) =~= as_map(es).insert(key_of(e), e));
}

proof fn lemma_remove(es: Seq<SongEntry>, i: int)
    requires
        distinct_keys(es),
        0 <= i < es.len(),
    ensures
        distinct_keys(es.remove(i)),
        as_map(es.remove(i)) == as_map(es).remove(key_of(es[i])),
{
    let es2 = es.remove(i);
    assert forall|a: int| 0 <= a < es2.len() implies #[trigger] es2[a] == es[if a < i {
        a
    } else {
        a + 1
    }] by {}
    assert(distinct_keys(es2)) by {
        assert forall|a: int, b: int| 0 <= a < b < es2.len() implies key_of(#[trigger] es2[a])
            != key_of(#[trigger] es2[b]) by {
            let a1 = if a < i { a } else { a + 1 };
            let b1 = if b < i { b } else { b + 1 };
            assert(es2[a] == es[a1]);
            assert(es2[b] == es[b1]);
        }
    }
    assert forall|k: Seq<char>| holds(es2, k) <==> (holds(es, k) && k != key_of(es[i])) by {
        if holds(es2, k) {
            let p = place(es2, k);
            let p1 = if p < i { p } else { p + 1 };
            assert(es2[p] == es[p1]);
        }
        if holds(es, k) && k != key_of(es[i]) {
            let p = place(es, k);
            let p2 = if p < i { p } else { p - 1 };
            assert(es2[p2] == es[p]);
        }
    }
    assert forall|k: Seq<char>| holds(es2, k) implies es2[place(es2, k)] == as_map(es).remove(
        key_of(es[i]),
    )[k] by {
        let p = place(es, k);
        let p2 = if p < i { p } else { p - 1 };
        assert(es2[p2] == es[p]);
        lemma_place(es2, p2);
    }
    assert(as_map(es2) =~= as_map(es).remove(key_of(es[i])));
}

proof fn lemma_as_map_len(es: Seq<SongEntry>)
    requires
        distinct_keys(es),
    ensures
        as_map(es).dom().finite(),
        as_map(es).dom().len() == es.len(),
    decreases es.len(),
{
    if es.len() == 0 {
        assert(as_map(es).dom() =~= Set::<Seq<char>>::empty());
    } else {
        let front = es.drop_last();
        assert(distinct_keys(front)) by {
            assert forall|a: int, b: int| 0 <= a < b < front.len() implies key_of(
                #[trigger] front[a],
            ) != key_of(#[trigger] front[b]) by {
                assert(front[a] == es[a]);
                assert(front[b] == es[b]);
            }
        }
        assert(!holds(front, key_of(es.last()))) by {
            if holds(front, key_of(es.last())) {
                let p = place(front, key_of(es.last()));
                assert(front[p] == es[p]);
                assert(es[es.len() - 1] == es.last());
            }
        }
        lemma_as_map_len(front);
        lemma_push(front, es.last());
        assert(front.push(es.last()) == es);
    }
}

proof fn lemma_as_map_well_formed(es: Seq<SongEntry>)
    requires
        distinct_keys(es),
        forall|i: int| 0 <= i < es.len() ==> (#[trigger] es[i]).votes >= EVICT_BELOW,
    ensures
        well_formed(as_map(es)),
{
    lemma_as_map_len(es);
}

/// `rand::seq::SliceRandom::choose` on `items`, with the thread's generator:
/// nothing from an empty slice, else one of its items, whichever the generator
/// picks.
#[verifier::external_body]
fn pick_one<'a, T>(items: &'a Vec<T>) -> (picked: Option<&'a T>)
    ensures
        items@.len() == 0 <==> picked is None,
        picked is Some ==> items@.contains(*picked.unwrap()),
{
    let mut rng = rand::thread_rng();
    items.choose(&mut rng)
}

/// The songs that have been requested and wait to be played, by track
/// identifier.
#[derive(Debug, PartialEq)]
pub struct TheList {
    songs: Vec<SongEntry>,
}

impl Clone for TheList {
    /// A snapshot of the list.
    fn clone(&self) -> (res: Self)
        ensures
            res@ == self@,
    {
        proof {
            use_type_invariant(self);
        }
        let songs = self.songs.clone();
        proof {
            assert(songs@ =~= self.songs@);
        }
        TheList { songs }
    }
}

impl View for TheList {
    type V = Map<Seq<char>, SongEntry>;

    closed spec fn view(&self) -> Map<Seq<char>, SongEntry> {
        as_map(self.songs@)
    }
}

impl TheList {
    #[verifier::type_invariant]
    spec fn inv(&self) -> bool {
        &&& distinct_keys(self.songs@)
        &&& forall|i: int| 0 <= i < self.songs@.len() ==> (#[trigger] self.songs@[i]).votes >= EVICT_BELOW
    }

    pub fn new() -> (list: TheList)
        ensures
            list@ == Map::<Seq<char>, SongEntry>::empty(),
            well_formed(list@),
    {
        let list = TheList { songs: Vec::new() };
        proof {
            assert(as_map(list.songs@) =~= Map::<Seq<char>, SongEntry>::empty());
        }
        list
    }

    fn position(&self, track_id: &String) -> (at: Option<usize>)
        ensures
            match at {
                Some(i) => i < self.songs@.len() && key_of(self.songs@[i as int]) == track_id@,
                None => !holds(self.songs@, track_id@),
            },
    {
        let mut i: usize = 0;
        while i < self.songs.len()
            invariant
                i <= self.songs@.len(),
                forall|j: int| 0 <= j < i ==> key_of(#[trigger] self.songs@[j]) != track_id@,
            decreases self.songs@.len() - i,
        {
            if self.songs[i].info.spotify_uri == *track_id {
                return Some(i);
            }
            i += 1;
        }
        None
    }

    /// The entries in the order in which they are kept. The order means
    /// nothing, but it tells one place from another.
    pub closed spec fn entries(&self) -> Seq<SongEntry> {
        self.songs@
    }

    /// The list by track identifier is made of the entries that are kept.
    pub proof fn lemma_view_of_entries(&self)
        ensures
            self@ == as_map(self.entries()),
    {
    }

    /// How many tracks are listed.
    pub fn len(&self) -> (n: usize)
        ensures
            n == self@.dom().len(),
            n == self.entries().len(),
            distinct_keys(self.entries()),
            well_formed(self@),
    {
        proof {
            use_type_invariant(self);
            lemma_as_map_well_formed(self.songs@);
            lemma_as_map_len(self.songs@);
        }
        self.songs.len()
    }

    /// Whether no track is listed.
    pub fn is_empty(&self) -> (empty: bool)
        ensures
            empty <==> self@.dom().len() == 0,
    {
        self.len() == 0
    }

    /// The entry of the track `track_id`, if it is listed.
    pub fn get(&self, track_id: &String) -> (entry: Option<&SongEntry>)
        ensures
            self@.contains_key(track_id@) ==> entry == Some(&self@[track_id@]),
            !self@.contains_key(track_id@) ==> entry is None,
    {
        proof {
            use_type_invariant(self);
        }
        match self.position(track_id) {
            Some(i) => {
                proof {
                    lemma_place(self.songs@, i as int);
                }
                Some(&self.songs[i])
            },
            None => None,
        }
    }

    /// The votes of the track `track_id`, if it is listed.
    pub fn votes(&self, track_id: &String) -> (votes: Option<i64>)
        ensures
            self@.contains_key(track_id@) ==> votes == Some(self@[track_id@].votes),
            !self@.contains_key(track_id@) ==> votes is None,
    {
        match self.get(track_id) {
            Some(entry) => Some(entry.votes),
            None => None,
        }
    }

    /// The entries, each track once, in no order that means anything.
    pub fn songs(&self) -> (songs: &Vec<SongEntry>)
        ensures
            songs@ == self.entries(),
            distinct_keys(songs@),
            as_map(songs@) == self@,
    {
        proof {
            use_type_invariant(self);
        }
        &self.songs
    }

    /// Requests a song. The song is listed under its track identifier.
    pub fn add(&mut self, song: BasicSongInfo)
        requires
            old(self)@.contains_key(song.spotify_uri@) ==> old(self)@[song.spotify_uri@].votes
                < i64::MAX,
        ensures
            final(self)@ == after_add(old(self)@, song),
            well_formed(final(self)@),
    {
        proof {
            use_type_invariant(&*self);
        }
        match self.position(&song.spotify_uri) {
            Some(i) => {
                let mut songs: Vec<SongEntry> = Vec::new();
                std::mem::swap(&mut self.songs, &mut songs);
                proof {
                    lemma_place(songs@, i as int);
                }
                songs[i].votes = songs[i].votes + 1;
                proof {
                    lemma_update(old(self).songs@, i as int, songs@[i as int]);
                    assert(songs@ == old(self).songs@.update(i as int, songs@[i as int]));
                    lemma_as_map_well_formed(songs@);
                }
                self.songs = songs;
            },
            None => {
                let entry = SongEntry { info: song, votes: 1 };
                proof {
                    lemma_push(self.songs@, entry);
                    lemma_as_map_well_formed(self.songs@.push(entry));
                }
                let mut songs: Vec<SongEntry> = Vec::new();
                std::mem::swap(&mut self.songs, &mut songs);
                songs.push(entry);
                self.songs = songs;
            },
        }
    }

    /// Votes a song down.
    pub fn downvote(&mut self, track_id: &String)
        ensures
            final(self)@ == after_downvote(old(self)@, track_id@),
            well_formed(final(self)@),
    {
        proof {
            use_type_invariant(&*self);
            lemma_as_map_well_formed(self.songs@);
        }
        match self.position(track_id) {
            Some(i) => {
                proof {
                    lemma_place(self.songs@, i as int);
                }
                if self.songs[i].votes - 1 < EVICT_BELOW {
                    proof {
                        lemma_remove(self.songs@, i as int);
                        lemma_as_map_well_formed(self.songs@.remove(i as int));
                    }
                    let mut songs: Vec<SongEntry> = Vec::new();
                    std::mem::swap(&mut self.songs, &mut songs);
                    songs.remove(i);
                    self.songs = songs;
                } else {
                    let mut songs: Vec<SongEntry> = Vec::new();
                    std::mem::swap(&mut self.songs, &mut songs);
                    songs[i].votes = songs[i].votes - 1;
                    proof {
                        lemma_update(old(self).songs@, i as int, songs@[i as int]);
                        assert(songs@ == old(self).songs@.update(i as int, songs@[i as int]));
                        lemma_as_map_well_formed(songs@);
                    }
                    self.songs = songs;
                }
            },
            None => {},
        }
    }

    /// Takes the song at place `at` off the list.
    pub fn take_at(&mut self, at: usize) -> (song: BasicSongInfo)
        requires
            at < old(self).entries().len(),
        ensures
            song == old(self).entries()[at as int].info,
            final(self).entries() == old(self).entries().remove(at as int),
            old(self)@.contains_key(song.spotify_uri@),
            old(self)@[song.spotify_uri@] == old(self).entries()[at as int],
            final(self)@ == old(self)@.remove(song.spotify_uri@),
            final(self)@.dom().len() == old(self)@.dom().len() - 1,
            well_formed(final(self)@),
    {
        proof {
            use_type_invariant(&*self);
            lemma_as_map_len(self.songs@);
            lemma_place(self.songs@, at as int);
            lemma_remove(self.songs@, at as int);
            lemma_as_map_len(self.songs@.remove(at as int));
            lemma_as_map_well_formed(self.songs@.remove(at as int));
        }
        let mut songs: Vec<SongEntry> = Vec::new();
        std::mem::swap(&mut self.songs, &mut songs);
        let entry = songs.remove(at);
        self.songs = songs;
        entry.info
    }

    /// Takes a song off the list to play it next: any one of those listed,
    /// chosen at random, each track counting once whatever its votes.
    pub fn nextup(&mut self) -> (picked: Option<BasicSongInfo>)
        ensures
            picks(old(self)@, picked, final(self)@),
            picked is None <==> old(self)@.dom().len() == 0,
            picked is Some ==> final(self)@.dom().len() == old(self)@.dom().len() - 1,
            well_formed(final(self)@),
    {
        proof {
            use_type_invariant(&*self);
            lemma_as_map_len(self.songs@);
            lemma_as_map_well_formed(self.songs@);
        }
        let mut places: Vec<usize> = Vec::new();
        let mut i: usize = 0;
        while i < self.songs.len()
            invariant
                *self == *old(self),
                i <= self.songs@.len(),
                places@.len() == i,
                forall|j: int| 0 <= j < i ==> places@[j] == j,
            decreases self.songs@.len() - i,
        {
            places.push(i);
            i += 1;
        }
        match pick_one(&places) {
            Some(at) => {
                let at: usize = *at;
                proof {
                    let j = choose|j: int| 0 <= j < places@.len() && places@[j] == at;
                    assert(places@[j] == j);
                }
                Some(self.take_at(at))
            },
            None => None,
        }
    }
}

} // verus!
