//! Icons by name, the last few of them kept.

use ahash::RandomState;
use lru::LruCache;
use std::num::NonZeroUsize;
use vstd::prelude::*;

verus! {

/// A loaded icon, by its number among those of its kind.
#[derive(Debug, Clone, Copy, PartialEq, Eq, Structural)]
pub enum Handle {
    Pixmap(u64),
    Svg(u64),
}

/// An icon with the room it takes, in tenths of a pixel.
#[derive(Debug, Clone, Copy, PartialEq, Eq, Structural)]
pub struct Picture {
    pub handle: Handle,
    pub width: u16,
    /// A pixmap keeps its own proportions.
    pub height: Option<u16>,
}

/// An icon of that size.
pub open spec fn pictured(handle: Handle, size: u16) -> Picture {
    Picture {
        handle,
        width: size,
        height: if handle is Svg {
            Some(size)
        } else {
            None
        },
    }
}

impl Handle {
    /// The icon in the size that most are shown in.
    pub fn load(&self) -> (res: Picture)
        ensures
            res == pictured(*self, 240),
    {
        self.load_size(240)
    }

    /// The icon in that size.
    pub fn load_size(&self, size: u16) -> (res: Picture)
        ensures
            res == pictured(*self, size),
    {
        match self {
            Handle::Pixmap(_) => Picture { handle: *self, width: size, height: None },
            Handle::Svg(_) => Picture { handle: *self, width: size, height: Some(size) },
        }
    }
}

/// The hash builder of `ahash`.
#[verifier::external_type_specification]
#[verifier::external_body]
pub struct ExRandomState(ahash::RandomState);

/// The bounded table of `lru`.
#[verifier::external_type_specification]
#[verifier::external_body]
#[verifier::reject_recursive_types(K)]
#[verifier::reject_recursive_types(V)]
#[verifier::reject_recursive_types(S)]
pub struct ExLruCache<K, V, S>(lru::LruCache<K, V, S>);

/// The hash builder that four seeds make.
pub uninterp spec fn seeded(k0: u64, k1: u64, k2: u64, k3: u64) -> RandomState;

/// `RandomState::with_seeds` makes the same hash builder of the same seeds.
pub assume_specification[ ahash::RandomState::with_seeds ](
    k0: u64,
    k1: u64,
    k2: u64,
    k3: u64,
) -> (res: ahash::RandomState)
    ensures
        res == seeded(k0, k1, k2, k3),
;

/// Names with their icons, the one used last in front.
pub type Entries = Seq<(Seq<char>, Option<Handle>)>;

/// What a table holds, the entry used last in front.
pub uninterp spec fn table_entries(
    table: LruCache<String, Option<Handle>, RandomState>,
) -> Seq<(Seq<char>, Option<Handle>)>;

/// How many entries a table can hold.
pub uninterp spec fn table_capacity(table: LruCache<String, Option<Handle>, RandomState>) -> nat;

/// The hash builder that a table was made with.
pub uninterp spec fn table_hasher(table: LruCache<String, Option<Handle>, RandomState>) -> RandomState;

/// Where `key` stands among the entries, or how many there are where it does not.
pub open spec fn position(entries: Entries, key: Seq<char>) -> int
    decreases entries.len(),
{
    if entries.len() == 0 || entries[0].0 == key {
        0
    } else {
        1 + position(entries.drop_first(), key)
    }
}

/// What is kept under `key`.
pub open spec fn kept(entries: Entries, key: Seq<char>) -> Option<Option<Handle>> {
    let at = position(entries, key);
    if at < entries.len() {
        Some(entries[at].1)
    } else {
        None
    }
}

/// The entries after a search for `key`: what is found moves to the front.
pub open spec fn searched(entries: Entries, key: Seq<char>) -> Entries {
    let at = position(entries, key);
    if at < entries.len() {
        seq![entries[at]] + entries.remove(at)
    } else {
        entries
    }
}

/// The entries after `value` was offered for `key`: what is kept already moves to the front,
/// else the new entry is put there, and the last one leaves where there is no room for both.
pub open spec fn filled(
    entries: Entries,
    capacity: nat,
    key: Seq<char>,
    value: Option<Handle>,
) -> Entries {
    if kept(entries, key) is Some {
        searched(entries, key)
    } else if entries.len() == capacity {
        seq![(key, value)] + entries.drop_last()
    } else {
        seq![(key, value)] + entries
    }
}

/// `LruCache::with_hasher` makes a table without entries that can hold `capacity` and hashes
/// with `hasher`.
#[verifier::external_body]
fn new_table(capacity: usize, hasher: RandomState) -> (res: LruCache<
    String,
    Option<Handle>,
    RandomState,
>)
    requires
        capacity > 0,
    ensures
        table_entries(res).len() == 0,
        table_capacity(res) == capacity,
        table_hasher(res) == hasher,
{
    LruCache::with_hasher(NonZeroUsize::new(capacity).unwrap(), hasher)
}

/// `LruCache::contains` tells whether something is kept under `key`, and moves nothing.
#[verifier::external_body]
fn table_holds(table: &LruCache<String, Option<Handle>, RandomState>, key: &str) -> (res: bool)
    ensures
        res == (kept(table_entries(*table), key@) is Some),
{
    table.contains(key)
}

/// `LruCache::get_or_insert_ref` finds what is kept under `key`, and moves it to the front; or
/// it puts what it is given there, and drops the entry used least recently where the table is
/// full.
#[verifier::external_body]
fn fill_table(
    table: &mut LruCache<String, Option<Handle>, RandomState>,
    key: &str,
    value: Option<Handle>,
) -> (res: Option<Handle>)
    ensures
        res == answer(table_entries(*old(table)), key@, value),
        table_entries(*final(table)) == filled(
            table_entries(*old(table)),
            table_capacity(*old(table)),
            key@,
            value,
        ),
        table_capacity(*final(table)) == table_capacity(*old(table)),
        table_hasher(*final(table)) == table_hasher(*old(table)),
{
    *table.get_or_insert_ref(key, || value)
}

/// How many icons are kept.
pub const CAPACITY: usize = 16;

/// An icon that has to be loaded: its name, the size to look for, whether it takes the colours
/// of the bar, and the theme to look in.
#[derive(Debug, PartialEq, Eq)]
pub struct IconRequest {
    pub key: String,
    pub size: u16,
    pub symbolic: bool,
    pub theme: &'static str,
}

/// The model of an [`IconRequest`].
pub struct IconRequestView {
    pub key: Seq<char>,
    pub size: u16,
    pub symbolic: bool,
    pub theme: Seq<char>,
}

impl View for IconRequest {
    type V = IconRequestView;

    open spec fn view(&self) -> IconRequestView {
        IconRequestView {
            key: self.key@,
            size: self.size,
            symbolic: self.symbolic,
            theme: self.theme@,
        }
    }
}

/// The request for the icon `key` in the theme that the bar uses.
pub open spec fn request(key: Seq<char>, size: u16, symbolic: bool) -> IconRequestView {
    IconRequestView { key, size, symbolic, theme: "Tela-dracula-dark"@ }
}

/// The request for the icon `key`, unless it is kept.
pub open spec fn wanted(entries: Entries, key: Seq<char>, size: u16, symbolic: bool) -> Option<
    IconRequestView,
> {
    match kept(entries, key) {
        Some(_) => None,
        None => Some(request(key, size, symbolic)),
    }
}

/// What the icon `key` is, where a search for it would give `loaded`.
pub open spec fn answer(entries: Entries, key: Seq<char>, loaded: Option<Handle>) -> Option<Handle> {
    match kept(entries, key) {
        Some(handle) => handle,
        None => loaded,
    }
}

/// The model of an optional [`IconRequest`].
pub open spec fn request_view(request: Option<IconRequest>) -> Option<IconRequestView> {
    match request {
        Some(r) => Some(r@),
        None => None,
    }
}

/// The icons loaded last, under their names.
pub struct IconCache(LruCache<String, Option<Handle>, RandomState>);

impl View for IconCache {
    type V = Entries;

    closed spec fn view(&self) -> Entries {
        table_entries(self.0)
    }
}

/// Whether no two entries share a name.
pub open spec fn distinct(entries: Entries) -> bool {
    forall|i: int, j: int|
        0 <= i < entries.len() && 0 <= j < entries.len() && i != j ==> (#[trigger] entries[i]).0 != (
        #[trigger] entries[j]).0
}

impl IconCache {
    /// Whether there is room for [`CAPACITY`] icons, no more are kept, each name once, and
    /// names are hashed in the way that the bar has settled on.
    pub closed spec fn wf(&self) -> bool {
        &&& table_hasher(self.0) == seeded(114, 514, 1919, 810)
        &&& table_capacity(self.0) == CAPACITY
        &&& self@.len() <= CAPACITY
        &&& distinct(self@)
    }

    /// No icon is kept yet.
    pub fn new() -> (res: Self)
        ensures
            res.wf(),
            res@ == Entries::empty(),
    {
        let res = IconCache(new_table(CAPACITY, ahash::RandomState::with_seeds(114, 514, 1919, 810)));
        assert(res@ =~= Entries::empty());
        res
    }

    /// Tells what has to be looked for before the icon `key` can be given. What was kept under
    /// that name once is given again, whatever the size and the colours it was asked for with.
    pub fn with_size(&self, key: &str, size: u16, symbolic: bool) -> (res: Option<IconRequest>)
        ensures
            request_view(res) == wanted(self@, key@, size, symbolic),
    {
        if table_holds(&self.0, key) {
            None
        } else {
            Some(IconRequest { key: key.to_owned(), size, symbolic, theme: "Tela-dracula-dark" })
        }
    }

    /// Gives the icon `key`: the one that is kept, or else `loaded`, which is kept from now on.
    pub fn load(&mut self, key: &str, loaded: Option<Handle>) -> (res: Option<Handle>)
        requires
            old(self).wf(),
        ensures
            final(self).wf(),
            final(self)@ == filled(old(self)@, CAPACITY as nat, key@, loaded),
            res == answer(old(self)@, key@, loaded),
    {
        let res = fill_table(&mut self.0, key, loaded);
        proof {
            lemma_filled(old(self)@, CAPACITY as nat, key@, loaded);
        }
        res
    }
}

/// What `position` says: `key` stands there, and nowhere before.
pub proof fn lemma_position(entries: Entries, key: Seq<char>)
    ensures
        0 <= position(entries, key) <= entries.len(),
        position(entries, key) < entries.len() ==> entries[position(entries, key)].0 == key,
        forall|i: int| 0 <= i < position(entries, key) ==> (#[trigger] entries[i]).0 != key,
    decreases entries.len(),
{
    if entries.len() > 0 && entries[0].0 != key {
        let rest = entries.drop_first();
        lemma_position(rest, key);
        assert forall|i: int| 0 <= i < position(entries, key) implies (#[trigger] entries[i]).0 != key by {
            if i > 0 {
                assert(rest[i - 1] == entries[i]);
            }
        }
    }
}

/// A place where `key` stands, and nowhere before, is its position.
pub proof fn lemma_position_is(entries: Entries, key: Seq<char>, at: int)
    requires
        0 <= at <= entries.len(),
        at < entries.len() ==> entries[at].0 == key,
        forall|i: int| 0 <= i < at ==> (#[trigger] entries[i]).0 != key,
    ensures
        position(entries, key) == at,
    decreases entries.len(),
{
    if at > 0 {
        let rest = entries.drop_first();
        assert(entries[0].0 != key);
        assert forall|i: int| 0 <= i < at - 1 implies (#[trigger] rest[i]).0 != key by {
            assert(entries[i + 1].0 != key);
        }
        lemma_position_is(rest, key, at - 1);
    }
}

/// A search keeps the entries, and puts what it finds in front.
proof fn lemma_searched(entries: Entries, key: Seq<char>)
    requires
        distinct(entries),
    ensures
        searched(entries, key).len() == entries.len(),
        distinct(searched(entries, key)),
        kept(searched(entries, key), key) == kept(entries, key),
        kept(entries, key) is Some ==> position(searched(entries, key), key) == 0,
{
    lemma_position(entries, key);
    let at = position(entries, key);
    if at < entries.len() {
        let after = searched(entries, key);
        assert(after[0] == entries[at]);
        assert forall|i: int, j: int|
            0 <= i < after.len() && 0 <= j < after.len() && i != j implies (#[trigger] after[i]).0 != (
        #[trigger] after[j]).0 by {
            let k = came_from(at, i);
            let l = came_from(at, j);
            assert(after[i] == entries[k]);
            assert(after[j] == entries[l]);
        }
    }
}

/// Where entry `i` stood before the one at `at` moved to the front.
spec fn came_from(at: int, i: int) -> int {
    if i == 0 {
        at
    } else if i <= at {
        i - 1
    } else {
        i
    }
}

/// Filling keeps each name once, within the capacity, and finds what it put there.
proof fn lemma_filled(entries: Entries, capacity: nat, key: Seq<char>, value: Option<Handle>)
    requires
        distinct(entries),
        entries.len() <= capacity,
        capacity > 0,
    ensures
        distinct(filled(entries, capacity, key, value)),
        filled(entries, capacity, key, value).len() <= capacity,
        position(filled(entries, capacity, key, value), key) == 0,
        kept(filled(entries, capacity, key, value), key) == Some(answer(entries, key, value)),
{
    lemma_position(entries, key);
    lemma_searched(entries, key);
    if kept(entries, key) is None {
        let after = filled(entries, capacity, key, value);
        assert forall|i: int, j: int|
            0 <= i < after.len() && 0 <= j < after.len() && i != j implies (#[trigger] after[i]).0 != (
        #[trigger] after[j]).0 by {
            if i > 0 {
                assert(after[i] == entries[i - 1]);
            }
            if j > 0 {
                assert(after[j] == entries[j - 1]);
            }
        }
    }
}

/// An icon that was given once is given again without loading, whatever it is asked for with.
pub proof fn law_loaded_icons_are_kept(
    entries: Entries,
    key: Seq<char>,
    loaded: Option<Handle>,
    again: Option<Handle>,
    size: u16,
    symbolic: bool,
)
    requires
        distinct(entries),
        entries.len() <= CAPACITY,
    ensures
        ({
            let after = filled(entries, CAPACITY as nat, key, loaded);
            &&& wanted(after, key, size, symbolic) is None
            &&& answer(after, key, again) == answer(entries, key, loaded)
        }),
{
    lemma_filled(entries, CAPACITY as nat, key, loaded);
}

/// What holds of the icons that are kept: no more than [`CAPACITY`], and each name once.
pub proof fn lemma_wf(cache: IconCache)
    requires
        cache.wf(),
    ensures
        distinct(cache@),
        cache@.len() <= CAPACITY,
{
}

/// The entries after a run of lookups, each a name and what a search for it would give.
pub open spec fn looked_up(entries: Entries, lookups: Entries) -> Entries
    decreases lookups.len(),
{
    if lookups.len() == 0 {
        entries
    } else {
        filled(
            looked_up(entries, lookups.drop_last()),
            CAPACITY as nat,
            lookups.last().0,
            lookups.last().1,
        )
    }
}

/// The names other than `key` that were looked up.
pub open spec fn others(lookups: Entries, key: Seq<char>) -> Set<Seq<char>>
    decreases lookups.len(),
{
    if lookups.len() == 0 {
        Set::empty()
    } else if lookups.last().0 == key {
        others(lookups.drop_last(), key)
    } else {
        others(lookups.drop_last(), key).insert(lookups.last().0)
    }
}

/// Whether `key` is kept as `handle`, with nothing in front of it but names from `names`.
spec fn kept_behind(entries: Entries, key: Seq<char>, handle: Option<Handle>, names: Set<Seq<char>>) -> bool {
    &&& distinct(entries)
    &&& entries.len() <= CAPACITY
    &&& kept(entries, key) == Some(handle)
    &&& forall|i: int| 0 <= i < position(entries, key) ==> names.contains((#[trigger] entries[i]).0)
}

/// There are at least as many names as entries in front of `key`, and one more where a name is
/// among them that no entry has.
proof fn lemma_room(
    entries: Entries,
    key: Seq<char>,
    handle: Option<Handle>,
    names: Set<Seq<char>>,
    new: Seq<char>,
)
    requires
        kept_behind(entries, key, handle, names),
        names.finite(),
        names.contains(new),
        kept(entries, new) is None,
    ensures
        position(entries, key) < names.len(),
{
    lemma_position(entries, key);
    lemma_position(entries, new);
    let at = position(entries, key);
    let front = Seq::new(at as nat, |i: int| entries[i].0);
    assert(front.no_duplicates()) by {
        assert forall|i: int, j: int| 0 <= i < at && 0 <= j < at && i != j implies front[i] != front[j] by {
            assert(entries[i].0 != entries[j].0);
        }
    }
    front.unique_seq_to_set();
    assert(front.to_set().subset_of(names.remove(new))) by {
        assert forall|name: Seq<char>| front.to_set().contains(name) implies names.remove(new).contains(
            name,
        ) by {
            let i = front.index_of(name);
            assert(names.contains(entries[i].0));
            assert(entries[i].0 != new);
        }
    }
    vstd::set_lib::lemma_len_subset(front.to_set(), names.remove(new));
}

/// One more lookup keeps `key`, where the names looked up are fewer than [`CAPACITY`].
proof fn lemma_lookup_keeps(
    entries: Entries,
    key: Seq<char>,
    handle: Option<Handle>,
    names: Set<Seq<char>>,
    name: Seq<char>,
    loaded: Option<Handle>,
)
    requires
        kept_behind(entries, key, handle, names),
        names.finite(),
        names.len() < CAPACITY,
        name == key || names.contains(name),
    ensures
        kept_behind(filled(entries, CAPACITY as nat, name, loaded), key, handle, names),
{
    let after = filled(entries, CAPACITY as nat, name, loaded);
    let at = position(entries, key);
    lemma_filled(entries, CAPACITY as nat, name, loaded);
    lemma_position(entries, key);
    lemma_position(entries, name);
    if name != key {
        if kept(entries, name) is Some {
            let from = position(entries, name);
            let to = if from < at {
                at
            } else {
                at + 1
            };
            assert(after[to] == entries[at]);
            assert forall|i: int| 0 <= i < to implies (#[trigger] after[i]).0 != key && names.contains(
                after[i].0,
            ) by {
                assert(after[i] == entries[came_from(from, i)]);
            }
            lemma_position_is(after, key, to);
        } else {
            lemma_room(entries, key, handle, names, name);
            assert(after[at + 1] == entries[at]);
            assert forall|i: int| 0 <= i < at + 1 implies (#[trigger] after[i]).0 != key && names.contains(
                after[i].0,
            ) by {
                if i > 0 {
                    assert(after[i] == entries[i - 1]);
                }
            }
            lemma_position_is(after, key, at + 1);
        }
    }
}

/// The names looked up are finitely many, and more lookups add to them.
proof fn lemma_others(lookups: Entries, n: int, key: Seq<char>)
    requires
        0 <= n <= lookups.len(),
    ensures
        others(lookups, key).finite(),
        others(lookups.take(n), key).subset_of(others(lookups, key)),
        forall|i: int|
            0 <= i < lookups.len() && (#[trigger] lookups[i]).0 != key ==> others(lookups, key).contains(
                lookups[i].0,
            ),
    decreases lookups.len(),
{
    if n == lookups.len() {
        assert(lookups.take(n) =~= lookups);
    }
    if lookups.len() > 0 {
        let head = lookups.drop_last();
        lemma_others(
            head,
            if n == lookups.len() {
                n - 1
            } else {
                n
            },
            key,
        );
        if n < lookups.len() {
            assert(head.take(n) =~= lookups.take(n));
        }
        assert forall|i: int| 0 <= i < lookups.len() && (#[trigger] lookups[i]).0 != key implies others(
            lookups,
            key,
        ).contains(lookups[i].0) by {
            if i < head.len() {
                assert(head[i] == lookups[i]);
            }
        }
    }
}

/// After the first lookups of a run, `key` is still kept.
proof fn lemma_run_keeps(entries: Entries, lookups: Entries, n: int, key: Seq<char>, handle: Option<Handle>)
    requires
        0 <= n <= lookups.len(),
        kept_behind(entries, key, handle, Set::empty()),
        others(lookups, key).len() < CAPACITY,
    ensures
        kept_behind(looked_up(entries, lookups.take(n)), key, handle, others(lookups, key)),
    decreases n,
{
    let names = others(lookups, key);
    lemma_others(lookups, n, key);
    if n > 0 {
        lemma_run_keeps(entries, lookups, n - 1, key, handle);
        assert(lookups.take(n).drop_last() =~= lookups.take(n - 1));
        assert(lookups.take(n).last() == lookups[n - 1]);
        lemma_lookup_keeps(
            looked_up(entries, lookups.take(n - 1)),
            key,
            handle,
            names,
            lookups[n - 1].0,
            lookups[n - 1].1,
        );
    }
}

/// An icon leaves only when [`CAPACITY`] others were looked up since: as long as those looked
/// up after it have fewer names than that, it is given as it was.
pub proof fn law_recent_icons_stay(
    entries: Entries,
    key: Seq<char>,
    loaded: Option<Handle>,
    since: Entries,
)
    requires
        distinct(entries),
        entries.len() <= CAPACITY,
        others(since, key).len() < CAPACITY,
    ensures
        kept(looked_up(filled(entries, CAPACITY as nat, key, loaded), since), key) == Some(
            answer(entries, key, loaded),
        ),
{
    lemma_filled(entries, CAPACITY as nat, key, loaded);
    lemma_run_keeps(
        filled(entries, CAPACITY as nat, key, loaded),
        since,
        since.len() as int,
        key,
        answer(entries, key, loaded),
    );
    assert(since.take(since.len() as int) =~= since);
}

/// How an icon file is read.
#[derive(Debug, Clone, Copy, PartialEq, Eq, Structural)]
pub enum Loader {
    /// As a drawing with its own colours.
    Svg,
    /// As a drawing in the colours of the bar.
    Symbolic,
    /// As a pixmap.
    Png,
}

/// How a file with that extension is read, if it can be.
pub open spec fn loader_of(extension: Option<Seq<u8>>, symbolic: bool) -> Option<Loader> {
    match extension {
        Some(e) => if e == vstd::utf8::encode_utf8("svg"@) {
            if symbolic {
                Some(Loader::Symbolic)
            } else {
                Some(Loader::Svg)
            }
        } else if e == vstd::utf8::encode_utf8("png"@) {
            Some(Loader::Png)
        } else {
            None
        },
        None => None,
    }
}

/// Tells how a file with that extension is read, if it can be.
pub fn loader(extension: Option<&[u8]>, symbolic: bool) -> (res: Option<Loader>)
    ensures
        res == loader_of(
            match extension {
                Some(e) => Some(e@),
                None => None,
            },
            symbolic,
        ),
{
    match extension {
        Some(e) => {
            if crate::bytes::same(e, "svg".as_bytes()) {
                if symbolic {
                    Some(Loader::Symbolic)
                } else {
                    Some(Loader::Svg)
                }
            } else if crate::bytes::same(e, "png".as_bytes()) {
                Some(Loader::Png)
            } else {
                None
            }
        },
        None => None,
    }
}

} // verus!
