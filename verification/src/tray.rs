//! The items of the tray.

use crate::icons::{seeded, Handle};
use ahash::{AHashMap, RandomState};
use vstd::prelude::*;

verus! {

/// What is shown of a tray item.
#[derive(Debug, Clone, Copy, PartialEq, Eq, Structural)]
pub struct TrayItem {
    pub icon: Option<Handle>,
}

/// News of the tray.
#[derive(Debug, PartialEq, Eq)]
pub enum TrayEvent {
    Registered { service: String, icon_name: String },
    NewIcon { service: String, icon_name: String },
    Unregistered(String),
    Disconnected,
}

/// The table of `ahash`.
#[verifier::external_type_specification]
#[verifier::external_body]
#[verifier::reject_recursive_types(K)]
#[verifier::reject_recursive_types(V)]
#[verifier::reject_recursive_types(S)]
pub struct ExAHashMap<K, V, S>(ahash::AHashMap<K, V, S>);

/// What a table of items holds, by service.
pub uninterp spec fn items_of(table: AHashMap<String, TrayItem, RandomState>) -> Map<
    Seq<char>,
    TrayItem,
>;

/// The hash builder that a table of items was made with.
pub uninterp spec fn items_hasher(table: AHashMap<String, TrayItem, RandomState>) -> RandomState;

/// `AHashMap::with_hasher` makes a table without entries that hashes with `hasher`.
#[verifier::external_body]
fn new_items(hasher: RandomState) -> (res: AHashMap<String, TrayItem, RandomState>)
    ensures
        items_of(res).dom() == Set::<Seq<char>>::empty(),
        items_hasher(res) == hasher,
{
    AHashMap::with_hasher(hasher)
}

/// `AHashMap::insert` puts `item` under `service`, in place of what stood there.
#[verifier::external_body]
fn put_item(table: &mut AHashMap<String, TrayItem, RandomState>, service: String, item: TrayItem)
    ensures
        items_of(*final(table)) == items_of(*old(table)).insert(service@, item),
        items_hasher(*final(table)) == items_hasher(*old(table)),
{
    table.insert(service, item);
}

/// What became of a table in which the item under `service` was lent out and came back as
/// `after`.
pub open spec fn lent(
    before: Map<Seq<char>, TrayItem>,
    after: Map<Seq<char>, TrayItem>,
    service: Seq<char>,
    lent: Option<(TrayItem, TrayItem)>,
) -> bool {
    match lent {
        Some((was, is)) => before.contains_key(service) && before[service] == was && after
            == before.insert(service, is),
        None => !before.contains_key(service) && after == before,
    }
}

/// `AHashMap::get_mut` lends out what stands under `service`, if anything does.
#[verifier::external_body]
fn lend_item<'a>(table: &'a mut AHashMap<String, TrayItem, RandomState>, service: &str) -> (res: Option<
    &'a mut TrayItem,
>)
    ensures
        lent(
            items_of(*old(table)),
            items_of(*final(table)),
            service@,
            match res {
                Some(item) => Some((*item, *final(item))),
                None => None,
            },
        ),
        items_hasher(*final(table)) == items_hasher(*old(table)),
{
    table.get_mut(service)
}

/// `AHashMap::remove` takes out what stands under `service`.
#[verifier::external_body]
fn drop_item(table: &mut AHashMap<String, TrayItem, RandomState>, service: &str)
    ensures
        items_of(*final(table)) == items_of(*old(table)).remove(service@),
        items_hasher(*final(table)) == items_hasher(*old(table)),
{
    table.remove(service);
}

/// `HashMap::clear`, which `AHashMap` gives access to, takes everything out.
#[verifier::external_body]
fn drop_items(table: &mut AHashMap<String, TrayItem, RandomState>)
    ensures
        items_of(*final(table)).dom() == Set::<Seq<char>>::empty(),
        items_hasher(*final(table)) == items_hasher(*old(table)),
{
    table.clear();
}

/// Whether `list` holds every entry of `items` once, and nothing else.
pub open spec fn lists(list: Seq<(String, TrayItem)>, items: Map<Seq<char>, TrayItem>) -> bool {
    &&& forall|i: int|
        0 <= i < list.len() ==> items.contains_key((#[trigger] list[i]).0@) && items[list[i].0@] == list[i].1
    &&& forall|i: int, j: int|
        0 <= i < list.len() && 0 <= j < list.len() && i != j ==> (#[trigger] list[i]).0@ != (
        #[trigger] list[j]).0@
    &&& forall|service: Seq<char>| #[trigger]
        items.contains_key(service) ==> exists|i: int|
            0 <= i < list.len() && (#[trigger] list[i]).0@ == service
}

/// `HashMap::iter`, which `AHashMap` gives access to, walks over every entry once, in no
/// certain order.
#[verifier::external_body]
fn list_items(table: &AHashMap<String, TrayItem, RandomState>) -> (res: Vec<(String, TrayItem)>)
    ensures
        lists(res@, items_of(*table)),
{
    table.iter().map(|(service, item)| (service.clone(), *item)).collect()
}

/// The items of the tray, by service.
pub struct TrayItems(AHashMap<String, TrayItem, RandomState>);

impl View for TrayItems {
    type V = Map<Seq<char>, TrayItem>;

    closed spec fn view(&self) -> Map<Seq<char>, TrayItem> {
        items_of(self.0)
    }
}

impl TrayItems {
    /// Whether services are hashed in the way that the bar has settled on.
    pub closed spec fn wf(&self) -> bool {
        items_hasher(self.0) == seeded(114, 514, 1919, 810)
    }

    /// No item yet.
    pub fn new() -> (res: Self)
        ensures
            res.wf(),
            res@ == Map::<Seq<char>, TrayItem>::empty(),
    {
        let res = TrayItems(new_items(ahash::RandomState::with_seeds(114, 514, 1919, 810)));
        assert(res@ =~= Map::<Seq<char>, TrayItem>::empty());
        res
    }

    /// Puts an item into the tray, in place of one of the same service.
    pub fn insert(&mut self, service: String, item: TrayItem)
        requires
            old(self).wf(),
        ensures
            final(self).wf(),
            final(self)@ == old(self)@.insert(service@, item),
    {
        put_item(&mut self.0, service, item);
    }

    /// Gives the item of a service another icon, if there is one.
    pub fn set_icon(&mut self, service: &str, icon: Option<Handle>)
        requires
            old(self).wf(),
        ensures
            final(self).wf(),
            final(self)@ == (if old(self)@.contains_key(service@) {
                old(self)@.insert(service@, TrayItem { icon })
            } else {
                old(self)@
            }),
    {
        match lend_item(&mut self.0, service) {
            Some(item) => {
                item.icon = icon;
            },
            None => {},
        }
    }

    /// Takes the item of a service out of the tray.
    pub fn remove(&mut self, service: &str)
        requires
            old(self).wf(),
        ensures
            final(self).wf(),
            final(self)@ == old(self)@.remove(service@),
    {
        drop_item(&mut self.0, service);
    }

    /// Takes everything out of the tray.
    pub fn clear(&mut self)
        requires
            old(self).wf(),
        ensures
            final(self).wf(),
            final(self)@ == Map::<Seq<char>, TrayItem>::empty(),
    {
        drop_items(&mut self.0);
        assert(self@ =~= Map::<Seq<char>, TrayItem>::empty());
    }

    /// The items with an icon, each once, in no certain order.
    pub fn shown(&self) -> (res: Vec<(String, Handle)>)
        ensures
            shows_tray(res@, self@),
    {
        let list = list_items(&self.0);
        let mut res: Vec<(String, Handle)> = Vec::new();
        let mut i: usize = 0;
        while i < list.len()
            invariant
                i <= list.len(),
                lists(list@, self@),
                forall|k: int| 0 <= k < res.len() ==> #[trigger] comes_from(list@, i as int, res@[k]),
                forall|k: int, l: int|
                    0 <= k < res.len() && 0 <= l < res.len() && k != l ==> (#[trigger] res@[k]).0@ != (
                    #[trigger] res@[l]).0@,
                forall|j: int|
                    0 <= j < i && list@[j].1.icon is Some ==> #[trigger] comes_to(list@[j], res@),
            decreases list.len() - i,
        {
            let (service, item) = &list[i];
            let ghost before = res@;
            match item.icon {
                Some(icon) => {
                    let entry = (service.clone(), icon);
                    res.push(entry);
                    proof {
                        assert(looks_like(list@[i as int], res@[before.len() as int]));
                        assert forall|k: int| 0 <= k < res.len() implies #[trigger] comes_from(
                            list@,
                            i + 1,
                            res@[k],
                        ) by {
                            if k < before.len() {
                                assert(comes_from(list@, i as int, before[k]));
                            }
                        }
                        assert forall|j: int| 0 <= j < i + 1 && list@[j].1.icon is Some implies #[trigger] comes_to(
                            list@[j],
                            res@,
                        ) by {
                            if j < i {
                                assert(comes_to(list@[j], before));
                                let k = choose|k: int|
                                    0 <= k < before.len() && #[trigger] looks_like(list@[j], before[k]);
                                assert(looks_like(list@[j], res@[k]));
                            }
                        }
                        assert forall|k: int, l: int|
                            0 <= k < res.len() && 0 <= l < res.len() && k != l implies (
                        #[trigger] res@[k]).0@ != (#[trigger] res@[l]).0@ by {
                            let m = if k < l {
                                k
                            } else {
                                l
                            };
                            assert(comes_from(list@, i as int, before[m]));
                        }
                    }
                },
                None => {
                    proof {
                        assert forall|k: int| 0 <= k < res.len() implies #[trigger] comes_from(
                            list@,
                            i + 1,
                            res@[k],
                        ) by {
                            assert(comes_from(list@, i as int, res@[k]));
                        }
                    }
                },
            }
            i = i + 1;
        }
        proof {
            assert forall|k: int| 0 <= k < res.len() implies self@.contains_key((#[trigger] res@[k]).0@)
                && self@[res@[k].0@].icon == Some(res@[k].1) by {
                assert(comes_from(list@, list.len() as int, res@[k]));
            }
            assert forall|service: Seq<char>| #[trigger]
                self@.contains_key(service) && self@[service].icon is Some implies exists|k: int|
                0 <= k < res.len() && (#[trigger] res@[k]).0@ == service by {
                let j = choose|j: int| 0 <= j < list.len() && (#[trigger] list@[j]).0@ == service;
                assert(comes_to(list@[j], res@));
                let k = choose|k: int| 0 <= k < res.len() && #[trigger] looks_like(list@[j], res@[k]);
                assert(res@[k].0@ == service);
            }
        }
        res
    }
}

/// Whether `shown` is what a tray item looks like.
spec fn looks_like(entry: (String, TrayItem), shown: (String, Handle)) -> bool {
    entry.0@ == shown.0@ && entry.1.icon == Some(shown.1)
}

/// Whether `shown` is what one of the first `n` items of `list` looks like.
spec fn comes_from(list: Seq<(String, TrayItem)>, n: int, shown: (String, Handle)) -> bool {
    exists|j: int| 0 <= j < n && #[trigger] looks_like(list[j], shown)
}

/// Whether `shown` holds what a tray item looks like.
spec fn comes_to(entry: (String, TrayItem), shown: Seq<(String, Handle)>) -> bool {
    exists|k: int| 0 <= k < shown.len() && #[trigger] looks_like(entry, shown[k])
}

/// Whether `shown` holds every item with an icon once, and nothing else.
pub open spec fn shows_tray(shown: Seq<(String, Handle)>, items: Map<Seq<char>, TrayItem>) -> bool {
    &&& forall|i: int|
        0 <= i < shown.len() ==> items.contains_key((#[trigger] shown[i]).0@)
            && items[shown[i].0@].icon == Some(shown[i].1)
    &&& forall|i: int, j: int|
        0 <= i < shown.len() && 0 <= j < shown.len() && i != j ==> (#[trigger] shown[i]).0@ != (
        #[trigger] shown[j]).0@
    &&& forall|service: Seq<char>| #[trigger]
        items.contains_key(service) && items[service].icon is Some ==> exists|i: int|
            0 <= i < shown.len() && (#[trigger] shown[i]).0@ == service
}

} // verus!
