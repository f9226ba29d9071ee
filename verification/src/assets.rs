//! Asset metadata and the lookups the handlers run over it.
//!
//! The metadata (heroes, ranks, items) arrives from the asset service as
//! plain values; fetching and decoding it happens outside this crate. The
//! lookups — hero by name or id, the upgrade-type items — are verified here.

use vstd::prelude::*;
use vstd::string::StringExecFns;

verus! {

/// A hero as the asset service describes it.
#[derive(Debug, Clone, PartialEq, Eq)]
pub struct AssetsHero {
    /// The hero's id.
    pub id: u32,
    /// The hero's display name.
    pub name: String,
}

/// A rank as the asset service describes it: its badge images keyed by size.
#[derive(Debug, Clone, PartialEq, Eq)]
pub struct AssetsRanks {
    /// The rank's tier.
    pub tier: u32,
    /// The rank's display name.
    pub name: String,
    /// The badge images, as (size, URL) pairs.
    pub images: Vec<(String, String)>,
}

/// An item as the asset service describes it.
#[derive(Debug, Clone, PartialEq, Eq)]
pub struct AssetsItem {
    /// The item's id.
    pub id: u32,
    /// The item's display name.
    pub name: String,
    /// The item's tier, where it has one.
    pub tier: Option<u32>,
    /// The item's cost, where it has one.
    pub cost: Option<u32>,
    /// The item's type ("upgrade" for the buyable upgrades).
    pub item_type: Option<String>,
    /// The slot the item occupies, where it has one.
    pub slot: Option<String>,
}

/// What `str::to_lowercase` returns: Unicode lowercasing, a function of the
/// characters alone.
pub uninterp spec fn lower_of(s: Seq<char>) -> Seq<char>;

/// Relies on str::to_lowercase: the result depends on the characters alone.
#[verifier::external_body]
fn lowercase(s: &str) -> (r: String)
    ensures
        r@ == lower_of(s@),
{
    s.to_lowercase()
}

/// Whether the hero's name equals the query, compared case-insensitively.
pub open spec fn spec_name_matches(h: AssetsHero, q: Seq<char>) -> bool {
    lower_of(h.name@) == lower_of(q)
}

/// The id of the first hero whose name matches the query, case-insensitively.
pub fn hero_id_from_name(heroes: &Vec<AssetsHero>, hero_name: &str) -> (r: Option<u32>)
    ensures
        (r is Some) == (exists|i: int|
            0 <= i < heroes@.len() && spec_name_matches(#[trigger] heroes@[i], hero_name@)),
        r matches Some(id) ==> exists|i: int|
            {
                &&& 0 <= i < heroes@.len()
                &&& spec_name_matches(#[trigger] heroes@[i], hero_name@)
                &&& forall|j: int| 0 <= j < i ==> !spec_name_matches(#[trigger] heroes@[j], hero_name@)
                &&& id == heroes@[i].id
            },
{
    let query = lowercase(hero_name);
    let mut i: usize = 0;
    while i < heroes.len()
        invariant
            i <= heroes@.len(),
            query@ == lower_of(hero_name@),
            forall|j: int| 0 <= j < i ==> !spec_name_matches(#[trigger] heroes@[j], hero_name@),
        decreases heroes@.len() - i,
    {
        let name = lowercase(heroes[i].name.as_str());
        if name == query {
            return Some(heroes[i].id);
        }
        i = i + 1;
    }
    None
}

/// The name of the first hero with the id.
pub fn hero_name_from_id(heroes: &Vec<AssetsHero>, hero_id: u32) -> (r: Option<String>)
    ensures
        (r is Some) == (exists|i: int| 0 <= i < heroes@.len() && #[trigger] heroes@[i].id == hero_id),
        r matches Some(name) ==> exists|i: int|
            {
                &&& 0 <= i < heroes@.len()
                &&& #[trigger] heroes@[i].id == hero_id
                &&& forall|j: int| 0 <= j < i ==> heroes@[j].id != hero_id
                &&& name@ == heroes@[i].name@
            },
{
    let mut i: usize = 0;
    while i < heroes.len()
        invariant
            i <= heroes@.len(),
            forall|j: int| 0 <= j < i ==> #[trigger] heroes@[j].id != hero_id,
        decreases heroes@.len() - i,
    {
        if heroes[i].id == hero_id {
            return Some(heroes[i].name.clone());
        }
        i = i + 1;
    }
    None
}

/// Whether some hero has the id.
pub fn validate_hero_id(heroes: &Vec<AssetsHero>, hero_id: u32) -> (r: bool)
    ensures
        r == exists|i: int| 0 <= i < heroes@.len() && #[trigger] heroes@[i].id == hero_id,
{
    let mut i: usize = 0;
    while i < heroes.len()
        invariant
            i <= heroes@.len(),
            forall|j: int| 0 <= j < i ==> #[trigger] heroes@[j].id != hero_id,
        decreases heroes@.len() - i,
    {
        if heroes[i].id == hero_id {
            return true;
        }
        i = i + 1;
    }
    false
}

/// Whether the item is a buyable upgrade.
pub open spec fn spec_is_upgrade(it: AssetsItem) -> bool {
    it.item_type matches Some(t) && t@ == "upgrade"@
}

/// The indices of the upgrade-type items, in order.
pub fn upgrade_item_indices(items: &Vec<AssetsItem>) -> (r: Vec<usize>)
    ensures
        forall|n: int|
            0 <= n < r@.len() ==> #[trigger] r@[n] < items@.len() && spec_is_upgrade(
                items@[r@[n] as int],
            ),
        forall|i: int|
            0 <= i < items@.len() && spec_is_upgrade(#[trigger] items@[i]) ==> r@.contains(
                i as usize,
            ),
        forall|n: int, m: int| 0 <= n < m < r@.len() ==> #[trigger] r@[n] < #[trigger] r@[m],
{
    let upgrade = "upgrade".to_owned();
    let mut r: Vec<usize> = Vec::new();
    let mut i: usize = 0;
    while i < items.len()
        invariant
            i <= items@.len(),
            upgrade@ == "upgrade"@,
            forall|n: int|
                0 <= n < r@.len() ==> #[trigger] r@[n] < i && spec_is_upgrade(items@[r@[n] as int]),
            forall|j: int|
                0 <= j < i && spec_is_upgrade(#[trigger] items@[j]) ==> r@.contains(j as usize),
            forall|n: int, m: int| 0 <= n < m < r@.len() ==> #[trigger] r@[n] < #[trigger] r@[m],
        decreases items@.len() - i,
    {
        let is_upgrade = match &items[i].item_type {
            Some(t) => *t == upgrade,
            None => false,
        };
        if is_upgrade {
            let ghost pre = r@;
            r.push(i);
            proof {
                assert forall|j: int|
                    0 <= j < i + 1 && spec_is_upgrade(#[trigger] items@[j]) implies r@.contains(
                    j as usize,
                ) by {
                    if j < i {
                        assert(pre.contains(j as usize));
                        let n = choose|n: int| 0 <= n < pre.len() && pre[n] == j as usize;
                        assert(r@[n] == j as usize);
                    } else {
                        assert(r@[pre.len() as int] == i);
                    }
                }
            }
        }
        i = i + 1;
    }
    r
}

} // verus!
