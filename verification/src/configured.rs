//! The Git marketplaces that the configuration names, in the order of their names.

use crate::config::{
    distinct_names, entry_views, lemma_table_of, table_of, ConfigLayerStack, MarketplaceConfig,
    MarketplaceConfigView, MarketplaceSourceType, MarketplacesSection,
};
use crate::text::{
    copy_option, copy_texts, law_text_order_is_strict_and_total, option_str, option_text, precedes,
    same_option, same_text, same_texts, text_precedes, texts, Text,
};
use vstd::prelude::*;
use vstd::std_specs::cmp::PartialEqSpec;
use vstd::string::*;

verus! {

/// A marketplace that is installed from a Git repository.
#[derive(Debug)]
pub struct ConfiguredGitMarketplace {
    pub name: String,
    pub source: String,
    pub ref_name: Option<String>,
    pub sparse_paths: Vec<String>,
    pub last_revision: Option<String>,
}

/// The texts of a [`ConfiguredGitMarketplace`].
pub struct ConfiguredGitMarketplaceView {
    pub name: Text,
    pub source: Text,
    pub ref_name: Option<Text>,
    pub sparse_paths: Seq<Text>,
    pub last_revision: Option<Text>,
}

impl View for ConfiguredGitMarketplace {
    type V = ConfiguredGitMarketplaceView;

    open spec fn view(&self) -> ConfiguredGitMarketplaceView {
        ConfiguredGitMarketplaceView {
            name: self.name@,
            source: self.source@,
            ref_name: option_text(self.ref_name),
            sparse_paths: texts(self.sparse_paths@),
            last_revision: option_text(self.last_revision),
        }
    }
}

impl Clone for ConfiguredGitMarketplace {
    fn clone(&self) -> (copy: Self)
        ensures
            copy@ == self@,
    {
        ConfiguredGitMarketplace {
            name: self.name.clone(),
            source: self.source.clone(),
            ref_name: copy_option(&self.ref_name),
            sparse_paths: copy_texts(&self.sparse_paths),
            last_revision: copy_option(&self.last_revision),
        }
    }
}

impl PartialEq for ConfiguredGitMarketplace {
    fn eq(&self, other: &Self) -> (same: bool) {
        self.name == other.name && self.source == other.source && same_option(
            &self.ref_name,
            &other.ref_name,
        ) && same_texts(&self.sparse_paths, &other.sparse_paths) && same_option(
            &self.last_revision,
            &other.last_revision,
        )
    }
}

impl vstd::std_specs::cmp::PartialEqSpecImpl for ConfiguredGitMarketplace {
    open spec fn obeys_eq_spec() -> bool {
        true
    }

    open spec fn eq_spec(&self, other: &Self) -> bool {
        self@ == other@
    }
}

impl Eq for ConfiguredGitMarketplace {

}

/// The Git marketplace that the configuration of `name` describes: there is one exactly when it
/// says `git` and gives a source. Without a list of sparse paths the list is empty.
pub open spec fn configured_from(name: Text, config: MarketplaceConfigView) -> Option<
    ConfiguredGitMarketplaceView,
> {
    if config.source_type == Some(MarketplaceSourceType::Git) && config.source is Some {
        Some(
            ConfiguredGitMarketplaceView {
                name,
                source: config.source->0,
                ref_name: config.ref_name,
                sparse_paths: match config.sparse_paths {
                    Some(paths) => paths,
                    None => Seq::empty(),
                },
                last_revision: config.last_revision,
            },
        )
    } else {
        None
    }
}

/// What a marketplace that may be missing holds.
pub open spec fn option_view(marketplace: Option<ConfiguredGitMarketplace>) -> Option<
    ConfiguredGitMarketplaceView,
> {
    match marketplace {
        Some(marketplace) => Some(marketplace@),
        None => None,
    }
}

/// The Git marketplace that the configuration of `name` describes, if it describes one.
pub fn configured_git_marketplace_from_config(name: String, marketplace: MarketplaceConfig) -> (r:
    Option<ConfiguredGitMarketplace>)
    ensures
        option_view(r) == configured_from(name@, marketplace@),
{
    let MarketplaceConfig {
        last_updated: _,
        last_revision,
        source_type,
        source,
        ref_name,
        sparse_paths,
    } = marketplace;
    match source_type {
        Some(MarketplaceSourceType::Git) => {},
        _ => {
            return None;
        },
    }
    let source = match source {
        Some(source) => source,
        None => {
            return None;
        },
    };
    let sparse_paths = match sparse_paths {
        Some(paths) => paths,
        None => {
            let none: Vec<String> = Vec::new();
            assert(texts(none@) =~= Seq::<Text>::empty());
            none
        },
    };
    Some(ConfiguredGitMarketplace { name, source, ref_name, sparse_paths, last_revision })
}

/// What the marketplaces of a list hold.
pub open spec fn views(list: Seq<ConfiguredGitMarketplace>) -> Seq<ConfiguredGitMarketplaceView> {
    list.map_values(|marketplace: ConfiguredGitMarketplace| marketplace@)
}

/// Each marketplace comes before those that follow it, by name.
pub open spec fn in_name_order(list: Seq<ConfiguredGitMarketplaceView>) -> bool {
    forall|i: int, j: int|
        0 <= i < j < list.len() ==> text_precedes(#[trigger] list[i].name, #[trigger] list[j].name)
}

/// `table` describes the Git marketplace `marketplace`.
pub open spec fn configures(
    table: Map<Text, MarketplaceConfigView>,
    marketplace: ConfiguredGitMarketplaceView,
) -> bool {
    &&& table.contains_key(marketplace.name)
    &&& configured_from(marketplace.name, table[marketplace.name]) == Some(marketplace)
}

/// Whether `marketplace` is asked for: by its name, or because no name is given.
pub open spec fn wanted(name: Option<Text>, marketplace: ConfiguredGitMarketplaceView) -> bool {
    match name {
        Some(name) => marketplace.name == name,
        None => true,
    }
}

/// `list` holds, in the order of their names, exactly the Git marketplaces of `table` that are
/// asked for.
pub open spec fn lists_selected(
    table: Map<Text, MarketplaceConfigView>,
    name: Option<Text>,
    list: Seq<ConfiguredGitMarketplaceView>,
) -> bool {
    &&& in_name_order(list)
    &&& forall|marketplace: ConfiguredGitMarketplaceView| #[trigger]
        list.contains(marketplace) <==> configures(table, marketplace) && wanted(name, marketplace)
}

/// The list of the Git marketplaces of `table` that are asked for.
pub open spec fn selected(table: Map<Text, MarketplaceConfigView>, name: Option<Text>) -> Seq<
    ConfiguredGitMarketplaceView,
> {
    choose|list: Seq<ConfiguredGitMarketplaceView>| lists_selected(table, name, list)
}

/// In a list in name order no two marketplaces have the same name.
proof fn lemma_order_is_strict(list: Seq<ConfiguredGitMarketplaceView>, i: int, j: int)
    requires
        in_name_order(list),
        0 <= i < list.len(),
        0 <= j < list.len(),
        list[i].name == list[j].name,
    ensures
        i == j,
{
    law_text_order_is_strict_and_total(list[i].name, list[j].name, list[i].name);
    if i < j {
        assert(text_precedes(list[i].name, list[j].name));
    } else if j < i {
        assert(text_precedes(list[j].name, list[i].name));
    }
}

/// The first of a list in name order is the same in each such list of the same marketplaces.
proof fn lemma_same_first(
    a: Seq<ConfiguredGitMarketplaceView>,
    b: Seq<ConfiguredGitMarketplaceView>,
)
    requires
        in_name_order(a),
        in_name_order(b),
        a.len() > 0,
        b.len() > 0,
        b.contains(a[0]),
        a.contains(b[0]),
    ensures
        a[0] == b[0],
{
    let j = choose|j: int| 0 <= j < b.len() && b[j] == a[0];
    let k = choose|k: int| 0 <= k < a.len() && a[k] == b[0];
    law_text_order_is_strict_and_total(a[0].name, b[0].name, a[0].name);
    if j > 0 && k > 0 {
        assert(text_precedes(b[0].name, b[j].name));
        assert(text_precedes(a[0].name, a[k].name));
    }
}

/// The order of names leaves only one way to list given marketplaces.
pub proof fn law_order_fixes_the_list(
    a: Seq<ConfiguredGitMarketplaceView>,
    b: Seq<ConfiguredGitMarketplaceView>,
)
    requires
        in_name_order(a),
        in_name_order(b),
        forall|m: ConfiguredGitMarketplaceView| #[trigger] a.contains(m) <==> b.contains(m),
    ensures
        a == b,
    decreases a.len(),
{
    if a.len() == 0 {
        if b.len() > 0 {
            assert(b.contains(b[0]));
            assert(a.contains(b[0]));
        }
        assert(a =~= b);
    } else {
        assert(a.contains(a[0]));
        assert(b.contains(a[0]));
        assert(b.contains(b[0]));
        assert(a.contains(b[0]));
        lemma_same_first(a, b);
        let a_rest = a.drop_first();
        let b_rest = b.drop_first();
        assert forall|m: ConfiguredGitMarketplaceView| #[trigger]
            a_rest.contains(m) <==> b_rest.contains(m) by {
            lemma_rest_members(a, m);
            lemma_rest_members(b, m);
            assert(a.contains(m) <==> b.contains(m));
        }
        law_order_fixes_the_list(a_rest, b_rest);
        assert(a =~= seq![a[0]] + a_rest);
        assert(b =~= seq![b[0]] + b_rest);
    }
}

/// What follows the first of a list in name order is what the list holds besides it.
proof fn lemma_rest_members(
    list: Seq<ConfiguredGitMarketplaceView>,
    m: ConfiguredGitMarketplaceView,
)
    requires
        in_name_order(list),
        list.len() > 0,
    ensures
        list.drop_first().contains(m) <==> list.contains(m) && m != list[0],
{
    let rest = list.drop_first();
    if rest.contains(m) {
        let i = choose|i: int| 0 <= i < rest.len() && rest[i] == m;
        assert(list[i + 1] == m);
        if m == list[0] {
            lemma_order_is_strict(list, 0, i + 1);
        }
    }
    if list.contains(m) && m != list[0] {
        let i = choose|i: int| 0 <= i < list.len() && list[i] == m;
        assert(rest[i - 1] == m);
    }
}

/// Two lists of what a table configures are the same list.
proof fn lemma_selected_is(
    table: Map<Text, MarketplaceConfigView>,
    name: Option<Text>,
    list: Seq<ConfiguredGitMarketplaceView>,
)
    requires
        lists_selected(table, name, list),
    ensures
        selected(table, name) == list,
{
    law_order_fixes_the_list(selected(table, name), list);
}

/// Puts `marketplace` where its name belongs.
fn insert_in_name_order(
    list: &mut Vec<ConfiguredGitMarketplace>,
    marketplace: ConfiguredGitMarketplace,
)
    requires
        in_name_order(views(old(list)@)),
        forall|i: int|
            0 <= i < old(list)@.len() ==> #[trigger] old(list)@[i]@.name != marketplace@.name,
    ensures
        in_name_order(views(final(list)@)),
        forall|m: ConfiguredGitMarketplaceView| #[trigger]
            views(final(list)@).contains(m) <==> views(old(list)@).contains(m) || m == marketplace@,
{
    let ghost before = views(list@);
    let mut place: usize = 0;
    while place < list.len() && precedes(&list[place].name, &marketplace.name)
        invariant
            place <= list@.len(),
            before == views(list@),
            forall|i: int|
                0 <= i < place ==> text_precedes(#[trigger] before[i].name, marketplace@.name),
        decreases list@.len() - place,
    {
        place += 1;
    }
    proof {
        if place < list@.len() {
            law_text_order_is_strict_and_total(
                before[place as int].name,
                marketplace@.name,
                marketplace@.name,
            );
            assert(list@[place as int]@.name != marketplace@.name);
        }
    }
    let ghost added = marketplace@;
    list.insert(place, marketplace);
    proof {
        let after = views(list@);
        let at = place as int;
        assert(after =~= before.insert(at, added));
        assert forall|i: int, j: int| 0 <= i < j < after.len() implies text_precedes(
            #[trigger] after[i].name,
            #[trigger] after[j].name,
        ) by {
            if i == at && j > at + 1 {
                law_text_order_is_strict_and_total(added.name, before[at].name, before[j - 1].name);
            }
        }
        assert forall|m: ConfiguredGitMarketplaceView| #[trigger]
            after.contains(m) <==> before.contains(m) || m == added by {
            if after.contains(m) {
                let k = choose|k: int| 0 <= k < after.len() && after[k] == m;
                if k < at {
                    assert(before[k] == m);
                } else if k > at {
                    assert(before[k - 1] == m);
                }
            }
            if before.contains(m) {
                let k = choose|k: int| 0 <= k < before.len() && before[k] == m;
                if k < at {
                    assert(after[k] == m);
                } else {
                    assert(after[k + 1] == m);
                }
            }
            if m == added {
                assert(after[at] == m);
            }
        }
    }
}

/// The Git marketplaces that the user's layer of the configuration describes, in the order of
/// their names. There are none where that layer, or its `marketplaces` key, is missing or invalid.
pub fn configured_git_marketplaces(config_layer_stack: &ConfigLayerStack) -> (list: Vec<
    ConfiguredGitMarketplace,
>)
    ensures
        lists_selected(config_layer_stack.table(), None, views(list@)),
        views(list@) == selected(config_layer_stack.table(), None),
{
    let mut list: Vec<ConfiguredGitMarketplace> = Vec::new();
    let ghost table = config_layer_stack.table();
    if let Some(MarketplacesSection::Table(marketplaces)) = &config_layer_stack.user_layer {
        let entries = marketplaces.entries();
        let ghost rows = entry_views(entries@);
        proof {
            lemma_table_of(rows);
        }
        let mut i: usize = 0;
        while i < entries.len()
            invariant
                i <= entries@.len(),
                rows == entry_views(entries@),
                distinct_names(rows),
                in_name_order(views(list@)),
                forall|m: ConfiguredGitMarketplaceView| #[trigger]
                    views(list@).contains(m) <==> exists|k: int|
                        0 <= k < i && configured_from(#[trigger] rows[k].0, rows[k].1) == Some(m),
            decreases entries@.len() - i,
        {
            let ghost before = list@;
            let (name, config) = &entries[i];
            let ghost row = rows[i as int];
            assert(row == (name@, config@));
            match configured_git_marketplace_from_config(name.clone(), config.clone()) {
                Some(marketplace) => {
                    let ghost added = marketplace@;
                    proof {
                        assert forall|k: int| 0 <= k < list@.len() implies #[trigger] list@[k]@.name
                            != added.name by {
                            assert(views(list@)[k] == list@[k]@);
                            assert(views(list@).contains(list@[k]@));
                        }
                    }
                    insert_in_name_order(&mut list, marketplace);
                    proof {
                        assert forall|m: ConfiguredGitMarketplaceView| #[trigger]
                            views(list@).contains(m) <==> exists|k: int|
                                0 <= k < i + 1 && configured_from(#[trigger] rows[k].0, rows[k].1)
                                    == Some(m) by {
                            if views(list@).contains(m) {
                                if views(before).contains(m) {
                                    let k = choose|k: int|
                                        0 <= k < i && configured_from(
                                            #[trigger] rows[k].0,
                                            rows[k].1,
                                        ) == Some(m);
                                    assert(configured_from(rows[k].0, rows[k].1) == Some(m));
                                } else {
                                    assert(configured_from(rows[i as int].0, rows[i as int].1)
                                        == Some(m));
                                }
                            }
                        }
                    }
                },
                None => {
                    assert(configured_from(rows[i as int].0, rows[i as int].1) is None);
                },
            }
            i += 1;
        }
        proof {
            assert(table == table_of(rows));
            assert forall|m: ConfiguredGitMarketplaceView| #[trigger]
                views(list@).contains(m) <==> configures(table, m) && wanted(None, m) by {
                if views(list@).contains(m) {
                    let k = choose|k: int|
                        0 <= k < i && configured_from(#[trigger] rows[k].0, rows[k].1) == Some(m);
                    assert(table_of(rows).contains_key(rows[k].0));
                }
                if configures(table, m) {
                    let k = choose|k: int| 0 <= k < rows.len() && #[trigger] rows[k].0 == m.name;
                    assert(table_of(rows).contains_key(rows[k].0));
                    assert(configured_from(rows[k].0, rows[k].1) == Some(m));
                }
            }
        }
    } else {
        assert(table =~= Map::empty());
    }
    proof {
        lemma_selected_is(table, None, views(list@));
    }
    list
}

/// The names of the Git marketplaces that the configuration describes, in order.
pub fn configured_git_marketplace_names(config_layer_stack: &ConfigLayerStack) -> (names: Vec<
    String,
>)
    ensures
        texts(names@) == selected_names(config_layer_stack.table(), None),
        forall|i: int, j: int|
            0 <= i < j < names@.len() ==> text_precedes(
                #[trigger] names@[i]@,
                #[trigger] names@[j]@,
            ),
        forall|name: Text| #[trigger]
            texts(names@).contains(name) <==> config_layer_stack.table().contains_key(name)
                && configured_from(name, config_layer_stack.table()[name]) is Some,
{
    let list = configured_git_marketplaces(config_layer_stack);
    let ghost table = config_layer_stack.table();
    let names = names_of(&list);
    proof {
        let held = views(list@);
        assert(texts(names@).len() == names@.len());
        assert forall|i: int, j: int| 0 <= i < j < names@.len() implies text_precedes(
            #[trigger] names@[i]@,
            #[trigger] names@[j]@,
        ) by {
            assert(texts(names@)[i] == held[i].name);
            assert(texts(names@)[j] == held[j].name);
        }
        assert forall|name: Text| #[trigger] texts(names@).contains(name) <==> table.contains_key(
            name,
        ) && configured_from(name, table[name]) is Some by {
            if texts(names@).contains(name) {
                let i = choose|i: int| 0 <= i < texts(names@).len() && texts(names@)[i] == name;
                assert(held[i].name == name);
                assert(held.contains(held[i]));
            }
            if table.contains_key(name) && configured_from(name, table[name]) is Some {
                let m = configured_from(name, table[name])->0;
                assert(configures(table, m));
                assert(held.contains(m));
                let i = choose|i: int| 0 <= i < held.len() && held[i] == m;
                assert(texts(names@)[i] == name);
            }
        }
    }
    names
}

/// The names of marketplaces.
pub open spec fn view_names(list: Seq<ConfiguredGitMarketplaceView>) -> Seq<Text> {
    list.map_values(|marketplace: ConfiguredGitMarketplaceView| marketplace.name)
}

/// The names of the Git marketplaces of `table` that are asked for.
pub open spec fn selected_names(table: Map<Text, MarketplaceConfigView>, name: Option<Text>) -> Seq<
    Text,
> {
    view_names(selected(table, name))
}

/// The names of the marketplaces of a list.
pub(crate) fn names_of(list: &Vec<ConfiguredGitMarketplace>) -> (names: Vec<String>)
    ensures
        texts(names@) == view_names(views(list@)),
{
    let mut names: Vec<String> = Vec::new();
    let mut i: usize = 0;
    while i < list.len()
        invariant
            i <= list@.len(),
            names@.len() == i,
            forall|j: int| 0 <= j < i ==> names@[j]@ == list@[j].name@,
        decreases list@.len() - i,
    {
        names.push(list[i].name.clone());
        i += 1;
    }
    assert(texts(names@) =~= view_names(views(list@)));
    names
}

/// The Git marketplaces to upgrade: all that are configured, or the one called `marketplace_name`.
pub fn selected_git_marketplaces(
    config_layer_stack: &ConfigLayerStack,
    marketplace_name: Option<&str>,
) -> (list: Vec<ConfiguredGitMarketplace>)
    ensures
        lists_selected(config_layer_stack.table(), option_str(marketplace_name), views(list@)),
        views(list@) == selected(config_layer_stack.table(), option_str(marketplace_name)),
{
    let all = configured_git_marketplaces(config_layer_stack);
    let ghost table = config_layer_stack.table();
    let ghost held = views(all@);
    let name = match marketplace_name {
        Some(name) => name,
        None => {
            return all;
        },
    };
    let mut list: Vec<ConfiguredGitMarketplace> = Vec::new();
    let mut i: usize = 0;
    while i < all.len()
        invariant
            i <= all@.len(),
            held == views(all@),
            in_name_order(held),
            list@.len() <= 1,
            forall|k: int| 0 <= k < list@.len() ==> #[trigger] list@[k]@.name == name@,
            forall|m: ConfiguredGitMarketplaceView| #[trigger]
                views(list@).contains(m) <==> m.name == name@ && exists|k: int|
                    0 <= k < i && #[trigger] held[k] == m,
        decreases all@.len() - i,
    {
        let ghost before = views(list@);
        if same_text(&all[i].name, name) {
            proof {
                assert(held[i as int] == all@[i as int]@);
                if list@.len() == 1 {
                    assert(before.contains(before[0]));
                    let k = choose|k: int| 0 <= k < i && #[trigger] held[k] == before[0];
                    lemma_order_is_strict(held, k, i as int);
                }
            }
            list.push(all[i].clone());
            proof {
                assert(views(list@) =~= before.push(held[i as int]));
                assert(views(list@)[0] == held[i as int]);
                assert forall|m: ConfiguredGitMarketplaceView| #[trigger]
                    views(list@).contains(m) <==> m.name == name@ && exists|k: int|
                        0 <= k < i + 1 && #[trigger] held[k] == m by {
                    if m.name == name@ && exists|k: int| 0 <= k < i + 1 && #[trigger] held[k] == m {
                        let k = choose|k: int| 0 <= k < i + 1 && #[trigger] held[k] == m;
                        lemma_order_is_strict(held, k, i as int);
                    }
                }
            }
        } else {
            assert(held[i as int].name != name@);
        }
        i += 1;
    }
    proof {
        let found = views(list@);
        assert forall|m: ConfiguredGitMarketplaceView| #[trigger]
            found.contains(m) <==> configures(table, m) && wanted(Some(name@), m) by {
            if found.contains(m) {
                let k = choose|k: int| 0 <= k < i && #[trigger] held[k] == m;
                assert(held.contains(m));
            }
            if configures(table, m) && m.name == name@ {
                assert(held.contains(m));
                let k = choose|k: int| 0 <= k < held.len() && held[k] == m;
                assert(held[k] == m);
            }
        }
        lemma_selected_is(table, Some(name@), found);
    }
    list
}

/// Leaving out marketplaces keeps the order of the others.
proof fn lemma_filter_keeps_order(
    list: Seq<ConfiguredGitMarketplaceView>,
    keep: spec_fn(ConfiguredGitMarketplaceView) -> bool,
)
    requires
        in_name_order(list),
    ensures
        in_name_order(list.filter(keep)),
    decreases list.len(),
{
    reveal(Seq::filter);
    if list.len() > 0 {
        let shorter = list.drop_last();
        let kept = shorter.filter(keep);
        lemma_filter_keeps_order(shorter, keep);
        assert forall|i: int| 0 <= i < kept.len() implies text_precedes(
            #[trigger] kept[i].name,
            list.last().name,
        ) by {
            assert(kept.contains(kept[i]));
            shorter.lemma_filter_contains_rev(keep, kept[i]);
            let k = choose|k: int| 0 <= k < shorter.len() && shorter[k] == kept[i];
            assert(list[k] == kept[i]);
            assert(text_precedes(list[k].name, list[list.len() - 1].name));
        }
    }
}

/// To ask for a marketplace by name is to keep, of all that are configured, those with that name.
pub proof fn law_asking_by_name_filters_the_list(
    table: Map<Text, MarketplaceConfigView>,
    name: Text,
    all: Seq<ConfiguredGitMarketplaceView>,
    named: Seq<ConfiguredGitMarketplaceView>,
)
    requires
        lists_selected(table, None, all),
        lists_selected(table, Some(name), named),
    ensures
        named == all.filter(|m: ConfiguredGitMarketplaceView| m.name == name),
{
    broadcast use vstd::seq_lib::group_filter_ensures;

    let keep = |m: ConfiguredGitMarketplaceView| m.name == name;
    let kept = all.filter(keep);
    lemma_filter_keeps_order(all, keep);
    assert forall|m: ConfiguredGitMarketplaceView| #[trigger]
        named.contains(m) <==> kept.contains(m) by {
        if kept.contains(m) {
            all.lemma_filter_contains_rev(keep, m);
            let k = choose|k: int| 0 <= k < kept.len() && kept[k] == m;
            assert(keep(kept[k]));
        }
        if named.contains(m) {
            assert(all.contains(m));
            let k = choose|k: int| 0 <= k < all.len() && all[k] == m;
            assert(keep(all[k]));
            assert(kept.contains(all[k]));
        }
    }
    law_order_fixes_the_list(named, kept);
}

/// A name asks for at most one marketplace: the one that the configuration describes under it, if
/// it describes one.
pub proof fn law_a_name_asks_for_one_marketplace(
    table: Map<Text, MarketplaceConfigView>,
    name: Text,
    list: Seq<ConfiguredGitMarketplaceView>,
)
    requires
        lists_selected(table, Some(name), list),
    ensures
        table.contains_key(name) && configured_from(name, table[name]) is Some ==> list == seq![
            configured_from(name, table[name])->0,
        ],
        !(table.contains_key(name) && configured_from(name, table[name]) is Some) ==> list.len()
            == 0,
{
    if list.len() > 0 {
        assert(list.contains(list[0]));
    }
    if list.len() > 1 {
        assert(list.contains(list[1]));
        lemma_order_is_strict(list, 0, 1);
    }
    if table.contains_key(name) && configured_from(name, table[name]) is Some {
        let m = configured_from(name, table[name])->0;
        assert(configures(table, m));
        assert(list.contains(m));
        assert(list =~= seq![m]);
    }
}

/// What is read of a marketplace is what it holds, field by field, and marketplaces are equal
/// exactly when all of that is.
pub proof fn law_marketplace_is_read_in_full(
    marketplace: ConfiguredGitMarketplace,
    other: ConfiguredGitMarketplace,
)
    ensures
        marketplace@.name == marketplace.name@,
        marketplace@.source == marketplace.source@,
        marketplace@.ref_name == option_text(marketplace.ref_name),
        marketplace@.sparse_paths == texts(marketplace.sparse_paths@),
        marketplace@.last_revision == option_text(marketplace.last_revision),
        marketplace.eq_spec(&other) <==> {
            &&& marketplace.name@ == other.name@
            &&& marketplace.source@ == other.source@
            &&& option_text(marketplace.ref_name) == option_text(other.ref_name)
            &&& texts(marketplace.sparse_paths@) == texts(other.sparse_paths@)
            &&& option_text(marketplace.last_revision) == option_text(other.last_revision)
        },
{
}

/// Marketplaces of a list are read one by one, and so are their names.
pub proof fn law_lists_are_read_in_full(list: Seq<ConfiguredGitMarketplace>)
    ensures
        views(list).len() == list.len(),
        view_names(views(list)).len() == list.len(),
        forall|i: int| 0 <= i < list.len() ==> #[trigger] views(list)[i] == list[i]@,
        forall|i: int|
            0 <= i < list.len() ==> #[trigger] view_names(views(list))[i] == list[i].name@,
{
}

/// A marketplace that may be missing is read where it is there.
pub proof fn law_missing_marketplaces_are_read_as_missing(
    marketplace: Option<ConfiguredGitMarketplace>,
)
    ensures
        marketplace is None <==> option_view(marketplace) is None,
        marketplace matches Some(held) ==> option_view(marketplace) == Some(held@),
{
}

/// Of what the configuration of a name says, only whether it says `git` and gives a source decides
/// whether it describes a Git marketplace. That marketplace has the name, the source, the ref, the
/// last revision and the sparse paths of the configuration; no sparse paths where none are given.
pub proof fn law_type_and_source_make_a_git_marketplace(name: Text, config: MarketplaceConfigView)
    ensures
        configured_from(name, config) is Some <==> config.source_type == Some(
            MarketplaceSourceType::Git,
        ) && config.source is Some,
        configured_from(name, config) matches Some(marketplace) ==> {
            &&& marketplace.name == name
            &&& config.source == Some(marketplace.source)
            &&& marketplace.ref_name == config.ref_name
            &&& marketplace.last_revision == config.last_revision
            &&& config.sparse_paths matches Some(paths) ==> marketplace.sparse_paths == paths
            &&& config.sparse_paths is None ==> marketplace.sparse_paths.len() == 0
        },
        config.is_git_without_source() ==> configured_from(name, config) is None,
{
}

/// Two configurations of the same type and source both describe a Git marketplace or both do not,
/// whatever else they say.
pub proof fn law_nothing_else_decides_what_is_listed(
    name: Text,
    one: MarketplaceConfigView,
    other: MarketplaceConfigView,
)
    requires
        one.source_type == other.source_type,
        one.source == other.source,
    ensures
        configured_from(name, one) is Some <==> configured_from(name, other) is Some,
{
}

/// A marketplace is listed exactly when the table holds its name, says `git` of it and gives its
/// source, its ref, its last revision and its sparse paths, and when no other name was asked for.
pub proof fn law_listed_as_configured(
    table: Map<Text, MarketplaceConfigView>,
    name: Option<Text>,
    list: Seq<ConfiguredGitMarketplaceView>,
    marketplace: ConfiguredGitMarketplaceView,
)
    requires
        lists_selected(table, name, list),
    ensures
        list.contains(marketplace) <==> {
            let config = table[marketplace.name];
            &&& table.contains_key(marketplace.name)
            &&& config.source_type == Some(MarketplaceSourceType::Git)
            &&& config.source == Some(marketplace.source)
            &&& config.ref_name == marketplace.ref_name
            &&& config.last_revision == marketplace.last_revision
            &&& config.sparse_paths == Some(marketplace.sparse_paths) || (config.sparse_paths
                is None && marketplace.sparse_paths.len() == 0)
            &&& name is None || name == Some(marketplace.name)
        },
{
    assert(list.contains(marketplace) <==> configures(table, marketplace) && wanted(
        name,
        marketplace,
    ));
    if marketplace.sparse_paths.len() == 0 {
        assert(marketplace.sparse_paths =~= Seq::<Text>::empty());
    }
}

/// Names are listed in ascending order and none of them twice: exactly those under which the table
/// says `git` and gives a source, whatever else it says, unless another name was asked for.
pub proof fn law_names_listed_in_order(
    table: Map<Text, MarketplaceConfigView>,
    asked: Option<Text>,
    list: Seq<ConfiguredGitMarketplaceView>,
    name: Text,
)
    requires
        lists_selected(table, asked, list),
    ensures
        ({
            let names = selected_names(table, asked);
            &&& selected(table, asked) == list
            &&& names.len() == list.len()
            &&& forall|i: int| 0 <= i < list.len() ==> #[trigger] names[i] == list[i].name
            &&& forall|i: int, j: int|
                0 <= i < j < names.len() ==> text_precedes(#[trigger] names[i], #[trigger] names[j])
                    && names[i] != names[j]
            &&& names.contains(name) <==> {
                &&& table.contains_key(name)
                &&& table[name].source_type == Some(MarketplaceSourceType::Git)
                &&& table[name].source is Some
                &&& asked is None || asked == Some(name)
            }
        }),
{
    lemma_selected_is(table, asked, list);
    let names = selected_names(table, asked);
    assert forall|i: int, j: int| 0 <= i < j < names.len() implies text_precedes(
        #[trigger] names[i],
        #[trigger] names[j],
    ) && names[i] != names[j] by {
        assert(text_precedes(list[i].name, list[j].name));
        law_text_order_is_strict_and_total(names[i], names[j], names[i]);
    }
    if names.contains(name) {
        let i = choose|i: int| 0 <= i < names.len() && names[i] == name;
        assert(list.contains(list[i]));
        law_listed_as_configured(table, asked, list, list[i]);
    }
    if table.contains_key(name) && table[name].source_type == Some(MarketplaceSourceType::Git)
        && table[name].source is Some && (asked is None || asked == Some(name)) {
        let marketplace = configured_from(name, table[name])->0;
        law_listed_as_configured(table, asked, list, marketplace);
        let i = choose|i: int| 0 <= i < list.len() && list[i] == marketplace;
        assert(names[i] == name);
    }
}

} // verus!
