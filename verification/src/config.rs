//! The part of the user's configuration that speaks of marketplaces.

use crate::text::{copy_option, copy_texts, option_text, texts, Text};
use vstd::prelude::*;
use vstd::string::*;

verus! {

/// How a marketplace was installed.
#[derive(Debug, Clone, Copy, PartialEq, Eq, Structural)]
pub enum MarketplaceSourceType {
    /// Cloned from a Git repository.
    Git,
    /// In any other way.
    Other,
}

/// What the configuration says of one marketplace.
pub struct MarketplaceConfig {
    pub last_updated: Option<String>,
    pub last_revision: Option<String>,
    pub source_type: Option<MarketplaceSourceType>,
    pub source: Option<String>,
    pub ref_name: Option<String>,
    pub sparse_paths: Option<Vec<String>>,
}

/// The texts of a [`MarketplaceConfig`].
pub struct MarketplaceConfigView {
    pub last_updated: Option<Text>,
    pub last_revision: Option<Text>,
    pub source_type: Option<MarketplaceSourceType>,
    pub source: Option<Text>,
    pub ref_name: Option<Text>,
    pub sparse_paths: Option<Seq<Text>>,
}

impl View for MarketplaceConfig {
    type V = MarketplaceConfigView;

    open spec fn view(&self) -> MarketplaceConfigView {
        MarketplaceConfigView {
            last_updated: option_text(self.last_updated),
            last_revision: option_text(self.last_revision),
            source_type: self.source_type,
            source: option_text(self.source),
            ref_name: option_text(self.ref_name),
            sparse_paths: match self.sparse_paths {
                Some(paths) => Some(texts(paths@)),
                None => None,
            },
        }
    }
}

impl MarketplaceConfigView {
    /// It says that the marketplace comes from Git, but not from where.
    pub open spec fn is_git_without_source(self) -> bool {
        self.source_type == Some(MarketplaceSourceType::Git) && self.source is None
    }
}

impl MarketplaceConfig {
    /// Whether this says that the marketplace comes from Git, but not from where. Such a
    /// marketplace is passed over, which its user may want to know.
    pub fn is_git_without_source(&self) -> (is: bool)
        ensures
            is == self@.is_git_without_source(),
    {
        match (&self.source_type, &self.source) {
            (Some(MarketplaceSourceType::Git), None) => true,
            _ => false,
        }
    }
}

impl Clone for MarketplaceConfig {
    fn clone(&self) -> (copy: Self)
        ensures
            copy@ == self@,
    {
        MarketplaceConfig {
            last_updated: copy_option(&self.last_updated),
            last_revision: copy_option(&self.last_revision),
            source_type: self.source_type,
            source: copy_option(&self.source),
            ref_name: copy_option(&self.ref_name),
            sparse_paths: match &self.sparse_paths {
                Some(paths) => Some(copy_texts(paths)),
                None => None,
            },
        }
    }
}

/// The map that a list of entries with different names stands for.
pub open spec fn table_of(entries: Seq<(Text, MarketplaceConfigView)>) -> Map<
    Text,
    MarketplaceConfigView,
>
    decreases entries.len(),
{
    if entries.len() == 0 {
        Map::empty()
    } else {
        table_of(entries.drop_last()).insert(entries.last().0, entries.last().1)
    }
}

/// No two entries have the same name.
pub open spec fn distinct_names(entries: Seq<(Text, MarketplaceConfigView)>) -> bool {
    forall|i: int, j: int|
        0 <= i < entries.len() && 0 <= j < entries.len() && i != j ==> #[trigger] entries[i].0
            != #[trigger] entries[j].0
}

/// The entries, as texts.
pub open spec fn entry_views(entries: Seq<(String, MarketplaceConfig)>) -> Seq<
    (Text, MarketplaceConfigView),
> {
    entries.map_values(|entry: (String, MarketplaceConfig)| (entry.0@, entry.1@))
}

/// A map holds a name exactly when an entry has it, and then what that entry says.
pub(crate) proof fn lemma_table_of(entries: Seq<(Text, MarketplaceConfigView)>)
    requires
        distinct_names(entries),
    ensures
        forall|i: int|
            0 <= i < entries.len() ==> #[trigger] table_of(entries).contains_key(entries[i].0)
                && table_of(entries)[entries[i].0] == entries[i].1,
        forall|name: Text| #[trigger]
            table_of(entries).contains_key(name) ==> exists|i: int|
                0 <= i < entries.len() && #[trigger] entries[i].0 == name,
    decreases entries.len(),
{
    if entries.len() > 0 {
        let shorter = entries.drop_last();
        lemma_table_of(shorter);
        assert forall|i: int| 0 <= i < entries.len() implies #[trigger] table_of(
            entries,
        ).contains_key(entries[i].0) && table_of(entries)[entries[i].0] == entries[i].1 by {
            if i < entries.len() - 1 {
                assert(shorter[i] == entries[i]);
                assert(table_of(shorter).contains_key(shorter[i].0));
            }
        }
        assert forall|name: Text| #[trigger] table_of(entries).contains_key(name) implies exists|
            i: int,
        | 0 <= i < entries.len() && #[trigger] entries[i].0 == name by {
            if name == entries.last().0 {
                assert(entries[entries.len() - 1].0 == name);
            } else {
                assert(table_of(shorter).contains_key(name));
                let i = choose|i: int| 0 <= i < shorter.len() && #[trigger] shorter[i].0 == name;
                assert(entries[i].0 == name);
            }
        }
    }
}

/// A list of entries stands for `table` when each entry is in it and each of its names is listed.
proof fn lemma_same_table(
    entries: Seq<(Text, MarketplaceConfigView)>,
    table: Map<Text, MarketplaceConfigView>,
)
    requires
        distinct_names(entries),
        forall|i: int|
            0 <= i < entries.len() ==> table.contains_key(#[trigger] entries[i].0)
                && table[entries[i].0] == entries[i].1,
        forall|name: Text| #[trigger]
            table.contains_key(name) ==> exists|i: int|
                0 <= i < entries.len() && #[trigger] entries[i].0 == name,
    ensures
        table_of(entries) == table,
{
    lemma_table_of(entries);
    assert forall|name: Text| #[trigger]
        table_of(entries).contains_key(name) implies table.contains_key(name) && table[name]
        == table_of(entries)[name] by {
        let i = choose|i: int| 0 <= i < entries.len() && #[trigger] entries[i].0 == name;
        assert(table_of(entries).contains_key(entries[i].0));
    }
    assert forall|name: Text| #[trigger] table.contains_key(name) implies table_of(
        entries,
    ).contains_key(name) by {
        let i = choose|i: int| 0 <= i < entries.len() && #[trigger] entries[i].0 == name;
        assert(table_of(entries).contains_key(entries[i].0));
    }
    assert(table_of(entries) =~= table);
}

/// Replacing an entry by one of the same name changes what the table says of that name.
proof fn lemma_table_update(
    entries: Seq<(Text, MarketplaceConfigView)>,
    i: int,
    config: MarketplaceConfigView,
)
    requires
        distinct_names(entries),
        0 <= i < entries.len(),
    ensures
        distinct_names(entries.update(i, (entries[i].0, config))),
        table_of(entries.update(i, (entries[i].0, config))) == table_of(entries).insert(
            entries[i].0,
            config,
        ),
{
    let after = entries.update(i, (entries[i].0, config));
    let table = table_of(entries).insert(entries[i].0, config);
    lemma_table_of(entries);
    assert(forall|j: int| 0 <= j < entries.len() ==> #[trigger] after[j].0 == entries[j].0);
    assert forall|j: int| 0 <= j < after.len() implies table.contains_key(#[trigger] after[j].0)
        && table[after[j].0] == after[j].1 by {
        assert(table_of(entries).contains_key(entries[j].0));
    }
    assert forall|name: Text| #[trigger] table.contains_key(name) implies exists|j: int|
        0 <= j < after.len() && #[trigger] after[j].0 == name by {
        assert(table_of(entries).contains_key(entries[i].0));
        assert(table_of(entries).contains_key(name));
        let j = choose|j: int| 0 <= j < entries.len() && #[trigger] entries[j].0 == name;
        assert(after[j].0 == name);
    }
    lemma_same_table(after, table);
}

/// Taking out an entry takes its name out of the table.
proof fn lemma_table_remove(entries: Seq<(Text, MarketplaceConfigView)>, i: int)
    requires
        distinct_names(entries),
        0 <= i < entries.len(),
    ensures
        distinct_names(entries.remove(i)),
        table_of(entries.remove(i)) == table_of(entries).remove(entries[i].0),
{
    let after = entries.remove(i);
    let table = table_of(entries).remove(entries[i].0);
    lemma_table_of(entries);
    assert(forall|j: int|
        0 <= j < after.len() ==> #[trigger] after[j] == entries[if j < i {
            j
        } else {
            j + 1
        }]);
    assert forall|j: int| 0 <= j < after.len() implies table.contains_key(#[trigger] after[j].0)
        && table[after[j].0] == after[j].1 by {
        let k = if j < i {
            j
        } else {
            j + 1
        };
        assert(after[j] == entries[k]);
        assert(table_of(entries).contains_key(entries[k].0));
    }
    assert forall|name: Text| #[trigger] table.contains_key(name) implies exists|j: int|
        0 <= j < after.len() && #[trigger] after[j].0 == name by {
        assert(table_of(entries).contains_key(name));
        let k = choose|k: int| 0 <= k < entries.len() && #[trigger] entries[k].0 == name;
        let j = if k < i {
            k
        } else {
            k - 1
        };
        assert(after[j].0 == name);
    }
    lemma_same_table(after, table);
}

/// The `marketplaces` table: what the configuration says of each marketplace, by name.
pub struct MarketplaceTable {
    entries: Vec<(String, MarketplaceConfig)>,
}

impl View for MarketplaceTable {
    type V = Map<Text, MarketplaceConfigView>;

    closed spec fn view(&self) -> Map<Text, MarketplaceConfigView> {
        table_of(entry_views(self.entries@))
    }
}

impl MarketplaceTable {
    #[verifier::type_invariant]
    spec fn names_are_distinct(self) -> bool {
        distinct_names(entry_views(self.entries@))
    }

    /// A table that says nothing.
    pub fn new() -> (table: MarketplaceTable)
        ensures
            table@ == Map::<Text, MarketplaceConfigView>::empty(),
    {
        MarketplaceTable { entries: Vec::new() }
    }

    /// The place of `name` among the entries.
    fn position(&self, name: &String) -> (place: Option<usize>)
        ensures
            match place {
                Some(i) => i < self.entries@.len() && self.entries@[i as int].0@ == name@
                    && self@.contains_key(name@) && self@[name@] == self.entries@[i as int].1@,
                None => !self@.contains_key(name@),
            },
    {
        proof {
            use_type_invariant(self);
            lemma_table_of(entry_views(self.entries@));
        }
        let ghost views = entry_views(self.entries@);
        let mut i: usize = 0;
        while i < self.entries.len()
            invariant
                i <= self.entries@.len(),
                views == entry_views(self.entries@),
                forall|j: int| 0 <= j < i ==> #[trigger] views[j].0 != name@,
                forall|j: int|
                    0 <= j < views.len() ==> #[trigger] table_of(views).contains_key(views[j].0)
                        && table_of(views)[views[j].0] == views[j].1,
                self@ == table_of(views),
            decreases self.entries@.len() - i,
        {
            if self.entries[i].0 == *name {
                assert(views[i as int].0 == name@);
                assert(table_of(views).contains_key(views[i as int].0));
                return Some(i);
            }
            i += 1;
        }
        None
    }

    /// Sets what the table says of `name`.
    pub fn insert(&mut self, name: String, config: MarketplaceConfig)
        ensures
            final(self)@ == old(self)@.insert(name@, config@),
    {
        let place = self.position(&name);
        proof {
            use_type_invariant(&*self);
            lemma_table_of(entry_views(self.entries@));
        }
        let ghost before = entry_views(self.entries@);
        let ghost entry = (name@, config@);
        let mut entries: Vec<(String, MarketplaceConfig)> = Vec::new();
        std::mem::swap(&mut entries, &mut self.entries);
        match place {
            Some(i) => {
                entries.set(i, (name, config));
                proof {
                    let after = entry_views(entries@);
                    assert(before[i as int].0 == entry.0);
                    assert(after =~= before.update(i as int, entry));
                    lemma_table_update(before, i as int, entry.1);
                }
            },
            None => {
                entries.push((name, config));
                proof {
                    let after = entry_views(entries@);
                    assert(after =~= before.push(entry));
                    assert(after.drop_last() =~= before);
                    assert forall|i: int| 0 <= i < before.len() implies #[trigger] before[i].0
                        != entry.0 by {
                        assert(table_of(before).contains_key(before[i].0));
                    }
                }
            },
        }
        self.entries = entries;
    }

    /// Takes out what the table says of `name`, if it says anything.
    pub fn remove(&mut self, name: &str) -> (config: Option<MarketplaceConfig>)
        ensures
            final(self)@ == old(self)@.remove(name@),
            match config {
                Some(config) => old(self)@.contains_key(name@) && config@ == old(self)@[name@],
                None => !old(self)@.contains_key(name@),
            },
    {
        let place = self.position(&name.to_owned());
        proof {
            use_type_invariant(&*self);
            lemma_table_of(entry_views(self.entries@));
        }
        let ghost before = entry_views(self.entries@);
        match place {
            Some(i) => {
                let mut entries: Vec<(String, MarketplaceConfig)> = Vec::new();
                std::mem::swap(&mut entries, &mut self.entries);
                let (_, config) = entries.remove(i);
                proof {
                    let after = entry_views(entries@);
                    assert(before[i as int].0 == name@);
                    assert(after =~= before.remove(i as int));
                    lemma_table_remove(before, i as int);
                }
                self.entries = entries;
                Some(config)
            },
            None => {
                assert(self@.remove(name@) =~= self@);
                None
            },
        }
    }

    /// What the table says, one entry for each name, in no order that matters.
    pub fn entries(&self) -> (entries: &Vec<(String, MarketplaceConfig)>)
        ensures
            distinct_names(entry_views(entries@)),
            table_of(entry_views(entries@)) == self@,
            forall|i: int, j: int|
                0 <= i < j < entries@.len() ==> #[trigger] entries@[i].0@
                    != #[trigger] entries@[j].0@,
    {
        proof {
            use_type_invariant(self);
            let held = entry_views(self.entries@);
            assert(forall|i: int|
                0 <= i < held.len() ==> #[trigger] self.entries@[i].0@ == held[i].0);
        }
        &self.entries
    }
}

/// The `marketplaces` key of a configuration file.
pub enum MarketplacesSection {
    /// The file does not have it.
    Absent,
    /// It does not hold marketplaces. This is what is wrong with it.
    Invalid(String),
    /// It holds marketplaces.
    Table(MarketplaceTable),
}

impl MarketplacesSection {
    /// What the section says of marketplaces: nothing, unless it holds a table.
    pub open spec fn table(self) -> Map<Text, MarketplaceConfigView> {
        match self {
            MarketplacesSection::Table(table) => table@,
            _ => Map::empty(),
        }
    }
}

/// The layers of the configuration, as far as marketplaces depend on them.
pub struct ConfigLayerStack {
    /// The `marketplaces` key of the user's layer, where there is such a layer.
    pub user_layer: Option<MarketplacesSection>,
}

impl ConfigLayerStack {
    /// What the layers say of marketplaces. Only the user's layer counts.
    pub open spec fn table(self) -> Map<Text, MarketplaceConfigView> {
        match self.user_layer {
            Some(section) => section.table(),
            None => Map::empty(),
        }
    }
}

/// What an upgrade records of a marketplace in the user's configuration.
pub struct MarketplaceConfigUpdate {
    pub last_updated: String,
    pub last_revision: Option<String>,
    pub source_type: String,
    pub source: String,
    pub ref_name: Option<String>,
    pub sparse_paths: Vec<String>,
}

/// The texts of a [`MarketplaceConfigUpdate`].
pub struct MarketplaceConfigUpdateView {
    pub last_updated: Text,
    pub last_revision: Option<Text>,
    pub source_type: Text,
    pub source: Text,
    pub ref_name: Option<Text>,
    pub sparse_paths: Seq<Text>,
}

impl View for MarketplaceConfigUpdate {
    type V = MarketplaceConfigUpdateView;

    open spec fn view(&self) -> MarketplaceConfigUpdateView {
        MarketplaceConfigUpdateView {
            last_updated: self.last_updated@,
            last_revision: option_text(self.last_revision),
            source_type: self.source_type@,
            source: self.source@,
            ref_name: option_text(self.ref_name),
            sparse_paths: texts(self.sparse_paths@),
        }
    }
}

impl Clone for MarketplaceConfigUpdate {
    fn clone(&self) -> (copy: Self)
        ensures
            copy@ == self@,
    {
        MarketplaceConfigUpdate {
            last_updated: self.last_updated.clone(),
            last_revision: copy_option(&self.last_revision),
            source_type: self.source_type.clone(),
            source: self.source.clone(),
            ref_name: copy_option(&self.ref_name),
            sparse_paths: copy_texts(&self.sparse_paths),
        }
    }
}

/// What is read of the configuration of a marketplace is what it says, field by field.
pub proof fn law_configuration_is_read_in_full(config: MarketplaceConfig)
    ensures
        config@.last_updated == option_text(config.last_updated),
        config@.last_revision == option_text(config.last_revision),
        config@.source_type == config.source_type,
        config@.source == option_text(config.source),
        config@.ref_name == option_text(config.ref_name),
        config.sparse_paths is None <==> config@.sparse_paths is None,
        config.sparse_paths matches Some(paths) ==> config@.sparse_paths == Some(texts(paths@)),
{
}

/// What is read of an update is what it says, field by field.
pub proof fn law_update_is_read_in_full(update: MarketplaceConfigUpdate)
    ensures
        update@.last_updated == update.last_updated@,
        update@.last_revision == option_text(update.last_revision),
        update@.source_type == update.source_type@,
        update@.source == update.source@,
        update@.ref_name == option_text(update.ref_name),
        update@.sparse_paths == texts(update.sparse_paths@),
{
}

/// Only a configuration that says Git and gives no source is one of Git without a source; nothing
/// else that it says matters.
pub proof fn law_source_decides_what_is_without_source(config: MarketplaceConfigView)
    ensures
        config.is_git_without_source() <==> {
            &&& config.source_type == Some(MarketplaceSourceType::Git)
            &&& config.source is None
        },
{
}

/// A table says of a name what the entry of that name says, and nothing where no entry has it.
pub proof fn law_table_says_what_its_entries_say(
    entries: Seq<(Text, MarketplaceConfigView)>,
    name: Text,
    config: MarketplaceConfigView,
)
    requires
        forall|i: int, j: int|
            0 <= i < j < entries.len() ==> #[trigger] entries[i].0 != #[trigger] entries[j].0,
    ensures
        table_of(entries).contains_key(name) && table_of(entries)[name] == config
            <==> entries.contains((name, config)),
        table_of(entries).contains_key(name) <==> exists|i: int|
            0 <= i < entries.len() && #[trigger] entries[i].0 == name,
{
    lemma_table_of(entries);
    if table_of(entries).contains_key(name) {
        let i = choose|i: int| 0 <= i < entries.len() && #[trigger] entries[i].0 == name;
        assert(table_of(entries).contains_key(entries[i].0));
        if table_of(entries)[name] == config {
            assert(entries[i] == (name, config));
        }
    }
    if exists|i: int| 0 <= i < entries.len() && #[trigger] entries[i].0 == name {
        let i = choose|i: int| 0 <= i < entries.len() && #[trigger] entries[i].0 == name;
        assert(table_of(entries).contains_key(entries[i].0));
    }
    if entries.contains((name, config)) {
        let i = choose|i: int| 0 <= i < entries.len() && entries[i] == (name, config);
        assert(table_of(entries).contains_key(entries[i].0));
    }
}

/// The entries of a list are read one by one, name and configuration.
pub proof fn law_entries_are_read_in_full(entries: Seq<(String, MarketplaceConfig)>)
    ensures
        entry_views(entries).len() == entries.len(),
        forall|i: int|
            0 <= i < entries.len() ==> #[trigger] entry_views(entries)[i] == (
                entries[i].0@,
                entries[i].1@,
            ),
{
}

/// The layers say of marketplaces what the table of the user's layer says. Where that layer, its
/// `marketplaces` key or a table under it is missing, they say nothing.
pub proof fn law_only_the_user_layer_speaks(layers: ConfigLayerStack, name: Text)
    ensures
        layers.user_layer matches Some(MarketplacesSection::Table(table)) ==> layers.table()
            == table@,
        !(layers.user_layer matches Some(MarketplacesSection::Table(_)))
            ==> !layers.table().contains_key(name),
{
}

} // verus!
