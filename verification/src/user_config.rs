//! The user's configuration file, read once more while an upgrade is in flight.

use crate::config::{MarketplaceConfigView, MarketplaceSourceType, MarketplacesSection};
use crate::configured::{
    configured_from, configured_git_marketplace_from_config, configures,
    law_type_and_source_make_a_git_marketplace, lists_selected, option_view,
    ConfiguredGitMarketplace, ConfiguredGitMarketplaceView,
};
use crate::messages::{
    changed_in_flight, changed_in_flight_message, config_unparsable, config_unparsable_message,
    config_unreadable, config_unreadable_message, invalid_section, invalid_section_message,
    removed_in_flight, removed_in_flight_message,
};
use crate::text::{error_text, Text};
use vstd::prelude::*;
use vstd::string::*;

verus! {

/// A TOML value, as the `toml` crate holds it. The library looks into it only through
/// [`toml_entries`].
#[verifier::external_type_specification]
#[verifier::external_body]
pub struct ExTomlValue(toml::Value);

/// What `toml::from_str` makes of a text: the document, or what its error displays as.
pub uninterp spec fn toml_document(text: Seq<char>) -> Result<toml::Value, Seq<char>>;

/// The keys of a TOML table and what each of them holds. A value that is no table has none.
pub uninterp spec fn toml_entries(value: toml::Value) -> Map<Seq<char>, toml::Value>;

/// Calls `toml::from_str` for a `toml::Value`. Its result depends on the text alone, and so does
/// what its error displays as: [`toml_document`] names both.
#[verifier::external_body]
fn parse_toml(text: &str) -> (parsed: Result<toml::Value, String>)
    ensures
        error_text(parsed) == toml_document(text@),
{
    toml::from_str(text).map_err(|err: toml::de::Error| err.to_string())
}

/// Calls `toml::Value::get` with a string: what the table holds under that key, and nothing where
/// the key is missing or the value is no table.
#[verifier::external_body]
fn toml_entry<'a>(value: &'a toml::Value, key: &str) -> (entry: Option<&'a toml::Value>)
    ensures
        match entry {
            Some(found) => toml_entries(*value).contains_key(key@) && *found == toml_entries(
                *value,
            )[key@],
            None => !toml_entries(*value).contains_key(key@),
        },
{
    value.get(key)
}

/// How reading the configuration file went.
pub enum ConfigRead {
    /// The file holds this text.
    Text(String),
    /// There is no such file.
    NotFound,
    /// It could not be read. This is why.
    Failed(String),
}

/// The configuration that the file at `path` holds, given what `toml` made of its text.
pub open spec fn parsed_document(path: Text, parsed: Result<toml::Value, Text>) -> Result<
    Option<toml::Value>,
    Text,
> {
    match parsed {
        Ok(document) => Ok(Some(document)),
        Err(err) => Err(config_unparsable_message(path, err)),
    }
}

/// The configuration that the file at `config_path` holds, given what `toml` made of its text.
pub fn parsed_user_config(config_path: &str, parsed: Result<toml::Value, String>) -> (r: Result<
    Option<toml::Value>,
    String,
>)
    ensures
        error_text(r) == parsed_document(config_path@, error_text(parsed)),
{
    match parsed {
        Ok(document) => Ok(Some(document)),
        Err(err) => Err(config_unparsable(config_path, &err)),
    }
}

/// The configuration that the file at `config_path` holds. A missing file holds none; one that
/// cannot be read, or is not TOML, is an error.
pub fn read_user_config(config_path: &str, read: ConfigRead) -> (r: Result<
    Option<toml::Value>,
    String,
>)
    ensures
        error_text(r) == match read {
            ConfigRead::Text(raw) => parsed_document(config_path@, toml_document(raw@)),
            ConfigRead::NotFound => Ok(None),
            ConfigRead::Failed(err) => Err(config_unreadable_message(config_path@, err@)),
        },
{
    match read {
        ConfigRead::Text(raw) => parsed_user_config(config_path, parse_toml(&raw)),
        ConfigRead::NotFound => Ok(None),
        ConfigRead::Failed(err) => Err(config_unreadable(config_path, &err)),
    }
}

/// What a configuration holds under `marketplaces`.
pub fn marketplaces_value<'a>(config: &'a toml::Value) -> (value: Option<&'a toml::Value>)
    ensures
        value is Some <==> toml_entries(*config).contains_key("marketplaces"@),
        value matches Some(found) ==> *found == toml_entries(*config)["marketplaces"@],
{
    toml_entry(config, "marketplaces")
}

/// The Git marketplace called `name` that `table` describes, if it describes one.
pub open spec fn configured_in(table: Map<Text, MarketplaceConfigView>, name: Text) -> Option<
    ConfiguredGitMarketplaceView,
> {
    if table.contains_key(name) {
        configured_from(name, table[name])
    } else {
        None
    }
}

/// The Git marketplace called `name` that the user's configuration describes now, if it describes
/// one; an error where the configuration cannot be read.
pub open spec fn configured_now(
    user_config: Result<Option<MarketplacesSection>, String>,
    name: Text,
) -> Result<Option<ConfiguredGitMarketplaceView>, Text> {
    match user_config {
        Err(err) => Err(err@),
        Ok(None) => Ok(None),
        Ok(Some(MarketplacesSection::Absent)) => Ok(None),
        Ok(Some(MarketplacesSection::Invalid(err))) => Err(invalid_section_message(err@)),
        Ok(Some(MarketplacesSection::Table(table))) => Ok(configured_in(table@, name)),
    }
}

/// A marketplace that may be missing, or an error, as texts.
pub open spec fn current_view(
    current: Result<Option<ConfiguredGitMarketplace>, String>,
) -> Result<Option<ConfiguredGitMarketplaceView>, Text> {
    match current {
        Ok(marketplace) => Ok(option_view(marketplace)),
        Err(err) => Err(err@),
    }
}

/// The Git marketplace called `marketplace_name` that the user's configuration describes now.
pub fn read_configured_git_marketplace(
    user_config: Result<Option<MarketplacesSection>, String>,
    marketplace_name: &str,
) -> (current: Result<Option<ConfiguredGitMarketplace>, String>)
    ensures
        current_view(current) == configured_now(user_config, marketplace_name@),
{
    match user_config {
        Err(err) => Err(err),
        Ok(None) => Ok(None),
        Ok(Some(MarketplacesSection::Absent)) => Ok(None),
        Ok(Some(MarketplacesSection::Invalid(err))) => Err(invalid_section(&err)),
        Ok(Some(MarketplacesSection::Table(table))) => {
            let mut marketplaces = table;
            match marketplaces.remove(marketplace_name) {
                Some(marketplace) => Ok(
                    configured_git_marketplace_from_config(
                        marketplace_name.to_owned(),
                        marketplace,
                    ),
                ),
                None => Ok(None),
            }
        },
    }
}

/// Whether an upgrade of `expected` may go on, given what the configuration says of it now: only
/// if it says the same.
pub open spec fn unchanged(
    current: Result<Option<ConfiguredGitMarketplaceView>, Text>,
    expected: ConfiguredGitMarketplaceView,
) -> Result<(), Text> {
    match current {
        Err(err) => Err(err),
        Ok(None) => Err(removed_in_flight_message(expected.name)),
        Ok(Some(marketplace)) => if marketplace == expected {
            Ok(())
        } else {
            Err(changed_in_flight_message(expected.name))
        },
    }
}

/// Lets an upgrade of `expected` go on only if the configuration still says the same of it.
pub fn ensure_configured_git_marketplace_unchanged(
    current: Result<Option<ConfiguredGitMarketplace>, String>,
    expected: &ConfiguredGitMarketplace,
) -> (r: Result<(), String>)
    ensures
        error_text(r) == unchanged(current_view(current), expected@),
        r is Ok <==> current_view(current) == Ok::<
            Option<ConfiguredGitMarketplaceView>,
            Text,
        >(Some(expected@)),
{
    match current {
        Err(err) => Err(err),
        Ok(Some(current)) => if current == *expected {
            Ok(())
        } else {
            Err(changed_in_flight(&expected.name))
        },
        Ok(None) => Err(removed_in_flight(&expected.name)),
    }
}

/// Reading one marketplace agrees with listing all of them: a marketplace is what is read under
/// its name exactly when the list holds it.
pub proof fn law_reading_agrees_with_listing(
    table: Map<Text, MarketplaceConfigView>,
    list: Seq<ConfiguredGitMarketplaceView>,
    marketplace: ConfiguredGitMarketplaceView,
)
    requires
        lists_selected(table, None, list),
    ensures
        list.contains(marketplace) <==> configured_in(table, marketplace.name) == Some(marketplace),
{
    assert(list.contains(marketplace) <==> configures(table, marketplace));
}

/// A marketplace that was selected for upgrade passes the check for changes as long as the
/// configuration stays as it was.
pub proof fn law_unchanged_config_lets_upgrades_go_on(
    table: Map<Text, MarketplaceConfigView>,
    name: Option<Text>,
    list: Seq<ConfiguredGitMarketplaceView>,
    marketplace: ConfiguredGitMarketplaceView,
)
    requires
        lists_selected(table, name, list),
        list.contains(marketplace),
    ensures
        unchanged(Ok(configured_in(table, marketplace.name)), marketplace) is Ok,
{
    assert(configures(table, marketplace));
}

/// What is read under a name from a configuration that holds a table is the marketplace that the
/// list of all Git marketplaces of that table has under that name, and nothing where it has none.
pub proof fn law_reading_finds_what_is_listed(
    user_config: Result<Option<MarketplacesSection>, String>,
    table: Map<Text, MarketplaceConfigView>,
    list: Seq<ConfiguredGitMarketplaceView>,
    name: Text,
    marketplace: ConfiguredGitMarketplaceView,
)
    requires
        user_config matches Ok(Some(MarketplacesSection::Table(held))) && held@ == table,
        lists_selected(table, None, list),
    ensures
        configured_now(user_config, name) == Ok::<Option<ConfiguredGitMarketplaceView>, Text>(
            Some(marketplace),
        ) <==> list.contains(marketplace) && marketplace.name == name,
        configured_now(user_config, name) == Ok::<Option<ConfiguredGitMarketplaceView>, Text>(None)
            <==> forall|m: ConfiguredGitMarketplaceView| #[trigger]
            list.contains(m) ==> m.name != name,
{
    assert forall|m: ConfiguredGitMarketplaceView| #[trigger]
        list.contains(m) <==> configured_in(table, m.name) == Some(m) by {
        law_reading_agrees_with_listing(table, list, m);
    }
    law_reading_agrees_with_listing(table, list, marketplace);
    if table.contains_key(name) {
        law_type_and_source_make_a_git_marketplace(name, table[name]);
    }
    if let Some(found) = configured_in(table, name) {
        assert(list.contains(found));
    }
}

/// What is read under a name from a configuration that holds a table is a Git marketplace with that
/// name exactly when the table says `git` of it and gives its source; it then says of its source,
/// ref, sparse paths and last revision what the table says.
pub proof fn law_reading_tells_what_the_table_says(
    user_config: Result<Option<MarketplacesSection>, String>,
    table: Map<Text, MarketplaceConfigView>,
    name: Text,
)
    requires
        user_config matches Ok(Some(MarketplacesSection::Table(held))) && held@ == table,
    ensures
        match configured_now(user_config, name) {
            Ok(Some(marketplace)) => {
                &&& table.contains_key(name)
                &&& table[name].source_type == Some(MarketplaceSourceType::Git)
                &&& table[name].source == Some(marketplace.source)
                &&& marketplace.name == name
                &&& marketplace.ref_name == table[name].ref_name
                &&& marketplace.last_revision == table[name].last_revision
                &&& table[name].sparse_paths == Some(marketplace.sparse_paths) || (
                table[name].sparse_paths is None && marketplace.sparse_paths.len() == 0)
            },
            Ok(None) => !table.contains_key(name) || table[name].source_type != Some(
                MarketplaceSourceType::Git,
            ) || table[name].source is None,
            Err(_) => false,
        },
{
}

/// Reading fails exactly when the file or its `marketplaces` key cannot be read, and tells why.
/// Nothing is found where there is no file or no such key.
pub proof fn law_reading_tells_what_cannot_be_read(
    user_config: Result<Option<MarketplacesSection>, String>,
    name: Text,
)
    ensures
        user_config matches Err(err) ==> configured_now(user_config, name) == Err::<
            Option<ConfiguredGitMarketplaceView>,
            Text,
        >(err@),
        user_config matches Ok(Some(MarketplacesSection::Invalid(err))) ==> configured_now(
            user_config,
            name,
        ) == Err::<Option<ConfiguredGitMarketplaceView>, Text>(
            "invalid marketplaces config while checking auto-upgrade: "@ + err@,
        ),
        (user_config == Ok::<Option<MarketplacesSection>, String>(None) || user_config == Ok::<
            Option<MarketplacesSection>,
            String,
        >(Some(MarketplacesSection::Absent))) ==> configured_now(user_config, name) == Ok::<
            Option<ConfiguredGitMarketplaceView>,
            Text,
        >(None),
{
}

/// As long as the configuration holds the table from which a marketplace was selected, reading that
/// marketplace again finds it, and its upgrade may be recorded.
pub proof fn law_selected_marketplaces_are_read_again(
    user_config: Result<Option<MarketplacesSection>, String>,
    table: Map<Text, MarketplaceConfigView>,
    name: Option<Text>,
    list: Seq<ConfiguredGitMarketplaceView>,
    marketplace: ConfiguredGitMarketplaceView,
)
    requires
        user_config matches Ok(Some(MarketplacesSection::Table(held))) && held@ == table,
        lists_selected(table, name, list),
        list.contains(marketplace),
    ensures
        configured_now(user_config, marketplace.name) == Ok::<
            Option<ConfiguredGitMarketplaceView>,
            Text,
        >(Some(marketplace)),
        unchanged(configured_now(user_config, marketplace.name), marketplace) is Ok,
{
    law_unchanged_config_lets_upgrades_go_on(table, name, list, marketplace);
    assert(configures(table, marketplace));
}

/// An upgrade may go on exactly when what is read now equals what was read before, field by field.
/// Otherwise it is told whether reading failed, the marketplace is gone, or it is another one.
pub proof fn law_any_change_stops_an_upgrade(
    current: Result<Option<ConfiguredGitMarketplaceView>, Text>,
    expected: ConfiguredGitMarketplaceView,
)
    ensures
        unchanged(current, expected) is Ok <==> (current matches Ok(Some(now)) && {
            &&& now.name == expected.name
            &&& now.source == expected.source
            &&& now.ref_name == expected.ref_name
            &&& now.sparse_paths == expected.sparse_paths
            &&& now.last_revision == expected.last_revision
        }),
        current matches Err(err) ==> unchanged(current, expected) == Err::<(), Text>(err),
        current matches Ok(None) ==> unchanged(current, expected) == Err::<(), Text>(
            "configured marketplace `"@ + expected.name
                + "` was removed or is no longer a Git marketplace"@,
        ),
        current matches Ok(Some(now)) ==> now != expected ==> unchanged(current, expected) == Err::<
            (),
            Text,
        >(
            "configured marketplace `"@ + expected.name
                + "` changed while auto-upgrade was in flight"@,
        ),
{
}

/// What is read of a marketplace that may be missing, or of an error, is what it holds.
pub proof fn law_current_marketplace_is_read_in_full(
    current: Result<Option<ConfiguredGitMarketplace>, String>,
)
    ensures
        current matches Err(err) ==> current_view(current) == Err::<
            Option<ConfiguredGitMarketplaceView>,
            Text,
        >(err@),
        current matches Ok(None) ==> current_view(current) == Ok::<
            Option<ConfiguredGitMarketplaceView>,
            Text,
        >(None),
        current matches Ok(Some(marketplace)) ==> current_view(current) == Ok::<
            Option<ConfiguredGitMarketplaceView>,
            Text,
        >(Some(marketplace@)),
{
}

/// A document is handed on as it is, and what is wrong with one is told with the path of its file.
pub proof fn law_parsed_documents_are_handed_on(path: Text, parsed: Result<toml::Value, Text>)
    ensures
        parsed matches Ok(document) ==> parsed_document(path, parsed) == Ok::<
            Option<toml::Value>,
            Text,
        >(Some(document)),
        parsed matches Err(err) ==> parsed_document(path, parsed) == Err::<
            Option<toml::Value>,
            Text,
        >(
            "failed to parse user config "@ + path
                + " while checking marketplace auto-upgrade: "@ + err,
        ),
{
}

} // verus!
