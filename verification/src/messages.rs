//! What an upgrade that fails says.
//!
//! Each message comes as a spec function over texts, named `.._message`, and as the function that
//! writes it.

use crate::text::Text;
use vstd::prelude::*;
use vstd::string::*;

verus! {

/// The staging directory could not be created.
pub open spec fn staging_parent_failed_message(path: Text, err: Text) -> Text {
    "failed to create marketplace upgrade staging directory "@ + path + ": "@ + err
}

/// Writes [`staging_parent_failed_message`].
pub fn staging_parent_failed(path: &str, err: &str) -> (message: String)
    ensures
        message@ == staging_parent_failed_message(path@, err@),
{
    "failed to create marketplace upgrade staging directory ".to_owned()
        .concat(path)
        .concat(": ")
        .concat(err)
}

/// No temporary directory could be created in the staging directory.
pub open spec fn staged_dir_failed_message(path: Text, err: Text) -> Text {
    "failed to create temporary marketplace upgrade directory in "@ + path + ": "@ + err
}

/// Writes [`staged_dir_failed_message`].
pub fn staged_dir_failed(path: &str, err: &str) -> (message: String)
    ensures
        message@ == staged_dir_failed_message(path@, err@),
{
    "failed to create temporary marketplace upgrade directory in ".to_owned()
        .concat(path)
        .concat(": ")
        .concat(err)
}

/// The freshly cloned tree is not a marketplace.
pub open spec fn invalid_root_message(err: Text) -> Text {
    "failed to validate upgraded marketplace root: "@ + err
}

/// Writes [`invalid_root_message`].
pub fn invalid_root(err: &str) -> (message: String)
    ensures
        message@ == invalid_root_message(err@),
{
    "failed to validate upgraded marketplace root: ".to_owned().concat(err)
}

/// The freshly cloned marketplace calls itself something else.
pub open spec fn name_mismatch_message(found: Text, configured: Text) -> Text {
    "upgraded marketplace name `"@ + found + "` does not match configured marketplace `"@
        + configured + "`"@
}

/// Writes [`name_mismatch_message`].
pub fn name_mismatch(found: &str, configured: &str) -> (message: String)
    ensures
        message@ == name_mismatch_message(found@, configured@),
{
    "upgraded marketplace name `".to_owned()
        .concat(found)
        .concat("` does not match configured marketplace `")
        .concat(configured)
        .concat("`")
}

/// The upgrade could not be written to the user's configuration.
pub open spec fn record_failed_message(name: Text, err: Text) -> Text {
    "failed to record upgraded marketplace `"@ + name + "` in user config.toml: "@ + err
}

/// Writes [`record_failed_message`].
pub fn record_failed(name: &str, err: &str) -> (message: String)
    ensures
        message@ == record_failed_message(name@, err@),
{
    "failed to record upgraded marketplace `".to_owned()
        .concat(name)
        .concat("` in user config.toml: ")
        .concat(err)
}

/// The upgraded marketplace does not lie at an absolute path.
pub open spec fn not_absolute_message(err: Text) -> Text {
    "upgraded marketplace path is not absolute: "@ + err
}

/// Writes [`not_absolute_message`].
pub fn not_absolute(err: &str) -> (message: String)
    ensures
        message@ == not_absolute_message(err@),
{
    "upgraded marketplace path is not absolute: ".to_owned().concat(err)
}

/// The configuration of the marketplace changed during its upgrade.
pub open spec fn changed_in_flight_message(name: Text) -> Text {
    "configured marketplace `"@ + name + "` changed while auto-upgrade was in flight"@
}

/// Writes [`changed_in_flight_message`].
pub fn changed_in_flight(name: &str) -> (message: String)
    ensures
        message@ == changed_in_flight_message(name@),
{
    "configured marketplace `".to_owned()
        .concat(name)
        .concat("` changed while auto-upgrade was in flight")
}

/// The marketplace left the configuration during its upgrade.
pub open spec fn removed_in_flight_message(name: Text) -> Text {
    "configured marketplace `"@ + name + "` was removed or is no longer a Git marketplace"@
}

/// Writes [`removed_in_flight_message`].
pub fn removed_in_flight(name: &str) -> (message: String)
    ensures
        message@ == removed_in_flight_message(name@),
{
    "configured marketplace `".to_owned()
        .concat(name)
        .concat("` was removed or is no longer a Git marketplace")
}

/// The user's configuration could not be read.
pub open spec fn config_unreadable_message(path: Text, err: Text) -> Text {
    "failed to read user config "@ + path + " while checking marketplace auto-upgrade: "@ + err
}

/// Writes [`config_unreadable_message`].
pub fn config_unreadable(path: &str, err: &str) -> (message: String)
    ensures
        message@ == config_unreadable_message(path@, err@),
{
    "failed to read user config ".to_owned()
        .concat(path)
        .concat(" while checking marketplace auto-upgrade: ")
        .concat(err)
}

/// The user's configuration is not TOML.
pub open spec fn config_unparsable_message(path: Text, err: Text) -> Text {
    "failed to parse user config "@ + path + " while checking marketplace auto-upgrade: "@ + err
}

/// Writes [`config_unparsable_message`].
pub fn config_unparsable(path: &str, err: &str) -> (message: String)
    ensures
        message@ == config_unparsable_message(path@, err@),
{
    "failed to parse user config ".to_owned()
        .concat(path)
        .concat(" while checking marketplace auto-upgrade: ")
        .concat(err)
}

/// The `marketplaces` table of the user's configuration cannot be decoded.
pub open spec fn invalid_section_message(err: Text) -> Text {
    "invalid marketplaces config while checking auto-upgrade: "@ + err
}

/// Writes [`invalid_section_message`].
pub fn invalid_section(err: &str) -> (message: String)
    ensures
        message@ == invalid_section_message(err@),
{
    "invalid marketplaces config while checking auto-upgrade: ".to_owned().concat(err)
}

/// A staging directory that could not be created is told with its path and what went wrong.
pub proof fn law_staging_parent_failure_is_told_in_full(path: Text, err: Text)
    ensures
        ({
            let message = staging_parent_failed_message(path, err);
            let opening = "failed to create marketplace upgrade staging directory "@;
            let middle = ": "@;
            let second = opening.len() as int;
            let third = (second + path.len()) as int;
            let fourth = (third + middle.len()) as int;
            &&& message.len() == fourth + err.len()
            &&& message.subrange(0, second) == opening
            &&& message.subrange(second, third) == path
            &&& message.subrange(third, fourth) == middle
            &&& message.skip(fourth) == err
        }),
{
}

/// A temporary directory that could not be created is told with the path of the directory that was
/// to hold it and what went wrong.
pub proof fn law_staged_dir_failure_is_told_in_full(path: Text, err: Text)
    ensures
        ({
            let message = staged_dir_failed_message(path, err);
            let opening = "failed to create temporary marketplace upgrade directory in "@;
            let middle = ": "@;
            let second = opening.len() as int;
            let third = (second + path.len()) as int;
            let fourth = (third + middle.len()) as int;
            &&& message.len() == fourth + err.len()
            &&& message.subrange(0, second) == opening
            &&& message.subrange(second, third) == path
            &&& message.subrange(third, fourth) == middle
            &&& message.skip(fourth) == err
        }),
{
}

/// What is wrong with a clone is told in full.
pub proof fn law_invalid_root_is_told_in_full(err: Text)
    ensures
        ({
            let message = invalid_root_message(err);
            let opening = "failed to validate upgraded marketplace root: "@;
            let second = opening.len() as int;
            &&& message.len() == second + err.len()
            &&& message.subrange(0, second) == opening
            &&& message.skip(second) == err
        }),
{
}

/// A clone with another name is told with that name and the configured one.
pub proof fn law_name_mismatch_is_told_in_full(found: Text, configured: Text)
    ensures
        ({
            let message = name_mismatch_message(found, configured);
            let opening = "upgraded marketplace name `"@;
            let middle = "` does not match configured marketplace `"@;
            let closing = "`"@;
            let second = opening.len() as int;
            let third = (second + found.len()) as int;
            let fourth = (third + middle.len()) as int;
            let fifth = (fourth + configured.len()) as int;
            &&& message.len() == fifth + closing.len()
            &&& message.subrange(0, second) == opening
            &&& message.subrange(second, third) == found
            &&& message.subrange(third, fourth) == middle
            &&& message.subrange(fourth, fifth) == configured
            &&& message.skip(fifth) == closing
        }),
{
}

/// A record that could not be written is told with the name of the marketplace and what went wrong.
pub proof fn law_failed_record_is_told_in_full(name: Text, err: Text)
    ensures
        ({
            let message = record_failed_message(name, err);
            let opening = "failed to record upgraded marketplace `"@;
            let middle = "` in user config.toml: "@;
            let second = opening.len() as int;
            let third = (second + name.len()) as int;
            let fourth = (third + middle.len()) as int;
            &&& message.len() == fourth + err.len()
            &&& message.subrange(0, second) == opening
            &&& message.subrange(second, third) == name
            &&& message.subrange(third, fourth) == middle
            &&& message.skip(fourth) == err
        }),
{
}

/// What is wrong with the path of a marketplace is told in full.
pub proof fn law_relative_path_is_told_in_full(err: Text)
    ensures
        ({
            let message = not_absolute_message(err);
            let opening = "upgraded marketplace path is not absolute: "@;
            let second = opening.len() as int;
            &&& message.len() == second + err.len()
            &&& message.subrange(0, second) == opening
            &&& message.skip(second) == err
        }),
{
}

/// A change during an upgrade is told with the name of the marketplace.
pub proof fn law_change_in_flight_is_told_in_full(name: Text)
    ensures
        ({
            let message = changed_in_flight_message(name);
            let opening = "configured marketplace `"@;
            let middle = "` changed while auto-upgrade was in flight"@;
            let second = opening.len() as int;
            let third = (second + name.len()) as int;
            &&& message.len() == third + middle.len()
            &&& message.subrange(0, second) == opening
            &&& message.subrange(second, third) == name
            &&& message.skip(third) == middle
        }),
{
}

/// A removal during an upgrade is told with the name of the marketplace.
pub proof fn law_removal_in_flight_is_told_in_full(name: Text)
    ensures
        ({
            let message = removed_in_flight_message(name);
            let opening = "configured marketplace `"@;
            let middle = "` was removed or is no longer a Git marketplace"@;
            let second = opening.len() as int;
            let third = (second + name.len()) as int;
            &&& message.len() == third + middle.len()
            &&& message.subrange(0, second) == opening
            &&& message.subrange(second, third) == name
            &&& message.skip(third) == middle
        }),
{
}

/// A configuration that cannot be read is told with its path and what went wrong.
pub proof fn law_unreadable_config_is_told_in_full(path: Text, err: Text)
    ensures
        ({
            let message = config_unreadable_message(path, err);
            let opening = "failed to read user config "@;
            let middle = " while checking marketplace auto-upgrade: "@;
            let second = opening.len() as int;
            let third = (second + path.len()) as int;
            let fourth = (third + middle.len()) as int;
            &&& message.len() == fourth + err.len()
            &&& message.subrange(0, second) == opening
            &&& message.subrange(second, third) == path
            &&& message.subrange(third, fourth) == middle
            &&& message.skip(fourth) == err
        }),
{
}

/// A configuration that is not TOML is told with its path and what is wrong with it.
pub proof fn law_unparsable_config_is_told_in_full(path: Text, err: Text)
    ensures
        ({
            let message = config_unparsable_message(path, err);
            let opening = "failed to parse user config "@;
            let middle = " while checking marketplace auto-upgrade: "@;
            let second = opening.len() as int;
            let third = (second + path.len()) as int;
            let fourth = (third + middle.len()) as int;
            &&& message.len() == fourth + err.len()
            &&& message.subrange(0, second) == opening
            &&& message.subrange(second, third) == path
            &&& message.subrange(third, fourth) == middle
            &&& message.skip(fourth) == err
        }),
{
}

/// What is wrong with the `marketplaces` key of the configuration is told in full.
pub proof fn law_invalid_section_is_told_in_full(err: Text)
    ensures
        ({
            let message = invalid_section_message(err);
            let opening = "invalid marketplaces config while checking auto-upgrade: "@;
            let second = opening.len() as int;
            &&& message.len() == second + err.len()
            &&& message.subrange(0, second) == opening
            &&& message.skip(second) == err
        }),
{
}

} // verus!
