# marketplace_upgrade

Decides how the Git marketplaces of a user's configuration are brought up to date: which of them
are due, what has to be done in which order, what is recorded, what goes wrong and how it is told,
and which left-over directories may be removed.

`src/` holds these decisions, verified with Verus. It touches neither the disk nor Git nor the
clock: a run (`run.rs`), the upgrade of one marketplace (`upgrade.rs`) and its record (`record.rs`)
ask for one action at a time and take its result. `upgrade_laws.rs` and the proof functions named `law_..` in the other
modules state what holds of all of them.

`app/` performs the actions. What it needs from the application around it, such as Git commands and
the decoding of the configuration, is the trait `Host`.

Three calls into other crates are trusted: `toml::from_str` and `toml::Value::get` in
`user_config.rs`, and `chrono::DateTime::to_rfc3339_opts` in `timestamp.rs`.
