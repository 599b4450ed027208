//! The configuration: which script, if any, a set and an id name for an
//! executable, with the `default` executable as a fallback.

use vstd::prelude::*;

use crate::paths::{is_absolute, join_path, joined_path, macro_prefix, macro_prefix_spec};
use crate::text::same_text;
use crate::toml_model::{
    clone_table, parse_toml, table_contains_key, table_get, toml_document, toml_entries,
    toml_item, value_as_array, value_as_bool, value_as_str, value_as_table, TomlItem,
};

verus! {

/// The name under which the configuration holds what applies to every
/// executable.
pub open spec fn default_name() -> Seq<char> {
    "default"@
}

/// A script as an entry of the configuration names it: the script as
/// written, its arguments, its `toggle` flag, and whether a `toggle` is
/// there that is not a boolean (it then counts as false).
pub struct Command {
    pub script: Seq<char>,
    pub args: Seq<Seq<char>>,
    pub toggle: bool,
    pub toggle_unreadable: bool,
}

/// What looking up one executable, set and id in the configuration finds.
pub enum Lookup {
    /// An entry whose `script` names a script.
    Found(Command),
    /// No usable entry.
    Missing,
    /// No entry for the id, and the set says `default_fallback = false`.
    FallbackRefused,
}

/// An entry's `toggle`: true only where it is the boolean `true`; missing or
/// of another type, it counts as false.
pub open spec fn entry_toggle(entry: Map<Seq<char>, TomlItem>) -> bool {
    entry.contains_key("toggle"@) && entry["toggle"@] == TomlItem::Flag(true)
}

/// Whether an entry has a `toggle` that is not a boolean.
pub open spec fn entry_toggle_unreadable(entry: Map<Seq<char>, TomlItem>) -> bool {
    entry.contains_key("toggle"@) && !(entry["toggle"@] is Flag)
}

/// Every item is a string.
pub open spec fn all_texts(items: Seq<TomlItem>) -> bool {
    forall|i: int| 0 <= i < items.len() ==> #[trigger] items[i] is Text
}

/// The strings of a list of string items.
pub open spec fn texts(items: Seq<TomlItem>) -> Seq<Seq<char>> {
    items.map_values(|item: TomlItem| item->Text_0)
}

/// The script and the arguments that an entry's `script` names: a string
/// names a script run without arguments; a non-empty array of strings names
/// the script, then its arguments.
pub open spec fn command_of(item: TomlItem) -> Option<(Seq<char>, Seq<Seq<char>>)> {
    match item {
        TomlItem::Text(script) => Some((script, Seq::empty())),
        TomlItem::List(items) => if items.len() > 0 && all_texts(items) {
            Some((items[0]->Text_0, texts(items.skip(1))))
        } else {
            None
        },
        _ => None,
    }
}

/// Looks up an id in the table of one set.
pub open spec fn lookup_in_set(ids: Map<Seq<char>, TomlItem>, id: Seq<char>) -> Lookup {
    if !ids.contains_key(id) {
        if ids.contains_key("default_fallback"@) && ids["default_fallback"@] == TomlItem::Flag(
            false,
        ) {
            Lookup::FallbackRefused
        } else {
            Lookup::Missing
        }
    } else {
        match ids[id] {
            TomlItem::Table(entry) => lookup_entry(entry),
            _ => Lookup::Missing,
        }
    }
}

/// Looks up `config[executable][set][id]`.
pub open spec fn lookup(
    config: Map<Seq<char>, TomlItem>,
    set: Seq<char>,
    id: Seq<char>,
    executable: Seq<char>,
) -> Lookup {
    if !config.contains_key(executable) {
        Lookup::Missing
    } else {
        match config[executable] {
            TomlItem::Table(sets) => {
                if !sets.contains_key(set) {
                    Lookup::Missing
                } else {
                    match sets[set] {
                        TomlItem::Table(ids) => lookup_in_set(ids, id),
                        _ => Lookup::Missing,
                    }
                }
            },
            _ => Lookup::Missing,
        }
    }
}

/// The macro that the configuration names for an executable, a set and an
/// id: the executable whose entry applies, and the command of that entry.
/// The executable's own
/// entry comes first; where it has none, and neither is the executable
/// `default` nor does the set refuse the fallback, the entry of `default`
/// applies.
pub open spec fn resolve(
    config: Map<Seq<char>, TomlItem>,
    set: Seq<char>,
    id: Seq<char>,
    executable: Seq<char>,
) -> Option<(Seq<char>, Command)> {
    match lookup(config, set, id, executable) {
        Lookup::Found(command) => Some((executable, command)),
        Lookup::FallbackRefused => None,
        Lookup::Missing => {
            if executable == default_name() {
                None
            } else {
                match lookup(config, set, id, default_name()) {
                    Lookup::Found(command) => Some((default_name(), command)),
                    _ => None,
                }
            }
        },
    }
}

/// A script that the configuration names, with its path resolved.
pub struct ConfigResult {
    pub script_file: String,
    pub args: Vec<String>,
    pub toggle: bool,
    /// The entry has a `toggle` that is not a boolean; it counts as false.
    pub toggle_unreadable: bool,
}

/// A list of strings, as texts.
pub open spec fn strings_view(v: Seq<String>) -> Seq<Seq<char>> {
    v.map_values(|s: String| s@)
}

/// What `read_config` finds.
pub enum ConfigLookup {
    Found(ConfigResult),
    Missing,
    FallbackRefused,
}

/// Whether a lookup's result is the one that the model gives, with the
/// script's path adjoined to `data_home`.
pub open spec fn lookup_agrees(r: ConfigLookup, l: Lookup, data_home: Seq<char>) -> bool {
    match (r, l) {
        (ConfigLookup::Found(c), Lookup::Found(command)) => {
            &&& c.script_file@ == joined_path(data_home, command.script)
            &&& strings_view(c.args@) == command.args
            &&& c.toggle == command.toggle
            &&& c.toggle_unreadable == command.toggle_unreadable
        },
        (ConfigLookup::Missing, Lookup::Missing) => true,
        (ConfigLookup::FallbackRefused, Lookup::FallbackRefused) => true,
        _ => false,
    }
}

/// Looks up the script of an id's entry.
pub open spec fn lookup_entry(entry: Map<Seq<char>, TomlItem>) -> Lookup {
    if entry.contains_key("script"@) {
        match command_of(entry["script"@]) {
            Some((script, args)) => Lookup::Found(
                Command {
                    script,
                    args,
                    toggle: entry_toggle(entry),
                    toggle_unreadable: entry_toggle_unreadable(entry),
                },
            ),
            None => Lookup::Missing,
        }
    } else {
        Lookup::Missing
    }
}

fn read_command<'a>(value: &'a toml::Value) -> (r: Option<(&'a str, Vec<String>)>)
    ensures
        match command_of(toml_item(*value)) {
            Some((script, args)) => r matches Some((s, a)) && s@ == script && strings_view(a@)
                == args,
            None => r is None,
        },
{
    match value_as_str(value) {
        Some(script) => {
            let args: Vec<String> = Vec::new();
            assert(strings_view(args@) =~= Seq::<Seq<char>>::empty());
            return Some((script, args));
        },
        None => {},
    }
    let items = match value_as_array(value) {
        Some(items) => items,
        None => {
            return None;
        },
    };
    let ghost model = toml_item(*value)->List_0;
    if items.len() == 0 {
        return None;
    }
    let script = match value_as_str(&items[0]) {
        Some(s) => s,
        None => {
            return None;
        },
    };
    let mut args: Vec<String> = Vec::new();
    let n = items.len();
    let mut i: usize = 1;
    while i < n
        invariant
            1 <= i <= n,
            n == items@.len(),
            n == model.len(),
            toml_item(*value) == TomlItem::List(model),
            forall|j: int| 0 <= j < n ==> toml_item(#[trigger] items@[j]) == model[j],
            model[0] == TomlItem::Text(script@),
            forall|j: int| 0 <= j < i ==> #[trigger] model[j] is Text,
            strings_view(args@) == texts(model.subrange(1, i as int)),
        decreases n - i,
    {
        match value_as_str(&items[i]) {
            Some(arg) => {
                let ghost before = args@;
                args.push(arg.to_owned());
                assert(model[i as int] == TomlItem::Text(arg@));
                assert(strings_view(args@) =~= strings_view(before).push(arg@));
                assert(model.subrange(1, i + 1) =~= model.subrange(1, i as int).push(model[i as int]));
                assert(texts(model.subrange(1, i + 1)) =~= texts(model.subrange(1, i as int)).push(arg@));
            },
            None => {
                return None;
            },
        }
        i = i + 1;
    }
    assert(model.subrange(1, n as int) =~= model.skip(1));
    Some((script, args))
}

fn read_entry(entry: &toml::Table, data_home: &str) -> (r: ConfigLookup)
    ensures
        lookup_agrees(r, lookup_entry(toml_entries(*entry)), data_home@),
{
    match table_get(entry, "script") {
        Some(value) => {
            let (relative_script_path, args) = match read_command(value) {
                Some(command) => command,
                None => {
                    return ConfigLookup::Missing;
                },
            };
            let (toggle, toggle_unreadable) = match table_get(entry, "toggle") {
                Some(flag) => match value_as_bool(flag) {
                    Some(b) => (b, false),
                    None => (false, true),
                },
                None => (false, false),
            };
            ConfigLookup::Found(
                ConfigResult {
                    script_file: join_path(data_home, relative_script_path),
                    args,
                    toggle,
                    toggle_unreadable,
                },
            )
        },
        None => ConfigLookup::Missing,
    }
}

/// Reads `config_table[executable][set][id]`: its `script`, adjoined to
/// `data_home` (an absolute script path stands as it is), and its `toggle`.
/// Where the id is missing from the set and the set says
/// `default_fallback = false`, it says so, so that no fallback is tried.
pub fn read_config(
    config_table: &toml::Table,
    set: &str,
    id: &str,
    executable: &str,
    data_home: &str,
) -> (r: ConfigLookup)
    ensures
        lookup_agrees(r, lookup(toml_entries(*config_table), set@, id@, executable@), data_home@),
{
    if !table_contains_key(config_table, executable) {
        return ConfigLookup::Missing;
    }
    let executable_table = match table_get(config_table, executable) {
        Some(value) => match value_as_table(value) {
            Some(t) => t,
            None => {
                return ConfigLookup::Missing;
            },
        },
        None => {
            return ConfigLookup::Missing;
        },
    };
    if !table_contains_key(executable_table, set) {
        return ConfigLookup::Missing;
    }
    let set_table = match table_get(executable_table, set) {
        Some(value) => match value_as_table(value) {
            Some(t) => t,
            None => {
                return ConfigLookup::Missing;
            },
        },
        None => {
            return ConfigLookup::Missing;
        },
    };
    if !table_contains_key(set_table, id) && table_contains_key(set_table, "default_fallback") {
        return match table_get(set_table, "default_fallback") {
            Some(value) => match value_as_bool(value) {
                Some(false) => ConfigLookup::FallbackRefused,
                _ => ConfigLookup::Missing,
            },
            None => ConfigLookup::Missing,
        };
    }
    let set_id_table = match table_get(set_table, id) {
        Some(value) => match value_as_table(value) {
            Some(t) => t,
            None => {
                return ConfigLookup::Missing;
            },
        },
        None => {
            return ConfigLookup::Missing;
        },
    };
    read_entry(set_id_table, data_home)
}

/// Why a configuration could not be taken.
#[derive(PartialEq, Eq, Structural, Debug)]
pub enum ConfigError {
    /// The text is not a TOML document.
    Unparsable,
    /// The document's root is not a table.
    RootNotTable,
}

/// The configuration, and the directory that relative script paths start
/// from.
pub struct Manager {
    config_table: toml::Table,
    data_home: String,
}

/// A macro: the script to run and whether a second call stops it.
pub struct Macro {
    /// A second call stops the running script instead of starting another.
    pub toggle: bool,
    /// The script's path.
    pub script: String,
    /// The arguments that the script is started with.
    pub args: Vec<String>,
    /// The entry has a `toggle` that is not a boolean; it counts as false.
    pub toggle_unreadable: bool,
    /// The executable of the focused window: its process name where known,
    /// `default` otherwise.
    pub executable: String,
    /// The executable whose configuration entry applies: the window's own,
    /// or `default` after a fallback.
    pub entry: String,
    /// The prefix, below the user's base directories, of this macro's files.
    pub prefix: String,
}

/// The message of the error that `get_macro` gives where no macro applies.
pub open spec fn no_macro_message() -> Seq<char> {
    "No macro found for SET and ID."@
}

/// The message of the error that `confirm_script` gives where the script
/// file does not exist.
pub open spec fn missing_script_message() -> Seq<char> {
    "Can't find script file."@
}

impl Manager {
    /// The configuration's entries.
    pub closed spec fn config(&self) -> Map<Seq<char>, TomlItem> {
        toml_entries(self.config_table)
    }

    /// The directory that relative script paths start from.
    pub closed spec fn data_home(&self) -> Seq<char> {
        self.data_home@
    }

    /// Takes a parsed configuration document, whose root must be a table.
    pub fn from_document(document: &toml::Value, data_home: &str) -> (r: Result<
        Manager,
        ConfigError,
    >)
        ensures
            match toml_item(*document) {
                TomlItem::Table(entries) => r matches Ok(m) && m.config() == entries
                    && m.data_home() == data_home@,
                _ => r == Err::<Manager, ConfigError>(ConfigError::RootNotTable),
            },
    {
        match value_as_table(document) {
            Some(table) => Ok(Manager { config_table: clone_table(table), data_home: data_home.to_owned() }),
            None => Err(ConfigError::RootNotTable),
        }
    }

    /// Reads the configuration from the text of the configuration file.
    /// Relative script paths start from `data_home`.
    pub fn new(config_text: &str, data_home: &str) -> (r: Result<Manager, ConfigError>)
        ensures
            match toml_document(config_text@) {
                None => r == Err::<Manager, ConfigError>(ConfigError::Unparsable),
                Some(TomlItem::Table(entries)) => r matches Ok(m) && m.config() == entries
                    && m.data_home() == data_home@,
                Some(_) => r == Err::<Manager, ConfigError>(ConfigError::RootNotTable),
            },
    {
        match parse_toml(config_text) {
            Ok(document) => Manager::from_document(&document, data_home),
            Err(_) => Err(ConfigError::Unparsable),
        }
    }

    /// What the configuration holds for `set` and `id` under `executable`
    /// (see `read_config`), with scripts found below this manager's data
    /// directory.
    pub fn read_config(&self, set: &str, id: &str, executable: &str) -> (r: ConfigLookup)
        ensures
            lookup_agrees(r, lookup(self.config(), set@, id@, executable@), self.data_home()),
    {
        read_config(&self.config_table, set, id, executable, self.data_home.as_str())
    }

    /// The macro that the configuration names for `set` and `id` where the
    /// focused window belongs to `executable` (its process name, or
    /// `default` where unknown), falling back to the entry of `default` (see
    /// `resolve`). The macro's files live under the prefix of the entry that
    /// applies.
    pub fn get_macro(&self, set: String, id: String, executable: &str) -> (r: Result<Macro, String>)
        ensures
            match resolve(self.config(), set@, id@, executable@) {
                Some((used, command)) => r matches Ok(m) && m.toggle == command.toggle
                    && m.toggle_unreadable == command.toggle_unreadable && m.script@
                    == joined_path(self.data_home(), command.script) && strings_view(m.args@)
                    == command.args && m.executable@ == executable@ && m.entry@ == used
                    && m.prefix@ == macro_prefix_spec(used, set@, id@),
                None => r matches Err(message) && message@ == no_macro_message(),
            },
    {
        let found = read_config(&self.config_table, set.as_str(), id.as_str(), executable, self.data_home.as_str());
        let (used, result) = match found {
            ConfigLookup::Found(result) => (executable.to_owned(), result),
            ConfigLookup::FallbackRefused => {
                return Err("No macro found for SET and ID.".to_owned());
            },
            ConfigLookup::Missing => {
                if same_text(executable, "default") {
                    return Err("No macro found for SET and ID.".to_owned());
                }
                match read_config(&self.config_table, set.as_str(), id.as_str(), "default", self.data_home.as_str()) {
                    ConfigLookup::Found(result) => ("default".to_owned(), result),
                    _ => {
                        return Err("No macro found for SET and ID.".to_owned());
                    },
                }
            },
        };
        let prefix = macro_prefix(used.as_str(), set.as_str(), id.as_str());
        Ok(
            Macro {
                toggle: result.toggle,
                script: result.script_file,
                args: result.args,
                toggle_unreadable: result.toggle_unreadable,
                executable: executable.to_owned(),
                entry: used,
                prefix,
            },
        )
    }
}

/// Law: where the executable's own entry names a script, that entry
/// applies, whatever `default` holds.
pub proof fn lemma_own_entry_first(
    config: Map<Seq<char>, TomlItem>,
    set: Seq<char>,
    id: Seq<char>,
    executable: Seq<char>,
)
    requires
        lookup(config, set, id, executable) is Found,
    ensures
        resolve(config, set, id, executable) == Some(
            (executable, lookup(config, set, id, executable)->Found_0),
        ),
{
}

/// Law: where the executable has no usable entry for the set and id (and the
/// set does not refuse the fallback), the macro is the one of `default`.
pub proof fn lemma_fallback_to_default(
    config: Map<Seq<char>, TomlItem>,
    set: Seq<char>,
    id: Seq<char>,
    executable: Seq<char>,
)
    requires
        lookup(config, set, id, executable) == Lookup::Missing,
    ensures
        resolve(config, set, id, executable) == resolve(config, set, id, default_name()),
{
}

/// Law: a set that says `default_fallback = false` and has no entry for the
/// id names no macro, whatever `default` holds.
pub proof fn lemma_refused_fallback(
    config: Map<Seq<char>, TomlItem>,
    set: Seq<char>,
    id: Seq<char>,
    executable: Seq<char>,
)
    requires
        config.contains_key(executable),
        config[executable] matches TomlItem::Table(sets) && sets.contains_key(set) && (
        sets[set] matches TomlItem::Table(ids) && !ids.contains_key(id) && ids.contains_key(
            "default_fallback"@,
        ) && ids["default_fallback"@] == TomlItem::Flag(false)),
    ensures
        resolve(config, set, id, executable) is None,
{
}

/// Law: the entry that applies is the window's executable's own or that of
/// `default`, and after a fallback it is that of `default`.
pub proof fn lemma_applied_entry(
    config: Map<Seq<char>, TomlItem>,
    set: Seq<char>,
    id: Seq<char>,
    executable: Seq<char>,
)
    requires
        resolve(config, set, id, executable) is Some,
    ensures
        match resolve(config, set, id, executable) {
            Some((used, _)) => {
                &&& used == executable || used == default_name()
                &&& lookup(config, set, id, executable) is Missing ==> used == default_name()
            },
            None => false,
        },
{
}

/// Law: an absolute script path stands as it is, whatever the data
/// directory.
pub proof fn lemma_absolute_script(data_home: Seq<char>, script: Seq<char>)
    requires
        is_absolute(script),
    ensures
        joined_path(data_home, script) == script,
{
}

/// Law: where the configuration holds a table for `config[executable][set]`
/// with an entry table for `id`, the lookup reads that entry, and a found
/// script's `toggle` is true exactly where the entry's `toggle` is the
/// boolean `true`, whatever the script's arguments.
pub proof fn lemma_lookup_reads_entry(
    config: Map<Seq<char>, TomlItem>,
    set: Seq<char>,
    id: Seq<char>,
    executable: Seq<char>,
    sets: Map<Seq<char>, TomlItem>,
    ids: Map<Seq<char>, TomlItem>,
    entry: Map<Seq<char>, TomlItem>,
)
    requires
        config.contains_key(executable),
        config[executable] == TomlItem::Table(sets),
        sets.contains_key(set),
        sets[set] == TomlItem::Table(ids),
        ids.contains_key(id),
        ids[id] == TomlItem::Table(entry),
    ensures
        lookup(config, set, id, executable) == lookup_entry(entry),
        lookup(config, set, id, executable) matches Lookup::Found(c) ==> c.toggle == (
        entry.contains_key("toggle"@) && entry["toggle"@] == TomlItem::Flag(true)),
{
}

/// Law: what an entry's `script` names. A string is the script, run
/// without arguments; a non-empty array of strings is the script followed
/// by its arguments, in order; an entry without `script` names nothing. The
/// `toggle` is true exactly where the entry's `toggle` is the boolean
/// `true`, and it is reported unreadable exactly where it is there and not
/// a boolean, independently of the arguments.
pub proof fn lemma_entry_command(entry: Map<Seq<char>, TomlItem>)
    ensures
        !entry.contains_key("script"@) ==> lookup_entry(entry) == Lookup::Missing,
        entry.contains_key("script"@) && entry["script"@] is Text ==> lookup_entry(entry)
            == Lookup::Found(
            Command {
                script: entry["script"@]->Text_0,
                args: Seq::empty(),
                toggle: entry.contains_key("toggle"@) && entry["toggle"@] == TomlItem::Flag(true),
                toggle_unreadable: entry.contains_key("toggle"@) && !(entry["toggle"@] is Flag),
            },
        ),
        entry.contains_key("script"@) && entry["script"@] is List && entry["script"@]->List_0.len()
            > 0 && (forall|i: int|
            0 <= i < entry["script"@]->List_0.len() ==> #[trigger] entry["script"@]->List_0[i] is Text)
            ==> (lookup_entry(entry) is Found && lookup_entry(entry)->Found_0.script
            == entry["script"@]->List_0[0]->Text_0 && lookup_entry(entry)->Found_0.args.len() + 1
            == entry["script"@]->List_0.len() && (forall|k: int|
            0 <= k < lookup_entry(entry)->Found_0.args.len() ==> #[trigger] lookup_entry(
                entry,
            )->Found_0.args[k] == entry["script"@]->List_0[k + 1]->Text_0)
            && lookup_entry(entry)->Found_0.toggle == (entry.contains_key("toggle"@)
            && entry["toggle"@] == TomlItem::Flag(true))),
{
}

/// Law: an executable that has no configuration, or no table for the set,
/// does not refuse the fallback: its macro is the one of `default`.
pub proof fn lemma_unconfigured_set_uses_default(
    config: Map<Seq<char>, TomlItem>,
    set: Seq<char>,
    id: Seq<char>,
    executable: Seq<char>,
)
    requires
        executable != default_name(),
        !config.contains_key(executable) || (config[executable] is Table
            && !config[executable]->Table_0.contains_key(set)),
    ensures
        lookup(config, set, id, executable) == Lookup::Missing,
        resolve(config, set, id, executable) == resolve(config, set, id, default_name()),
{
}

/// Law: where the window's executable has no table for the set and the
/// `default` entry for the set and id has a string `script`, the macro is
/// that script under the entry `default`, without arguments, with the
/// `default` entry's `toggle`.
pub proof fn lemma_fallback_takes_default_script(
    config: Map<Seq<char>, TomlItem>,
    set: Seq<char>,
    id: Seq<char>,
    executable: Seq<char>,
    default_sets: Map<Seq<char>, TomlItem>,
    default_ids: Map<Seq<char>, TomlItem>,
    entry: Map<Seq<char>, TomlItem>,
)
    requires
        executable != default_name(),
        !config.contains_key(executable) || (config[executable] is Table
            && !config[executable]->Table_0.contains_key(set)),
        config.contains_key(default_name()),
        config[default_name()] == TomlItem::Table(default_sets),
        default_sets.contains_key(set),
        default_sets[set] == TomlItem::Table(default_ids),
        default_ids.contains_key(id),
        default_ids[id] == TomlItem::Table(entry),
        entry.contains_key("script"@),
        entry["script"@] is Text,
    ensures
        resolve(config, set, id, executable) is Some,
        resolve(config, set, id, executable)->Some_0.0 == default_name(),
        resolve(config, set, id, executable)->Some_0.1.script == entry["script"@]->Text_0,
        resolve(config, set, id, executable)->Some_0.1.args.len() == 0,
        resolve(config, set, id, executable)->Some_0.1.toggle == (entry.contains_key("toggle"@)
            && entry["toggle"@] == TomlItem::Flag(true)),
{
    lemma_entry_command(entry);
}

/// Law: where `default` has a macro for the set and id but the window's
/// executable gets none, the executable's own table for the set has no
/// entry for the id and says `default_fallback = false`: nothing else
/// prevents the fallback.
pub proof fn lemma_only_explicit_refusal_blocks_fallback(
    config: Map<Seq<char>, TomlItem>,
    set: Seq<char>,
    id: Seq<char>,
    executable: Seq<char>,
)
    requires
        executable != default_name(),
        lookup(config, set, id, default_name()) is Found,
        resolve(config, set, id, executable) is None,
    ensures
        config.contains_key(executable),
        config[executable] is Table,
        config[executable]->Table_0.contains_key(set),
        config[executable]->Table_0[set] is Table,
        !config[executable]->Table_0[set]->Table_0.contains_key(id),
        config[executable]->Table_0[set]->Table_0.contains_key("default_fallback"@),
        config[executable]->Table_0[set]->Table_0["default_fallback"@] == TomlItem::Flag(false),
{
}

impl Macro {
    /// Keeps the macro where its script file exists, and gives the error of
    /// a missing script otherwise.
    pub fn confirm_script(self, script_exists: bool) -> (r: Result<Macro, String>)
        ensures
            script_exists ==> r == Ok::<Macro, String>(self),
            !script_exists ==> (r matches Err(message) && message@ == missing_script_message()),
    {
        if script_exists {
            Ok(self)
        } else {
            Err("Can't find script file.".to_owned())
        }
    }
}

} // verus!
