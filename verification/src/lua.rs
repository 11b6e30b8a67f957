//! The `wm` table of the configuration script, and the configuration that is
//! read from it.
//!
//! What a table that scripts can reach holds can change with every chunk that is
//! run. Of what a read of such a table gives back it is said what was asked for
//! and that this is what came; what it is, only of an entry that nothing was
//! written to since the library handed the table over.
use crate::bits::Double;
use crate::config::{default_keybinds, Config, FileOutcome, ScriptOutcome};
use crate::text;
use mlua::{Lua, Table};
use vstd::prelude::*;

verus! {

/// The interpreter, `mlua::Lua`.
#[verifier::external_type_specification]
#[verifier::external_body]
pub struct ExLua(mlua::Lua);

/// A table of the interpreter, `mlua::Table`.
#[verifier::external_type_specification]
#[verifier::external_body]
pub struct ExTable<'lua>(mlua::Table<'lua>);

/// What the interpreter fails with, `mlua::Error`.
#[verifier::external_type_specification]
#[verifier::external_body]
pub struct ExLuaError(mlua::Error);

/// Why the interpreter could not be used.
#[derive(Clone, Copy, Debug, PartialEq, Eq, Structural)]
pub enum LuaError {
    /// There is no table `wm`.
    NoTable,
    /// The table could not be made or written to.
    NotWritten,
}

/// Whether a table belongs to an interpreter.
pub uninterp spec fn table_of(lua: Lua, table: Table<'_>) -> bool;

/// Whether a table was made by the library and is still out of the reach of
/// scripts, so that it has no metatable and nothing else writes to it.
pub uninterp spec fn table_own(table: Table<'_>) -> bool;

/// What the library has put into a table, by the names of the entries.
pub uninterp spec fn table_entries(table: Table<'_>) -> Map<Seq<char>, SeedView>;

/// Whether an entry of a table that scripts can reach still is what the library
/// has put there: no script has written to it, nor to the list that it may be, and
/// the interpreter has the memory to answer.
pub uninterp spec fn entry_kept(table: Table<'_>, key: Seq<char>) -> bool;

/// The texts of a list as it is when it is walked, in order; what is no text is
/// passed over.
pub uninterp spec fn list_texts(table: Table<'_>) -> Seq<Seq<char>>;

/// Whether a table was handed to an interpreter as `wm`.
pub uninterp spec fn wm_given(lua: Lua, table: Table<'_>) -> bool;

/// Whether `wm` still is a table that was handed over, of which the entry with a
/// name is kept.
pub uninterp spec fn wm_kept(lua: Lua, table: Table<'_>, key: Seq<char>) -> bool;

/// Whether this came from an interpreter that was asked for the table `wm`.
pub uninterp spec fn wm_gave(lua: Lua, reply: Option<Table<'_>>) -> bool;

/// Whether this came from a table that was asked for a text under a name.
pub uninterp spec fn text_gave(table: Table<'_>, key: Seq<char>, reply: Option<Seq<char>>) -> bool;

/// Whether this came from a table that was asked for an integer under a name.
pub uninterp spec fn integer_gave(table: Table<'_>, key: Seq<char>, reply: Option<i32>) -> bool;

/// Whether this came from a table that was asked for a number under a name.
pub uninterp spec fn number_gave(table: Table<'_>, key: Seq<char>, reply: Option<Double>) -> bool;

/// Whether this came from a table that was asked for a table under a name.
pub uninterp spec fn table_gave(
    table: Table<'_>,
    key: Seq<char>,
    reply: Option<Table<'_>>,
) -> bool;

/// Whether this came from an interpreter that was asked what a chunk evaluates to.
pub uninterp spec fn chunk_gave(lua: Lua, chunk: Seq<char>, reply: Option<Table<'_>>) -> bool;

/// Whether the library has put a value into a table under a name.
pub open spec fn table_holds(table: Table<'_>, key: Seq<char>, value: SeedView) -> bool {
    table_entries(table).dom().contains(key) && table_entries(table)[key] == value
}

/// Whether a table still holds a value under a name, where the library has put it.
pub open spec fn table_gives(table: Table<'_>, key: Seq<char>, value: SeedView) -> bool {
    entry_kept(table, key) && table_holds(table, key, value)
}

/// The value of a reply, if it is one.
pub open spec fn value_of<V>(reply: Result<V, mlua::Error>) -> Option<V> {
    match reply {
        Ok(v) => Some(v),
        Err(_) => None,
    }
}

/// The text of a reply, if it is one.
pub open spec fn text_of(reply: Result<String, mlua::Error>) -> Option<Seq<char>> {
    match reply {
        Ok(s) => Some(s@),
        Err(_) => None,
    }
}

/// Calls `mlua::Table::get` on the global environment, for the table `wm`. Where
/// `wm` still is the table that was handed over, that is what comes, with the
/// entries that were kept. Otherwise what comes depends on the scripts that were
/// run; it is only said that it came.
#[verifier::external_body]
fn wm_table(lua: &Lua) -> (r: Result<Table<'_>, mlua::Error>)
    ensures
        wm_gave(*lua, value_of(r)),
        forall|given: Table<'_>, key: Seq<char>| #[trigger]
            wm_kept(*lua, given, key) ==> r is Ok && table_entries(r->Ok_0) == table_entries(given)
                && entry_kept(r->Ok_0, key),
{
    lua.globals().get("wm")
}

/// The chunk that evaluates to the list of what is to be started.
pub open spec fn autostart_chunk() -> Seq<char> {
    "return wm.autostart"@
}

/// Calls `mlua::Chunk::eval` on what `mlua::Lua::load` makes of a text, and gives
/// what it evaluates to if that is a table. Where the chunk asks for the list
/// `autostart`, and `wm` still is the table that was handed over, in which that
/// list was kept, the list is what comes. Otherwise what comes depends on the
/// scripts that were run; it is only said that it came.
#[verifier::external_body]
fn eval_table<'lua>(lua: &'lua Lua, chunk: &str) -> (r: Option<Table<'lua>>)
    ensures
        chunk_gave(*lua, chunk@, r),
        forall|given: Table<'_>, list: Seq<Seq<char>>|
            #![trigger wm_kept(*lua, given, "autostart"@), table_holds(given, "autostart"@, SeedView::Texts(list))]
            chunk@ == autostart_chunk() && wm_kept(*lua, given, "autostart"@) && table_holds(
                given,
                "autostart"@,
                SeedView::Texts(list),
            ) ==> r is Some && list_texts(r->0) == list,
{
    match lua.load(chunk).eval() {
        Ok(mlua::Value::Table(t)) => Some(t),
        _ => None,
    }
}

/// Calls `mlua::Table::get` for a text. A text that the library has put into the
/// table and that was kept is what comes. Otherwise what comes depends on the
/// scripts that were run; it is only said that it came.
#[verifier::external_body]
fn get_text(table: &Table<'_>, key: &str) -> (r: Result<String, mlua::Error>)
    ensures
        text_gave(*table, key@, text_of(r)),
        forall|s: Seq<char>| #[trigger]
            table_gives(*table, key@, SeedView::Text(s)) ==> text_of(r) == Some(s),
{
    table.get(key)
}

/// Calls `mlua::Table::get` for an integer. An integer that the library has put
/// into the table and that was kept is what comes. Otherwise what comes depends
/// on the scripts that were run; it is only said that it came.
#[verifier::external_body]
fn get_integer(table: &Table<'_>, key: &str) -> (r: Result<i32, mlua::Error>)
    ensures
        integer_gave(*table, key@, value_of(r)),
        forall|n: int| #[trigger]
            table_gives(*table, key@, SeedView::Integer(n)) ==> r is Ok && r->Ok_0 == n,
{
    table.get(key)
}

/// Calls `mlua::Table::get` for a number, and gives its pattern. A number that the
/// library has put into the table and that was kept is what comes, but for NaN,
/// which has many patterns. Otherwise what comes depends on the scripts that were
/// run; it is only said that it came.
#[verifier::external_body]
fn get_number(table: &Table<'_>, key: &str) -> (r: Result<Double, mlua::Error>)
    ensures
        number_gave(*table, key@, value_of(r)),
        forall|v: Double| #[trigger]
            table_gives(*table, key@, SeedView::Number(v)) && !v.nan() ==> r is Ok && r->Ok_0 == v,
{
    table.get::<_, mlua::Number>(key).map(|n| Double { bits: n.to_bits() })
}

/// Calls `mlua::Table::get` for any value, and gives it if it is a table. A list
/// that the library has put into the table and that was kept is what comes.
/// Otherwise what comes depends on the scripts that were run; it is only said
/// that it came.
#[verifier::external_body]
fn get_table<'lua>(table: &Table<'lua>, key: &str) -> (r: Option<Table<'lua>>)
    ensures
        table_gave(*table, key@, r),
        forall|list: Seq<Seq<char>>| #[trigger]
            table_gives(*table, key@, SeedView::Texts(list)) ==> r is Some && list_texts(r->0)
                == list,
{
    match table.get(key) {
        Ok(mlua::Value::Table(t)) => Some(t),
        _ => None,
    }
}

/// Calls `mlua::Table::sequence_values` for texts; `None` stands for an entry
/// that is no text. The others are the texts of the list, which has a name.
#[verifier::external_body]
fn sequence_texts(table: Table<'_>) -> (r: Vec<Option<String>>)
    ensures
        present(r@) == list_texts(table),
{
    table.sequence_values::<String>().map(|entry| entry.ok()).collect()
}

/// Calls `mlua::Lua::create_table`. The table belongs to the interpreter, is the
/// library's own, and empty; whether there is memory for it is not stated.
#[verifier::external_body]
fn create_table(lua: &Lua) -> (r: Result<Table<'_>, mlua::Error>)
    ensures
        r is Ok ==> table_of(*lua, r->Ok_0) && table_own(r->Ok_0) && table_entries(r->Ok_0)
            == filled(Seq::empty()),
{
    lua.create_table()
}

/// Whether a table of the library's own was given one entry more, and belongs to
/// the interpreter that it belonged to.
pub open spec fn gained(
    before: Table<'_>,
    after: Table<'_>,
    key: Seq<char>,
    value: SeedView,
) -> bool {
    &&& table_own(after)
    &&& table_entries(after) == table_entries(before).insert(key, value)
    &&& forall|l: Lua| #[trigger] table_of(l, before) ==> table_of(l, after)
}

/// Calls `mlua::Table::set` for a text on a table of the library's own, which
/// then holds it. Whether it succeeds depends on the memory of the interpreter,
/// and is not stated.
#[verifier::external_body]
fn set_text(table: &mut Table<'_>, key: &str, value: &str) -> (r: Result<(), mlua::Error>)
    requires
        table_own(*old(table)),
    ensures
        r is Ok ==> gained(*old(table), *final(table), key@, SeedView::Text(value@)),
{
    table.set(key, value)
}

/// Calls `mlua::Table::set` for an integer on a table of the library's own, which
/// then holds it. Whether it succeeds depends on the memory of the interpreter,
/// and is not stated.
#[verifier::external_body]
fn set_integer(table: &mut Table<'_>, key: &str, value: i32) -> (r: Result<(), mlua::Error>)
    requires
        table_own(*old(table)),
    ensures
        r is Ok ==> gained(*old(table), *final(table), key@, SeedView::Integer(value as int)),
{
    table.set(key, value)
}

/// Calls `mlua::Table::set` for the number with a pattern on a table of the library's own, which
/// then holds it. Whether it succeeds depends on the memory of the interpreter,
/// and is not stated.
#[verifier::external_body]
fn set_number(table: &mut Table<'_>, key: &str, value: Double) -> (r: Result<(), mlua::Error>)
    requires
        table_own(*old(table)),
    ensures
        r is Ok ==> gained(*old(table), *final(table), key@, SeedView::Number(value)),
{
    table.set(key, mlua::Number::from_bits(value.bits))
}

/// Calls `mlua::Table::set` for a list of texts on a table of the library's own, which
/// then holds it. Whether it succeeds depends on the memory of the interpreter,
/// and is not stated.
#[verifier::external_body]
fn set_texts(table: &mut Table<'_>, key: &str, value: &Vec<String>) -> (r: Result<(), mlua::Error>)
    requires
        table_own(*old(table)),
    ensures
        r is Ok ==> gained(*old(table), *final(table), key@, SeedView::Texts(text::texts(value@))),
{
    table.set(key, value.clone())
}

/// Calls `mlua::Table::set` on the global environment, for the table `wm`, which
/// has to belong to the interpreter. Whether it succeeds depends on the memory of
/// the interpreter, and what scripts find afterwards on the metatable of the
/// globals; neither is stated.
#[verifier::external_body]
fn set_wm_table(lua: &Lua, table: Table<'_>) -> (r: Result<(), mlua::Error>)
    requires
        table_of(*lua, table),
    ensures
        r is Ok ==> wm_given(*lua, table),
{
    lua.globals().set("wm", table)
}

/// What was read from the table `wm`: `None` stands for what is missing or of
/// another sort.
#[derive(Clone, Debug)]
pub struct WmTable {
    pub terminal: Option<String>,
    pub launcher: Option<String>,
    pub outer_gaps: Option<i32>,
    pub inner_gaps: Option<i32>,
    pub border_width: Option<i32>,
    pub active_border_color: Option<String>,
    pub inactive_border_color: Option<String>,
    pub clear_color: Option<String>,
    pub swipe_threshold: Option<Double>,
    pub workspace_names: Option<Vec<Option<String>>>,
}

/// The texts of a list that has gaps.
pub open spec fn present(list: Seq<Option<String>>) -> Seq<Seq<char>>
    decreases list.len(),
{
    if list.len() == 0 {
        seq![]
    } else {
        match list.last() {
            Some(s) => present(list.drop_last()).push(s@),
            None => present(list.drop_last()),
        }
    }
}

pub fn present_texts(list: &Vec<Option<String>>) -> (r: Vec<String>)
    ensures
        text::texts(r@) == present(list@),
{
    let mut out: Vec<String> = Vec::new();
    let mut i: usize = 0;
    while i < list.len()
        invariant
            i <= list.len(),
            text::texts(out@) == present(list@.take(i as int)),
        decreases list.len() - i,
    {
        assert(list@.take(i + 1).drop_last() == list@.take(i as int));
        if let Some(s) = &list[i] {
            let ghost before = out@;
            out.push(s.clone());
            assert(text::texts(out@) == text::texts(before).push(s@));
        }
        i = i + 1;
    }
    assert(list@.take(list@.len() as int) == list@);
    out
}

/// A text that was read, or else another.
pub open spec fn text_or(read: Option<String>, fallback: Seq<char>) -> Seq<char> {
    match read {
        Some(s) => s@,
        None => fallback,
    }
}

/// An integer that was read, or else another.
pub open spec fn integer_or(read: Option<i32>, fallback: int) -> int {
    match read {
        Some(n) => n as int,
        None => fallback,
    }
}

/// The configuration that a table stands for: the defaults hold for what is
/// missing, and for the names of the workspaces where none is left. The
/// keybindings are the default ones.
pub open spec fn config_of(t: WmTable) -> crate::config::ConfigView {
    let d = crate::config::default_config();
    crate::config::ConfigView {
        terminal: text_or(t.terminal, d.terminal),
        launcher: text_or(t.launcher, d.launcher),
        outer_gaps: integer_or(t.outer_gaps, d.outer_gaps),
        inner_gaps: integer_or(t.inner_gaps, d.inner_gaps),
        border_width: integer_or(t.border_width, d.border_width),
        active_border_color: text_or(t.active_border_color, d.active_border_color),
        inactive_border_color: text_or(t.inactive_border_color, d.inactive_border_color),
        clear_color: text_or(t.clear_color, d.clear_color),
        workspace_names: match t.workspace_names {
            Some(list) => if present(list@).len() > 0 {
                present(list@)
            } else {
                d.workspace_names
            },
            None => d.workspace_names,
        },
        keybinds: d.keybinds,
        swipe_threshold: match t.swipe_threshold {
            Some(v) => v,
            None => d.swipe_threshold,
        },
    }
}

fn text_or_default(read: Option<String>, fallback: String) -> (r: String)
    ensures
        r@ == text_or(read, fallback@),
{
    match read {
        Some(s) => s,
        None => fallback,
    }
}

fn integer_or_default(read: Option<i32>, fallback: i32) -> (r: i32)
    ensures
        r == integer_or(read, fallback as int),
{
    match read {
        Some(n) => n,
        None => fallback,
    }
}

/// The configuration that a table stands for.
pub fn config_from_table(t: WmTable) -> (r: Config)
    ensures
        r@ == config_of(t),
{
    let d = Config::default();
    let workspace_names = match t.workspace_names {
        Some(list) => {
            let names = present_texts(&list);
            if names.len() > 0 {
                names
            } else {
                d.workspace_names
            }
        },
        None => d.workspace_names,
    };
    Config {
        terminal: text_or_default(t.terminal, d.terminal),
        launcher: text_or_default(t.launcher, d.launcher),
        outer_gaps: integer_or_default(t.outer_gaps, d.outer_gaps),
        inner_gaps: integer_or_default(t.inner_gaps, d.inner_gaps),
        border_width: integer_or_default(t.border_width, d.border_width),
        active_border_color: text_or_default(t.active_border_color, d.active_border_color),
        inactive_border_color: text_or_default(t.inactive_border_color, d.inactive_border_color),
        clear_color: text_or_default(t.clear_color, d.clear_color),
        workspace_names,
        keybinds: default_keybinds(),
        swipe_threshold: match t.swipe_threshold {
            Some(v) => v,
            None => d.swipe_threshold,
        },
    }
}

/// A value that the table `wm` is given.
#[derive(Clone, Debug)]
pub enum Seed {
    Text(String),
    Integer(i32),
    Number(Double),
    Texts(Vec<String>),
}

pub ghost enum SeedView {
    Text(Seq<char>),
    Integer(int),
    Number(Double),
    Texts(Seq<Seq<char>>),
}

impl View for Seed {
    type V = SeedView;

    open spec fn view(&self) -> SeedView {
        match *self {
            Seed::Text(s) => SeedView::Text(s@),
            Seed::Integer(n) => SeedView::Integer(n as int),
            Seed::Number(v) => SeedView::Number(v),
            Seed::Texts(list) => SeedView::Texts(text::texts(list@)),
        }
    }
}

/// An entry that the table `wm` is given.
#[derive(Clone, Debug)]
pub struct SeedEntry {
    pub key: String,
    pub value: Seed,
}

/// What the entries of a list are.
pub open spec fn entry_views(list: Seq<SeedEntry>) -> Seq<(Seq<char>, SeedView)> {
    list.map_values(|e: SeedEntry| (e.key@, e.value@))
}

/// The entries that tell a script of a configuration. There is nothing to
/// start yet.
pub open spec fn seeds(c: crate::config::ConfigView) -> Seq<(Seq<char>, SeedView)> {
    seq![
        ("terminal"@, SeedView::Text(c.terminal)),
        ("launcher"@, SeedView::Text(c.launcher)),
        ("outer_gaps"@, SeedView::Integer(c.outer_gaps)),
        ("inner_gaps"@, SeedView::Integer(c.inner_gaps)),
        ("border_width"@, SeedView::Integer(c.border_width)),
        ("active_border_color"@, SeedView::Text(c.active_border_color)),
        ("inactive_border_color"@, SeedView::Text(c.inactive_border_color)),
        ("clear_color"@, SeedView::Text(c.clear_color)),
        ("swipe_threshold"@, SeedView::Number(c.swipe_threshold)),
        ("workspace_names"@, SeedView::Texts(c.workspace_names)),
        ("autostart"@, SeedView::Texts(seq![])),
    ]
}

fn entry(key: &str, value: Seed) -> (r: SeedEntry)
    ensures
        r.key@ == key@,
        r.value == value,
{
    SeedEntry { key: key.to_owned(), value }
}

/// The entries that tell a script of a configuration.
pub fn seed_entries(config: &Config) -> (r: Vec<SeedEntry>)
    ensures
        entry_views(r@) == seeds(config@),
{
    let out = vec![
        entry("terminal", Seed::Text(config.terminal.clone())),
        entry("launcher", Seed::Text(config.launcher.clone())),
        entry("outer_gaps", Seed::Integer(config.outer_gaps)),
        entry("inner_gaps", Seed::Integer(config.inner_gaps)),
        entry("border_width", Seed::Integer(config.border_width)),
        entry("active_border_color", Seed::Text(config.active_border_color.clone())),
        entry("inactive_border_color", Seed::Text(config.inactive_border_color.clone())),
        entry("clear_color", Seed::Text(config.clear_color.clone())),
        entry("swipe_threshold", Seed::Number(config.swipe_threshold)),
        entry("workspace_names", Seed::Texts(text::copy_texts(&config.workspace_names))),
        entry("autostart", Seed::Texts(Vec::new())),
    ];
    assert(text::texts(Seq::<String>::empty()) =~= Seq::<Seq<char>>::empty());
    assert(entry_views(out@) =~= seeds(config@));
    out
}

/// The entries of a list in a table, in order: of two with one name the later
/// one stays.
pub open spec fn filled(list: Seq<(Seq<char>, SeedView)>) -> Map<Seq<char>, SeedView>
    decreases list.len(),
{
    if list.len() == 0 {
        Map::empty()
    } else {
        filled(list.drop_last()).insert(list.last().0, list.last().1)
    }
}

/// Whether a table of the library's own tells a script of a configuration.
pub open spec fn tells(table: Table<'_>, c: crate::config::ConfigView) -> bool {
    table_own(table) && table_entries(table) == filled(seeds(c))
}

/// What became of an attempt to write.
fn written(attempt: Result<(), mlua::Error>) -> (r: Result<(), LuaError>)
    ensures
        r == (match attempt {
            Ok(_) => Ok::<(), LuaError>(()),
            Err(_) => Err::<(), LuaError>(LuaError::NotWritten),
        }),
{
    match attempt {
        Ok(()) => Ok(()),
        Err(_) => Err(LuaError::NotWritten),
    }
}

/// Gives an entry to a table of the library's own. It fails only where the
/// interpreter cannot write.
fn write_entry(table: &mut Table<'_>, e: &SeedEntry) -> (r: Result<(), LuaError>)
    requires
        table_own(*old(table)),
    ensures
        match r {
            Ok(_) => gained(*old(table), *final(table), e.key@, e.value@),
            Err(error) => error == LuaError::NotWritten,
        },
{
    let key = e.key.as_str();
    let attempt = match &e.value {
        Seed::Text(s) => set_text(table, key, s.as_str()),
        Seed::Integer(n) => set_integer(table, key, *n),
        Seed::Number(v) => set_number(table, key, *v),
        Seed::Texts(list) => set_texts(table, key, list),
    };
    written(attempt)
}

/// The table that tells a script of a configuration: it holds the entries of
/// `seed_entries`. It fails only where the interpreter cannot write.
pub fn told_table<'lua>(lua: &'lua Lua, config: &Config) -> (r: Result<Table<'lua>, LuaError>)
    ensures
        match r {
            Ok(table) => table_of(*lua, table) && tells(table, config@),
            Err(error) => error == LuaError::NotWritten,
        },
{
    let mut table = match create_table(lua) {
        Ok(t) => t,
        Err(_) => {
            return Err(LuaError::NotWritten);
        },
    };
    let entries = seed_entries(config);
    let mut i: usize = 0;
    while i < entries.len()
        invariant
            i <= entries.len(),
            entry_views(entries@) == seeds(config@),
            table_of(*lua, table),
            table_own(table),
            table_entries(table) == filled(seeds(config@).take(i as int)),
        decreases entries.len() - i,
    {
        match write_entry(&mut table, &entries[i]) {
            Ok(()) => {},
            Err(e) => {
                return Err(e);
            },
        }
        assert(entry_views(entries@)[i as int] == (entries@[i as int].key@, entries@[i as int].value@));
        assert(seeds(config@).take(i + 1).drop_last() == seeds(config@).take(i as int));
        i = i + 1;
    }
    assert(seeds(config@).take(i as int) == seeds(config@));
    Ok(table)
}

/// Whether an interpreter was told of a configuration.
pub open spec fn told(lua: Lua, c: crate::config::ConfigView) -> bool {
    exists|table: Table<'_>| #[trigger] wm_given(lua, table) && tells(table, c)
}

/// Whether an interpreter was told of a configuration, and nothing was written
/// since to the entry with a name.
pub open spec fn still_told(lua: Lua, c: crate::config::ConfigView, key: Seq<char>) -> bool {
    exists|table: Table<'_>| #[trigger]
        wm_kept(lua, table, key) && table_entries(table) == filled(seeds(c))
}

/// Whether an interpreter was told of a configuration, and nothing was written
/// since to any part of it.
pub open spec fn wholly_told(lua: Lua, c: crate::config::ConfigView) -> bool {
    &&& still_told(lua, c, "terminal"@)
    &&& still_told(lua, c, "launcher"@)
    &&& still_told(lua, c, "outer_gaps"@)
    &&& still_told(lua, c, "inner_gaps"@)
    &&& still_told(lua, c, "border_width"@)
    &&& still_told(lua, c, "active_border_color"@)
    &&& still_told(lua, c, "inactive_border_color"@)
    &&& still_told(lua, c, "clear_color"@)
    &&& still_told(lua, c, "swipe_threshold"@)
    &&& still_told(lua, c, "workspace_names"@)
}

/// Whether a configuration that was read has every part that an interpreter was
/// told of and that nothing was written to since, whatever became of the others;
/// but for a threshold that is not a number, and for a list of workspaces that
/// names none, which is not taken.
pub open spec fn has_kept_parts(
    lua: Lua,
    c: crate::config::ConfigView,
    read: crate::config::ConfigView,
) -> bool {
    &&& still_told(lua, c, "terminal"@) ==> read.terminal == c.terminal
    &&& still_told(lua, c, "launcher"@) ==> read.launcher == c.launcher
    &&& still_told(lua, c, "outer_gaps"@) ==> read.outer_gaps == c.outer_gaps
    &&& still_told(lua, c, "inner_gaps"@) ==> read.inner_gaps == c.inner_gaps
    &&& still_told(lua, c, "border_width"@) ==> read.border_width == c.border_width
    &&& still_told(lua, c, "active_border_color"@) ==> read.active_border_color
        == c.active_border_color
    &&& still_told(lua, c, "inactive_border_color"@) ==> read.inactive_border_color
        == c.inactive_border_color
    &&& still_told(lua, c, "clear_color"@) ==> read.clear_color == c.clear_color
    &&& still_told(lua, c, "swipe_threshold"@) && !c.swipe_threshold.nan()
        ==> read.swipe_threshold == c.swipe_threshold
    &&& still_told(lua, c, "workspace_names"@) && c.workspace_names.len() > 0
        ==> read.workspace_names == c.workspace_names
}

/// Tells the script of a configuration: hands it the table of `told_table` as
/// `wm`. It fails only where the interpreter cannot write.
pub fn seed_wm_table(lua: &Lua, config: &Config) -> (r: Result<(), LuaError>)
    ensures
        match r {
            Ok(_) => told(*lua, config@),
            Err(error) => error == LuaError::NotWritten,
        },
{
    match told_table(lua, config) {
        Ok(table) => written(set_wm_table(lua, table)),
        Err(e) => Err(e),
    }
}

/// A text that was asked for, where one came.
fn read_text(reply: Result<String, mlua::Error>) -> (r: Option<String>)
    ensures
        r == (match reply {
            Ok(s) => Some(s),
            Err(_) => None::<String>,
        }),
{
    match reply {
        Ok(s) => Some(s),
        Err(_) => None,
    }
}

/// An integer that was asked for, where one came.
fn read_integer(reply: Result<i32, mlua::Error>) -> (r: Option<i32>)
    ensures
        r == (match reply {
            Ok(n) => Some(n),
            Err(_) => None::<i32>,
        }),
{
    match reply {
        Ok(n) => Some(n),
        Err(_) => None,
    }
}

/// Whether a text is what a table gave that was asked for one under a name.
pub open spec fn text_read(read: Option<String>, table: Table<'_>, key: Seq<char>) -> bool {
    let reply = crate::keys::text_view(read);
    &&& text_gave(table, key, reply)
    &&& forall|s: Seq<char>| #[trigger]
        table_gives(table, key, SeedView::Text(s)) ==> reply == Some(s)
}

/// Whether an integer is what a table gave that was asked for one under a name.
pub open spec fn integer_read(read: Option<i32>, table: Table<'_>, key: Seq<char>) -> bool {
    &&& integer_gave(table, key, read)
    &&& forall|n: int| #[trigger]
        table_gives(table, key, SeedView::Integer(n)) ==> read is Some && read->0 == n
}

/// Whether a number is what a table gave that was asked for one under a name.
pub open spec fn number_read(read: Option<Double>, table: Table<'_>, key: Seq<char>) -> bool {
    &&& number_gave(table, key, read)
    &&& forall|v: Double| #[trigger]
        table_gives(table, key, SeedView::Number(v)) && !v.nan() ==> read == Some(v)
}

/// Whether these are the texts of the list that a table gave that was asked for
/// one under a name.
pub open spec fn texts_read(
    read: Option<Vec<Option<String>>>,
    table: Table<'_>,
    key: Seq<char>,
) -> bool {
    exists|reply: Option<Table<'_>>| #[trigger]
        table_gave(table, key, reply) && (read is Some <==> reply is Some) && (reply is Some
            ==> present(read->0@) == list_texts(reply->0)) && forall|list: Seq<Seq<char>>|
            #[trigger]
            table_gives(table, key, SeedView::Texts(list)) ==> reply is Some && list_texts(reply->0)
                == list
}

/// Whether what was read is what a table gave, each part asked for under its own
/// name.
pub open spec fn read_of(t: WmTable, table: Table<'_>) -> bool {
    &&& text_read(t.terminal, table, "terminal"@)
    &&& text_read(t.launcher, table, "launcher"@)
    &&& integer_read(t.outer_gaps, table, "outer_gaps"@)
    &&& integer_read(t.inner_gaps, table, "inner_gaps"@)
    &&& integer_read(t.border_width, table, "border_width"@)
    &&& text_read(t.active_border_color, table, "active_border_color"@)
    &&& text_read(t.inactive_border_color, table, "inactive_border_color"@)
    &&& text_read(t.clear_color, table, "clear_color"@)
    &&& number_read(t.swipe_threshold, table, "swipe_threshold"@)
    &&& texts_read(t.workspace_names, table, "workspace_names"@)
}

/// What the table `wm` holds, if there is one: `found` is what asking for it
/// gave. It fails only where there is no such table.
fn read_wm_table(found: Result<Table<'_>, mlua::Error>) -> (r: Result<WmTable, LuaError>)
    ensures
        match found {
            Ok(table) => r is Ok && read_of(r->Ok_0, table),
            Err(_) => r == Err::<WmTable, LuaError>(LuaError::NoTable),
        },
{
    let table = match found {
        Ok(t) => t,
        Err(_) => {
            return Err(LuaError::NoTable);
        },
    };
    let names = get_table(&table, "workspace_names");
    let ghost reply = names;
    let workspace_names = match names {
        Some(list) => Some(sequence_texts(list)),
        None => None,
    };
    assert(table_gave(table, "workspace_names"@, reply));
    Ok(
        WmTable {
            terminal: read_text(get_text(&table, "terminal")),
            launcher: read_text(get_text(&table, "launcher")),
            outer_gaps: read_integer(get_integer(&table, "outer_gaps")),
            inner_gaps: read_integer(get_integer(&table, "inner_gaps")),
            border_width: read_integer(get_integer(&table, "border_width")),
            active_border_color: read_text(get_text(&table, "active_border_color")),
            inactive_border_color: read_text(get_text(&table, "inactive_border_color")),
            clear_color: read_text(get_text(&table, "clear_color")),
            swipe_threshold: match get_number(&table, "swipe_threshold") {
                Ok(v) => Some(v),
                Err(_) => None,
            },
            workspace_names,
        },
    )
}

/// Whether a configuration is the one that an interpreter gave when it was asked
/// for the table `wm` and for what is in it.
pub open spec fn config_gave(lua: Lua, c: crate::config::ConfigView) -> bool {
    exists|t: WmTable, table: Table<'_>|
        #![trigger config_of(t), read_of(t, table)]
        c == config_of(t) && wm_gave(lua, Some(table)) && read_of(t, table)
}

/// Whether a configuration can be told to a script and read back: it names a
/// workspace, and its threshold is a number.
pub open spec fn tellable(c: crate::config::ConfigView) -> bool {
    c.workspace_names.len() > 0 && !c.swipe_threshold.nan()
}

/// The configuration that the script has left: `config_from_table` of what the
/// table `wm` holds. It fails only where there is no such table. Each part that
/// was told and not written over since is read back; the keybindings are the
/// default ones.
pub fn read_config_from_lua(lua: &Lua) -> (r: Result<Config, LuaError>)
    ensures
        match r {
            Ok(config) => config_gave(*lua, config@),
            Err(e) => e == LuaError::NoTable && wm_gave(*lua, None),
        },
        forall|c: crate::config::ConfigView, key: Seq<char>| #[trigger]
            still_told(*lua, c, key) ==> r is Ok,
        forall|c: crate::config::ConfigView|
            r is Ok ==> #[trigger] has_kept_parts(*lua, c, r->Ok_0@),
{
    let found = wm_table(lua);
    let ghost asked = found;
    match read_wm_table(found) {
        Ok(t) => {
            let ghost read = t;
            let config = config_from_table(t);
            assert(config@ == config_of(read) && read_of(read, asked->Ok_0));
            proof {
                assert forall|c: crate::config::ConfigView| #[trigger]
                    has_kept_parts(*lua, c, config@) by {
                    if table_entries(asked->Ok_0) == filled(seeds(c)) {
                        kept_entries_are_read_back(read, asked->Ok_0, c);
                    }
                }
            }
            Ok(config)
        },
        Err(e) => Err(e),
    }
}

/// The texts of the list that was given, none where there was no list.
pub open spec fn reply_texts(reply: Option<Table<'_>>) -> Seq<Seq<char>> {
    match reply {
        Some(table) => list_texts(table),
        None => seq![],
    }
}

/// The commands that the script wants to be run at the start: the texts of the
/// list that `wm.autostart` evaluates to; none where it does not to a list. There
/// are none either where nothing was written to it since the script was told of a
/// configuration.
pub fn autostart_commands(lua: &Lua) -> (r: Vec<String>)
    ensures
        exists|reply: Option<Table<'_>>| #[trigger]
            chunk_gave(*lua, autostart_chunk(), reply) && text::texts(r@) == reply_texts(reply),
        forall|c: crate::config::ConfigView| #[trigger]
            still_told(*lua, c, "autostart"@) ==> r@.len() == 0,
{
    let list = eval_table(lua, "return wm.autostart");
    let ghost reply = list;
    proof {
        assert forall|c: crate::config::ConfigView| #[trigger]
            still_told(*lua, c, "autostart"@) implies reply_texts(reply) == Seq::<
            Seq<char>,
        >::empty() by {
            let given = choose|table: Table<'_>| #[trigger]
                wm_kept(*lua, table, "autostart"@) && table_entries(table) == filled(seeds(c));
            told_parts(given, c);
        }
    }
    let commands = match list {
        Some(list) => {
            let entries = sequence_texts(list);
            present_texts(&entries)
        },
        None => Vec::new(),
    };
    assert(text::texts(commands@) == reply_texts(reply));
    assert(text::texts(commands@).len() == commands@.len());
    commands
}

impl Config {
    /// Takes the configuration of the file, where there is one, and tells the
    /// script of what holds then. Where that fails the script is not to be run.
    pub fn tell_script(&mut self, file: FileOutcome, lua: &Lua) -> (r: Result<(), LuaError>)
        ensures
            final(self)@ == (match file {
                FileOutcome::Read(config) => config@,
                _ => old(self)@,
            }),
            match r {
                Ok(_) => told(*lua, final(self)@),
                Err(error) => error == LuaError::NotWritten,
            },
    {
        self.load_file(file);
        seed_wm_table(lua, self)
    }

    /// Takes a configuration that was read, or tells why there is none. The
    /// keybindings stay.
    pub fn refresh(&mut self, read: Result<Config, LuaError>) -> (r: Result<(), LuaError>)
        ensures
            match read {
                Ok(config) => r is Ok && final(self)@ == old(self)@.overridden_by(config@),
                Err(e) => r == Err::<(), LuaError>(e) && final(self)@ == old(self)@,
            },
    {
        match read {
            Ok(new) => {
                self.take_over(new);
                Ok(())
            },
            Err(e) => Err(e),
        }
    }

    /// Takes the configuration that the script has left, and keeps the
    /// keybindings. It fails only where there is no table `wm`, and changes
    /// nothing then. A configuration that was told and not written over since is
    /// taken again.
    pub fn refresh_from_lua(&mut self, lua: &Lua) -> (r: Result<(), LuaError>)
        ensures
            refreshed(*lua, old(self)@, final(self)@, r),
    {
        let read = read_config_from_lua(lua);
        let ghost found = read;
        let r = self.refresh(read);
        proof {
            assert forall|c: crate::config::ConfigView| r is Ok implies #[trigger] has_kept_parts(
                *lua,
                c,
                self@,
            ) by {
                assert(has_kept_parts(*lua, c, found->Ok_0@));
            }
        }
        r
    }

    /// Takes the configuration that the script has left, if it ran to its end,
    /// and keeps the keybindings. It fails only where the script then has left no
    /// table `wm`. Where it has written nothing, the configuration that it was
    /// told of stays.
    pub fn load_script(&mut self, script: ScriptOutcome, lua: &Lua) -> (r: Result<(), LuaError>)
        ensures
            if script == ScriptOutcome::Ran {
                refreshed(*lua, old(self)@, final(self)@, r)
            } else {
                r is Ok && final(self)@ == old(self)@
            },
    {
        if script == ScriptOutcome::Ran {
            self.refresh_from_lua(lua)
        } else {
            Ok(())
        }
    }
}

/// What becomes of a configuration once the one that the script has left was
/// asked for.
pub open spec fn refreshed(
    lua: Lua,
    before: crate::config::ConfigView,
    after: crate::config::ConfigView,
    r: Result<(), LuaError>,
) -> bool {
    &&& match r {
        Ok(_) => exists|read: crate::config::ConfigView| #[trigger]
            config_gave(lua, read) && after == before.overridden_by(read),
        Err(e) => e == LuaError::NoTable && wm_gave(lua, None) && after == before,
    }
    &&& forall|c: crate::config::ConfigView, key: Seq<char>| #[trigger]
        still_told(lua, c, key) ==> r is Ok
    &&& forall|c: crate::config::ConfigView|
        r is Ok ==> #[trigger] has_kept_parts(lua, c, after)
}

/// Of a configuration that a script was told of, each part is read back to which
/// nothing was written since, whatever the script did to the others.
pub proof fn seeded_parts_are_read_back(
    lua: Lua,
    table: Table<'_>,
    c: crate::config::ConfigView,
    key: Seq<char>,
    before: crate::config::ConfigView,
    after: crate::config::ConfigView,
    r: Result<(), LuaError>,
)
    requires
        wm_given(lua, table),
        tells(table, c),
        wm_kept(lua, table, key),
        refreshed(lua, before, after, r),
    ensures
        told(lua, c),
        still_told(lua, c, key),
        r is Ok,
        has_kept_parts(lua, c, after),
        after.keybinds == before.keybinds,
{
}

/// A script that leaves the table as it was told leaves the configuration that it
/// was told of as it was, the keybindings included.
pub proof fn idle_script_changes_nothing(
    lua: Lua,
    c: crate::config::ConfigView,
    after: crate::config::ConfigView,
    r: Result<(), LuaError>,
)
    requires
        refreshed(lua, c, after, r),
        wholly_told(lua, c),
        tellable(c),
    ensures
        r is Ok,
        after == c,
{
    assert(has_kept_parts(lua, c, after));
}

/// Whether a table holds what a configuration was told as.
pub open spec fn holds_seeds(t: WmTable, c: crate::config::ConfigView) -> bool {
    &&& t.terminal is Some && t.terminal->0@ == c.terminal
    &&& t.launcher is Some && t.launcher->0@ == c.launcher
    &&& t.outer_gaps is Some && t.outer_gaps->0 == c.outer_gaps
    &&& t.inner_gaps is Some && t.inner_gaps->0 == c.inner_gaps
    &&& t.border_width is Some && t.border_width->0 == c.border_width
    &&& t.active_border_color is Some && t.active_border_color->0@ == c.active_border_color
    &&& t.inactive_border_color is Some && t.inactive_border_color->0@ == c.inactive_border_color
    &&& t.clear_color is Some && t.clear_color->0@ == c.clear_color
    &&& t.swipe_threshold == Some(c.swipe_threshold)
    &&& t.workspace_names is Some && present(t.workspace_names->0@) == c.workspace_names
}

/// A table that holds what a configuration was told as stands for that
/// configuration, but for the keybindings, which are the default ones.
pub proof fn told_configuration_is_read_back(t: WmTable, c: crate::config::ConfigView)
    requires
        holds_seeds(t, c),
        c.workspace_names.len() > 0,
    ensures
        config_of(t) == crate::config::default_config().overridden_by(c),
{
}

proof fn filled_grows(list: Seq<(Seq<char>, SeedView)>, n: int)
    requires
        0 <= n < list.len(),
    ensures
        filled(list.take(n + 1)) == filled(list.take(n)).insert(list[n].0, list[n].1),
{
    assert(list.take(n + 1).drop_last() == list.take(n));
}

/// A table that tells of a configuration holds each of its parts under its name.
pub proof fn told_parts(table: Table<'_>, c: crate::config::ConfigView)
    requires
        table_entries(table) == filled(seeds(c)),
    ensures
        table_holds(table, "terminal"@, SeedView::Text(c.terminal)),
        table_holds(table, "launcher"@, SeedView::Text(c.launcher)),
        table_holds(table, "outer_gaps"@, SeedView::Integer(c.outer_gaps)),
        table_holds(table, "inner_gaps"@, SeedView::Integer(c.inner_gaps)),
        table_holds(table, "border_width"@, SeedView::Integer(c.border_width)),
        table_holds(table, "active_border_color"@, SeedView::Text(c.active_border_color)),
        table_holds(table, "inactive_border_color"@, SeedView::Text(c.inactive_border_color)),
        table_holds(table, "clear_color"@, SeedView::Text(c.clear_color)),
        table_holds(table, "swipe_threshold"@, SeedView::Number(c.swipe_threshold)),
        table_holds(table, "workspace_names"@, SeedView::Texts(c.workspace_names)),
        table_holds(table, "autostart"@, SeedView::Texts(seq![])),
{
    reveal_strlit("terminal");
    reveal_strlit("launcher");
    reveal_strlit("outer_gaps");
    reveal_strlit("inner_gaps");
    reveal_strlit("border_width");
    reveal_strlit("active_border_color");
    reveal_strlit("inactive_border_color");
    reveal_strlit("clear_color");
    reveal_strlit("swipe_threshold");
    reveal_strlit("workspace_names");
    reveal_strlit("autostart");
    assert("terminal"@[0] != "launcher"@[0]);
    assert("outer_gaps"@[0] != "inner_gaps"@[0]);
    assert("swipe_threshold"@[0] != "workspace_names"@[0]);
    let list = seeds(c);
    assert(list.take(11) == list);
    filled_grows(list, 0);
    assert(list[0].0 == "terminal"@);
    filled_grows(list, 1);
    assert(list[1].0 == "launcher"@);
    filled_grows(list, 2);
    assert(list[2].0 == "outer_gaps"@);
    filled_grows(list, 3);
    assert(list[3].0 == "inner_gaps"@);
    filled_grows(list, 4);
    assert(list[4].0 == "border_width"@);
    filled_grows(list, 5);
    assert(list[5].0 == "active_border_color"@);
    filled_grows(list, 6);
    assert(list[6].0 == "inactive_border_color"@);
    filled_grows(list, 7);
    assert(list[7].0 == "clear_color"@);
    filled_grows(list, 8);
    assert(list[8].0 == "swipe_threshold"@);
    filled_grows(list, 9);
    assert(list[9].0 == "workspace_names"@);
    filled_grows(list, 10);
    assert(list[10].0 == "autostart"@);
}

/// Of a table that a script was told a configuration by, each part that was kept
/// is read back.
pub proof fn kept_entries_are_read_back(
    t: WmTable,
    table: Table<'_>,
    c: crate::config::ConfigView,
)
    requires
        table_entries(table) == filled(seeds(c)),
        read_of(t, table),
    ensures
        ({
            let read = config_of(t);
            &&& entry_kept(table, "terminal"@) ==> read.terminal == c.terminal
            &&& entry_kept(table, "launcher"@) ==> read.launcher == c.launcher
            &&& entry_kept(table, "outer_gaps"@) ==> read.outer_gaps == c.outer_gaps
            &&& entry_kept(table, "inner_gaps"@) ==> read.inner_gaps == c.inner_gaps
            &&& entry_kept(table, "border_width"@) ==> read.border_width == c.border_width
            &&& entry_kept(table, "active_border_color"@) ==> read.active_border_color
                == c.active_border_color
            &&& entry_kept(table, "inactive_border_color"@) ==> read.inactive_border_color
                == c.inactive_border_color
            &&& entry_kept(table, "clear_color"@) ==> read.clear_color == c.clear_color
            &&& entry_kept(table, "swipe_threshold"@) && !c.swipe_threshold.nan()
                ==> read.swipe_threshold == c.swipe_threshold
            &&& entry_kept(table, "workspace_names"@) && c.workspace_names.len() > 0
                ==> read.workspace_names == c.workspace_names
        }),
{
    told_parts(table, c);
    assert(entry_kept(table, "terminal"@) ==> table_gives(
        table,
        "terminal"@,
        SeedView::Text(c.terminal),
    ));
    assert(entry_kept(table, "launcher"@) ==> table_gives(
        table,
        "launcher"@,
        SeedView::Text(c.launcher),
    ));
    assert(entry_kept(table, "outer_gaps"@) ==> table_gives(
        table,
        "outer_gaps"@,
        SeedView::Integer(c.outer_gaps),
    ));
    assert(entry_kept(table, "inner_gaps"@) ==> table_gives(
        table,
        "inner_gaps"@,
        SeedView::Integer(c.inner_gaps),
    ));
    assert(entry_kept(table, "border_width"@) ==> table_gives(
        table,
        "border_width"@,
        SeedView::Integer(c.border_width),
    ));
    assert(entry_kept(table, "active_border_color"@) ==> table_gives(
        table,
        "active_border_color"@,
        SeedView::Text(c.active_border_color),
    ));
    assert(entry_kept(table, "inactive_border_color"@) ==> table_gives(
        table,
        "inactive_border_color"@,
        SeedView::Text(c.inactive_border_color),
    ));
    assert(entry_kept(table, "clear_color"@) ==> table_gives(
        table,
        "clear_color"@,
        SeedView::Text(c.clear_color),
    ));
    assert(entry_kept(table, "swipe_threshold"@) ==> table_gives(
        table,
        "swipe_threshold"@,
        SeedView::Number(c.swipe_threshold),
    ));
    assert(entry_kept(table, "workspace_names"@) ==> table_gives(
        table,
        "workspace_names"@,
        SeedView::Texts(c.workspace_names),
    ));
}

} // verus!
