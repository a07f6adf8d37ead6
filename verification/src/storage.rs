//! The database schema of the desktop application: the tables that the
//! initial migration creates, what running it does to a database, and the
//! order in which reverting it drops them.

use vstd::prelude::*;

use crate::fmt::string_of;

verus! {

/// Type of a column.
#[derive(Debug, Clone, Copy, PartialEq, Eq, Structural)]
pub enum ColumnType {
    Integer,
    String,
    Text,
    DateTime,
    Boolean,
}

/// Default value of a column.
#[derive(Debug, Clone, Copy, PartialEq, Eq, Structural)]
pub enum ColumnDefault {
    NoDefault,
    Bool(bool),
    Int(i64),
}

/// A column of a table.
#[derive(Debug, Clone, PartialEq, Eq)]
pub struct ColumnDef {
    pub name: String,
    pub column_type: ColumnType,
    pub not_null: bool,
    pub auto_increment: bool,
    pub primary_key: bool,
    pub default: ColumnDefault,
}

/// A foreign key whose rows are deleted with the row they refer to.
#[derive(Debug, Clone, PartialEq, Eq)]
pub struct ForeignKeyDef {
    pub column: String,
    pub references_table: String,
    pub references_column: String,
}

/// A table, created only if it does not exist yet.
#[derive(Debug, Clone, PartialEq, Eq)]
pub struct TableDef {
    pub name: String,
    pub columns: Vec<ColumnDef>,
    pub foreign_keys: Vec<ForeignKeyDef>,
}

/// The content of a column definition.
pub struct ColumnView {
    pub name: Seq<char>,
    pub column_type: ColumnType,
    pub not_null: bool,
    pub auto_increment: bool,
    pub primary_key: bool,
    pub default: ColumnDefault,
}

/// The content of a table definition.
pub struct TableView {
    pub name: Seq<char>,
    pub columns: Seq<ColumnView>,
    pub foreign_keys: Seq<(Seq<char>, Seq<char>, Seq<char>)>,
}

pub open spec fn column_view(c: ColumnDef) -> ColumnView {
    ColumnView {
        name: c.name@,
        column_type: c.column_type,
        not_null: c.not_null,
        auto_increment: c.auto_increment,
        primary_key: c.primary_key,
        default: c.default,
    }
}

pub open spec fn table_view(t: TableDef) -> TableView {
    TableView {
        name: t.name@,
        columns: t.columns@.map_values(|c: ColumnDef| column_view(c)),
        foreign_keys: t.foreign_keys@.map_values(
            |f: ForeignKeyDef| (f.column@, f.references_table@, f.references_column@),
        ),
    }
}

/// An auto-incremented integer primary key named `id`.
pub open spec fn id_column() -> ColumnView {
    ColumnView {
        name: "id"@,
        column_type: ColumnType::Integer,
        not_null: true,
        auto_increment: true,
        primary_key: true,
        default: ColumnDefault::NoDefault,
    }
}

/// A plain column.
pub open spec fn plain(name: Seq<char>, column_type: ColumnType, not_null: bool) -> ColumnView {
    ColumnView {
        name,
        column_type,
        not_null,
        auto_increment: false,
        primary_key: false,
        default: ColumnDefault::NoDefault,
    }
}

/// The tables that the initial migration creates, in order.
pub open spec fn schema() -> Seq<TableView> {
    seq![
        TableView {
            name: "plugins"@,
            columns: seq![
                id_column(),
                plain("name"@, ColumnType::String, true),
                plain("version"@, ColumnType::String, true),
                plain("description"@, ColumnType::String, false),
                plain("author"@, ColumnType::String, false),
                plain("zip_path"@, ColumnType::String, true),
                plain("installed_at"@, ColumnType::DateTime, true),
                ColumnView {
                    default: ColumnDefault::Bool(true),
                    ..plain("is_enabled"@, ColumnType::Boolean, true)
                },
            ],
            foreign_keys: seq![],
        },
        TableView {
            name: "workflows"@,
            columns: seq![
                id_column(),
                plain("plugin_id"@, ColumnType::Integer, true),
                plain("name"@, ColumnType::String, true),
                plain("description"@, ColumnType::String, false),
                plain("script"@, ColumnType::Text, true),
                plain("created_at"@, ColumnType::DateTime, true),
                plain("updated_at"@, ColumnType::DateTime, true),
                plain("last_run_at"@, ColumnType::DateTime, false),
                ColumnView {
                    default: ColumnDefault::Int(0),
                    ..plain("run_count"@, ColumnType::Integer, true)
                },
            ],
            foreign_keys: seq![("plugin_id"@, "plugins"@, "id"@)],
        },
        TableView {
            name: "task_history"@,
            columns: seq![
                id_column(),
                plain("workflow_id"@, ColumnType::Integer, true),
                plain("status"@, ColumnType::String, true),
                plain("started_at"@, ColumnType::DateTime, true),
                plain("finished_at"@, ColumnType::DateTime, false),
                plain("logs"@, ColumnType::Text, true),
                plain("error_message"@, ColumnType::String, false),
            ],
            foreign_keys: seq![("workflow_id"@, "workflows"@, "id"@)],
        },
        TableView {
            name: "settings"@,
            columns: seq![
                ColumnView { primary_key: true, ..plain("key"@, ColumnType::String, true) },
                plain("value"@, ColumnType::String, true),
                plain("updated_at"@, ColumnType::DateTime, true),
            ],
            foreign_keys: seq![],
        },
    ]
}

fn column(name: &str, column_type: ColumnType, not_null: bool) -> (r: ColumnDef)
    ensures
        column_view(r) == plain(name@, column_type, not_null),
{
    ColumnDef {
        name: string_of(name),
        column_type,
        not_null,
        auto_increment: false,
        primary_key: false,
        default: ColumnDefault::NoDefault,
    }
}

fn id() -> (r: ColumnDef)
    ensures
        column_view(r) == id_column(),
{
    ColumnDef {
        name: string_of("id"),
        column_type: ColumnType::Integer,
        not_null: true,
        auto_increment: true,
        primary_key: true,
        default: ColumnDefault::NoDefault,
    }
}

fn foreign_key(column: &str, table: &str, target: &str) -> (r: ForeignKeyDef)
    ensures
        r.column@ == column@,
        r.references_table@ == table@,
        r.references_column@ == target@,
{
    ForeignKeyDef {
        column: string_of(column),
        references_table: string_of(table),
        references_column: string_of(target),
    }
}

/// The name of the initial migration.
pub fn migration_name() -> (r: &'static str)
    ensures
        r@ == "m20240415_000001_init_tables"@,
{
    "m20240415_000001_init_tables"
}

/// The tables that the initial migration creates, in order.
pub fn init_tables() -> (r: Vec<TableDef>)
    ensures
        r@.map_values(|t: TableDef| table_view(t)) == schema(),
{
    let mut plugins: Vec<ColumnDef> = Vec::new();
    plugins.push(id());
    plugins.push(column("name", ColumnType::String, true));
    plugins.push(column("version", ColumnType::String, true));
    plugins.push(column("description", ColumnType::String, false));
    plugins.push(column("author", ColumnType::String, false));
    plugins.push(column("zip_path", ColumnType::String, true));
    plugins.push(column("installed_at", ColumnType::DateTime, true));
    let mut enabled = column("is_enabled", ColumnType::Boolean, true);
    enabled.default = ColumnDefault::Bool(true);
    plugins.push(enabled);

    let mut workflows: Vec<ColumnDef> = Vec::new();
    workflows.push(id());
    workflows.push(column("plugin_id", ColumnType::Integer, true));
    workflows.push(column("name", ColumnType::String, true));
    workflows.push(column("description", ColumnType::String, false));
    workflows.push(column("script", ColumnType::Text, true));
    workflows.push(column("created_at", ColumnType::DateTime, true));
    workflows.push(column("updated_at", ColumnType::DateTime, true));
    workflows.push(column("last_run_at", ColumnType::DateTime, false));
    let mut runs = column("run_count", ColumnType::Integer, true);
    runs.default = ColumnDefault::Int(0);
    workflows.push(runs);
    let mut workflow_fks: Vec<ForeignKeyDef> = Vec::new();
    workflow_fks.push(foreign_key("plugin_id", "plugins", "id"));

    let mut history: Vec<ColumnDef> = Vec::new();
    history.push(id());
    history.push(column("workflow_id", ColumnType::Integer, true));
    history.push(column("status", ColumnType::String, true));
    history.push(column("started_at", ColumnType::DateTime, true));
    history.push(column("finished_at", ColumnType::DateTime, false));
    history.push(column("logs", ColumnType::Text, true));
    history.push(column("error_message", ColumnType::String, false));
    let mut history_fks: Vec<ForeignKeyDef> = Vec::new();
    history_fks.push(foreign_key("workflow_id", "workflows", "id"));

    let mut settings: Vec<ColumnDef> = Vec::new();
    let mut key = column("key", ColumnType::String, true);
    key.primary_key = true;
    settings.push(key);
    settings.push(column("value", ColumnType::String, true));
    settings.push(column("updated_at", ColumnType::DateTime, true));

    let mut r: Vec<TableDef> = Vec::new();
    r.push(TableDef { name: string_of("plugins"), columns: plugins, foreign_keys: Vec::new() });
    r.push(
        TableDef { name: string_of("workflows"), columns: workflows, foreign_keys: workflow_fks },
    );
    r.push(
        TableDef { name: string_of("task_history"), columns: history, foreign_keys: history_fks },
    );
    r.push(TableDef { name: string_of("settings"), columns: settings, foreign_keys: Vec::new() });
    proof {
        let v = r@.map_values(|t: TableDef| table_view(t));
        let s = schema();
        assert(table_view(r@[0]).columns =~= s[0].columns);
        assert(table_view(r@[0]).foreign_keys =~= s[0].foreign_keys);
        assert(table_view(r@[1]).columns =~= s[1].columns);
        assert(table_view(r@[1]).foreign_keys =~= s[1].foreign_keys);
        assert(table_view(r@[2]).columns =~= s[2].columns);
        assert(table_view(r@[2]).foreign_keys =~= s[2].foreign_keys);
        assert(table_view(r@[3]).columns =~= s[3].columns);
        assert(table_view(r@[3]).foreign_keys =~= s[3].foreign_keys);
        assert(v =~= s);
    }
    r
}

/// The tables that reverting the migration drops, in order: every table
/// is dropped before the tables it refers to.
pub fn dropped_tables() -> (r: Vec<&'static str>)
    ensures
        r@.map_values(|t: &str| t@) == seq!["task_history"@, "workflows"@, "plugins"@, "settings"@],
{
    let mut r: Vec<&'static str> = Vec::new();
    r.push("task_history");
    r.push("workflows");
    r.push("plugins");
    r.push("settings");
    assert(r@.map_values(|t: &str| t@) =~= seq![
        "task_history"@,
        "workflows"@,
        "plugins"@,
        "settings"@,
    ]);
    r
}

// ---------------------------------------------------------------------
// What running the migration does to a database
// ---------------------------------------------------------------------

/// Creating a table only if none of that name exists (`IF NOT EXISTS`): a
/// table already present is left as it is.
pub open spec fn create_if_absent(db: Map<Seq<char>, TableView>, t: TableView) -> Map<
    Seq<char>,
    TableView,
> {
    if db.dom().contains(t.name) {
        db
    } else {
        db.insert(t.name, t)
    }
}

/// Running the first `n` creates of the migration, in order, on a database
/// given by its tables; create `i` succeeds when `ok[i]`. Gives the
/// database after, and the index of the create that failed, if one did: the
/// creates after a failed one are not run.
pub open spec fn migrate_up(db: Map<Seq<char>, TableView>, ok: Seq<bool>, n: nat) -> (
    Map<Seq<char>, TableView>,
    Option<nat>,
)
    decreases n,
{
    if n == 0 {
        (db, None)
    } else {
        let (d, f) = migrate_up(db, ok, (n - 1) as nat);
        if f is Some {
            (d, f)
        } else if ok[n - 1] {
            (create_if_absent(d, schema()[n - 1]), None)
        } else {
            (d, Some((n - 1) as nat))
        }
    }
}

/// Running the whole migration.
pub open spec fn migration_up(db: Map<Seq<char>, TableView>, ok: Seq<bool>) -> (
    Map<Seq<char>, TableView>,
    Option<nat>,
) {
    migrate_up(db, ok, schema().len())
}

proof fn lemma_schema_names_distinct()
    ensures
        schema().len() == 4,
        forall|i: int, j: int|
            0 <= i < 4 && 0 <= j < 4 && i != j ==> schema()[i].name != schema()[j].name,
{
    reveal_strlit("plugins");
    reveal_strlit("workflows");
    reveal_strlit("task_history");
    reveal_strlit("settings");
    assert("plugins"@.len() == 7);
    assert("workflows"@.len() == 9);
    assert("task_history"@.len() == 12);
    assert("settings"@.len() == 8);
}

proof fn lemma_migrate_up(db: Map<Seq<char>, TableView>, ok: Seq<bool>, n: nat)
    requires
        n <= 4,
    ensures
        migrate_up(db, ok, n).1 is None <==> forall|i: int| 0 <= i < n ==> ok[i],
        migrate_up(db, ok, n).1 matches Some(k) ==> k < n && !ok[k as int] && forall|i: int|
            0 <= i < k ==> ok[i],
        forall|key: Seq<char>|
            #[trigger] db.dom().contains(key) ==> migrate_up(db, ok, n).0.dom().contains(key) && migrate_up(
                db,
                ok,
                n,
            ).0[key] == db[key],
        forall|i: int|
            0 <= i < n && (migrate_up(db, ok, n).1 is None || i < migrate_up(db, ok, n).1->0)
                ==> migrate_up(db, ok, n).0.dom().contains(schema()[i].name) && (!db.dom().contains(
                schema()[i].name,
            ) ==> migrate_up(db, ok, n).0[schema()[i].name] == schema()[i]),
        forall|key: Seq<char>|
            migrate_up(db, ok, n).0.dom().contains(key) && !db.dom().contains(key) ==> exists|i: int|
                0 <= i < n && (migrate_up(db, ok, n).1 is None || i < migrate_up(db, ok, n).1->0)
                    && key == schema()[i].name,
    decreases n,
{
    lemma_schema_names_distinct();
    if n > 0 {
        lemma_migrate_up(db, ok, (n - 1) as nat);
        let d0 = migrate_up(db, ok, (n - 1) as nat).0;
        let f0 = migrate_up(db, ok, (n - 1) as nat).1;
        let d = migrate_up(db, ok, n).0;
        let f = migrate_up(db, ok, n).1;
        if f0 is None && ok[n - 1] {
            let t = schema()[n - 1];
            assert(f is None);
            assert(d == create_if_absent(d0, t));
            assert forall|key: Seq<char>| d.dom().contains(key) && !db.dom().contains(key) implies exists|i: int|
                0 <= i < n && (f is None || i < f->0) && key == schema()[i].name by {
                if key == t.name {
                    assert(0 <= n - 1 < n && key == schema()[n - 1].name);
                } else {
                    assert(d0.dom().contains(key));
                    let j = choose|j: int|
                        0 <= j < n - 1 && (f0 is None || j < f0->0) && key == schema()[j].name;
                    assert(0 <= j < n && key == schema()[j].name);
                }
            }
            assert forall|i: int|
                0 <= i < n && (f is None || i < f->0) implies d.dom().contains(schema()[i].name) && (
                !db.dom().contains(schema()[i].name) ==> d[schema()[i].name] == schema()[i]) by {
                if i < n - 1 {
                    assert(d0.dom().contains(schema()[i].name));
                    assert(schema()[i].name != t.name);
                }
            }
            assert forall|key: Seq<char>| db.dom().contains(key) implies d.dom().contains(key)
                && d[key] == db[key] by {
                assert(d0.dom().contains(key));
            }
            assert((forall|i: int| 0 <= i < n ==> ok[i]));
        } else if f0 is None {
            assert(f == Some((n - 1) as nat));
            assert(d == d0);
            assert(!(forall|i: int| 0 <= i < n ==> ok[i])) by {
                assert(!ok[n - 1]);
            }
        } else {
            assert(f == f0 && d == d0);
            assert(!(forall|i: int| 0 <= i < n ==> ok[i])) by {
                let k = f0->0;
                assert(!ok[k as int]);
            }
        }
    }
}

proof fn lemma_migrate_again(d: Map<Seq<char>, TableView>, ok: Seq<bool>, n: nat)
    requires
        n <= 4,
        forall|i: int| 0 <= i < n ==> ok[i],
        forall|i: int| 0 <= i < n ==> d.dom().contains(schema()[i].name),
    ensures
        migrate_up(d, ok, n) == (d, None::<nat>),
    decreases n,
{
    if n > 0 {
        lemma_migrate_again(d, ok, (n - 1) as nat);
    }
}

/// Running the migration on a database: when every create succeeds, all
/// the tables of the schema exist, each table that was absent as declared,
/// and every table already present left as it was; the first create that
/// fails ends it with its error, after the earlier tables were created and
/// before any later one is; and running it again on the result changes
/// nothing.
pub proof fn law_migration_up(db: Map<Seq<char>, TableView>, ok: Seq<bool>)
    requires
        ok.len() == 4,
    ensures
        ({
            let (d, f) = migration_up(db, ok);
            &&& f is None <==> forall|i: int| 0 <= i < 4 ==> ok[i]
            &&& forall|key: Seq<char>| #[trigger] db.dom().contains(key) ==> d.dom().contains(key)
                && d[key] == db[key]
            &&& f is None ==> forall|i: int|
                0 <= i < 4 ==> d.dom().contains(schema()[i].name) && (!db.dom().contains(
                    schema()[i].name,
                ) ==> d[schema()[i].name] == schema()[i])
            &&& f matches Some(k) ==> {
                &&& !ok[k as int]
                &&& forall|i: int| 0 <= i < k ==> ok[i] && d.dom().contains(schema()[i].name)
                &&& forall|i: int|
                    k <= i < 4 ==> (d.dom().contains(schema()[i].name) <==> db.dom().contains(
                        schema()[i].name,
                    ))
            }
            &&& f is None ==> migration_up(d, ok) == (d, None::<nat>)
        }),
{
    lemma_schema_names_distinct();
    lemma_migrate_up(db, ok, 4);
    assert(migration_up(db, ok) == migrate_up(db, ok, 4));
    let (d, f) = migration_up(db, ok);
    if let Some(k) = f {
        assert forall|i: int| k <= i < 4 implies (d.dom().contains(schema()[i].name)
            <==> db.dom().contains(schema()[i].name)) by {
            let key = schema()[i].name;
            if db.dom().contains(key) {
                assert(d.dom().contains(key));
            }
            if d.dom().contains(key) && !db.dom().contains(key) {
                assert(exists|j: int| 0 <= j < 4 && (f is None || j < f->0) && key == schema()[j].name);
                let j = choose|j: int| 0 <= j < 4 && (f is None || j < f->0) && key == schema()[j].name;
                assert(j != i);
            }
        }
    } else {
        lemma_migrate_again(d, ok, 4);
    }
}

} // verus!
