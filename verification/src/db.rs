//! Trusted boundary to the embedded relational store. A `Store` couples the
//! live connection with a ghost view of the three tables; each wrapper holds
//! one statement and states, from SQLite's documented behaviour, how the
//! view moves. A failed statement changes nothing (statements are atomic);
//! what a successful one did is exactly what its contract says. The view
//! models the database under this handle's exclusive use.

use vstd::prelude::*;

use crate::strutil::opt_views;
use crate::strutil::str_views;

verus! {

#[verifier::external_type_specification]
#[verifier::external_body]
pub struct ExConnection(rusqlite::Connection);

/// One configuration row as the store returns it: the fourteen text columns
/// in statement order, then the integer model reference; absent, unreadable
/// or NULL columns are `None`.
pub struct ConfigRow {
    pub texts: Vec<Option<String>>,
    pub active_model_id: Option<i64>,
}

/// One configuration row of the view, by what reads return.
pub struct ConfigRowM {
    pub texts: Seq<Option<Seq<char>>>,
    pub active_model_id: Option<i64>,
}

/// One model-library row of the view.
pub struct ModelRowM {
    pub id: i64,
    pub name: Seq<char>,
    pub path: Seq<char>,
}

/// What the store holds: the configuration table's columns (absent before
/// the table exists) and its rows in id order, the model library in id
/// order, and the work queue in insertion order.
pub struct StoreModel {
    pub config_cols: Option<Seq<Seq<char>>>,
    pub config: Seq<ConfigRowM>,
    pub models: Seq<ModelRowM>,
    pub queue: Seq<Seq<char>>,
}

/// A store with nothing in it, as a fresh database is.
pub open spec fn fresh_store() -> StoreModel {
    StoreModel {
        config_cols: None,
        config: Seq::empty(),
        models: Seq::empty(),
        queue: Seq::empty(),
    }
}

/// The sixteen configuration columns a fresh table is created with.
pub open spec fn fresh_config_cols() -> Seq<Seq<char>> {
    seq![
        "id"@,
        "model"@,
        "imgsz"@,
        "iou"@,
        "conf"@,
        "convert_shp"@,
        "convert_kml"@,
        "max_det"@,
        "line_width"@,
        "show_labels"@,
        "show_conf"@,
        "status_blok"@,
        "save_annotated"@,
        "last_folder_path"@,
        "device"@,
        "active_model_id"@,
    ]
}

/// Existing rows as reads see them once the device column arrives with its
/// constant default.
pub open spec fn rows_with_device_default(rows: Seq<ConfigRowM>) -> Seq<ConfigRowM> {
    Seq::new(
        rows.len(),
        |i: int|
            ConfigRowM {
                texts: rows[i].texts.update(13, Some("auto"@)),
                active_model_id: rows[i].active_model_id,
            },
    )
}

/// Existing rows as reads see them once the model reference arrives NULL.
pub open spec fn rows_with_active_null(rows: Seq<ConfigRowM>) -> Seq<ConfigRowM> {
    Seq::new(
        rows.len(),
        |i: int| ConfigRowM { texts: rows[i].texts, active_model_id: None },
    )
}

/// The model row with this id, if any.
pub open spec fn find_model(models: Seq<ModelRowM>, id: i64) -> Option<ModelRowM>
    decreases models.len(),
{
    if models.len() == 0 {
        None
    } else if models[0].id == id {
        Some(models[0])
    } else {
        find_model(models.skip(1), id)
    }
}

/// The library without the rows of this id.
pub open spec fn remove_model_rows(models: Seq<ModelRowM>, id: i64) -> Seq<ModelRowM>
    decreases models.len(),
{
    if models.len() == 0 {
        models
    } else if models[0].id == id {
        remove_model_rows(models.skip(1), id)
    } else {
        seq![models[0]] + remove_model_rows(models.skip(1), id)
    }
}

/// A path removed from the queue; every other entry keeps its place.
pub open spec fn queue_without(q: Seq<Seq<char>>, p: Seq<char>) -> Seq<Seq<char>>
    decreases q.len(),
{
    if q.len() == 0 {
        q
    } else if q[0] == p {
        queue_without(q.skip(1), p)
    } else {
        seq![q[0]] + queue_without(q.skip(1), p)
    }
}

/// The live store handle.
pub struct Store {
    conn: rusqlite::Connection,
    model: Ghost<StoreModel>,
}

impl View for Store {
    type V = StoreModel;

    closed spec fn view(&self) -> StoreModel {
        self.model@
    }
}

/// Relies on rusqlite::Connection::open and a PRAGMA: opens the file with
/// whatever it already holds.
#[verifier::external_body]
fn open_conn(path: &str) -> (r: Result<rusqlite::Connection, String>) {
    let conn = rusqlite::Connection::open(path).map_err(|e| e.to_string())?;
    conn.execute_batch("PRAGMA foreign_keys = ON;").map_err(|e| e.to_string())?;
    Ok(conn)
}

/// Relies on rusqlite::Connection::open_in_memory and a PRAGMA: a fresh
/// in-memory database holds no tables and no rows.
#[verifier::external_body]
fn open_in_memory_conn() -> (r: Result<rusqlite::Connection, String>) {
    let conn = rusqlite::Connection::open_in_memory().map_err(|e| e.to_string())?;
    conn.execute_batch("PRAGMA foreign_keys = ON;").map_err(|e| e.to_string())?;
    Ok(conn)
}

impl Store {
    /// Open the store file; what it already holds is unknown, so the view
    /// starts unconstrained and every contract over it is relative.
    pub fn open(path: &str) -> (r: Result<Store, String>) {
        match open_conn(path) {
            Ok(conn) => Ok(Store { conn, model: Ghost(arbitrary()) }),
            Err(e) => Err(e),
        }
    }

    /// Open a fresh in-memory store; a fresh database is empty, so the view
    /// starts empty.
    pub fn open_in_memory() -> (r: Result<Store, String>)
        ensures
            r matches Ok(st) ==> st@ == fresh_store(),
    {
        match open_in_memory_conn() {
            Ok(conn) => Ok(Store { conn, model: Ghost(fresh_store()) }),
            Err(e) => Err(e),
        }
    }

    /// Relies on rusqlite::Connection::execute running CREATE TABLE IF NOT
    /// EXISTS for `configuration`: an absent table appears with the sixteen
    /// standard columns, an existing one is untouched.
    #[verifier::external_body]
    pub fn create_config_table(&mut self) -> (r: Result<usize, String>)
        ensures
            r is Ok ==> final(self)@ == (StoreModel {
                config_cols: Some(
                    match old(self)@.config_cols {
                        None => fresh_config_cols(),
                        Some(c) => c,
                    },
                ),
                ..old(self)@
            }),
            r is Err ==> final(self)@ == old(self)@,
    {
        self.conn.execute(
            "CREATE TABLE IF NOT EXISTS configuration (id INTEGER PRIMARY KEY AUTOINCREMENT, model TEXT, imgsz TEXT, iou TEXT, conf TEXT, convert_shp TEXT, convert_kml TEXT, max_det TEXT, line_width TEXT, show_labels TEXT, show_conf TEXT, status_blok TEXT, save_annotated TEXT, last_folder_path TEXT, device TEXT, active_model_id INTEGER)",
            [],
        ).map_err(|e| e.to_string())
    }

    /// Relies on rusqlite::Connection::execute running CREATE TABLE IF NOT
    /// EXISTS for `yolo_models`: rows are never touched either way.
    #[verifier::external_body]
    pub fn create_models_table(&mut self) -> (r: Result<usize, String>)
        ensures
            final(self)@ == old(self)@,
    {
        self.conn.execute(
            "CREATE TABLE IF NOT EXISTS yolo_models (id INTEGER PRIMARY KEY AUTOINCREMENT, name TEXT NOT NULL, path TEXT NOT NULL, created_at TEXT DEFAULT (datetime('now')))",
            [],
        ).map_err(|e| e.to_string())
    }

    /// Relies on rusqlite::Connection::execute running CREATE TABLE IF NOT
    /// EXISTS for `tiff_files` with its UNIQUE path: rows are never touched
    /// either way.
    #[verifier::external_body]
    pub fn create_tiff_table(&mut self) -> (r: Result<usize, String>)
        ensures
            final(self)@ == old(self)@,
    {
        self.conn.execute(
            "CREATE TABLE IF NOT EXISTS tiff_files (id INTEGER PRIMARY KEY AUTOINCREMENT, path TEXT UNIQUE NOT NULL, created_at TEXT DEFAULT (datetime('now')))",
            [],
        ).map_err(|e| e.to_string())
    }

    /// Relies on rusqlite::Statement::query_map over pragma_table_info: the
    /// configuration table's column names in order; an absent table lists
    /// none.
    #[verifier::external_body]
    pub fn config_columns(&self) -> (r: Result<Vec<String>, String>)
        ensures
            r matches Ok(v) ==> str_views(v@) == (match self@.config_cols {
                Some(c) => c,
                None => Seq::<Seq<char>>::empty(),
            }),
    {
        let mut stmt = self.conn.prepare(
            "SELECT name FROM pragma_table_info('configuration')",
        ).map_err(|e| e.to_string())?;
        let rows = stmt.query_map([], |row| row.get::<_, String>(0)).map_err(|e| e.to_string())?;
        rows.collect::<Result<Vec<_>, _>>().map_err(|e| e.to_string())
    }

    /// Relies on rusqlite::Connection::execute running ALTER TABLE ADD
    /// COLUMN device TEXT DEFAULT 'auto': succeeds only when the table
    /// exists without that column; existing rows read the constant default.
    #[verifier::external_body]
    pub fn alter_add_device(&mut self) -> (r: Result<usize, String>)
        ensures
            r is Ok ==> (old(self)@.config_cols matches Some(c) && !c.contains("device"@)
                && final(self)@ == (StoreModel {
                config_cols: Some(c.push("device"@)),
                config: rows_with_device_default(old(self)@.config),
                ..old(self)@
            })),
            r is Err ==> final(self)@ == old(self)@,
    {
        self.conn.execute(
            "ALTER TABLE configuration ADD COLUMN device TEXT DEFAULT 'auto'",
            [],
        ).map_err(|e| e.to_string())
    }

    /// Relies on rusqlite::Connection::execute running ALTER TABLE ADD
    /// COLUMN active_model_id INTEGER: succeeds only when the table exists
    /// without that column; existing rows read NULL.
    #[verifier::external_body]
    pub fn alter_add_active_model_id(&mut self) -> (r: Result<usize, String>)
        ensures
            r is Ok ==> (old(self)@.config_cols matches Some(c) && !c.contains(
                "active_model_id"@,
            ) && final(self)@ == (StoreModel {
                config_cols: Some(c.push("active_model_id"@)),
                config: rows_with_active_null(old(self)@.config),
                ..old(self)@
            })),
            r is Err ==> final(self)@ == old(self)@,
    {
        self.conn.execute(
            "ALTER TABLE configuration ADD COLUMN active_model_id INTEGER",
            [],
        ).map_err(|e| e.to_string())
    }

    /// Relies on rusqlite::Connection::query_row running SELECT COUNT(*)
    /// FROM configuration.
    #[verifier::external_body]
    pub fn count_config_rows(&self) -> (r: Result<i64, String>)
        ensures
            r matches Ok(n) ==> n == self@.config.len(),
    {
        self.conn.query_row("SELECT COUNT(*) FROM configuration", [], |row| row.get::<_, i64>(0))
            .map_err(|e| e.to_string())
    }

    /// Relies on rusqlite::Connection::execute running the fifteen-column
    /// configuration INSERT: one row is appended holding exactly the bound
    /// texts and model reference.
    #[verifier::external_body]
    pub fn insert_config_row(&mut self, texts: &Vec<Option<String>>, active: Option<i64>) -> (r:
        Result<usize, String>)
        requires
            texts@.len() == 14,
        ensures
            r is Ok ==> final(self)@ == (StoreModel {
                config: old(self)@.config.push(
                    ConfigRowM { texts: opt_views(texts@), active_model_id: active },
                ),
                ..old(self)@
            }),
            r is Err ==> final(self)@ == old(self)@,
    {
        let mut ps: Vec<&dyn rusqlite::ToSql> = Vec::new();
        for t in texts.iter() {
            ps.push(t as &dyn rusqlite::ToSql);
        }
        ps.push(&active as &dyn rusqlite::ToSql);
        self.conn.execute(
            "INSERT INTO configuration (model, imgsz, iou, conf, convert_shp, convert_kml, max_det, line_width, show_labels, show_conf, status_blok, save_annotated, last_folder_path, device, active_model_id) VALUES (?1, ?2, ?3, ?4, ?5, ?6, ?7, ?8, ?9, ?10, ?11, ?12, ?13, ?14, ?15)",
            &ps[..],
        ).map_err(|e| e.to_string())
    }

    /// Relies on rusqlite::Connection::query_row over ORDER BY id DESC
    /// LIMIT 1, each column read independently and leniently: the latest
    /// configuration row, or `None` from an empty table.
    #[verifier::external_body]
    pub fn query_latest_config_row(&self) -> (r: Result<Option<ConfigRow>, String>)
        ensures
            r matches Ok(row) ==> (match row {
                None => self@.config.len() == 0,
                Some(row) => self@.config.len() > 0 && row.texts@.len() == 14 && opt_views(
                    row.texts@,
                ) == self@.config.last().texts && row.active_model_id
                    == self@.config.last().active_model_id,
            }),
    {
        let res = self.conn.query_row(
            "SELECT model, imgsz, iou, conf, convert_shp, convert_kml, max_det, line_width, show_labels, show_conf, status_blok, save_annotated, last_folder_path, device, active_model_id FROM configuration ORDER BY id DESC LIMIT 1",
            [],
            |r| Ok(ConfigRow {
                texts: (0..14).map(|i| r.get(i).ok()).collect(),
                active_model_id: r.get(14).ok().flatten(),
            }),
        );
        match res {
            Ok(row) => Ok(Some(row)),
            Err(rusqlite::Error::QueryReturnedNoRows) => Ok(None),
            Err(e) => Err(e.to_string()),
        }
    }

    /// Relies on rusqlite::Connection::execute running the yolo_models
    /// INSERT and on last_insert_rowid: the row is appended under a fresh
    /// rowid, larger than every id the table has ever held.
    #[verifier::external_body]
    pub fn insert_model_row(&mut self, name: &String, path: &String) -> (r: Result<i64, String>)
        ensures
            r matches Ok(id) ==> final(self)@ == (StoreModel {
                models: old(self)@.models.push(ModelRowM { id, name: name@, path: path@ }),
                ..old(self)@
            }) && (forall|j: int|
                0 <= j < old(self)@.models.len() ==> old(self)@.models[j].id < id),
            r is Err ==> final(self)@ == old(self)@,
    {
        self.conn.execute(
            "INSERT INTO yolo_models (name, path) VALUES (?1, ?2)",
            [name, path],
        ).map_err(|e| e.to_string())?;
        Ok(self.conn.last_insert_rowid())
    }

    /// Relies on rusqlite::Statement::query_map over SELECT id, name, path
    /// ORDER BY id: the library's rows in id order, which is their
    /// insertion order under AUTOINCREMENT.
    #[verifier::external_body]
    pub fn query_model_rows(&self) -> (r: Result<Vec<(i64, String, String)>, String>)
        ensures
            r matches Ok(v) ==> v@.len() == self@.models.len() && (forall|i: int|
                0 <= i < v@.len() ==> (#[trigger] v@[i]).0 == self@.models[i].id && v@[i].1@
                    == self@.models[i].name && v@[i].2@ == self@.models[i].path),
    {
        let mut stmt = self.conn.prepare("SELECT id, name, path FROM yolo_models ORDER BY id")
            .map_err(|e| e.to_string())?;
        let rows = stmt.query_map([], |row| Ok((row.get(0)?, row.get(1)?, row.get(2)?)))
            .map_err(|e| e.to_string())?;
        rows.collect::<Result<Vec<_>, _>>().map_err(|e| e.to_string())
    }

    /// Relies on rusqlite::Connection::query_row over SELECT path WHERE id:
    /// the row's path when the id exists — the column is declared NOT NULL,
    /// so an existing row always yields one — and an error, as the store
    /// reports a missing row, when it does not.
    #[verifier::external_body]
    pub fn query_model_path(&self, id: i64) -> (r: Result<Option<String>, String>)
        ensures
            find_model(self@.models, id) is None ==> r is Err,
            r matches Ok(p) ==> (find_model(self@.models, id) matches Some(m) && (
            p matches Some(q) && q@ == m.path)),
    {
        self.conn.query_row(
            "SELECT path FROM yolo_models WHERE id = ?1",
            [id],
            |row| row.get::<_, Option<String>>(0),
        ).map_err(|e| e.to_string())
    }

    /// Relies on rusqlite::Connection::execute running DELETE FROM
    /// yolo_models WHERE id: exactly the rows of that id disappear.
    #[verifier::external_body]
    pub fn delete_model_row(&mut self, id: i64) -> (r: Result<usize, String>)
        ensures
            r is Ok ==> final(self)@ == (StoreModel {
                models: remove_model_rows(old(self)@.models, id),
                ..old(self)@
            }),
            r is Err ==> final(self)@ == old(self)@,
    {
        self.conn.execute("DELETE FROM yolo_models WHERE id = ?1", [id]).map_err(|e| e.to_string())
    }

    /// Relies on rusqlite::Connection::execute running INSERT OR IGNORE
    /// INTO tiff_files: a new path is appended and one row reported
    /// changed; a path already queued changes nothing and reports zero.
    #[verifier::external_body]
    pub fn insert_tiff_path(&mut self, path: &String) -> (r: Result<usize, String>)
        ensures
            r matches Ok(n) ==> (if old(self)@.queue.contains(path@) {
                n == 0 && final(self)@ == old(self)@
            } else {
                n == 1 && final(self)@ == (StoreModel {
                    queue: old(self)@.queue.push(path@),
                    ..old(self)@
                })
            }),
            r is Err ==> final(self)@ == old(self)@,
    {
        self.conn.execute("INSERT OR IGNORE INTO tiff_files (path) VALUES (?1)", [path]).map_err(
            |e| e.to_string(),
        )
    }

    /// Relies on rusqlite::Statement::query_map over ORDER BY id: under
    /// AUTOINCREMENT ids only ever grow, so id order is insertion order —
    /// which is also creation-time order, clock or no clock.
    #[verifier::external_body]
    pub fn query_tiff_paths(&self) -> (r: Result<Vec<String>, String>)
        ensures
            r matches Ok(v) ==> str_views(v@) == self@.queue,
    {
        let mut stmt = self.conn.prepare("SELECT path FROM tiff_files ORDER BY id ASC").map_err(
            |e| e.to_string(),
        )?;
        let rows = stmt.query_map([], |row| row.get::<_, String>(0)).map_err(|e| e.to_string())?;
        rows.collect::<Result<Vec<_>, _>>().map_err(|e| e.to_string())
    }

    /// Relies on rusqlite::Connection::execute running DELETE FROM
    /// tiff_files WHERE path: exactly that path disappears, queued or not.
    #[verifier::external_body]
    pub fn delete_tiff_path(&mut self, path: &str) -> (r: Result<usize, String>)
        ensures
            r is Ok ==> final(self)@ == (StoreModel {
                queue: queue_without(old(self)@.queue, path@),
                ..old(self)@
            }),
            r is Err ==> final(self)@ == old(self)@,
    {
        self.conn.execute("DELETE FROM tiff_files WHERE path = ?1", [path]).map_err(
            |e| e.to_string(),
        )
    }
}

} // verus!
