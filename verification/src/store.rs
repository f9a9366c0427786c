//! Config store: settings as an append-only history whose latest row wins,
//! the model library, and the idempotent schema migration. Every operation
//! states how it moves the store's view.

use vstd::prelude::*;

use crate::db::find_model;
use crate::db::fresh_config_cols;
use crate::db::remove_model_rows;
use crate::db::rows_with_active_null;
use crate::db::rows_with_device_default;
use crate::db::ConfigRow;
use crate::db::ConfigRowM;
use crate::db::ModelRowM;
use crate::db::Store;
use crate::db::StoreModel;
use crate::strutil::dec_str;
use crate::strutil::opt_str_view;
use crate::strutil::opt_views;
use crate::strutil::str_eq;
use crate::strutil::str_views;
use crate::strutil::u64_to_dec;

verus! {

/// The configuration record. Inference knobs stay strings so the UI gets
/// back exactly what the user typed.
#[derive(Clone)]
pub struct AppConfig {
    pub model: Option<String>,
    pub imgsz: String,
    pub iou: String,
    pub conf: String,
    pub convert_shp: String,
    pub convert_kml: String,
    pub max_det: String,
    pub line_width: String,
    pub show_labels: String,
    pub show_conf: String,
    pub status_blok: String,
    pub save_annotated: String,
    pub last_folder_path: Option<String>,
    pub device: String,
    pub active_model_id: Option<i64>,
}

/// The in-code default configuration, used when the store has no row yet.
pub open spec fn is_default_config(c: AppConfig) -> bool {
    &&& c.model is None
    &&& c.imgsz@ == "12800"@
    &&& c.iou@ == "0.2"@
    &&& c.conf@ == "0.2"@
    &&& c.convert_shp@ == "true"@
    &&& c.convert_kml@ == "false"@
    &&& c.max_det@ == "10000"@
    &&& c.line_width@ == "3"@
    &&& c.show_labels@ == "true"@
    &&& c.show_conf@ == "false"@
    &&& c.status_blok@ == "Full Blok"@
    &&& c.save_annotated@ == "true"@
    &&& c.last_folder_path is None
    &&& c.device@ == "auto"@
    &&& c.active_model_id is None
}

impl Default for AppConfig {
    fn default() -> (c: Self)
        ensures
            is_default_config(c),
    {
        AppConfig {
            model: None,
            imgsz: "12800".to_owned(),
            iou: "0.2".to_owned(),
            conf: "0.2".to_owned(),
            convert_shp: "true".to_owned(),
            convert_kml: "false".to_owned(),
            max_det: "10000".to_owned(),
            line_width: "3".to_owned(),
            show_labels: "true".to_owned(),
            show_conf: "false".to_owned(),
            status_blok: "Full Blok".to_owned(),
            save_annotated: "true".to_owned(),
            last_folder_path: None,
            device: "auto".to_owned(),
            active_model_id: None,
        }
    }
}

/// A column value, or the in-code default when the column was absent.
pub open spec fn col_or(v: Option<String>, d: Seq<char>) -> Seq<char> {
    match v {
        Some(s) => s@,
        None => d,
    }
}

/// A column's view, or the in-code default when the column was absent.
pub open spec fn col_or_view(v: Option<Seq<char>>, d: Seq<char>) -> Seq<char> {
    match v {
        Some(s) => s,
        None => d,
    }
}

/// The view of text column `i` of a returned row; a column beyond the row
/// reads as absent.
pub open spec fn col_spec(texts: Seq<Option<String>>, i: int) -> Option<Seq<char>> {
    if 0 <= i < texts.len() {
        opt_str_view(texts[i])
    } else {
        None
    }
}

/// A column read as absent when it is absent or empty; the model name is
/// stored as the empty string when there is none, and reads back absent.
pub open spec fn nonempty_col(v: Option<Seq<char>>) -> Option<Seq<char>> {
    match v {
        Some(s) => if s.len() > 0 {
            Some(s)
        } else {
            None
        },
        None => None,
    }
}

fn clone_opt_string(v: &Option<String>) -> (r: Option<String>)
    ensures
        opt_str_view(r) == opt_str_view(*v),
{
    match v {
        Some(s) => Some(s.clone()),
        None => None,
    }
}

fn col(texts: &Vec<Option<String>>, i: usize) -> (r: Option<String>)
    ensures
        opt_str_view(r) == col_spec(texts@, i as int),
{
    if i < texts.len() {
        clone_opt_string(&texts[i])
    } else {
        None
    }
}

fn col_or_default(texts: &Vec<Option<String>>, i: usize, d: &str) -> (r: String)
    ensures
        r@ == col_or_view(col_spec(texts@, i as int), d@),
{
    match col(texts, i) {
        Some(s) => s,
        None => d.to_owned(),
    }
}

fn nonempty(v: Option<String>) -> (r: Option<String>)
    ensures
        opt_str_view(r) == nonempty_col(opt_str_view(v)),
{
    match v {
        Some(s) => if s.as_str().unicode_len() > 0 {
            Some(s)
        } else {
            None
        },
        None => None,
    }
}

/// How a loaded configuration relates to the row the store returned: every
/// readable column is taken as is, every other column falls back to the
/// in-code default; the text columns stand in statement order.
pub open spec fn config_matches_row(c: AppConfig, r: ConfigRow) -> bool {
    &&& opt_str_view(c.model) == nonempty_col(col_spec(r.texts@, 0))
    &&& c.imgsz@ == col_or_view(col_spec(r.texts@, 1), "12800"@)
    &&& c.iou@ == col_or_view(col_spec(r.texts@, 2), "0.2"@)
    &&& c.conf@ == col_or_view(col_spec(r.texts@, 3), "0.2"@)
    &&& c.convert_shp@ == col_or_view(col_spec(r.texts@, 4), "true"@)
    &&& c.convert_kml@ == col_or_view(col_spec(r.texts@, 5), "false"@)
    &&& c.max_det@ == col_or_view(col_spec(r.texts@, 6), "10000"@)
    &&& c.line_width@ == col_or_view(col_spec(r.texts@, 7), "3"@)
    &&& c.show_labels@ == col_or_view(col_spec(r.texts@, 8), "true"@)
    &&& c.show_conf@ == col_or_view(col_spec(r.texts@, 9), "false"@)
    &&& c.status_blok@ == col_or_view(col_spec(r.texts@, 10), "Full Blok"@)
    &&& c.save_annotated@ == col_or_view(col_spec(r.texts@, 11), "true"@)
    &&& opt_str_view(c.last_folder_path) == col_spec(r.texts@, 12)
    &&& c.device@ == col_or_view(col_spec(r.texts@, 13), "auto"@)
    &&& c.active_model_id == r.active_model_id
}

/// The same reading against a row of the view.
pub open spec fn config_matches_rowm(c: AppConfig, r: ConfigRowM) -> bool {
    &&& opt_str_view(c.model) == nonempty_col(r.texts[0])
    &&& c.imgsz@ == col_or_view(r.texts[1], "12800"@)
    &&& c.iou@ == col_or_view(r.texts[2], "0.2"@)
    &&& c.conf@ == col_or_view(r.texts[3], "0.2"@)
    &&& c.convert_shp@ == col_or_view(r.texts[4], "true"@)
    &&& c.convert_kml@ == col_or_view(r.texts[5], "false"@)
    &&& c.max_det@ == col_or_view(r.texts[6], "10000"@)
    &&& c.line_width@ == col_or_view(r.texts[7], "3"@)
    &&& c.show_labels@ == col_or_view(r.texts[8], "true"@)
    &&& c.show_conf@ == col_or_view(r.texts[9], "false"@)
    &&& c.status_blok@ == col_or_view(r.texts[10], "Full Blok"@)
    &&& c.save_annotated@ == col_or_view(r.texts[11], "true"@)
    &&& opt_str_view(c.last_folder_path) == r.texts[12]
    &&& c.device@ == col_or_view(r.texts[13], "auto"@)
    &&& c.active_model_id == r.active_model_id
}

/// Interpret the latest configuration row; no row at all yields the in-code
/// default, and the function never fails.
pub fn config_from_row(row: Option<ConfigRow>) -> (c: AppConfig)
    ensures
        row is None ==> is_default_config(c),
        row matches Some(r) ==> config_matches_row(c, r),
{
    match row {
        None => AppConfig::default(),
        Some(r) => AppConfig {
            model: nonempty(col(&r.texts, 0)),
            imgsz: col_or_default(&r.texts, 1, "12800"),
            iou: col_or_default(&r.texts, 2, "0.2"),
            conf: col_or_default(&r.texts, 3, "0.2"),
            convert_shp: col_or_default(&r.texts, 4, "true"),
            convert_kml: col_or_default(&r.texts, 5, "false"),
            max_det: col_or_default(&r.texts, 6, "10000"),
            line_width: col_or_default(&r.texts, 7, "3"),
            show_labels: col_or_default(&r.texts, 8, "true"),
            show_conf: col_or_default(&r.texts, 9, "false"),
            status_blok: col_or_default(&r.texts, 10, "Full Blok"),
            save_annotated: col_or_default(&r.texts, 11, "true"),
            last_folder_path: col(&r.texts, 12),
            device: col_or_default(&r.texts, 13, "auto"),
            active_model_id: r.active_model_id,
        },
    }
}

/// The fourteen text columns that persist a configuration, in statement
/// order: an absent model is stored as the empty string, an absent folder
/// as NULL.
pub open spec fn config_texts_of(c: AppConfig) -> Seq<Option<Seq<char>>> {
    seq![
        Some(col_or(c.model, ""@)),
        Some(c.imgsz@),
        Some(c.iou@),
        Some(c.conf@),
        Some(c.convert_shp@),
        Some(c.convert_kml@),
        Some(c.max_det@),
        Some(c.line_width@),
        Some(c.show_labels@),
        Some(c.show_conf@),
        Some(c.status_blok@),
        Some(c.save_annotated@),
        opt_str_view(c.last_folder_path),
        Some(c.device@),
    ]
}

/// The row a configuration is persisted as.
pub open spec fn config_row_of(c: AppConfig) -> ConfigRowM {
    ConfigRowM { texts: config_texts_of(c), active_model_id: c.active_model_id }
}

/// Build the fourteen text parameters for persisting a configuration.
pub fn config_texts(c: &AppConfig) -> (p: Vec<Option<String>>)
    ensures
        p@.len() == 14,
        opt_views(p@) == config_texts_of(*c),
{
    let mut p: Vec<Option<String>> = Vec::new();
    let model = match &c.model {
        Some(m) => m.clone(),
        None => "".to_owned(),
    };
    p.push(Some(model));
    p.push(Some(c.imgsz.clone()));
    p.push(Some(c.iou.clone()));
    p.push(Some(c.conf.clone()));
    p.push(Some(c.convert_shp.clone()));
    p.push(Some(c.convert_kml.clone()));
    p.push(Some(c.max_det.clone()));
    p.push(Some(c.line_width.clone()));
    p.push(Some(c.show_labels.clone()));
    p.push(Some(c.show_conf.clone()));
    p.push(Some(c.status_blok.clone()));
    p.push(Some(c.save_annotated.clone()));
    p.push(clone_opt_string(&c.last_folder_path));
    p.push(Some(c.device.clone()));
    proof {
        assert(opt_views(p@) =~= config_texts_of(*c));
    }
    p
}

/// What a saved-then-loaded configuration gives back: every knob, toggle,
/// folder, device and model reference round-trips exactly; the model name,
/// stored as the empty string when absent, reads back absent when it was
/// absent or empty.
pub proof fn lemma_save_load_round_trip(c1: AppConfig, c2: AppConfig)
    requires
        config_matches_rowm(c2, config_row_of(c1)),
    ensures
        opt_str_view(c2.model) == nonempty_col(opt_str_view(c1.model)),
        c2.imgsz@ == c1.imgsz@,
        c2.iou@ == c1.iou@,
        c2.conf@ == c1.conf@,
        c2.convert_shp@ == c1.convert_shp@,
        c2.convert_kml@ == c1.convert_kml@,
        c2.max_det@ == c1.max_det@,
        c2.line_width@ == c1.line_width@,
        c2.show_labels@ == c1.show_labels@,
        c2.show_conf@ == c1.show_conf@,
        c2.status_blok@ == c1.status_blok@,
        c2.save_annotated@ == c1.save_annotated@,
        opt_str_view(c2.last_folder_path) == opt_str_view(c1.last_folder_path),
        c2.device@ == c1.device@,
        c2.active_model_id == c1.active_model_id,
{
    reveal_strlit("");
    assert(config_texts_of(c1)[0] == Some(col_or(c1.model, ""@)));
    match c1.model {
        Some(m) => {
            if m@.len() == 0 {
                assert(nonempty_col(Some(col_or(c1.model, ""@))) is None);
            }
        },
        None => {
            assert(nonempty_col(Some(col_or(c1.model, ""@))) is None);
        },
    }
}

// ---------------------------------------------------------------------------
// Schema migration
// ---------------------------------------------------------------------------

/// Whether some string in the list reads `s`.
pub open spec fn seq_contains_str(v: Seq<String>, s: Seq<char>) -> bool {
    exists|i: int| 0 <= i < v.len() && v[i]@ == s
}

/// Linear search by string contents.
pub fn contains_string(v: &Vec<String>, s: &str) -> (r: bool)
    ensures
        r == seq_contains_str(v@, s@),
{
    let mut i: usize = 0;
    while i < v.len()
        invariant
            i <= v@.len(),
            forall|j: int| 0 <= j < i ==> v@[j]@ != s@,
        decreases v@.len() - i,
    {
        if str_eq(v[i].as_str(), s) {
            return true;
        }
        i += 1;
    }
    false
}

proof fn lemma_contains_views(v: Seq<String>, s: Seq<char>)
    ensures
        seq_contains_str(v, s) <==> str_views(v).contains(s),
{
    if seq_contains_str(v, s) {
        let i = choose|i: int| 0 <= i < v.len() && v[i]@ == s;
        assert(str_views(v)[i] == s);
    }
    if str_views(v).contains(s) {
        let i = choose|i: int| 0 <= i < str_views(v).len() && str_views(v)[i] == s;
        assert(v[i]@ == s);
    }
}

proof fn lemma_device_not_active()
    ensures
        "device"@ != "active_model_id"@,
{
    reveal_strlit("device");
    reveal_strlit("active_model_id");
    assert("device"@.len() == 6);
    assert("active_model_id"@.len() == 15);
}

proof fn lemma_push_other_contains(c: Seq<Seq<char>>, x: Seq<char>, y: Seq<char>)
    requires
        x != y,
    ensures
        c.push(x).contains(y) <==> c.contains(y),
{
    if c.push(x).contains(y) {
        let i = choose|i: int| 0 <= i < c.push(x).len() && c.push(x)[i] == y;
        if i < c.len() {
            assert(c[i] == y);
        }
    }
    if c.contains(y) {
        let i = choose|i: int| 0 <= i < c.len() && c[i] == y;
        assert(c.push(x)[i] == y);
    }
}

/// What the additive migration leaves behind: the columns as they were,
/// then each expected column that was missing, appended in a fixed order.
pub open spec fn migrated_columns(cols: Seq<Seq<char>>) -> Seq<Seq<char>> {
    let with_device = if cols.contains("device"@) {
        cols
    } else {
        cols.push("device"@)
    };
    if with_device.contains("active_model_id"@) {
        with_device
    } else {
        with_device.push("active_model_id"@)
    }
}

/// The configuration columns after the tables are ensured: an absent table
/// appears with the full fresh schema.
pub open spec fn created_cols(c: Option<Seq<Seq<char>>>) -> Seq<Seq<char>> {
    match c {
        None => fresh_config_cols(),
        Some(x) => x,
    }
}

/// The configuration columns one setup run leaves behind.
pub open spec fn setup_cols(c: Option<Seq<Seq<char>>>) -> Seq<Seq<char>> {
    migrated_columns(created_cols(c))
}

/// The rows as reads see them after the missing columns are added: the
/// device default fills in, the model reference reads NULL; rows under a
/// current schema are untouched.
pub open spec fn migrated_rows(cols: Seq<Seq<char>>, rows: Seq<ConfigRowM>) -> Seq<ConfigRowM> {
    let r1 = if cols.contains("device"@) {
        rows
    } else {
        rows_with_device_default(rows)
    };
    if cols.contains("active_model_id"@) {
        r1
    } else {
        rows_with_active_null(r1)
    }
}

/// The default row the store is seeded with.
pub open spec fn default_config_rowm() -> ConfigRowM {
    ConfigRowM {
        texts: seq![
            Some(""@),
            Some("12800"@),
            Some("0.2"@),
            Some("0.2"@),
            Some("true"@),
            Some("false"@),
            Some("10000"@),
            Some("3"@),
            Some("true"@),
            Some("false"@),
            Some("Full Blok"@),
            Some("true"@),
            None,
            Some("auto"@),
        ],
        active_model_id: None,
    }
}

/// One default row is written into an empty table, nothing else.
pub open spec fn seeded_rows(rows: Seq<ConfigRowM>) -> Seq<ConfigRowM> {
    if rows.len() == 0 {
        seq![default_config_rowm()]
    } else {
        rows
    }
}

/// The configuration rows one setup run leaves behind.
pub open spec fn setup_config(c: Option<Seq<Seq<char>>>, rows: Seq<ConfigRowM>) -> Seq<
    ConfigRowM,
> {
    seeded_rows(migrated_rows(created_cols(c), rows))
}

/// The whole store after one setup run: schema ensured, migration applied,
/// seed written; the model library and the work queue untouched.
pub open spec fn setup_model(m: StoreModel) -> StoreModel {
    StoreModel {
        config_cols: Some(setup_cols(m.config_cols)),
        config: setup_config(m.config_cols, m.config),
        models: m.models,
        queue: m.queue,
    }
}

proof fn lemma_fresh_cols_full()
    ensures
        fresh_config_cols().contains("device"@),
        fresh_config_cols().contains("active_model_id"@),
{
    assert(fresh_config_cols()[14] == "device"@);
    assert(fresh_config_cols()[15] == "active_model_id"@);
}

proof fn lemma_migrated_columns_full(cols: Seq<Seq<char>>)
    ensures
        migrated_columns(cols).contains("device"@),
        migrated_columns(cols).contains("active_model_id"@),
        cols.is_prefix_of(migrated_columns(cols)),
        migrated_columns(migrated_columns(cols)) == migrated_columns(cols),
{
    lemma_device_not_active();
    let wd = if cols.contains("device"@) {
        cols
    } else {
        cols.push("device"@)
    };
    if !cols.contains("device"@) {
        assert(cols.push("device"@)[cols.len() as int] == "device"@);
    }
    assert(wd.contains("device"@));
    let m = migrated_columns(cols);
    if !wd.contains("active_model_id"@) {
        assert(wd.push("active_model_id"@)[wd.len() as int] == "active_model_id"@);
        lemma_push_other_contains(wd, "active_model_id"@, "device"@);
    }
    assert(m.contains("device"@));
    assert(m.contains("active_model_id"@));
    assert(cols.is_prefix_of(m)) by {
        assert(forall|i: int| 0 <= i < cols.len() ==> m[i] == #[trigger] cols[i]);
        assert(m.subrange(0, cols.len() as int) =~= cols);
    }
}

proof fn lemma_setup_config_nonempty(c: Option<Seq<Seq<char>>>, rows: Seq<ConfigRowM>)
    ensures
        setup_config(c, rows).len() >= 1,
{
}

/// Migration idempotence: a second setup run changes nothing — schema and
/// rows come out identical — and one run only appends columns and rows: the
/// columns that were there keep their places, and the rows that were there
/// stay, only reading the documented defaults in columns added under them.
pub proof fn lemma_setup_idempotent(m: StoreModel)
    ensures
        setup_model(setup_model(m)) == setup_model(m),
        created_cols(m.config_cols).is_prefix_of(setup_cols(m.config_cols)),
        setup_config(m.config_cols, m.config).len() == (if m.config.len() == 0 {
            1int
        } else {
            m.config.len() as int
        }),
{
    lemma_migrated_columns_full(created_cols(m.config_cols));
    let s1 = setup_model(m);
    lemma_migrated_columns_full(setup_cols(m.config_cols));
    assert(migrated_columns(setup_cols(m.config_cols)) == setup_cols(m.config_cols)) by {
        let sc = setup_cols(m.config_cols);
        assert(sc.contains("device"@));
        assert(sc.contains("active_model_id"@));
    }
    assert(migrated_rows(setup_cols(m.config_cols), s1.config) == s1.config);
    assert(seeded_rows(s1.config) == s1.config) by {
        lemma_setup_config_nonempty(m.config_cols, m.config);
    }
}

/// Create the three tables when missing, add the two late columns when the
/// schema predates them, and seed one default configuration row into an
/// empty store: afterwards the view is exactly `setup_model` of what it
/// was. Safe to run any number of times; even a failed run never touches
/// the model library or the work queue.
pub fn setup_db(st: &mut Store) -> (r: Result<(), String>)
    ensures
        r is Ok ==> final(st)@ == setup_model(old(st)@),
        final(st)@.models == old(st)@.models,
        final(st)@.queue == old(st)@.queue,
{
    let ghost m0 = st@;
    match st.create_config_table() {
        Ok(_) => {},
        Err(e) => { return Err(e); },
    }
    match st.create_models_table() {
        Ok(_) => {},
        Err(e) => { return Err(e); },
    }
    match st.create_tiff_table() {
        Ok(_) => {},
        Err(e) => { return Err(e); },
    }
    let ghost created = created_cols(m0.config_cols);
    let cols = match st.config_columns() {
        Ok(v) => v,
        Err(e) => { return Err(e); },
    };
    proof {
        lemma_contains_views(cols@, "device"@);
        lemma_contains_views(cols@, "active_model_id"@);
        lemma_device_not_active();
    }
    let has_device = contains_string(&cols, "device");
    let has_active = contains_string(&cols, "active_model_id");
    if !has_device {
        match st.alter_add_device() {
            Ok(_) => {},
            Err(e) => { return Err(e); },
        }
    }
    if !has_active {
        proof {
            if !has_device {
                lemma_push_other_contains(created, "device"@, "active_model_id"@);
            }
        }
        match st.alter_add_active_model_id() {
            Ok(_) => {},
            Err(e) => { return Err(e); },
        }
    } else {
        proof {
            if !has_device {
                lemma_push_other_contains(created, "device"@, "active_model_id"@);
            }
        }
    }
    proof {
        assert(st@.config_cols == Some(setup_cols(m0.config_cols)));
        assert(st@.config == migrated_rows(created, m0.config));
    }
    let count = match st.count_config_rows() {
        Ok(n) => n,
        Err(e) => { return Err(e); },
    };
    if count == 0 {
        let defaults = AppConfig::default();
        let texts = config_texts(&defaults);
        proof {
            assert(config_texts_of(defaults) =~= default_config_rowm().texts);
        }
        match st.insert_config_row(&texts, None) {
            Ok(_) => {},
            Err(e) => { return Err(e); },
        }
        proof {
            assert(st@.config =~= setup_config(m0.config_cols, m0.config));
        }
    }
    proof {
        assert(st@ == setup_model(m0));
    }
    Ok(())
}

/// Load the latest configuration row; an empty store is seeded first, so
/// absence is never an error. The result reads the view's last row exactly
/// as `config_matches_rowm` says.
pub fn load_config(st: &mut Store) -> (r: Result<AppConfig, String>)
    ensures
        r matches Ok(c) ==> final(st)@ == setup_model(old(st)@) && final(st)@.config.len() > 0
            && config_matches_rowm(c, final(st)@.config.last()),
        final(st)@.models == old(st)@.models,
        final(st)@.queue == old(st)@.queue,
{
    match setup_db(st) {
        Ok(_) => {},
        Err(e) => { return Err(e); },
    }
    proof {
        lemma_setup_config_nonempty(old(st)@.config_cols, old(st)@.config);
    }
    let row = match st.query_latest_config_row() {
        Ok(v) => v,
        Err(e) => { return Err(e); },
    };
    match row {
        Some(r) => {
            proof {
                let rt = r.texts@;
                assert(forall|i: int|
                    0 <= i < 14 ==> opt_views(rt)[i] == opt_str_view(#[trigger] rt[i]));
            }
            Ok(config_from_row(Some(r)))
        },
        None => Ok(AppConfig::default()),
    }
}

/// Append a new configuration row holding exactly this record; history is
/// never rewritten.
pub fn save_config(st: &mut Store, c: &AppConfig) -> (r: Result<(), String>)
    ensures
        r is Ok ==> final(st)@ == (StoreModel {
            config: setup_model(old(st)@).config.push(config_row_of(*c)),
            ..setup_model(old(st)@)
        }),
        final(st)@.models == old(st)@.models,
        final(st)@.queue == old(st)@.queue,
{
    match setup_db(st) {
        Ok(_) => {},
        Err(e) => { return Err(e); },
    }
    let texts = config_texts(c);
    match st.insert_config_row(&texts, c.active_model_id) {
        Ok(_) => Ok(()),
        Err(e) => Err(e),
    }
}

/// The active model reference of a configuration history: the latest row's,
/// none when there is no row.
pub open spec fn active_of(cfg: Seq<ConfigRowM>) -> Option<i64> {
    if cfg.len() == 0 {
        None
    } else {
        cfg.last().active_model_id
    }
}

/// The text columns the save-after-load of `set_active_model` writes: every
/// column read back through its default, the absent model name becoming the
/// empty string, the folder passing through.
pub open spec fn reread_texts(prior: ConfigRowM) -> Seq<Option<Seq<char>>> {
    seq![
        Some(col_or_view(prior.texts[0], ""@)),
        Some(col_or_view(prior.texts[1], "12800"@)),
        Some(col_or_view(prior.texts[2], "0.2"@)),
        Some(col_or_view(prior.texts[3], "0.2"@)),
        Some(col_or_view(prior.texts[4], "true"@)),
        Some(col_or_view(prior.texts[5], "false"@)),
        Some(col_or_view(prior.texts[6], "10000"@)),
        Some(col_or_view(prior.texts[7], "3"@)),
        Some(col_or_view(prior.texts[8], "true"@)),
        Some(col_or_view(prior.texts[9], "false"@)),
        Some(col_or_view(prior.texts[10], "Full Blok"@)),
        Some(col_or_view(prior.texts[11], "true"@)),
        prior.texts[12],
        Some(col_or_view(prior.texts[13], "auto"@)),
    ]
}

/// Make a model the active one: one configuration row is appended that
/// re-reads the latest row and points `active_model_id` at the model;
/// history is preserved, nothing is mutated in place.
pub fn set_active_model(st: &mut Store, id: i64) -> (r: Result<(), String>)
    ensures
        r is Ok ==> final(st)@ == (StoreModel {
            config: setup_model(old(st)@).config.push(
                ConfigRowM {
                    texts: reread_texts(setup_model(old(st)@).config.last()),
                    active_model_id: Some(id),
                },
            ),
            ..setup_model(old(st)@)
        }),
        final(st)@.models == old(st)@.models,
        final(st)@.queue == old(st)@.queue,
{
    let ghost m0 = st@;
    let mut c = match load_config(st) {
        Ok(c) => c,
        Err(e) => { return Err(e); },
    };
    c.active_model_id = Some(id);
    let r = save_config(st, &c);
    proof {
        if r is Ok {
            lemma_setup_idempotent(m0);
            let s1 = setup_model(m0);
            let prior = s1.config.last();
            assert(opt_str_view(c.model) == nonempty_col(prior.texts[0]));
            assert(Some(col_or(c.model, ""@)) == Some(col_or_view(prior.texts[0], ""@))) by {
                match prior.texts[0] {
                    Some(v) => {
                        if v.len() == 0 {
                            assert(nonempty_col(prior.texts[0]) is None);
                            reveal_strlit("");
                            assert(v =~= ""@);
                        }
                    },
                    None => {},
                }
            }
            assert(config_texts_of(c) =~= reread_texts(prior));
        }
    }
    r
}

// ---------------------------------------------------------------------------
// Model library
// ---------------------------------------------------------------------------

/// One record of the model library, with the active flag resolved against
/// the configuration.
pub struct YoloModel {
    pub id: i64,
    pub name: String,
    pub path: String,
    pub is_active: bool,
}

/// How listed models relate to the raw rows: fields carried over, and
/// exactly the row whose id equals the active id is marked.
pub open spec fn models_marked(
    rows: Seq<(i64, String, String)>,
    active: Option<i64>,
    out: Seq<YoloModel>,
) -> bool {
    &&& out.len() == rows.len()
    &&& forall|i: int|
        0 <= i < rows.len() ==> {
            &&& (#[trigger] out[i]).id == rows[i].0
            &&& out[i].name@ == rows[i].1@
            &&& out[i].path@ == rows[i].2@
            &&& out[i].is_active == (active == Some(rows[i].0))
        }
}

/// The same marking against the view's model rows.
pub open spec fn models_marked_m(
    models: Seq<ModelRowM>,
    active: Option<i64>,
    out: Seq<YoloModel>,
) -> bool {
    &&& out.len() == models.len()
    &&& forall|i: int|
        0 <= i < models.len() ==> {
            &&& (#[trigger] out[i]).id == models[i].id
            &&& out[i].name@ == models[i].name
            &&& out[i].path@ == models[i].path
            &&& out[i].is_active == (active == Some(models[i].id))
        }
}

/// Resolve the active flag on each model row.
pub fn mark_active_models(rows: &Vec<(i64, String, String)>, active: Option<i64>) -> (out: Vec<
    YoloModel,
>)
    ensures
        models_marked(rows@, active, out@),
{
    let mut out: Vec<YoloModel> = Vec::new();
    let mut i: usize = 0;
    while i < rows.len()
        invariant
            i <= rows@.len(),
            models_marked(rows@.take(i as int), active, out@),
        decreases rows@.len() - i,
    {
        let id = rows[i].0;
        let is_active = match active {
            Some(a) => a == id,
            None => false,
        };
        out.push(YoloModel { id, name: rows[i].1.clone(), path: rows[i].2.clone(), is_active });
        proof {
            assert(rows@.take(i + 1).drop_last() =~= rows@.take(i as int));
        }
        i += 1;
    }
    proof {
        assert(rows@.take(rows@.len() as int) =~= rows@);
    }
    out
}

/// At most one model is ever marked active: when the library's ids are
/// distinct — as rows written through this library have them, each new id
/// larger than every earlier one — no two listed models carry the flag.
pub proof fn lemma_at_most_one_active(
    models: Seq<ModelRowM>,
    active: Option<i64>,
    out: Seq<YoloModel>,
)
    requires
        models_marked_m(models, active, out),
        forall|i: int, j: int| 0 <= i < j < models.len() ==> models[i].id != models[j].id,
    ensures
        forall|i: int, j: int|
            0 <= i < j < out.len() ==> !(out[i].is_active && out[j].is_active),
{
    assert forall|i: int, j: int|
        0 <= i < j < out.len() implies !(out[i].is_active && out[j].is_active) by {
        if out[i].is_active && out[j].is_active {
            assert(active == Some(models[i].id));
            assert(active == Some(models[j].id));
        }
    }
}

/// List the model library in insertion order, with exactly the model the
/// latest configuration points at marked active.
pub fn list_models(st: &mut Store) -> (r: Result<Vec<YoloModel>, String>)
    ensures
        r matches Ok(v) ==> final(st)@ == setup_model(old(st)@) && models_marked_m(
            final(st)@.models,
            active_of(final(st)@.config),
            v@,
        ),
        final(st)@.models == old(st)@.models,
        final(st)@.queue == old(st)@.queue,
{
    match setup_db(st) {
        Ok(_) => {},
        Err(e) => { return Err(e); },
    }
    let active = match st.query_latest_config_row() {
        Ok(Some(row)) => row.active_model_id,
        Ok(None) => None,
        Err(e) => { return Err(e); },
    };
    let rows = match st.query_model_rows() {
        Ok(v) => v,
        Err(e) => { return Err(e); },
    };
    let out = mark_active_models(&rows, active);
    proof {
        assert(models_marked_m(st@.models, active_of(st@.config), out@));
    }
    Ok(out)
}

/// Record an imported model whose file was already copied to `final_path`:
/// one library row is appended under a fresh id — larger than every id the
/// table ever held — and handed back with its resolved active flag.
pub fn add_model_record(st: &mut Store, name: String, final_path: String) -> (r: Result<
    YoloModel,
    String,
>)
    ensures
        r matches Ok(m) ==> ({
            let s1 = setup_model(old(st)@);
            &&& final(st)@ == (StoreModel {
                models: s1.models.push(ModelRowM { id: m.id, name: name@, path: final_path@ }),
                ..s1
            })
            &&& m.name@ == name@
            &&& m.path@ == final_path@
            &&& (forall|j: int| 0 <= j < s1.models.len() ==> (#[trigger] s1.models[j]).id < m.id)
            &&& m.is_active == (active_of(final(st)@.config) == Some(m.id))
        }),
        final(st)@.queue == old(st)@.queue,
{
    match setup_db(st) {
        Ok(_) => {},
        Err(e) => { return Err(e); },
    }
    let id = match st.insert_model_row(&name, &final_path) {
        Ok(id) => id,
        Err(e) => { return Err(e); },
    };
    let active = match st.query_latest_config_row() {
        Ok(Some(row)) => row.active_model_id,
        Ok(None) => None,
        Err(e) => { return Err(e); },
    };
    let is_active = match active {
        Some(a) => a == id,
        None => false,
    };
    Ok(YoloModel { id, name, path: final_path, is_active })
}

/// Delete a model row — a missing id is the store's error, as the lookup
/// reports it — and hand back the path of its file copy, which the caller
/// owning file deletion removes best-effort.
pub fn remove_model(st: &mut Store, id: i64) -> (r: Result<Option<String>, String>)
    ensures
        r matches Ok(po) ==> ({
            let s1 = setup_model(old(st)@);
            &&& final(st)@ == (StoreModel { models: remove_model_rows(s1.models, id), ..s1 })
            &&& find_model(s1.models, id) is Some
            &&& (po matches Some(p) && p@ == find_model(s1.models, id)->0.path)
        }),
        final(st)@.queue == old(st)@.queue,
{
    match setup_db(st) {
        Ok(_) => {},
        Err(e) => { return Err(e); },
    }
    let path = match st.query_model_path(id) {
        Ok(p) => p,
        Err(e) => { return Err(e); },
    };
    match st.delete_model_row(id) {
        Ok(_) => {},
        Err(e) => { return Err(e); },
    }
    Ok(path)
}

/// The file path of the active model: `None` exactly when no model is
/// active, which is a legal state, not an error — an active id that
/// references no model row is the store's error.
pub fn get_active_model_path(st: &mut Store) -> (r: Result<Option<String>, String>)
    ensures
        r matches Ok(po) ==> ({
            let s1 = setup_model(old(st)@);
            &&& final(st)@ == s1
            &&& (match active_of(s1.config) {
                None => po is None,
                Some(aid) => find_model(s1.models, aid) is Some && (po matches Some(p) && p@
                    == find_model(s1.models, aid)->0.path),
            })
        }),
        final(st)@.models == old(st)@.models,
        final(st)@.queue == old(st)@.queue,
{
    let c = match load_config(st) {
        Ok(c) => c,
        Err(e) => { return Err(e); },
    };
    match c.active_model_id {
        None => Ok(None),
        Some(aid) => st.query_model_path(aid),
    }
}

// ---------------------------------------------------------------------------
// Unique destination names for imported model files
// ---------------------------------------------------------------------------

/// Index of the last dot, or -1 when there is none.
pub open spec fn last_dot(s: Seq<char>) -> int
    decreases s.len(),
{
    if s.len() == 0 {
        -1
    } else if s.last() == '.' {
        s.len() - 1
    } else {
        last_dot(s.drop_last())
    }
}

/// The file name before its last dot; a dot in front does not count, and an
/// empty name falls back to `model`.
pub open spec fn file_stem_spec(name: Seq<char>) -> Seq<char> {
    if name.len() == 0 {
        "model"@
    } else if last_dot(name) <= 0 {
        name
    } else {
        name.take(last_dot(name))
    }
}

/// The file name after its last dot; without one the default extension is
/// `pt`.
pub open spec fn file_ext_spec(name: Seq<char>) -> Seq<char> {
    if name.len() == 0 {
        "pt"@
    } else if last_dot(name) <= 0 {
        "pt"@
    } else {
        name.skip(last_dot(name) + 1)
    }
}

proof fn lemma_last_dot_at(s: Seq<char>, d: int)
    requires
        0 <= d < s.len(),
        s[d] == '.',
        forall|j: int| d < j < s.len() ==> s[j] != '.',
    ensures
        last_dot(s) == d,
    decreases s.len(),
{
    if d < s.len() - 1 {
        lemma_last_dot_at(s.drop_last(), d);
    }
}

proof fn lemma_last_dot_none(s: Seq<char>)
    requires
        forall|j: int| 0 <= j < s.len() ==> s[j] != '.',
    ensures
        last_dot(s) == -1,
    decreases s.len(),
{
    if s.len() > 0 {
        lemma_last_dot_none(s.drop_last());
    }
}

/// Split a file name into stem and extension.
pub fn split_filename(name: &str) -> (r: (String, String))
    ensures
        r.0@ == file_stem_spec(name@),
        r.1@ == file_ext_spec(name@),
{
    let n = name.unicode_len();
    if n == 0 {
        return ("model".to_owned(), "pt".to_owned());
    }
    let mut i: usize = n;
    while i > 0 && name.get_char(i - 1) != '.'
        invariant
            i <= n,
            n == name@.len(),
            forall|j: int| i <= j < n ==> name@[j] != '.',
        decreases i,
    {
        i -= 1;
    }
    if i <= 1 {
        proof {
            if i == 0 {
                lemma_last_dot_none(name@);
            } else {
                lemma_last_dot_at(name@, 0);
            }
        }
        (name.to_owned(), "pt".to_owned())
    } else {
        let d = i - 1;
        proof {
            lemma_last_dot_at(name@, d as int);
        }
        let stem = name.substring_char(0, d).to_owned();
        let ext = name.substring_char(i, n).to_owned();
        proof {
            assert(stem@ =~= name@.take(d as int));
            assert(ext@ =~= name@.skip(d + 1));
        }
        (stem, ext)
    }
}

/// The k-th numbered destination name; 0 is the exhaustion fallback.
pub open spec fn numbered_name(stem: Seq<char>, ext: Seq<char>, k: int) -> Seq<char>
    recommends
        k >= 0,
{
    stem + "_"@ + dec_str(k as nat) + "."@ + ext
}

fn make_numbered(stem: &str, ext: &str, k: u64) -> (r: String)
    ensures
        r@ == numbered_name(stem@, ext@, k as int),
{
    let mut s = stem.to_owned();
    s.append("_");
    let d = u64_to_dec(k);
    s.append(d.as_str());
    s.append(".");
    s.append(ext);
    proof {
        assert(s@ =~= numbered_name(stem@, ext@, k as int));
    }
    s
}

/// The first free numbered name at index `k` or above; past the bound the
/// fallback with suffix 0 is used whether free or not.
pub open spec fn free_name_from(
    stem: Seq<char>,
    ext: Seq<char>,
    taken: Seq<String>,
    k: int,
) -> Seq<char>
    decreases 10000 - k when 1 <= k <= 10000
{
    if k < 1 || k >= 10000 {
        numbered_name(stem, ext, 0)
    } else if !seq_contains_str(taken, numbered_name(stem, ext, k)) {
        numbered_name(stem, ext, k)
    } else {
        free_name_from(stem, ext, taken, k + 1)
    }
}

/// The destination name an import chooses, given the names already present:
/// the base name itself when free, else the first free numbered variant.
pub open spec fn unique_name_spec(base: Seq<char>, taken: Seq<String>) -> Seq<char> {
    if !seq_contains_str(taken, base) {
        base
    } else {
        free_name_from(file_stem_spec(base), file_ext_spec(base), taken, 1)
    }
}

proof fn lemma_free_name_skip(stem: Seq<char>, ext: Seq<char>, taken: Seq<String>, k: int)
    requires
        1 <= k <= 10000,
        forall|j: int| 1 <= j < k ==> seq_contains_str(taken, numbered_name(stem, ext, j)),
    ensures
        free_name_from(stem, ext, taken, 1) == free_name_from(stem, ext, taken, k),
    decreases k,
{
    if k > 1 {
        lemma_free_name_skip(stem, ext, taken, k - 1);
    }
}

/// Unique-path monotonicity: with the base name taken, the numbered names
/// below `m` taken and the m-th free, the chosen destination is exactly the
/// m-th numbered name — so repeated imports of one file name walk
/// `x.pt, x_1.pt, x_2.pt, ...` and never collide below the fallback bound.
pub proof fn lemma_unique_name_monotone(base: Seq<char>, taken: Seq<String>, m: int)
    requires
        1 <= m < 10000,
        seq_contains_str(taken, base),
        forall|j: int|
            1 <= j < m ==> seq_contains_str(
                taken,
                numbered_name(file_stem_spec(base), file_ext_spec(base), j),
            ),
        !seq_contains_str(taken, numbered_name(file_stem_spec(base), file_ext_spec(base), m)),
    ensures
        unique_name_spec(base, taken) == numbered_name(
            file_stem_spec(base),
            file_ext_spec(base),
            m,
        ),
        !seq_contains_str(taken, unique_name_spec(base, taken)),
{
    lemma_free_name_skip(file_stem_spec(base), file_ext_spec(base), taken, m);
}

/// Choose the destination file name for an imported model among the names
/// already present in the models directory.
pub fn unique_model_name(base: &str, taken: &Vec<String>) -> (r: String)
    ensures
        r@ == unique_name_spec(base@, taken@),
{
    if !contains_string(taken, base) {
        return base.to_owned();
    }
    let (stem, ext) = split_filename(base);
    let mut k: u64 = 1;
    while k < 10000
        invariant
            1 <= k <= 10000,
            stem@ == file_stem_spec(base@),
            ext@ == file_ext_spec(base@),
            seq_contains_str(taken@, base@),
            forall|j: int| 1 <= j < k ==> seq_contains_str(
                taken@,
                numbered_name(stem@, ext@, j),
            ),
        decreases 10000 - k,
    {
        let cand = make_numbered(stem.as_str(), ext.as_str(), k);
        if !contains_string(taken, cand.as_str()) {
            proof {
                lemma_free_name_skip(stem@, ext@, taken@, k as int);
            }
            return cand;
        }
        k += 1;
    }
    let r = make_numbered(stem.as_str(), ext.as_str(), 0);
    proof {
        lemma_free_name_skip(stem@, ext@, taken@, 10000);
    }
    r
}

} // verus!
