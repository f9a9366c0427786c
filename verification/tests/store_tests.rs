use palm_counting_ai::db::Store;
use palm_counting_ai::queue::add_tiff_paths;
use palm_counting_ai::queue::list_tiff_paths;
use palm_counting_ai::queue::remove_tiff_path;
use palm_counting_ai::store::add_model_record;
use palm_counting_ai::store::get_active_model_path;
use palm_counting_ai::store::list_models;
use palm_counting_ai::store::load_config;
use palm_counting_ai::store::remove_model;
use palm_counting_ai::store::save_config;
use palm_counting_ai::store::set_active_model;
use palm_counting_ai::store::setup_db;
use palm_counting_ai::store::split_filename;
use palm_counting_ai::store::unique_model_name;
use palm_counting_ai::store::AppConfig;

fn fresh_store() -> Store {
    Store::open_in_memory().unwrap()
}

/// A fresh shared in-memory database the test can also inspect with raw
/// SQL through a second connection; it lives as long as that connection.
fn shared_db(name: &str) -> (String, rusqlite::Connection) {
    let uri = format!("file:palm-store-test-{}?mode=memory&cache=shared", name);
    let conn = rusqlite::Connection::open(&uri).unwrap();
    (uri, conn)
}

fn configuration_columns(conn: &rusqlite::Connection) -> Vec<String> {
    let mut stmt = conn
        .prepare("SELECT name FROM pragma_table_info('configuration')")
        .unwrap();
    let rows = stmt.query_map([], |r| r.get::<_, String>(0)).unwrap();
    rows.collect::<Result<Vec<_>, _>>().unwrap()
}

#[test]
fn setup_creates_schema_and_seed() {
    let (uri, conn) = shared_db("create");
    let mut st = Store::open(&uri).unwrap();
    setup_db(&mut st).unwrap();
    let cols = configuration_columns(&conn);
    assert!(cols.iter().any(|c| c == "device"));
    assert!(cols.iter().any(|c| c == "active_model_id"));
    let n: i64 = conn
        .query_row("SELECT COUNT(*) FROM configuration", [], |r| r.get(0))
        .unwrap();
    assert_eq!(n, 1);
}

// Running setup twice (and more) leaves schema and rows exactly as one run
// left them.
#[test]
fn setup_is_idempotent() {
    let (uri, conn) = shared_db("idem");
    let mut st = Store::open(&uri).unwrap();
    setup_db(&mut st).unwrap();
    let cols_once = configuration_columns(&conn);
    let rows_once: i64 = conn
        .query_row("SELECT COUNT(*) FROM configuration", [], |r| r.get(0))
        .unwrap();
    setup_db(&mut st).unwrap();
    setup_db(&mut st).unwrap();
    assert_eq!(configuration_columns(&conn), cols_once);
    let rows_again: i64 = conn
        .query_row("SELECT COUNT(*) FROM configuration", [], |r| r.get(0))
        .unwrap();
    assert_eq!(rows_again, rows_once);
}

// Migration from a schema that predates the device and active_model_id
// columns: both get added, the existing row stays untouched.
#[test]
fn setup_migrates_old_schema() {
    let (uri, conn) = shared_db("migrate");
    conn.execute(
        "CREATE TABLE configuration (id INTEGER PRIMARY KEY AUTOINCREMENT, model TEXT, imgsz TEXT, iou TEXT, conf TEXT, convert_shp TEXT, convert_kml TEXT, max_det TEXT, line_width TEXT, show_labels TEXT, show_conf TEXT, status_blok TEXT, save_annotated TEXT, last_folder_path TEXT)",
        [],
    )
    .unwrap();
    conn.execute(
        "INSERT INTO configuration (model, imgsz) VALUES ('m', '640')",
        [],
    )
    .unwrap();
    let mut st = Store::open(&uri).unwrap();
    setup_db(&mut st).unwrap();
    let cols = configuration_columns(&conn);
    assert!(cols.iter().any(|c| c == "device"));
    assert!(cols.iter().any(|c| c == "active_model_id"));
    let n: i64 = conn
        .query_row("SELECT COUNT(*) FROM configuration", [], |r| r.get(0))
        .unwrap();
    assert_eq!(n, 1, "migration must not seed over existing rows");
    let c = load_config(&mut st).unwrap();
    assert_eq!(c.imgsz, "640");
    assert_eq!(c.device, "auto", "added column falls back to its default");
}

// A store whose `configuration` is not a table at all surfaces a typed
// error instead of proceeding.
#[test]
fn broken_store_surfaces_an_error() {
    let (uri, conn) = shared_db("broken");
    conn.execute_batch("CREATE VIEW configuration AS SELECT 1 AS id")
        .unwrap();
    let mut st = Store::open(&uri).unwrap();
    assert!(setup_db(&mut st).is_err());
}

#[test]
fn empty_store_loads_defaults() {
    let mut st = fresh_store();
    let c = load_config(&mut st).unwrap();
    assert_eq!(c.imgsz, "12800");
    assert_eq!(c.iou, "0.2");
    assert_eq!(c.conf, "0.2");
    assert_eq!(c.convert_shp, "true");
    assert_eq!(c.convert_kml, "false");
    assert_eq!(c.max_det, "10000");
    assert_eq!(c.line_width, "3");
    assert_eq!(c.show_labels, "true");
    assert_eq!(c.show_conf, "false");
    assert_eq!(c.status_blok, "Full Blok");
    assert_eq!(c.save_annotated, "true");
    assert_eq!(c.device, "auto");
    assert_eq!(c.active_model_id, None);
    assert_eq!(c.last_folder_path, None);
    assert_eq!(c.model, None, "the seeded empty model name reads back absent");
}

// Columns left NULL in the latest row fall back to their defaults, each
// column on its own.
#[test]
fn null_columns_fall_back_per_column() {
    let (uri, conn) = shared_db("nulls");
    let mut st = Store::open(&uri).unwrap();
    setup_db(&mut st).unwrap();
    conn.execute("INSERT INTO configuration (imgsz) VALUES ('777')", [])
        .unwrap();
    let c = load_config(&mut st).unwrap();
    assert_eq!(c.imgsz, "777");
    assert_eq!(c.iou, "0.2");
    assert_eq!(c.status_blok, "Full Blok");
    assert_eq!(c.model, None);
    assert_eq!(c.device, "auto");
    assert_eq!(c.active_model_id, None);
}

#[test]
fn save_and_load_round_trip() {
    let mut st = fresh_store();
    let mut c = AppConfig::default();
    c.imgsz = "640".to_string();
    c.device = "cuda".to_string();
    c.last_folder_path = Some("/data/images".to_string());
    c.active_model_id = Some(3);
    save_config(&mut st, &c).unwrap();
    let back = load_config(&mut st).unwrap();
    assert_eq!(back.imgsz, "640");
    assert_eq!(back.device, "cuda");
    assert_eq!(back.last_folder_path.as_deref(), Some("/data/images"));
    assert_eq!(back.active_model_id, Some(3));
    assert_eq!(back.iou, "0.2");
    assert_eq!(back.model, None, "an absent model reads back absent");
}

#[test]
fn nonempty_model_round_trips() {
    let mut st = fresh_store();
    let mut c = AppConfig::default();
    c.model = Some("palm-v2".to_string());
    save_config(&mut st, &c).unwrap();
    assert_eq!(load_config(&mut st).unwrap().model.as_deref(), Some("palm-v2"));
}

#[test]
fn config_history_is_append_only() {
    let (uri, conn) = shared_db("history");
    let mut st = Store::open(&uri).unwrap();
    setup_db(&mut st).unwrap();
    let mut c = load_config(&mut st).unwrap();
    c.imgsz = "320".to_string();
    save_config(&mut st, &c).unwrap();
    let n: i64 = conn
        .query_row("SELECT COUNT(*) FROM configuration", [], |r| r.get(0))
        .unwrap();
    assert_eq!(n, 2, "saving appends, history stays");
    assert_eq!(load_config(&mut st).unwrap().imgsz, "320");
}

#[test]
fn model_library_marks_the_active_one() {
    let mut st = fresh_store();
    setup_db(&mut st).unwrap();
    let a = add_model_record(&mut st, "first".to_string(), "/m/first.pt".to_string()).unwrap();
    let b = add_model_record(&mut st, "second".to_string(), "/m/second.pt".to_string()).unwrap();
    assert_eq!(a.name, "first");
    assert_eq!(b.path, "/m/second.pt");
    assert!(b.id > a.id, "ids climb, never reused");
    set_active_model(&mut st, b.id).unwrap();
    let models = list_models(&mut st).unwrap();
    assert_eq!(models.len(), 2);
    assert!(!models[0].is_active);
    assert!(models[1].is_active);
    assert_eq!(
        get_active_model_path(&mut st).unwrap().as_deref(),
        Some("/m/second.pt")
    );
}

#[test]
fn no_active_model_is_a_legal_state() {
    let mut st = fresh_store();
    setup_db(&mut st).unwrap();
    add_model_record(&mut st, "m".to_string(), "/m/m.pt".to_string()).unwrap();
    assert_eq!(get_active_model_path(&mut st).unwrap(), None);
}

#[test]
fn removing_a_model_returns_its_file_path() {
    let mut st = fresh_store();
    setup_db(&mut st).unwrap();
    let m = add_model_record(&mut st, "m".to_string(), "/m/m.pt".to_string()).unwrap();
    let path = remove_model(&mut st, m.id).unwrap();
    assert_eq!(path.as_deref(), Some("/m/m.pt"));
    assert_eq!(list_models(&mut st).unwrap().len(), 0);
    assert!(remove_model(&mut st, m.id).is_err(), "a missing id is the store's error");
}

#[test]
fn filename_splitting() {
    assert_eq!(split_filename("model.pt"), ("model".to_string(), "pt".to_string()));
    assert_eq!(split_filename("archive.tar.gz"), ("archive.tar".to_string(), "gz".to_string()));
    assert_eq!(split_filename("noext"), ("noext".to_string(), "pt".to_string()));
    assert_eq!(split_filename(".hidden"), (".hidden".to_string(), "pt".to_string()));
    assert_eq!(split_filename(""), ("model".to_string(), "pt".to_string()));
}

// Repeated imports of one file name walk x.pt, x_1.pt, x_2.pt, ...
#[test]
fn unique_names_climb() {
    let mut taken: Vec<String> = Vec::new();
    assert_eq!(unique_model_name("x.pt", &taken), "x.pt");
    taken.push("x.pt".to_string());
    assert_eq!(unique_model_name("x.pt", &taken), "x_1.pt");
    taken.push("x_1.pt".to_string());
    assert_eq!(unique_model_name("x.pt", &taken), "x_2.pt");
    taken.push("x_2.pt".to_string());
    assert_eq!(unique_model_name("x.pt", &taken), "x_3.pt");
}

// add_tiff_paths(["a","a","b"," ",""]) on an empty queue inserts two; the
// listing is ["a","b"] in insertion order.
#[test]
fn tiff_queue_scenario() {
    let mut st = fresh_store();
    let paths = vec![
        "a".to_string(),
        "a".to_string(),
        "b".to_string(),
        " ".to_string(),
        "".to_string(),
    ];
    let added = add_tiff_paths(&mut st, &paths).unwrap();
    assert_eq!(added, 2);
    assert_eq!(list_tiff_paths(&mut st).unwrap(), vec!["a", "b"]);
}

// A path of nothing but Unicode whitespace is blank and never queued.
#[test]
fn tiff_queue_skips_unicode_blank_paths() {
    let mut st = fresh_store();
    let paths = vec!["\u{00a0}".to_string(), "\u{2003}".to_string(), "real.tif".to_string()];
    let added = add_tiff_paths(&mut st, &paths).unwrap();
    assert_eq!(added, 1);
    assert_eq!(list_tiff_paths(&mut st).unwrap(), vec!["real.tif"]);
}

#[test]
fn tiff_queue_insert_is_idempotent() {
    let mut st = fresh_store();
    let once = add_tiff_paths(&mut st, &vec!["p".to_string()]).unwrap();
    assert_eq!(once, 1);
    let again = add_tiff_paths(&mut st, &vec!["p".to_string()]).unwrap();
    assert_eq!(again, 0);
    assert_eq!(list_tiff_paths(&mut st).unwrap(), vec!["p"]);
}

#[test]
fn tiff_queue_remove_missing_is_noop() {
    let mut st = fresh_store();
    add_tiff_paths(&mut st, &vec!["a".to_string(), "b".to_string()]).unwrap();
    remove_tiff_path(&mut st, "never-there").unwrap();
    assert_eq!(list_tiff_paths(&mut st).unwrap(), vec!["a", "b"]);
    remove_tiff_path(&mut st, "a").unwrap();
    assert_eq!(list_tiff_paths(&mut st).unwrap(), vec!["b"]);
}

#[test]
fn tiff_queue_keeps_insertion_order() {
    let mut st = fresh_store();
    add_tiff_paths(&mut st, &vec!["z".to_string()]).unwrap();
    add_tiff_paths(&mut st, &vec!["a".to_string()]).unwrap();
    add_tiff_paths(&mut st, &vec!["m".to_string()]).unwrap();
    assert_eq!(list_tiff_paths(&mut st).unwrap(), vec!["z", "a", "m"]);
}
