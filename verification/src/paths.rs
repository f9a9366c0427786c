//! Path resolver: canonical app-data, models, binaries and download paths.
//! Path computation is pure; no directory is ever created here.

use vstd::prelude::*;

use crate::strutil::has_suffix;

verus! {

/// Relies on dirs::data_local_dir for the per-user local application-data
/// directory; the result depends on the environment, so nothing is promised.
#[verifier::external_body]
fn data_local_dir() -> Option<String> {
    dirs::data_local_dir().map(|p| p.to_string_lossy().into_owned())
}

/// Join two path components with a forward slash.
pub fn path_join(base: &str, name: &str) -> (r: String)
    ensures
        r@ == base@ + "/"@ + name@,
{
    let mut s = base.to_owned();
    s.append("/");
    s.append(name);
    s
}

/// A suffix of the left operand, extended by the same tail on both sides,
/// is a suffix of the concatenation.
pub proof fn lemma_suffix_extend(a: Seq<char>, b: Seq<char>, s: Seq<char>)
    requires
        has_suffix(a, s),
    ensures
        has_suffix(a + b, s + b),
{
    let ab = a + b;
    let sb = s + b;
    assert(forall|i: int|
        0 <= i < s.len() ==> #[trigger] a.subrange(a.len() - s.len(), a.len() as int)[i]
            == a[a.len() - s.len() + i]);
    assert(ab.subrange(ab.len() - sb.len(), ab.len() as int) =~= sb);
}

/// The application-data root: the platform's local-data directory (or `.`
/// when it cannot be determined) joined with the product directory name.
pub fn app_data_root() -> (r: String)
    ensures
        has_suffix(r@, "/palm-counting-ai"@),
{
    let base = match data_local_dir() {
        Some(b) => b,
        None => ".".to_owned(),
    };
    let r = path_join(base.as_str(), "palm-counting-ai");
    proof {
        reveal_strlit("/");
        reveal_strlit("palm-counting-ai");
        reveal_strlit("/palm-counting-ai");
        assert(r@.subrange(r@.len() - 17, r@.len() as int) =~= "/palm-counting-ai"@);
    }
    r
}

/// Where the configuration store lives.
pub fn db_path() -> (r: String)
    ensures
        has_suffix(r@, "/palm-counting-ai/database.db"@),
{
    let root = app_data_root();
    let r = path_join(root.as_str(), "database.db");
    proof {
        reveal_strlit("/");
        reveal_strlit("database.db");
        reveal_strlit("/palm-counting-ai");
        reveal_strlit("/palm-counting-ai/database.db");
        lemma_suffix_extend(root@, "/"@ + "database.db"@, "/palm-counting-ai"@);
        assert(root@ + ("/"@ + "database.db"@) =~= r@);
        assert("/palm-counting-ai"@ + ("/"@ + "database.db"@)
            =~= "/palm-counting-ai/database.db"@);
    }
    r
}

/// Where imported model files are copied.
pub fn models_dir() -> (r: String)
    ensures
        has_suffix(r@, "/palm-counting-ai/models"@),
{
    let root = app_data_root();
    let r = path_join(root.as_str(), "models");
    proof {
        reveal_strlit("/");
        reveal_strlit("models");
        reveal_strlit("/palm-counting-ai");
        reveal_strlit("/palm-counting-ai/models");
        lemma_suffix_extend(root@, "/"@ + "models"@, "/palm-counting-ai"@);
        assert(root@ + ("/"@ + "models"@) =~= r@);
        assert("/palm-counting-ai"@ + ("/"@ + "models"@) =~= "/palm-counting-ai/models"@);
    }
    r
}

/// Where the AI pack is extracted.
pub fn app_data_binaries_dir() -> (r: String)
    ensures
        has_suffix(r@, "/palm-counting-ai/binaries"@),
{
    let root = app_data_root();
    let r = path_join(root.as_str(), "binaries");
    proof {
        reveal_strlit("/");
        reveal_strlit("binaries");
        reveal_strlit("/palm-counting-ai");
        reveal_strlit("/palm-counting-ai/binaries");
        lemma_suffix_extend(root@, "/"@ + "binaries"@, "/palm-counting-ai"@);
        assert(root@ + ("/"@ + "binaries"@) =~= r@);
        assert("/palm-counting-ai"@ + ("/"@ + "binaries"@) =~= "/palm-counting-ai/binaries"@);
    }
    r
}

/// The binaries folder the pack installer targets; always known.
pub fn get_ai_pack_binaries_path() -> (r: Option<String>)
    ensures
        r is Some,
        has_suffix(r->0@, "/palm-counting-ai/binaries"@),
{
    Some(app_data_binaries_dir())
}

/// The installed-pack location as shown to the UI.
pub fn get_ai_pack_path() -> (r: Option<String>)
    ensures
        r is Some,
        has_suffix(r->0@, "/palm-counting-ai/binaries"@),
{
    get_ai_pack_binaries_path()
}

/// The fixed in-progress download path inside the given temp directory; the
/// name is fixed so that resume works across app restarts.
pub fn temp_partial_path(temp_dir: &str) -> (r: String)
    ensures
        r@ == temp_dir@ + "/palm-ai-pack-download.partial"@,
{
    let r = path_join(temp_dir, "palm-ai-pack-download.partial");
    proof {
        reveal_strlit("/");
        reveal_strlit("palm-ai-pack-download.partial");
        reveal_strlit("/palm-ai-pack-download.partial");
        assert(temp_dir@ + "/"@ + "palm-ai-pack-download.partial"@ =~= temp_dir@
            + "/palm-ai-pack-download.partial"@);
    }
    r
}

/// The committed archive path inside the given temp directory.
pub fn temp_zip_path(temp_dir: &str) -> (r: String)
    ensures
        r@ == temp_dir@ + "/palm-ai-pack-download.zip"@,
{
    let r = path_join(temp_dir, "palm-ai-pack-download.zip");
    proof {
        reveal_strlit("/");
        reveal_strlit("palm-ai-pack-download.zip");
        reveal_strlit("/palm-ai-pack-download.zip");
        assert(temp_dir@ + "/"@ + "palm-ai-pack-download.zip"@ =~= temp_dir@
            + "/palm-ai-pack-download.zip"@);
    }
    r
}

} // verus!
