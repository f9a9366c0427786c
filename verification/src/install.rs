//! Pack installer: entry-name normalization, the extraction plan with its
//! progress events, and the size-and-executable validation of what was
//! extracted. Reading the archive goes through trusted zip wrappers; writing
//! the files is the caller's I/O.

use vstd::prelude::*;

use crate::strutil::dec_str;
use crate::strutil::has_prefix;
use crate::strutil::push_char;
use crate::strutil::starts_with_str;
use crate::strutil::str_eq;
use crate::strutil::u64_to_dec;

verus! {

// ---------------------------------------------------------------------------
// Trusted view of the archive
// ---------------------------------------------------------------------------

#[verifier::external_type_specification]
#[verifier::external_body]
#[verifier::reject_recursive_types(T)]
pub struct ExCursor<T>(std::io::Cursor<T>);

#[verifier::external_type_specification]
#[verifier::external_body]
#[verifier::reject_recursive_types(R)]
pub struct ExZipArchive<R>(zip::ZipArchive<R>);

/// The entries of an opened archive, in index order: name, directory flag,
/// decompressed bytes.
pub uninterp spec fn zip_entries(a: zip::ZipArchive<std::io::Cursor<Vec<u8>>>) -> Seq<
    (Seq<char>, bool, Seq<u8>),
>;

/// Whether each entry can be opened and fully decompressed; over an
/// in-memory archive this is a pure function of the archive.
pub uninterp spec fn zip_entry_readable(a: zip::ZipArchive<std::io::Cursor<Vec<u8>>>) -> Seq<
    bool,
>;

/// Relies on zip::ZipArchive::new: reads the archive's central directory
/// out of the given bytes.
#[verifier::external_body]
pub fn zip_open(data: Vec<u8>) -> (r: Result<
    zip::ZipArchive<std::io::Cursor<Vec<u8>>>,
    String,
>) {
    zip::ZipArchive::new(std::io::Cursor::new(data)).map_err(|e| e.to_string())
}

/// Relies on zip::ZipArchive::len: the number of entries in the archive.
#[verifier::external_body]
pub fn zip_len(a: &zip::ZipArchive<std::io::Cursor<Vec<u8>>>) -> (r: usize)
    ensures
        r == zip_entries(*a).len(),
        r == zip_entry_readable(*a).len(),
{
    a.len()
}

/// Relies on zip::ZipArchive::by_index and std::io::Read::read_to_end:
/// hands out entry `i` — its name, directory flag and decompressed bytes —
/// succeeding exactly when the entry is in range and readable, and reading
/// never changes what the archive holds.
#[verifier::external_body]
pub fn zip_entry(a: &mut zip::ZipArchive<std::io::Cursor<Vec<u8>>>, i: usize) -> (r: Result<
    (String, bool, Vec<u8>),
    String,
>)
    ensures
        zip_entries(*final(a)) == zip_entries(*old(a)),
        zip_entry_readable(*final(a)) == zip_entry_readable(*old(a)),
        r is Ok <==> (i < zip_entries(*old(a)).len() && zip_entry_readable(*old(a))[i as int]),
        r matches Ok(e) ==> i < zip_entries(*old(a)).len() && e.0@ == zip_entries(*old(a))[
            i as int].0 && e.1 == zip_entries(*old(a))[i as int].1 && e.2@ == zip_entries(
            *old(a),
        )[i as int].2,
{
    let mut entry = a.by_index(i).map_err(|e| e.to_string())?;
    let name = entry.name().to_owned();
    let is_dir = entry.is_dir();
    let mut data: Vec<u8> = Vec::new();
    std::io::Read::read_to_end(&mut entry, &mut data).map_err(|e| e.to_string())?;
    Ok((name, is_dir, data))
}

// ---------------------------------------------------------------------------
// Entry-name normalization
// ---------------------------------------------------------------------------

/// Backslashes canonicalized to forward slashes.
pub open spec fn bs_to_slash(s: Seq<char>) -> Seq<char> {
    Seq::new(s.len(), |i: int| if s[i] == '\\' { '/' } else { s[i] })
}

/// Replace every backslash with a forward slash.
pub fn replace_backslashes(s: &str) -> (r: String)
    ensures
        r@ == bs_to_slash(s@),
{
    let n = s.unicode_len();
    let mut r = String::new();
    let mut i: usize = 0;
    while i < n
        invariant
            i <= n,
            n == s@.len(),
            r@ == bs_to_slash(s@).take(i as int),
        decreases n - i,
    {
        let c = s.get_char(i);
        if c == '\\' {
            push_char(&mut r, '/');
        } else {
            push_char(&mut r, c);
        }
        proof {
            assert(r@ =~= bs_to_slash(s@).take(i + 1));
        }
        i += 1;
    }
    proof {
        assert(bs_to_slash(s@).take(n as int) =~= bs_to_slash(s@));
    }
    r
}

/// The prefix the archive may put in front of every entry.
pub open spec fn binaries_prefix() -> Seq<char> {
    seq!['b', 'i', 'n', 'a', 'r', 'i', 'e', 's', '/']
}

/// That prefix stripped, as often as it occurs.
pub open spec fn strip_binaries_prefix(s: Seq<char>) -> Seq<char>
    decreases s.len(),
{
    if has_prefix(s, binaries_prefix()) {
        strip_binaries_prefix(s.skip(9))
    } else {
        s
    }
}

/// Where an entry goes, relative to the binaries directory: slashes
/// canonicalized, the optional `binaries/` prefix stripped; an empty or
/// slash-terminated result marks a directory-like entry to skip.
pub open spec fn entry_out_name_spec(name: Seq<char>) -> Option<Seq<char>> {
    let n = strip_binaries_prefix(bs_to_slash(name));
    if n.len() == 0 || n.last() == '/' {
        None
    } else {
        Some(n)
    }
}

/// Normalize one entry name.
pub fn entry_out_name(name: &str) -> (r: Option<String>)
    ensures
        r is Some <==> entry_out_name_spec(name@) is Some,
        r matches Some(s) ==> s@ == entry_out_name_spec(name@)->0,
{
    let replaced = replace_backslashes(name);
    let mut cur: &str = replaced.as_str();
    proof {
        reveal_strlit("binaries/");
        assert("binaries/"@ =~= binaries_prefix());
    }
    while starts_with_str(cur, "binaries/")
        invariant
            "binaries/"@ == binaries_prefix(),
            strip_binaries_prefix(cur@) == strip_binaries_prefix(bs_to_slash(name@)),
        decreases cur@.len(),
    {
        let n = cur.unicode_len();
        let ghost prev = cur@;
        cur = cur.substring_char(9, n);
        proof {
            assert(cur@ =~= prev.skip(9));
        }
    }
    let n = cur.unicode_len();
    if n == 0 {
        return None;
    }
    if cur.get_char(n - 1) == '/' {
        return None;
    }
    Some(cur.to_owned())
}

// ---------------------------------------------------------------------------
// The extraction plan
// ---------------------------------------------------------------------------

/// One file or directory to materialize under the binaries directory.
pub struct PackEntry {
    pub name: String,
    pub is_dir: bool,
    pub data: Vec<u8>,
}

/// An extraction progress event: every 50th processed entry, and whenever
/// the count reaches the archive's entry total.
pub struct ExtractProgress {
    pub current: usize,
    pub total: usize,
    pub percent: u8,
}

/// The archive entries that get materialized, in order, under their
/// normalized names; directory-like entries disappear.
pub open spec fn kept_entries(es: Seq<(Seq<char>, bool, Seq<u8>)>) -> Seq<
    (Seq<char>, bool, Seq<u8>),
>
    decreases es.len(),
{
    if es.len() == 0 {
        Seq::empty()
    } else {
        let front = kept_entries(es.drop_last());
        let e = es.last();
        match entry_out_name_spec(e.0) {
            None => front,
            Some(n) => front.push((n, e.1, e.2)),
        }
    }
}

pub proof fn lemma_kept_entries_len(es: Seq<(Seq<char>, bool, Seq<u8>)>)
    ensures
        kept_entries(es).len() <= es.len(),
    decreases es.len(),
{
    if es.len() > 0 {
        lemma_kept_entries_len(es.drop_last());
    }
}

/// Rounded extraction percentage; an empty archive reads as done.
pub open spec fn extract_percent_spec(c: int, t: int) -> int {
    if t <= 0 {
        100
    } else {
        (200 * c + t) / (2 * t)
    }
}

/// Compute the rounded extraction percentage.
pub fn extract_percent(c: usize, t: usize) -> (r: u8)
    requires
        c <= t,
    ensures
        r as int == extract_percent_spec(c as int, t as int),
{
    if t == 0 {
        return 100;
    }
    let num: u128 = 200u128 * (c as u128) + (t as u128);
    let den: u128 = 2u128 * (t as u128);
    proof {
        assert(num < 101 * den);
        assert(num / den < 101) by (nonlinear_arith)
            requires
                num < 101 * den,
                den > 0,
        ;
    }
    let p: u128 = num / den;
    p as u8
}

/// What a correct extraction plan holds, given the archive's entries: the
/// kept entries in order, and after the k-th of them an event exactly when
/// the running count hits a multiple of 50 or the archive's entry total.
pub open spec fn plan_matches(
    steps: Seq<(PackEntry, Option<ExtractProgress>)>,
    es: Seq<(Seq<char>, bool, Seq<u8>)>,
) -> bool {
    let kept = kept_entries(es);
    &&& steps.len() == kept.len()
    &&& forall|k: int|
        0 <= k < steps.len() ==> {
            &&& (#[trigger] steps[k]).0.name@ == kept[k].0
            &&& steps[k].0.is_dir == kept[k].1
            &&& steps[k].0.data@ == kept[k].2
            &&& (steps[k].1 is Some <==> ((k + 1) % 50 == 0 || k + 1 == es.len()))
            &&& (steps[k].1 matches Some(ev) ==> ev.current == k + 1 && ev.total == es.len()
                && ev.percent as int == extract_percent_spec(k + 1, es.len() as int))
        }
}

/// The whole extraction, planned: the entry total to announce, then the
/// entries to write with the events to emit after each.
pub struct ExtractPlan {
    pub total_entries: usize,
    pub steps: Vec<(PackEntry, Option<ExtractProgress>)>,
}

/// Read every archive entry and plan the extraction: it succeeds exactly
/// when every entry is readable, and a corrupt entry fails the whole plan
/// with its error text.
pub fn build_extract_plan(a: &mut zip::ZipArchive<std::io::Cursor<Vec<u8>>>) -> (r: Result<
    ExtractPlan,
    String,
>)
    ensures
        zip_entries(*final(a)) == zip_entries(*old(a)),
        zip_entry_readable(*final(a)) == zip_entry_readable(*old(a)),
        r is Ok <==> (forall|k: int|
            0 <= k < zip_entries(*old(a)).len() ==> zip_entry_readable(*old(a))[k]),
        r matches Ok(plan) ==> plan.total_entries == zip_entries(*old(a)).len()
            && plan_matches(plan.steps@, zip_entries(*old(a))),
{
    let ghost es = zip_entries(*a);
    let ghost readable = zip_entry_readable(*a);
    let total = zip_len(a);
    let mut steps: Vec<(PackEntry, Option<ExtractProgress>)> = Vec::new();
    let mut i: usize = 0;
    while i < total
        invariant
            i <= total,
            total == es.len(),
            zip_entries(*a) == es,
            es == zip_entries(*old(a)),
            zip_entry_readable(*a) == readable,
            readable == zip_entry_readable(*old(a)),
            readable.len() == es.len(),
            forall|k: int| 0 <= k < i ==> readable[k],
            steps@.len() == kept_entries(es.take(i as int)).len(),
            forall|k: int|
                0 <= k < steps@.len() ==> {
                    &&& (#[trigger] steps@[k]).0.name@ == kept_entries(es.take(i as int))[k].0
                    &&& steps@[k].0.is_dir == kept_entries(es.take(i as int))[k].1
                    &&& steps@[k].0.data@ == kept_entries(es.take(i as int))[k].2
                    &&& (steps@[k].1 is Some <==> ((k + 1) % 50 == 0 || k + 1 == es.len()))
                    &&& (steps@[k].1 matches Some(ev) ==> ev.current == k + 1 && ev.total
                        == es.len() && ev.percent as int == extract_percent_spec(
                        k + 1,
                        es.len() as int,
                    ))
                },
        decreases total - i,
    {
        let e = match zip_entry(a, i) {
            Ok(e) => e,
            Err(msg) => { return Err(msg); },
        };
        proof {
            assert(es.take(i + 1).drop_last() =~= es.take(i as int));
            assert(es.take(i + 1).last() == es[i as int]);
            lemma_kept_entries_len(es.take(i as int));
        }
        match entry_out_name(e.0.as_str()) {
            None => {},
            Some(name) => {
                let current = steps.len() + 1;
                let ev = if current % 50 == 0 || current == total {
                    Some(
                        ExtractProgress {
                            current,
                            total,
                            percent: extract_percent(current, total),
                        },
                    )
                } else {
                    None
                };
                steps.push((PackEntry { name, is_dir: e.1, data: e.2 }, ev));
            },
        }
        i += 1;
    }
    proof {
        assert(es.take(total as int) =~= es);
    }
    Ok(ExtractPlan { total_entries: total, steps })
}

// ---------------------------------------------------------------------------
// Post-extraction validation
// ---------------------------------------------------------------------------

/// Saturating total of a list of file sizes.
pub open spec fn sat_total(s: Seq<u64>) -> int
    decreases s.len(),
{
    if s.len() == 0 {
        0
    } else {
        let rest = sat_total(s.drop_last());
        if rest + s.last() > u64::MAX {
            u64::MAX as int
        } else {
            rest + s.last()
        }
    }
}

/// Total size of a directory tree, from the file sizes the caller listed;
/// saturates rather than overflow.
pub fn dir_total_size(sizes: &Vec<u64>) -> (r: u64)
    ensures
        r as int == sat_total(sizes@),
{
    let mut acc: u64 = 0;
    let mut i: usize = 0;
    while i < sizes.len()
        invariant
            i <= sizes@.len(),
            acc as int == sat_total(sizes@.take(i as int)),
        decreases sizes@.len() - i,
    {
        proof {
            assert(sizes@.take(i + 1).drop_last() =~= sizes@.take(i as int));
            assert(sizes@.take(i + 1).last() == sizes@[i as int]);
        }
        let x = sizes[i];
        if acc > u64::MAX - x {
            acc = u64::MAX;
        } else {
            acc = acc + x;
        }
        i += 1;
    }
    proof {
        assert(sizes@.take(sizes@.len() as int) =~= sizes@);
    }
    acc
}

/// The platform's expected sidecar executable names.
pub open spec fn is_expected_exe(n: Seq<char>, windows: bool) -> bool {
    if windows {
        n == "infer_worker.exe"@ || n == "infer_worker-x86_64-pc-windows-msvc.exe"@
    } else {
        n == "infer_worker"@ || n == "infer_worker-x86_64-unknown-linux-gnu"@
            || n == "infer_worker-aarch64-apple-darwin"@ || n == "infer_worker-x86_64-apple-darwin"@
    }
}

/// Whether any of the listed file names is an expected sidecar executable.
pub fn exe_present(files: &Vec<String>, windows: bool) -> (r: bool)
    ensures
        r == exists|i: int| 0 <= i < files@.len() && is_expected_exe(#[trigger] files@[i]@, windows),
{
    let mut i: usize = 0;
    while i < files.len()
        invariant
            i <= files@.len(),
            forall|j: int| 0 <= j < i ==> !is_expected_exe(#[trigger] files@[j]@, windows),
        decreases files@.len() - i,
    {
        let f = files[i].as_str();
        let hit = if windows {
            str_eq(f, "infer_worker.exe") || str_eq(f, "infer_worker-x86_64-pc-windows-msvc.exe")
        } else {
            str_eq(f, "infer_worker") || str_eq(f, "infer_worker-x86_64-unknown-linux-gnu")
                || str_eq(f, "infer_worker-aarch64-apple-darwin") || str_eq(
                f,
                "infer_worker-x86_64-apple-darwin",
            )
        };
        if hit {
            return true;
        }
        i += 1;
    }
    false
}

/// The floor below which an extracted pack cannot be real.
pub open spec fn min_pack_size() -> int {
    5_000_000
}

/// A valid pack: strictly larger than the floor, with an expected
/// executable present.
pub open spec fn pack_valid_spec(size: int, exe_found: bool) -> bool {
    size > min_pack_size() && exe_found
}

/// The extracted size in hundredths of a megabyte, rounded.
pub open spec fn mb_hundredths(size: int) -> int {
    (2 * size + 10000) / 20000
}

/// A two-digit decimal rendering for values below ten.
pub open spec fn pad2(n: int) -> Seq<char>
    recommends
        0 <= n < 100,
{
    if 0 <= n < 10 {
        seq!['0'] + dec_str(n as nat)
    } else {
        dec_str(n as nat)
    }
}

/// The extracted size in megabytes, two decimals.
pub open spec fn mb_str(size: int) -> Seq<char> {
    dec_str((mb_hundredths(size) / 100) as nat) + "."@ + pad2(mb_hundredths(size) % 100)
}

/// Render a byte count as megabytes with two decimals.
pub fn mb_to_string(size: u64) -> (r: String)
    ensures
        r@ == mb_str(size as int),
{
    let num: u128 = 2u128 * (size as u128) + 10000u128;
    proof {
        assert(num / 20000u128 < 0x1_0000_0000_0000_0000u128) by (nonlinear_arith)
            requires
                num < 20000u128 * 0x1_0000_0000_0000_0000u128,
        ;
    }
    let h: u64 = (num / 20000u128) as u64;
    let whole = h / 100;
    let frac = h % 100;
    let mut s = u64_to_dec(whole);
    s.append(".");
    let d = u64_to_dec(frac);
    if frac < 10 {
        s.append("0");
        s.append(d.as_str());
        proof {
            reveal_strlit("0");
            assert(s@ =~= mb_str(size as int));
        }
    } else {
        s.append(d.as_str());
        proof {
            assert(s@ =~= mb_str(size as int));
        }
    }
    s
}

/// Why a pack was rejected; a missing executable outranks a small size.
pub open spec fn pack_invalid_reason(exe_found: bool) -> Seq<char> {
    if !exe_found {
        "infer_worker exe tidak ditemukan di folder extract"@
    } else {
        "ukuran folder extract di bawah 5 MB"@
    }
}

/// The diagnostic a rejected pack surfaces: the folder, the observed sizes
/// and the named reason.
pub open spec fn pack_invalid_message(path: Seq<char>, size: int, exe_found: bool) -> Seq<char> {
    "File yang didownload bukan AI pack valid. Folder: "@ + path + " | Ukuran: "@ + dec_str(
        size as nat,
    ) + " bytes ("@ + mb_str(size) + " MB) | Minimum: 5 MB | Penyebab: "@ + pack_invalid_reason(
        exe_found,
    )
}

/// Pack validity: an extracted tree of total size at most 5,000,000 bytes,
/// or lacking every expected executable, is rejected, with the numeric
/// evidence and the named reason in the error text.
pub fn validate_pack(binaries_path: &str, size: u64, exe_found: bool) -> (r: Result<(), String>)
    ensures
        r is Ok <==> pack_valid_spec(size as int, exe_found),
        r matches Err(e) ==> e@ == pack_invalid_message(binaries_path@, size as int, exe_found),
{
    if size > 5_000_000 && exe_found {
        return Ok(());
    }
    let mut m = "File yang didownload bukan AI pack valid. Folder: ".to_owned();
    m.append(binaries_path);
    m.append(" | Ukuran: ");
    let ds = u64_to_dec(size);
    m.append(ds.as_str());
    m.append(" bytes (");
    let mb = mb_to_string(size);
    m.append(mb.as_str());
    m.append(" MB) | Minimum: 5 MB | Penyebab: ");
    if !exe_found {
        m.append("infer_worker exe tidak ditemukan di folder extract");
    } else {
        m.append("ukuran folder extract di bawah 5 MB");
    }
    proof {
        assert(m@ =~= pack_invalid_message(binaries_path@, size as int, exe_found));
    }
    Err(m)
}

} // verus!
