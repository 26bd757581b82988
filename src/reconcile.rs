//! Reconciliation of the declared flags against the native build system's
//! resolved cache.

use vstd::prelude::*;
use crate::flags::{ConfigValue, FlagModel, FlagView, translated, views};

verus! {

/// One key/value pair of the native cache, with the boolean or text kind
/// that its type hint gives.
#[derive(Clone, Debug, PartialEq, Eq)]
pub struct NativeCacheEntry {
    pub key: String,
    pub is_bool: bool,
    pub value: String,
}

pub open spec fn entry_view(e: NativeCacheEntry) -> (Seq<char>, bool, Seq<char>) {
    (e.key@, e.is_bool, e.value@)
}

pub open spec fn entries_view(s: Seq<NativeCacheEntry>) -> Seq<(Seq<char>, bool, Seq<char>)> {
    s.map_values(|e: NativeCacheEntry| entry_view(e))
}

/// The entries that the native cache text holds, in order, or `None` where
/// the text is malformed.
pub uninterp spec fn cache_entries_of(text: Seq<char>) -> Option<Seq<(Seq<char>, bool, Seq<char>)>>;

/// Whether the native build system reads a boolean cache value as true.
pub uninterp spec fn cmake_truthy(value: Seq<char>) -> bool;

/// The native cache text could not be parsed.
#[derive(Clone, Copy, Debug, PartialEq, Eq, Structural)]
pub enum CacheParseError {
    Malformed,
}

/// Relies on `cmake_config::parse_raw`: the `key:TYPE=value` entries of the
/// cache text, in order; a `BOOL` type hint marks a boolean entry.
#[verifier::external_body]
fn parse_cache_entries(text: &str) -> (r: Result<Vec<NativeCacheEntry>, CacheParseError>)
    ensures
        r is Ok <==> cache_entries_of(text@) is Some,
        r matches Ok(v) ==> entries_view(v@) == cache_entries_of(text@)->Some_0,
{
    let reader = std::io::BufReader::new(std::io::Cursor::new(text.as_bytes()));
    match cmake_config::parse_raw(reader) {
        Ok(raw) => Ok(raw.into_iter().map(|f| NativeCacheEntry {
            is_bool: f.cmake_type == cmake_config::CMakeType::Bool,
            key: f.key,
            value: f.value,
        }).collect()),
        Err(_) => Err(CacheParseError::Malformed),
    }
}

/// Relies on `cmake_config::interpret_value_as_boolish`: the native build
/// system's reading of a boolean value.
#[verifier::external_body]
fn interpret_boolish(value: &str) -> (r: bool)
    ensures
        r == cmake_truthy(value@),
{
    cmake_config::interpret_value_as_boolish(value)
}

pub open spec fn has_prefix(s: Seq<char>, p: Seq<char>) -> bool {
    p.len() <= s.len() && s.subrange(0, p.len() as int) == p
}

/// Whether `s` starts with `p`.
pub fn starts_with(s: &str, p: &str) -> (r: bool)
    ensures
        r == has_prefix(s@, p@),
{
    let n = s.unicode_len();
    let m = p.unicode_len();
    if m > n {
        return false;
    }
    let mut i: usize = 0;
    while i < m
        invariant
            m <= n,
            n == s@.len(),
            m == p@.len(),
            i <= m,
            s@.subrange(0, i as int) == p@.subrange(0, i as int),
        decreases m - i,
    {
        if s.get_char(i) != p.get_char(i) {
            assert(s@.subrange(0, m as int)[i as int] != p@[i as int]);
            return false;
        }
        assert(s@.subrange(0, i + 1) =~= s@.subrange(0, i as int).push(s@[i as int]));
        assert(p@.subrange(0, i + 1) =~= p@.subrange(0, i as int).push(p@[i as int]));
        i += 1;
    }
    assert(p@.subrange(0, m as int) =~= p@);
    true
}

/// A key is of interest when it starts with one of the given prefixes.
pub open spec fn interesting(key: Seq<char>, prefixes: Seq<Seq<char>>) -> bool {
    exists|i: int| 0 <= i < prefixes.len() && has_prefix(key, #[trigger] prefixes[i])
}

/// The flag that a native cache entry stands for.
pub open spec fn native_flag(e: (Seq<char>, bool, Seq<char>)) -> FlagView {
    if e.1 {
        FlagView::Boolish(e.0, cmake_truthy(e.2))
    } else {
        FlagView::Stringish(e.0, e.2)
    }
}

/// The flags of the entries whose key is of interest, in order.
pub open spec fn native_flags(
    entries: Seq<(Seq<char>, bool, Seq<char>)>,
    prefixes: Seq<Seq<char>>,
) -> Seq<FlagView>
    decreases entries.len(),
{
    if entries.len() == 0 {
        seq![]
    } else {
        let rest = native_flags(entries.drop_last(), prefixes);
        if interesting(entries.last().0, prefixes) {
            rest.push(native_flag(entries.last()))
        } else {
            rest
        }
    }
}

/// Whether `key` is of interest under `prefixes`.
pub fn is_interesting(key: &str, prefixes: &Vec<String>) -> (r: bool)
    ensures
        r == interesting(key@, prefixes@.map_values(|p: String| p@)),
{
    let ghost ps = prefixes@.map_values(|p: String| p@);
    let mut i: usize = 0;
    while i < prefixes.len()
        invariant
            i <= prefixes@.len(),
            ps == prefixes@.map_values(|p: String| p@),
            forall|j: int| 0 <= j < i ==> !has_prefix(key@, #[trigger] ps[j]),
        decreases prefixes@.len() - i,
    {
        if starts_with(key, prefixes[i].as_str()) {
            assert(has_prefix(key@, ps[i as int]));
            return true;
        }
        i += 1;
    }
    false
}

/// The flag model of one native cache entry.
pub fn flag_of_entry(e: &NativeCacheEntry) -> (r: FlagModel)
    ensures
        r@ == native_flag(entry_view(*e)),
{
    if e.is_bool {
        FlagModel::Boolish(e.key.clone(), interpret_boolish(e.value.as_str()))
    } else {
        FlagModel::Stringish(e.key.clone(), e.value.clone())
    }
}

/// The flags of the cache entries of interest, in cache order.
pub fn interesting_flags(entries: &Vec<NativeCacheEntry>, prefixes: &Vec<String>) -> (r: Vec<FlagModel>)
    ensures
        views(r@) == native_flags(entries_view(entries@), prefixes@.map_values(|p: String| p@)),
{
    let ghost ps = prefixes@.map_values(|p: String| p@);
    let mut out: Vec<FlagModel> = Vec::new();
    let mut i: usize = 0;
    while i < entries.len()
        invariant
            i <= entries@.len(),
            ps == prefixes@.map_values(|p: String| p@),
            views(out@) == native_flags(entries_view(entries@).subrange(0, i as int), ps),
        decreases entries@.len() - i,
    {
        let ghost before = out@;
        assert(entries_view(entries@).subrange(0, i + 1).drop_last()
            =~= entries_view(entries@).subrange(0, i as int));
        if is_interesting(entries[i].key.as_str(), prefixes) {
            out.push(flag_of_entry(&entries[i]));
            assert(views(out@) =~= views(before).push(out@.last()@));
        }
        i += 1;
    }
    assert(entries_view(entries@).subrange(0, entries@.len() as int) =~= entries_view(entries@));
    out
}

/// The declared flags that the native flags lack, in declared order.
pub open spec fn missing_flags(declared: Seq<FlagView>, native: Seq<FlagView>) -> Seq<FlagView>
    decreases declared.len(),
{
    if declared.len() == 0 {
        seq![]
    } else {
        let rest = missing_flags(declared.drop_last(), native);
        if native.contains(declared.last()) {
            rest
        } else {
            rest.push(declared.last())
        }
    }
}

/// The native flags with the given key, in order.
pub open spec fn same_key_flags(native: Seq<FlagView>, key: Seq<char>) -> Seq<FlagView>
    decreases native.len(),
{
    if native.len() == 0 {
        seq![]
    } else {
        let rest = same_key_flags(native.drop_last(), key);
        if native.last().key() == key {
            rest.push(native.last())
        } else {
            rest
        }
    }
}

/// A declared flag that the native cache lacks, with the native flags that
/// share its key.
#[derive(Clone, Debug, PartialEq, Eq)]
pub struct Mismatch {
    pub flag: FlagModel,
    pub near_misses: Vec<FlagModel>,
}

/// The report describes, in order, each missing flag and its near misses.
pub open spec fn report_matches(report: Seq<Mismatch>, declared: Seq<FlagView>, native: Seq<FlagView>) -> bool {
    let m = missing_flags(declared, native);
    &&& report.len() == m.len()
    &&& forall|i: int| 0 <= i < m.len() ==> (#[trigger] report[i]).flag@ == m[i]
        && views(report[i].near_misses@) == same_key_flags(native, m[i].key())
}

/// Whether `native` holds `flag`.
pub fn contains_flag(native: &Vec<FlagModel>, flag: &FlagModel) -> (r: bool)
    ensures
        r == views(native@).contains(flag@),
{
    let mut i: usize = 0;
    while i < native.len()
        invariant
            i <= native@.len(),
            forall|j: int| 0 <= j < i ==> (#[trigger] native@[j])@ != flag@,
        decreases native@.len() - i,
    {
        if native[i].same_as(flag) {
            assert(views(native@)[i as int] == flag@);
            return true;
        }
        i += 1;
    }
    assert(!views(native@).contains(flag@)) by {
        if views(native@).contains(flag@) {
            let j = choose|j: int| 0 <= j < views(native@).len() && views(native@)[j] == flag@;
            assert(native@[j]@ == flag@);
        }
    }
    false
}

/// The native flags that share `key`, in order.
pub fn near_misses(native: &Vec<FlagModel>, key: &String) -> (r: Vec<FlagModel>)
    ensures
        views(r@) == same_key_flags(views(native@), key@),
{
    let mut out: Vec<FlagModel> = Vec::new();
    let mut i: usize = 0;
    while i < native.len()
        invariant
            i <= native@.len(),
            views(out@) == same_key_flags(views(native@).subrange(0, i as int), key@),
        decreases native@.len() - i,
    {
        let ghost before = out@;
        assert(views(native@).subrange(0, i + 1).drop_last() =~= views(native@).subrange(0, i as int));
        if native[i].key().eq(key) {
            out.push(native[i].clone_flag());
            assert(views(out@) =~= views(before).push(native@[i as int]@));
        }
        i += 1;
    }
    assert(views(native@).subrange(0, native@.len() as int) =~= views(native@));
    out
}

/// Check that every declared flag is among the native ones. On failure the
/// report lists each missing flag with the native flags sharing its key.
pub fn reconcile(declared: &Vec<FlagModel>, native: &Vec<FlagModel>) -> (r: Result<(), Vec<Mismatch>>)
    ensures
        r is Ok <==> missing_flags(views(declared@), views(native@)).len() == 0,
        r matches Err(report) ==> report_matches(report@, views(declared@), views(native@)),
{
    let ghost d = views(declared@);
    let ghost n = views(native@);
    let mut report: Vec<Mismatch> = Vec::new();
    let mut i: usize = 0;
    while i < declared.len()
        invariant
            i <= declared@.len(),
            d == views(declared@),
            n == views(native@),
            report_matches(report@, d.subrange(0, i as int), n),
        decreases declared@.len() - i,
    {
        assert(d.subrange(0, i + 1).drop_last() =~= d.subrange(0, i as int));
        assert(d.subrange(0, i + 1).last() == declared@[i as int]@);
        if !contains_flag(native, &declared[i]) {
            let near = near_misses(native, declared[i].key());
            report.push(Mismatch { flag: declared[i].clone_flag(), near_misses: near });
        }
        i += 1;
    }
    assert(d.subrange(0, declared@.len() as int) =~= d);
    if report.len() == 0 {
        Ok(())
    } else {
        Err(report)
    }
}

/// Every declared flag lacking from the native flags is reported missing,
/// and nothing else is.
pub proof fn lemma_missing_flags_exact(declared: Seq<FlagView>, native: Seq<FlagView>, x: FlagView)
    ensures
        missing_flags(declared, native).contains(x) <==> (declared.contains(x) && !native.contains(x)),
    decreases declared.len(),
{
    if declared.len() > 0 {
        let init = declared.drop_last();
        lemma_missing_flags_exact(init, native, x);
        if init.contains(x) {
            let j = choose|j: int| 0 <= j < init.len() && init[j] == x;
            assert(declared[j] == x);
        }
        if declared.contains(x) && !init.contains(x) {
            let j = choose|j: int| 0 <= j < declared.len() && declared[j] == x;
            if j < init.len() {
                assert(init[j] == x);
            }
        }
        let rest = missing_flags(init, native);
        if !native.contains(declared.last()) {
            let m = rest.push(declared.last());
            if rest.contains(x) {
                let j = choose|j: int| 0 <= j < rest.len() && rest[j] == x;
                assert(m[j] == x);
            }
            if m.contains(x) && x != declared.last() {
                let j = choose|j: int| 0 <= j < m.len() && m[j] == x;
                assert(rest[j] == x);
            }
            assert(m[m.len() - 1] == declared.last());
        }
    }
}

/// Reconciliation finds nothing missing exactly when every declared flag is
/// among the native flags; otherwise each lacking flag is reported.
pub proof fn lemma_reconcile_iff_subset(declared: Seq<FlagView>, native: Seq<FlagView>)
    ensures
        missing_flags(declared, native).len() == 0
            <==> (forall|i: int| 0 <= i < declared.len() ==> native.contains(#[trigger] declared[i])),
        forall|x: FlagView| declared.contains(x) && !native.contains(x)
            ==> #[trigger] missing_flags(declared, native).contains(x),
{
    let m = missing_flags(declared, native);
    assert forall|x: FlagView| declared.contains(x) && !native.contains(x)
        implies #[trigger] m.contains(x) by {
        lemma_missing_flags_exact(declared, native, x);
    }
    if m.len() == 0 {
        assert forall|i: int| 0 <= i < declared.len() implies native.contains(#[trigger] declared[i]) by {
            lemma_missing_flags_exact(declared, native, declared[i]);
            assert(declared.contains(declared[i]));
            assert(!m.contains(declared[i]));
        }
    }
    if forall|i: int| 0 <= i < declared.len() ==> native.contains(#[trigger] declared[i]) {
        if m.len() > 0 {
            lemma_missing_flags_exact(declared, native, m[0]);
            assert(m.contains(m[0]));
            let j = choose|j: int| 0 <= j < declared.len() && declared[j] == m[0];
            assert(native.contains(declared[j]));
        }
    }
}

/// For declarative entries and any native flag set holding every flag they
/// become, nothing is missing.
pub proof fn lemma_superset_reconciles(entries: Seq<(String, ConfigValue)>, native: Seq<FlagView>)
    requires
        forall|i: int| 0 <= i < entries.len() ==> native.contains(#[trigger] translated(entries)[i]),
    ensures
        missing_flags(translated(entries), native).len() == 0,
{
    lemma_reconcile_iff_subset(translated(entries), native);
}

/// Why reconciliation did not succeed.
#[derive(Clone, Debug, PartialEq, Eq)]
pub enum ReconcileError {
    Cache(CacheParseError),
    Mismatch(Vec<Mismatch>),
}

pub open spec fn prefix_views(prefixes: Seq<String>) -> Seq<Seq<char>> {
    prefixes.map_values(|p: String| p@)
}

/// Parse the native cache text, keep the entries of interest, and check that
/// every declared flag is among them.
pub fn reconcile_with_cache(declared: &Vec<FlagModel>, cache_text: &str, prefixes: &Vec<String>) -> (r: Result<(), ReconcileError>)
    ensures
        cache_entries_of(cache_text@) is None ==> r matches Err(ReconcileError::Cache(_)),
        cache_entries_of(cache_text@) matches Some(es) ==> {
            let n = native_flags(es, prefix_views(prefixes@));
            &&& r is Ok <==> missing_flags(views(declared@), n).len() == 0
            &&& !(r matches Err(ReconcileError::Cache(_)))
            &&& r matches Err(ReconcileError::Mismatch(report))
                ==> report_matches(report@, views(declared@), n)
        },
{
    match parse_cache_entries(cache_text) {
        Err(e) => Err(ReconcileError::Cache(e)),
        Ok(entries) => {
            let native = interesting_flags(&entries, prefixes);
            match reconcile(declared, &native) {
                Ok(()) => Ok(()),
                Err(report) => Err(ReconcileError::Mismatch(report)),
            }
        },
    }
}

} // verus!
