//! Typed configuration flags, built from declarative values.

use vstd::prelude::*;

verus! {

/// A single configuration flag: a key together with a boolean or text value.
#[derive(Clone, Debug, PartialEq, Eq, Hash)]
pub enum FlagModel {
    Boolish(String, bool),
    Stringish(String, String),
}

/// The mathematical value of a [`FlagModel`].
pub enum FlagView {
    Boolish(Seq<char>, bool),
    Stringish(Seq<char>, Seq<char>),
}

impl FlagView {
    pub open spec fn key(self) -> Seq<char> {
        match self {
            FlagView::Boolish(k, _) => k,
            FlagView::Stringish(k, _) => k,
        }
    }
}

impl View for FlagModel {
    type V = FlagView;

    open spec fn view(&self) -> FlagView {
        match self {
            FlagModel::Boolish(k, b) => FlagView::Boolish(k@, *b),
            FlagModel::Stringish(k, v) => FlagView::Stringish(k@, v@),
        }
    }
}

impl FlagModel {
    /// The flag's key.
    pub fn key(&self) -> (r: &String)
        ensures
            r@ == self@.key(),
    {
        match self {
            FlagModel::Boolish(k, _) => k,
            FlagModel::Stringish(k, _) => k,
        }
    }

    /// A copy of the flag.
    pub fn clone_flag(&self) -> (r: FlagModel)
        ensures
            r@ == self@,
    {
        match self {
            FlagModel::Boolish(k, b) => FlagModel::Boolish(k.clone(), *b),
            FlagModel::Stringish(k, v) => FlagModel::Stringish(k.clone(), v.clone()),
        }
    }

    /// Structural equality: same key, same shape, same value.
    pub fn same_as(&self, other: &FlagModel) -> (r: bool)
        ensures
            r == (self@ == other@),
    {
        match self {
            FlagModel::Boolish(k1, b1) => match other {
                FlagModel::Boolish(k2, b2) => *b1 == *b2 && k1.eq(k2),
                FlagModel::Stringish(_, _) => false,
            },
            FlagModel::Stringish(k1, v1) => match other {
                FlagModel::Boolish(_, _) => false,
                FlagModel::Stringish(k2, v2) => k1.eq(k2) && v1.eq(v2),
            },
        }
    }
}

/// A value of the declarative configuration, before it becomes a flag.
///
/// Floating-point and timestamp values are held as their canonical text,
/// rendered where they are read.
#[derive(Clone, Debug, PartialEq, Eq)]
pub enum ConfigValue {
    Boolean(bool),
    String(String),
    Integer(i64),
    Float(String),
    Timestamp(String),
}

/// A declarative flag whose key is empty or occurs more than once.
#[derive(Clone, Debug, PartialEq, Eq)]
pub struct ConversionError {
    pub key: String,
}

pub open spec fn digit_char(d: int) -> char {
    if d == 0 { '0' }
    else if d == 1 { '1' }
    else if d == 2 { '2' }
    else if d == 3 { '3' }
    else if d == 4 { '4' }
    else if d == 5 { '5' }
    else if d == 6 { '6' }
    else if d == 7 { '7' }
    else if d == 8 { '8' }
    else { '9' }
}

/// Base-ten digits of a natural number, most significant first.
pub open spec fn digits_of(n: nat) -> Seq<char>
    decreases n,
{
    if n < 10 {
        seq![digit_char(n as int)]
    } else {
        digits_of(n / 10).push(digit_char((n % 10) as int))
    }
}

/// Canonical decimal text of an integer.
pub open spec fn decimal(n: int) -> Seq<char> {
    if n < 0 {
        seq!['-'] + digits_of((-n) as nat)
    } else {
        digits_of(n as nat)
    }
}

/// Relies on `ToString::to_string` through `i64`'s `Display`: the base-ten
/// digits, preceded by `-` for a negative number.
#[verifier::external_body]
fn decimal_text(n: i64) -> (r: String)
    ensures
        r@ == decimal(n as int),
{
    n.to_string()
}

/// The flag that one declarative entry becomes: booleans stay boolean,
/// everything else becomes text.
pub open spec fn flag_of(key: Seq<char>, v: ConfigValue) -> FlagView {
    match v {
        ConfigValue::Boolean(b) => FlagView::Boolish(key, b),
        ConfigValue::String(s) => FlagView::Stringish(key, s@),
        ConfigValue::Integer(n) => FlagView::Stringish(key, decimal(n as int)),
        ConfigValue::Float(t) => FlagView::Stringish(key, t@),
        ConfigValue::Timestamp(t) => FlagView::Stringish(key, t@),
    }
}

pub open spec fn views(flags: Seq<FlagModel>) -> Seq<FlagView> {
    flags.map_values(|f: FlagModel| f@)
}

pub open spec fn string_views(s: Seq<String>) -> Seq<Seq<char>> {
    s.map_values(|x: String| x@)
}

pub open spec fn translated(entries: Seq<(String, ConfigValue)>) -> Seq<FlagView> {
    entries.map_values(|e: (String, ConfigValue)| flag_of(e.0@, e.1))
}

/// Every key is non-empty and no two entries share a key.
pub open spec fn keys_valid(entries: Seq<(String, ConfigValue)>) -> bool {
    &&& forall|i: int| 0 <= i < entries.len() ==> (#[trigger] entries[i]).0@.len() > 0
    &&& forall|i: int, j: int|
        0 <= i < entries.len() && 0 <= j < entries.len() && i != j
            ==> (#[trigger] entries[i]).0@ != (#[trigger] entries[j]).0@
}

/// `k` is the key of an entry, and is empty or shared with another entry.
pub open spec fn key_is_bad(entries: Seq<(String, ConfigValue)>, k: Seq<char>) -> bool {
    exists|i: int|
        0 <= i < entries.len() && (#[trigger] entries[i]).0@ == k && (k.len() == 0
            || exists|j: int| 0 <= j < entries.len() && j != i && (#[trigger] entries[j]).0@ == k)
}

/// Translate declarative entries into flags, one per entry and in order.
pub fn translate(entries: &Vec<(String, ConfigValue)>) -> (r: Result<Vec<FlagModel>, ConversionError>)
    ensures
        r is Ok <==> keys_valid(entries@),
        r matches Ok(flags) ==> views(flags@) == translated(entries@),
        r matches Err(e) ==> key_is_bad(entries@, e.key@),
{
    let n = entries.len();
    let mut i: usize = 0;
    while i < n
        invariant
            n == entries@.len(),
            i <= n,
            forall|a: int| 0 <= a < i ==> (#[trigger] entries@[a]).0@.len() > 0,
            forall|a: int, b: int|
                0 <= b < a < i ==> (#[trigger] entries@[a]).0@ != (#[trigger] entries@[b]).0@,
        decreases n - i,
    {
        if entries[i].0.as_str().is_empty() {
            assert(entries@[i as int].0@.len() == 0);
            return Err(ConversionError { key: entries[i].0.clone() });
        }
        let mut j: usize = 0;
        while j < i
            invariant
                n == entries@.len(),
                j <= i < n,
                forall|b: int| 0 <= b < j ==> entries@[i as int].0@ != (#[trigger] entries@[b]).0@,
            decreases i - j,
        {
            if entries[i].0.eq(&entries[j].0) {
                assert(entries@[j as int].0@ == entries@[i as int].0@);
                return Err(ConversionError { key: entries[i].0.clone() });
            }
            j += 1;
        }
        i += 1;
    }
    assert forall|a: int, b: int|
        0 <= a < n && 0 <= b < n && a != b implies (#[trigger] entries@[a]).0@ != (#[trigger] entries@[b]).0@ by {
        if b < a {
        } else {
            assert(entries@[b].0@ != entries@[a].0@);
        }
    }
    let mut out: Vec<FlagModel> = Vec::new();
    let mut k: usize = 0;
    while k < n
        invariant
            n == entries@.len(),
            k <= n,
            out@.len() == k,
            forall|a: int| 0 <= a < k ==> (#[trigger] out@[a])@ == flag_of(entries@[a].0@, entries@[a].1),
        decreases n - k,
    {
        let key = entries[k].0.clone();
        let flag = match &entries[k].1 {
            ConfigValue::Boolean(b) => FlagModel::Boolish(key, *b),
            ConfigValue::String(s) => FlagModel::Stringish(key, s.clone()),
            ConfigValue::Integer(v) => FlagModel::Stringish(key, decimal_text(*v)),
            ConfigValue::Float(t) => FlagModel::Stringish(key, t.clone()),
            ConfigValue::Timestamp(t) => FlagModel::Stringish(key, t.clone()),
        };
        out.push(flag);
        k += 1;
    }
    assert(views(out@) =~= translated(entries@));
    Ok(out)
}

/// Conversion gives one flag per entry, under the entry's key; a boolean
/// entry gives a boolean flag and every other kind a text flag.
pub proof fn lemma_translated_shape(entries: Seq<(String, ConfigValue)>)
    ensures
        translated(entries).len() == entries.len(),
        forall|i: int| 0 <= i < entries.len() ==> {
            &&& (#[trigger] translated(entries)[i]).key() == entries[i].0@
            &&& (translated(entries)[i] is Boolish <==> entries[i].1 is Boolean)
        },
{
}

/// Keys of the flags that are boolean and true, in order.
pub open spec fn truthy_keys(flags: Seq<FlagView>) -> Seq<Seq<char>>
    decreases flags.len(),
{
    if flags.len() == 0 {
        seq![]
    } else {
        let rest = truthy_keys(flags.drop_last());
        match flags.last() {
            FlagView::Boolish(k, b) => if b { rest.push(k) } else { rest },
            FlagView::Stringish(_, _) => rest,
        }
    }
}

/// The keys of the true boolean flags, in input order: the identifiers that
/// are handed to the compiler as enabled features.
pub fn truthy_identifiers(flags: &Vec<FlagModel>) -> (r: Vec<String>)
    ensures
        string_views(r@) == truthy_keys(views(flags@)),
{
    let mut out: Vec<String> = Vec::new();
    let mut i: usize = 0;
    while i < flags.len()
        invariant
            i <= flags@.len(),
            string_views(out@) == truthy_keys(views(flags@).subrange(0, i as int)),
        decreases flags@.len() - i,
    {
        let ghost before = out@;
        assert(views(flags@).subrange(0, i + 1).drop_last() =~= views(flags@).subrange(0, i as int));
        match &flags[i] {
            FlagModel::Boolish(k, b) => {
                if *b {
                    out.push(k.clone());
                    assert(string_views(out@) =~= string_views(before).push(k@));
                }
            },
            FlagModel::Stringish(_, _) => {},
        }
        i += 1;
    }
    assert(views(flags@).subrange(0, flags@.len() as int) =~= views(flags@));
    out
}

/// No two flags share a key.
pub open spec fn keys_distinct(flags: Seq<FlagView>) -> bool {
    forall|i: int, j: int|
        0 <= i < flags.len() && 0 <= j < flags.len() && i != j
            ==> (#[trigger] flags[i]).key() != (#[trigger] flags[j]).key()
}

/// Every identifier picked from a flag sequence is the key of one of its flags.
pub proof fn lemma_truthy_keys_are_keys(flags: Seq<FlagView>, k: Seq<char>)
    requires
        truthy_keys(flags).contains(k),
    ensures
        exists|i: int| 0 <= i < flags.len() && (#[trigger] flags[i]).key() == k,
    decreases flags.len(),
{
    let init = flags.drop_last();
    if truthy_keys(init).contains(k) {
        lemma_truthy_keys_are_keys(init, k);
        let i = choose|i: int| 0 <= i < init.len() && (#[trigger] init[i]).key() == k;
        assert(flags[i] == init[i]);
    } else {
        assert(flags[flags.len() - 1].key() == k);
    }
}

/// Over flags with distinct keys, the true flags' identifiers hold no
/// repetition.
pub proof fn lemma_truthy_keys_unique(flags: Seq<FlagView>)
    requires
        keys_distinct(flags),
    ensures
        truthy_keys(flags).no_duplicates(),
    decreases flags.len(),
{
    if flags.len() > 0 {
        let init = flags.drop_last();
        assert forall|i: int, j: int|
            0 <= i < init.len() && 0 <= j < init.len() && i != j
                implies (#[trigger] init[i]).key() != (#[trigger] init[j]).key() by {
            assert(init[i] == flags[i] && init[j] == flags[j]);
        }
        lemma_truthy_keys_unique(init);
        let rest = truthy_keys(init);
        let last = flags.last();
        if rest.contains(last.key()) {
            lemma_truthy_keys_are_keys(init, last.key());
            let i = choose|i: int| 0 <= i < init.len() && (#[trigger] init[i]).key() == last.key();
            assert(flags[i] == init[i]);
            assert(flags[i].key() == flags[flags.len() - 1].key());
        }
        match last {
            FlagView::Boolish(k, b) => {
                if b {
                    let t = rest.push(k);
                    assert forall|i: int, j: int| 0 <= i < t.len() && 0 <= j < t.len() && i != j
                        implies t[i] != t[j] by {
                        if i < rest.len() && j < rest.len() {
                            assert(t[i] == rest[i] && t[j] == rest[j]);
                        } else if i < rest.len() {
                            assert(rest.contains(t[i]));
                        } else {
                            assert(rest.contains(t[j]));
                        }
                    }
                }
            },
            FlagView::Stringish(_, _) => {},
        }
    }
}

/// Over valid declarative entries, the identifiers of the true flags are
/// unique.
pub proof fn lemma_translated_truthy_unique(entries: Seq<(String, ConfigValue)>)
    requires
        keys_valid(entries),
    ensures
        truthy_keys(translated(entries)).no_duplicates(),
{
    let t = translated(entries);
    assert forall|i: int, j: int| 0 <= i < t.len() && 0 <= j < t.len() && i != j
        implies (#[trigger] t[i]).key() != (#[trigger] t[j]).key() by {
        assert(entries[i].0@ != entries[j].0@);
    }
    lemma_truthy_keys_unique(t);
}

} // verus!
