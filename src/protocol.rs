use vstd::prelude::*;
use crate::text::opt_view;

verus! {

/// Whether a stack frame belongs to the application's own code.
#[derive(PartialEq, Eq, Structural, Clone, Copy, Debug)]
pub enum InApp {
    Unknown,
    Yes,
    No,
}

/// One frame of a stack trace.
#[derive(Clone, Debug)]
pub struct Frame {
    pub function: Option<String>,
    pub package: Option<String>,
    pub in_app: InApp,
}

/// The frames of a stack trace, outermost call first.
#[derive(Clone, Debug)]
pub struct Stacktrace {
    pub frames: Vec<Frame>,
}

/// An exception of an event, with its stack trace if one was taken.
#[derive(Clone, Debug)]
pub struct Exception {
    pub ty: String,
    pub value: Option<String>,
    pub stacktrace: Option<Stacktrace>,
}

/// A log entry that led up to an event.
#[derive(Clone, Debug)]
pub struct Breadcrumb {
    pub category: Option<String>,
    pub message: Option<String>,
}

/// The user an event is reported for.
#[derive(Clone, Debug)]
pub struct User {
    pub id: Option<String>,
    pub username: Option<String>,
    pub email: Option<String>,
}

/// A value of the `extra` data and of context blocks.
#[derive(Clone, Debug)]
pub enum Value {
    Null,
    Bool(bool),
    Int(i64),
    Str(String),
}

/// A loaded binary image, for symbolication.
#[derive(Clone, Debug)]
pub struct DebugImage {
    pub code_file: String,
}

/// The name and version of the reporting library.
#[derive(Clone, Debug)]
pub struct SdkInfo {
    pub name: String,
    pub version: String,
}

/// A value that can be copied with a proof that the copy is equal.
pub trait Duplicate: Sized {
    fn duplicate(&self) -> (r: Self)
        ensures
            r == *self,
    ;
}

pub fn dup_opt_string(o: &Option<String>) -> (r: Option<String>)
    ensures
        r == *o,
{
    match o {
        Some(s) => Some(s.clone()),
        None => None,
    }
}

impl Duplicate for String {
    fn duplicate(&self) -> (r: Self) {
        self.clone()
    }
}

impl Duplicate for Value {
    fn duplicate(&self) -> (r: Self) {
        match self {
            Value::Null => Value::Null,
            Value::Bool(b) => Value::Bool(*b),
            Value::Int(i) => Value::Int(*i),
            Value::Str(s) => Value::Str(s.clone()),
        }
    }
}

impl Duplicate for Breadcrumb {
    fn duplicate(&self) -> (r: Self) {
        Breadcrumb { category: dup_opt_string(&self.category), message: dup_opt_string(&self.message) }
    }
}

impl Duplicate for User {
    fn duplicate(&self) -> (r: Self) {
        User {
            id: dup_opt_string(&self.id),
            username: dup_opt_string(&self.username),
            email: dup_opt_string(&self.email),
        }
    }
}

impl Duplicate for Frame {
    fn duplicate(&self) -> (r: Self) {
        Frame {
            function: dup_opt_string(&self.function),
            package: dup_opt_string(&self.package),
            in_app: self.in_app,
        }
    }
}

impl Duplicate for DebugImage {
    fn duplicate(&self) -> (r: Self) {
        DebugImage { code_file: self.code_file.clone() }
    }
}

impl Duplicate for SdkInfo {
    fn duplicate(&self) -> (r: Self) {
        SdkInfo { name: self.name.clone(), version: self.version.clone() }
    }
}

/// Copies every element of `v`.
pub fn dup_vec<T: Duplicate>(v: &Vec<T>) -> (r: Vec<T>)
    ensures
        r@ == v@,
{
    let mut r: Vec<T> = Vec::new();
    let mut i: usize = 0;
    while i < v.len()
        invariant
            i <= v@.len(),
            r@ == v@.subrange(0, i as int),
        decreases v.len() - i,
    {
        r.push(v[i].duplicate());
        i = i + 1;
        assert(r@ =~= v@.subrange(0, i as int));
    }
    assert(r@ =~= v@);
    r
}

/// The value of the first entry of `entries` with key `k`.
pub open spec fn lookup<V>(entries: Seq<(String, V)>, k: Seq<char>) -> Option<V>
    decreases entries.len(),
{
    if entries.len() == 0 {
        None
    } else if entries[0].0@ == k {
        Some(entries[0].1)
    } else {
        lookup(entries.drop_first(), k)
    }
}

/// A map from strings to values, held as entries in order of insertion.
#[derive(Clone, Debug)]
pub struct FieldMap<V> {
    pub entries: Vec<(String, V)>,
}

impl<V> FieldMap<V> {
    /// Well formed: no key occurs twice.
    pub open spec fn wf(&self) -> bool {
        keys_unique(self.entries@)
    }

    pub fn new() -> (r: Self)
        ensures
            r.entries@.len() == 0,
            r.wf(),
    {
        FieldMap { entries: Vec::new() }
    }

    pub fn is_empty(&self) -> (r: bool)
        ensures
            r == (self.entries@.len() == 0),
    {
        self.entries.len() == 0
    }
}

/// Some entry of `entries` has key `k`.
pub open spec fn has_key<V>(entries: Seq<(String, V)>, k: Seq<char>) -> bool {
    exists|i: int| 0 <= i < entries.len() && #[trigger] entries[i].0@ == k
}

/// The entries of `rec` followed by those of `sc`, in order, whose key is not
/// yet present when their turn comes.
pub open spec fn merge_entries<V>(rec: Seq<(String, V)>, sc: Seq<(String, V)>) -> Seq<(String, V)>
    decreases sc.len(),
{
    if sc.len() == 0 {
        rec
    } else {
        let acc = merge_entries(rec, sc.drop_last());
        if has_key(acc, sc.last().0@) {
            acc
        } else {
            acc.push(sc.last())
        }
    }
}

/// Every key occurs in `entries` at most once.
pub open spec fn keys_unique<V>(entries: Seq<(String, V)>) -> bool {
    forall|i: int, j: int|
        0 <= i < entries.len() && 0 <= j < entries.len() && i != j ==> #[trigger] entries[i].0@
            != #[trigger] entries[j].0@
}

/// A key is found exactly where some entry has it.
pub proof fn lemma_lookup_has_key<V>(s: Seq<(String, V)>, k: Seq<char>)
    ensures
        (lookup(s, k) is Some) == has_key(s, k),
    decreases s.len(),
{
    if s.len() > 0 {
        lemma_lookup_has_key(s.drop_first(), k);
        if has_key(s, k) && s[0].0@ != k {
            let i = choose|i: int| 0 <= i < s.len() && #[trigger] s[i].0@ == k;
            assert(s.drop_first()[i - 1].0@ == k);
        }
        if has_key(s.drop_first(), k) {
            let i = choose|i: int| 0 <= i < s.len() - 1 && #[trigger] s.drop_first()[i].0@ == k;
            assert(s[i + 1].0@ == k);
        }
    }
}

/// Looking a key up after an entry is pushed.
pub proof fn lemma_lookup_push<V>(s: Seq<(String, V)>, e: (String, V), k: Seq<char>)
    ensures
        lookup(s.push(e), k) == (if lookup(s, k) is Some {
            lookup(s, k)
        } else if e.0@ == k {
            Some(e.1)
        } else {
            None
        }),
    decreases s.len(),
{
    assert(s.push(e).len() > 0);
    if s.len() == 0 {
        assert(s.push(e)[0] == e);
        assert(s.push(e).drop_first() =~= Seq::<(String, V)>::empty());
        assert(lookup(s.push(e).drop_first(), k) is None);
        assert(lookup(s, k) is None);
    } else {
        assert(s.push(e)[0] == s[0]);
        assert(s.push(e).drop_first() =~= s.drop_first().push(e));
        lemma_lookup_push(s.drop_first(), e, k);
    }
}

/// Merging keeps the value of each key of `rec`, gives each other key the
/// value of its first entry in `sc`, and so holds the keys of both.
pub proof fn lemma_merge_lookup<V>(rec: Seq<(String, V)>, sc: Seq<(String, V)>, k: Seq<char>)
    ensures
        lookup(merge_entries(rec, sc), k) == (if lookup(rec, k) is Some {
            lookup(rec, k)
        } else {
            lookup(sc, k)
        }),
        has_key(merge_entries(rec, sc), k) == (has_key(rec, k) || has_key(sc, k)),
    decreases sc.len(),
{
    if sc.len() == 0 {
        assert(lookup(sc, k) is None);
    } else {
        let sc0 = sc.drop_last();
        let e = sc.last();
        let acc = merge_entries(rec, sc0);
        lemma_merge_lookup(rec, sc0, k);
        assert(sc =~= sc0.push(e));
        lemma_lookup_push(sc0, e, k);
        if has_key(acc, e.0@) {
            if e.0@ == k {
                lemma_lookup_has_key(acc, k);
            }
        } else {
            lemma_lookup_push(acc, e, k);
        }
    }
    lemma_lookup_has_key(merge_entries(rec, sc), k);
    lemma_lookup_has_key(rec, k);
    lemma_lookup_has_key(sc, k);
}

/// Pushing an entry whose key is absent keeps keys unique.
proof fn lemma_push_unique<V>(s: Seq<(String, V)>, e: (String, V))
    requires
        keys_unique(s),
        !has_key(s, e.0@),
    ensures
        keys_unique(s.push(e)),
{
    let t = s.push(e);
    assert forall|i: int, j: int|
        0 <= i < t.len() && 0 <= j < t.len() && i != j implies #[trigger] t[i].0@ != #[trigger] t[j].0@ by {
        if i == s.len() {
            assert(s[j].0@ != e.0@);
        } else if j == s.len() {
            assert(s[i].0@ != e.0@);
        } else {
            assert(t[i] == s[i] && t[j] == s[j]);
        }
    }
}

/// Merging into a map whose keys are unique keeps them unique.
pub proof fn lemma_merge_unique<V>(rec: Seq<(String, V)>, sc: Seq<(String, V)>)
    requires
        keys_unique(rec),
    ensures
        keys_unique(merge_entries(rec, sc)),
    decreases sc.len(),
{
    if sc.len() > 0 {
        lemma_merge_unique(rec, sc.drop_last());
        let acc = merge_entries(rec, sc.drop_last());
        if !has_key(acc, sc.last().0@) {
            lemma_push_unique(acc, sc.last());
        }
    }
}

impl<V> FieldMap<V> {
    pub fn contains_key(&self, k: &String) -> (r: bool)
        ensures
            r == has_key(self.entries@, k@),
    {
        let mut i: usize = 0;
        while i < self.entries.len()
            invariant
                i <= self.entries@.len(),
                forall|j: int| 0 <= j < i ==> #[trigger] self.entries@[j].0@ != k@,
            decreases self.entries.len() - i,
        {
            if self.entries[i].0 == *k {
                return true;
            }
            i = i + 1;
        }
        false
    }

    /// Sets the value of `k`, in place where the key is present, else at the end.
    pub fn insert(&mut self, k: String, v: V)
        ensures
            has_key(old(self).entries@, k@) ==> exists|i: int|
                0 <= i < old(self).entries@.len() && old(self).entries@[i].0@ == k@
                    && final(self).entries@ == old(self).entries@.update(i, (k, v)),
            !has_key(old(self).entries@, k@) ==> final(self).entries@ == old(self).entries@.push(
                (k, v),
            ),
            old(self).wf() ==> final(self).wf(),
    {
        let mut i: usize = 0;
        while i < self.entries.len()
            invariant
                i <= self.entries@.len(),
                self.entries@ == old(self).entries@,
                forall|j: int| 0 <= j < i ==> #[trigger] self.entries@[j].0@ != k@,
            decreases self.entries.len() - i,
        {
            if self.entries[i].0 == k {
                let ghost before = self.entries@;
                self.entries.set(i, (k, v));
                proof {
                    if keys_unique(before) {
                        assert forall|a: int, b: int|
                            0 <= a < self.entries@.len() && 0 <= b < self.entries@.len() && a != b
                                implies #[trigger] self.entries@[a].0@ != #[trigger] self.entries@[b].0@ by {
                            assert(before[a].0@ != before[b].0@);
                        }
                    }
                }
                return;
            }
            i = i + 1;
        }
        proof {
            if keys_unique(self.entries@) {
                lemma_push_unique(self.entries@, (k, v));
            }
        }
        self.entries.push((k, v));
    }
}

impl<V: Duplicate> FieldMap<V> {
    /// Adds the entries of `other` whose key this map does not hold yet; entries
    /// already present are kept.
    pub fn merge_missing(&mut self, other: &FieldMap<V>)
        ensures
            final(self).entries@ == merge_entries(old(self).entries@, other.entries@),
            old(self).wf() ==> final(self).wf(),
    {
        let ghost start = self.entries@;
        let mut i: usize = 0;
        while i < other.entries.len()
            invariant
                i <= other.entries@.len(),
                start == old(self).entries@,
                self.entries@ == merge_entries(start, other.entries@.subrange(0, i as int)),
            decreases other.entries.len() - i,
        {
            let ghost before = self.entries@;
            assert(other.entries@.subrange(0, i + 1).drop_last() =~= other.entries@.subrange(
                0,
                i as int,
            ));
            let k = &other.entries[i].0;
            if !self.contains_key(k) {
                let v = other.entries[i].1.duplicate();
                self.entries.push((k.clone(), v));
            }
            i = i + 1;
        }
        assert(other.entries@.subrange(0, other.entries@.len() as int) =~= other.entries@);
        proof {
            if keys_unique(start) {
                lemma_merge_unique(start, other.entries@);
            }
        }
    }
}

/// The record of one event, enriched before it is delivered.
#[derive(Clone, Debug)]
pub struct Event {
    pub breadcrumbs: Vec<Breadcrumb>,
    pub user: Option<User>,
    pub extra: FieldMap<Value>,
    pub tags: FieldMap<String>,
    pub contexts: FieldMap<Value>,
    pub transaction: Option<String>,
    pub fingerprint: Vec<String>,
    pub release: Option<String>,
    pub environment: Option<String>,
    pub server_name: Option<String>,
    pub sdk_info: Option<SdkInfo>,
    pub platform: String,
    pub debug_images: Vec<DebugImage>,
    pub exceptions: Vec<Exception>,
}

/// The fingerprint that asks for default grouping.
pub open spec fn default_fingerprint() -> Seq<char> {
    "{{ default }}"@
}

/// The fingerprint `fp` is one of the two spellings of "use default grouping".
pub open spec fn is_default_fingerprint(fp: Seq<String>) -> bool {
    fp.len() == 1 && (fp[0]@ == "{{ default }}"@ || fp[0]@ == "{{default}}"@)
}

impl Event {
    /// An event with nothing set: default fingerprint, platform `other`.
    pub fn new() -> (r: Event)
        ensures
            r.breadcrumbs@.len() == 0,
            r.user is None,
            r.extra.entries@.len() == 0,
            r.tags.entries@.len() == 0,
            r.contexts.entries@.len() == 0,
            r.transaction is None,
            r.fingerprint@.len() == 1,
            r.fingerprint@[0]@ == default_fingerprint(),
            r.release is None,
            r.environment is None,
            r.server_name is None,
            r.sdk_info is None,
            r.platform@ == "other"@,
            r.debug_images@.len() == 0,
            r.exceptions@.len() == 0,
    {
        let mut fingerprint: Vec<String> = Vec::new();
        fingerprint.push("{{ default }}".to_owned());
        Event {
            breadcrumbs: Vec::new(),
            user: None,
            extra: FieldMap::new(),
            tags: FieldMap::new(),
            contexts: FieldMap::new(),
            transaction: None,
            fingerprint,
            release: None,
            environment: None,
            server_name: None,
            sdk_info: None,
            platform: "other".to_owned(),
            debug_images: Vec::new(),
            exceptions: Vec::new(),
        }
    }
}

/// Ambient data captured apart from any single event.
#[derive(Clone, Debug)]
pub struct Scope {
    pub breadcrumbs: Vec<Breadcrumb>,
    pub user: Option<User>,
    pub extra: FieldMap<Value>,
    pub tags: FieldMap<String>,
    pub contexts: FieldMap<Value>,
    pub transaction: Option<String>,
    pub fingerprint: Option<Vec<String>>,
}

impl Scope {
    /// A scope that holds nothing.
    pub fn new() -> (r: Scope)
        ensures
            r.breadcrumbs@.len() == 0,
            r.user is None,
            r.extra.entries@.len() == 0,
            r.tags.entries@.len() == 0,
            r.contexts.entries@.len() == 0,
            r.transaction is None,
            r.fingerprint is None,
    {
        Scope {
            breadcrumbs: Vec::new(),
            user: None,
            extra: FieldMap::new(),
            tags: FieldMap::new(),
            contexts: FieldMap::new(),
            transaction: None,
            fingerprint: None,
        }
    }
}

} // verus!
