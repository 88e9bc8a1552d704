use vstd::prelude::*;
use crate::frames::{classify_frames, frames_classified, trim_stacktrace, trimmed};
use crate::options::ClientOptions;
use crate::protocol::{
    DebugImage, Duplicate, Event, Exception, Scope, SdkInfo, Stacktrace, dup_opt_string, dup_vec,
    has_key, is_default_fingerprint, keys_unique, lemma_merge_lookup, lemma_merge_unique, lookup,
    merge_entries,
};

verus! {

/// The name of this library, as reported with each event.
pub const SDK_NAME: &'static str = "sentry-rust";

/// The version of this library, as reported with each event.
pub const SDK_VERSION: &'static str = "0.1.0";

/// The fields that come from the scope hold what merging `scope` into
/// `before` gives: breadcrumbs are appended, map entries are added where the
/// key is new, and user, transaction and fingerprint are filled only where
/// the event leaves them unset.
pub open spec fn scope_fields_merged(before: Event, scope: Option<&Scope>, after: Event) -> bool {
    match scope {
        Some(s) => {
            &&& after.breadcrumbs@ == before.breadcrumbs@ + s.breadcrumbs@
            &&& after.user == (if before.user is Some {
                before.user
            } else {
                s.user
            })
            &&& after.extra.entries@ == merge_entries(before.extra.entries@, s.extra.entries@)
            &&& after.tags.entries@ == merge_entries(before.tags.entries@, s.tags.entries@)
            &&& after.contexts.entries@ == merge_entries(
                before.contexts.entries@,
                s.contexts.entries@,
            )
            &&& after.transaction == (if before.transaction is Some {
                before.transaction
            } else {
                s.transaction
            })
            &&& after.fingerprint@ == (if is_default_fingerprint(before.fingerprint@)
                && s.fingerprint is Some {
                s.fingerprint->0@
            } else {
                before.fingerprint@
            })
        },
        None => scope_fields_kept(before, after),
    }
}

/// The fields that come from the scope are unchanged.
pub open spec fn scope_fields_kept(before: Event, after: Event) -> bool {
    &&& after.breadcrumbs@ == before.breadcrumbs@
    &&& after.user == before.user
    &&& after.extra.entries@ == before.extra.entries@
    &&& after.tags.entries@ == before.tags.entries@
    &&& after.contexts.entries@ == before.contexts.entries@
    &&& after.transaction == before.transaction
    &&& after.fingerprint@ == before.fingerprint@
}

/// The fields that the options fill are unchanged.
pub open spec fn default_fields_kept(before: Event, after: Event) -> bool {
    &&& after.release == before.release
    &&& after.environment == before.environment
    &&& after.server_name == before.server_name
    &&& after.sdk_info == before.sdk_info
    &&& after.platform == before.platform
    &&& after.debug_images@ == before.debug_images@
}

/// Release, environment, server name, SDK info and debug images are taken
/// from the options only where the event leaves them unset; platform `other`
/// becomes `native`.
pub open spec fn defaults_filled(
    opts: ClientOptions,
    images: Seq<DebugImage>,
    before: Event,
    after: Event,
) -> bool {
    &&& after.release == (if before.release is Some {
        before.release
    } else {
        opts.release
    })
    &&& after.environment == (if before.environment is Some {
        before.environment
    } else {
        opts.environment
    })
    &&& after.server_name == (if before.server_name is Some {
        before.server_name
    } else {
        opts.server_name
    })
    &&& (before.sdk_info is Some ==> after.sdk_info == before.sdk_info)
    &&& (before.sdk_info is None ==> (after.sdk_info matches Some(i) && i.name@ == SDK_NAME@
        && i.version@ == SDK_VERSION@))
    &&& (before.platform@ == "other"@ ==> after.platform@ == "native"@)
    &&& (before.platform@ != "other"@ ==> after.platform == before.platform)
    &&& after.debug_images@ == (if before.debug_images@.len() == 0 {
        images
    } else {
        before.debug_images@
    })
}

/// The frames of `st` as classification sees them: trimmed when the options
/// ask for it.
pub open spec fn staged_frames(opts: ClientOptions, st: Stacktrace) -> Seq<crate::protocol::Frame> {
    if opts.trim_backtraces {
        trimmed(opts.extra_border_frames@, st.frames@)
    } else {
        st.frames@
    }
}

/// `after` is the exception `before` with its stack trace trimmed and
/// classified.
pub open spec fn exception_prepared(opts: ClientOptions, before: Exception, after: Exception) -> bool {
    &&& after.ty == before.ty
    &&& after.value == before.value
    &&& match before.stacktrace {
        None => after.stacktrace is None,
        Some(st) => after.stacktrace matches Some(st2) && frames_classified(
            opts.in_app_include@,
            opts.in_app_exclude@,
            staged_frames(opts, st),
            st2.frames@,
        ),
    }
}

/// Every exception of `before` is prepared in `after`.
pub open spec fn exceptions_prepared(opts: ClientOptions, before: Seq<Exception>, after: Seq<Exception>) -> bool {
    &&& after.len() == before.len()
    &&& forall|i: int| 0 <= i < before.len() ==> exception_prepared(opts, before[i], #[trigger] after[i])
}

/// Merges `scope` into `event`, keeping what the event already holds.
pub fn merge_scope(event: &mut Event, scope: &Scope)
    ensures
        scope_fields_merged(*old(event), Some(scope), *final(event)),
        default_fields_kept(*old(event), *final(event)),
        final(event).exceptions@ == old(event).exceptions@,
{
    let mut i: usize = 0;
    while i < scope.breadcrumbs.len()
        invariant
            i <= scope.breadcrumbs@.len(),
            event.breadcrumbs@ == old(event).breadcrumbs@ + scope.breadcrumbs@.subrange(0, i as int),
            event.user == old(event).user,
            event.extra == old(event).extra,
            event.tags == old(event).tags,
            event.contexts == old(event).contexts,
            event.transaction == old(event).transaction,
            event.fingerprint == old(event).fingerprint,
            default_fields_kept(*old(event), *event),
            event.exceptions == old(event).exceptions,
        decreases scope.breadcrumbs.len() - i,
    {
        event.breadcrumbs.push(scope.breadcrumbs[i].duplicate());
        i = i + 1;
        assert(event.breadcrumbs@ =~= old(event).breadcrumbs@ + scope.breadcrumbs@.subrange(0, i as int));
    }
    assert(scope.breadcrumbs@.subrange(0, scope.breadcrumbs@.len() as int) =~= scope.breadcrumbs@);
    if event.user.is_none() {
        match &scope.user {
            Some(u) => {
                event.user = Some(u.duplicate());
            },
            None => {},
        }
    }
    event.extra.merge_missing(&scope.extra);
    event.tags.merge_missing(&scope.tags);
    event.contexts.merge_missing(&scope.contexts);
    if event.transaction.is_none() {
        event.transaction = dup_opt_string(&scope.transaction);
    }
    if is_default(&event.fingerprint) {
        match &scope.fingerprint {
            Some(fp) => {
                event.fingerprint = dup_vec(fp);
            },
            None => {},
        }
    }
}

/// Whether `fp` asks for default grouping.
pub fn is_default(fp: &Vec<String>) -> (r: bool)
    ensures
        r == is_default_fingerprint(fp@),
{
    fp.len() == 1 && (crate::text::text_eq(fp[0].as_str(), "{{ default }}")
        || crate::text::text_eq(fp[0].as_str(), "{{default}}"))
}

/// Fills what the event leaves unset from the options, and normalises the
/// platform.
pub fn fill_defaults(event: &mut Event, opts: &ClientOptions, images: &Vec<DebugImage>)
    ensures
        defaults_filled(*opts, images@, *old(event), *final(event)),
        scope_fields_kept(*old(event), *final(event)),
        final(event).exceptions@ == old(event).exceptions@,
{
    if event.release.is_none() {
        event.release = dup_opt_string(&opts.release);
    }
    if event.environment.is_none() {
        event.environment = dup_opt_string(&opts.environment);
    }
    if event.server_name.is_none() {
        event.server_name = dup_opt_string(&opts.server_name);
    }
    if event.sdk_info.is_none() {
        event.sdk_info = Some(SdkInfo { name: SDK_NAME.to_owned(), version: SDK_VERSION.to_owned() });
    }
    if crate::text::text_eq(event.platform.as_str(), "other") {
        event.platform = "native".to_owned();
    }
    if event.debug_images.len() == 0 {
        event.debug_images = dup_vec(images);
    }
}

/// Trims, where the options ask for it, and classifies the frames of `st`.
pub fn prepare_stacktrace(st: &Stacktrace, opts: &ClientOptions) -> (r: Stacktrace)
    ensures
        frames_classified(opts.in_app_include@, opts.in_app_exclude@, staged_frames(*opts, *st), r.frames@),
{
    if opts.trim_backtraces {
        let mut frames = dup_vec(&st.frames);
        trim_stacktrace(&mut frames, &opts.extra_border_frames);
        Stacktrace { frames: classify_frames(&frames, &opts.in_app_include, &opts.in_app_exclude) }
    } else {
        Stacktrace { frames: classify_frames(&st.frames, &opts.in_app_include, &opts.in_app_exclude) }
    }
}

/// Trims and classifies the stack trace of each exception.
pub fn prepare_exceptions(excs: &Vec<Exception>, opts: &ClientOptions) -> (r: Vec<Exception>)
    ensures
        exceptions_prepared(*opts, excs@, r@),
{
    let mut out: Vec<Exception> = Vec::new();
    let mut i: usize = 0;
    while i < excs.len()
        invariant
            i <= excs@.len(),
            out@.len() == i,
            forall|j: int| 0 <= j < i ==> exception_prepared(*opts, excs@[j], #[trigger] out@[j]),
        decreases excs.len() - i,
    {
        let e = &excs[i];
        let stacktrace = match &e.stacktrace {
            Some(st) => Some(prepare_stacktrace(st, opts)),
            None => None,
        };
        out.push(Exception { ty: e.ty.clone(), value: dup_opt_string(&e.value), stacktrace });
        i = i + 1;
    }
    out
}

/// Merges the scope into the event, fills defaults from the options and
/// prepares the stack traces of its exceptions.
pub fn prepare_event(
    event: &mut Event,
    scope: Option<&Scope>,
    opts: &ClientOptions,
    images: &Vec<DebugImage>,
)
    ensures
        scope_fields_merged(*old(event), scope, *final(event)),
        defaults_filled(*opts, images@, *old(event), *final(event)),
        exceptions_prepared(*opts, old(event).exceptions@, final(event).exceptions@),
{
    match scope {
        Some(s) => merge_scope(event, s),
        None => {},
    }
    fill_defaults(event, opts, images);
    let excs = prepare_exceptions(&event.exceptions, opts);
    event.exceptions = excs;
}

/// Merging keeps every entry of the event's own map in front.
proof fn lemma_merge_entries_prefix<V>(rec: Seq<(String, V)>, sc: Seq<(String, V)>)
    ensures
        merge_entries(rec, sc).len() >= rec.len(),
        merge_entries(rec, sc).subrange(0, rec.len() as int) == rec,
    decreases sc.len(),
{
    if sc.len() > 0 {
        lemma_merge_entries_prefix(rec, sc.drop_last());
        let acc = merge_entries(rec, sc.drop_last());
        assert(acc.push(sc.last()).subrange(0, rec.len() as int) =~= acc.subrange(0, rec.len() as int));
    } else {
        assert(rec.subrange(0, rec.len() as int) =~= rec);
    }
}

/// A key found in `a` is found with the same value in any extension of `a`.
proof fn lemma_lookup_prefix<V>(a: Seq<(String, V)>, b: Seq<(String, V)>, k: Seq<char>)
    requires
        b.len() >= a.len(),
        b.subrange(0, a.len() as int) == a,
        lookup(a, k) is Some,
    ensures
        lookup(b, k) == lookup(a, k),
    decreases a.len(),
{
    assert(b[0] == b.subrange(0, a.len() as int)[0]);
    if a[0].0@ != k {
        assert(b.drop_first().subrange(0, a.len() - 1) =~= a.drop_first());
        lemma_lookup_prefix(a.drop_first(), b.drop_first(), k);
    }
}

/// Every key of `rec` keeps its value when the entries of `sc` are merged in.
pub proof fn lemma_merge_keeps_keys<V>(rec: Seq<(String, V)>, sc: Seq<(String, V)>, k: Seq<char>)
    requires
        lookup(rec, k) is Some,
    ensures
        lookup(merge_entries(rec, sc), k) == lookup(rec, k),
{
    lemma_merge_entries_prefix(rec, sc);
    lemma_lookup_prefix(rec, merge_entries(rec, sc), k);
}

/// Preparing an event never overwrites what it already holds: a set user,
/// transaction, release, environment, server name or SDK info, a fingerprint
/// other than the default one, its breadcrumbs, its debug images, and the
/// value of every key of its maps all stay as they were, whatever the scope
/// holds.
pub proof fn prepare_keeps_set_fields(
    opts: ClientOptions,
    images: Seq<DebugImage>,
    before: Event,
    scope: Option<&Scope>,
    after: Event,
)
    requires
        scope_fields_merged(before, scope, after),
        defaults_filled(opts, images, before, after),
    ensures
        before.user is Some ==> after.user == before.user,
        before.transaction is Some ==> after.transaction == before.transaction,
        !is_default_fingerprint(before.fingerprint@) ==> after.fingerprint@ == before.fingerprint@,
        after.breadcrumbs@.len() >= before.breadcrumbs@.len(),
        after.breadcrumbs@.subrange(0, before.breadcrumbs@.len() as int) == before.breadcrumbs@,
        forall|k: Seq<char>| #[trigger] lookup(before.extra.entries@, k) is Some ==> lookup(after.extra.entries@, k) == lookup(before.extra.entries@, k),
        forall|k: Seq<char>| #[trigger] lookup(before.tags.entries@, k) is Some ==> lookup(after.tags.entries@, k) == lookup(before.tags.entries@, k),
        forall|k: Seq<char>| #[trigger] lookup(before.contexts.entries@, k) is Some ==> lookup(after.contexts.entries@, k) == lookup(before.contexts.entries@, k),
        before.release is Some ==> after.release == before.release,
        before.environment is Some ==> after.environment == before.environment,
        before.server_name is Some ==> after.server_name == before.server_name,
        before.sdk_info is Some ==> after.sdk_info == before.sdk_info,
        before.debug_images@.len() > 0 ==> after.debug_images@ == before.debug_images@,
{
    match scope {
        Some(s) => {
            assert((before.breadcrumbs@ + s.breadcrumbs@).subrange(0, before.breadcrumbs@.len() as int) =~= before.breadcrumbs@);
            assert forall|k: Seq<char>| #[trigger] lookup(before.extra.entries@, k) is Some implies lookup(after.extra.entries@, k) == lookup(before.extra.entries@, k) by {
                lemma_merge_keeps_keys(before.extra.entries@, s.extra.entries@, k);
            }
            assert forall|k: Seq<char>| #[trigger] lookup(before.tags.entries@, k) is Some implies lookup(after.tags.entries@, k) == lookup(before.tags.entries@, k) by {
                lemma_merge_keeps_keys(before.tags.entries@, s.tags.entries@, k);
            }
            assert forall|k: Seq<char>| #[trigger] lookup(before.contexts.entries@, k) is Some implies lookup(after.contexts.entries@, k) == lookup(before.contexts.entries@, k) by {
                lemma_merge_keeps_keys(before.contexts.entries@, s.contexts.entries@, k);
            }
        },
        None => {
            assert(before.breadcrumbs@.subrange(0, before.breadcrumbs@.len() as int) =~= before.breadcrumbs@);
        },
    }
}

/// Merging a scope's maps into an event's yields, for each of tags, extra
/// and contexts, the keys of both; a key the event lacked takes the scope's
/// value; and keys that were unique in the event stay unique.
pub proof fn merge_maps_union(before: Event, scope: &Scope, after: Event)
    requires
        scope_fields_merged(before, Some(scope), after),
    ensures
        forall|k: Seq<char>| #[trigger] has_key(after.tags.entries@, k) == (has_key(before.tags.entries@, k) || has_key(scope.tags.entries@, k)),
        forall|k: Seq<char>| #[trigger] has_key(after.extra.entries@, k) == (has_key(before.extra.entries@, k) || has_key(scope.extra.entries@, k)),
        forall|k: Seq<char>| #[trigger] has_key(after.contexts.entries@, k) == (has_key(before.contexts.entries@, k) || has_key(scope.contexts.entries@, k)),
        forall|k: Seq<char>| lookup(before.tags.entries@, k) is None ==> #[trigger] lookup(after.tags.entries@, k) == lookup(scope.tags.entries@, k),
        forall|k: Seq<char>| lookup(before.extra.entries@, k) is None ==> #[trigger] lookup(after.extra.entries@, k) == lookup(scope.extra.entries@, k),
        forall|k: Seq<char>| lookup(before.contexts.entries@, k) is None ==> #[trigger] lookup(after.contexts.entries@, k) == lookup(scope.contexts.entries@, k),
        before.tags.wf() ==> after.tags.wf(),
        before.extra.wf() ==> after.extra.wf(),
        before.contexts.wf() ==> after.contexts.wf(),
{
    assert forall|k: Seq<char>| #[trigger] has_key(after.tags.entries@, k) == (has_key(before.tags.entries@, k) || has_key(scope.tags.entries@, k)) by {
        lemma_merge_lookup(before.tags.entries@, scope.tags.entries@, k);
    }
    assert forall|k: Seq<char>| #[trigger] has_key(after.extra.entries@, k) == (has_key(before.extra.entries@, k) || has_key(scope.extra.entries@, k)) by {
        lemma_merge_lookup(before.extra.entries@, scope.extra.entries@, k);
    }
    assert forall|k: Seq<char>| #[trigger] has_key(after.contexts.entries@, k) == (has_key(before.contexts.entries@, k) || has_key(scope.contexts.entries@, k)) by {
        lemma_merge_lookup(before.contexts.entries@, scope.contexts.entries@, k);
    }
    assert forall|k: Seq<char>| lookup(before.tags.entries@, k) is None implies #[trigger] lookup(after.tags.entries@, k) == lookup(scope.tags.entries@, k) by {
        lemma_merge_lookup(before.tags.entries@, scope.tags.entries@, k);
    }
    assert forall|k: Seq<char>| lookup(before.extra.entries@, k) is None implies #[trigger] lookup(after.extra.entries@, k) == lookup(scope.extra.entries@, k) by {
        lemma_merge_lookup(before.extra.entries@, scope.extra.entries@, k);
    }
    assert forall|k: Seq<char>| lookup(before.contexts.entries@, k) is None implies #[trigger] lookup(after.contexts.entries@, k) == lookup(scope.contexts.entries@, k) by {
        lemma_merge_lookup(before.contexts.entries@, scope.contexts.entries@, k);
    }
    if keys_unique(before.tags.entries@) {
        lemma_merge_unique(before.tags.entries@, scope.tags.entries@);
    }
    if keys_unique(before.extra.entries@) {
        lemma_merge_unique(before.extra.entries@, scope.extra.entries@);
    }
    if keys_unique(before.contexts.entries@) {
        lemma_merge_unique(before.contexts.entries@, scope.contexts.entries@);
    }
}

/// A scope whose breadcrumbs and maps are empty leaves the event's
/// breadcrumbs and maps as they were; one that holds nothing at all leaves
/// every field that comes from the scope as it was.
pub proof fn merge_empty_scope_is_noop(before: Event, scope: &Scope, after: Event)
    requires
        scope_fields_merged(before, Some(scope), after),
        scope.breadcrumbs@.len() == 0,
        scope.extra.entries@.len() == 0,
        scope.tags.entries@.len() == 0,
        scope.contexts.entries@.len() == 0,
    ensures
        after.breadcrumbs@ == before.breadcrumbs@,
        after.extra.entries@ == before.extra.entries@,
        after.tags.entries@ == before.tags.entries@,
        after.contexts.entries@ == before.contexts.entries@,
        scope.user is None && scope.transaction is None && scope.fingerprint is None
            ==> scope_fields_kept(before, after),
{
    assert(before.breadcrumbs@ + scope.breadcrumbs@ =~= before.breadcrumbs@);
}

/// The scope's fingerprint replaces the event's exactly when the event's is
/// the default one.
pub proof fn fingerprint_replaced_iff_default(before: Event, scope: &Scope, after: Event)
    requires
        scope_fields_merged(before, Some(scope), after),
        scope.fingerprint is Some,
    ensures
        is_default_fingerprint(before.fingerprint@) ==> after.fingerprint@ == scope.fingerprint->0@,
        !is_default_fingerprint(before.fingerprint@) ==> after.fingerprint@ == before.fingerprint@,
{
}

} // verus!
