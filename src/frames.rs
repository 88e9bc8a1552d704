use vstd::prelude::*;
use crate::text::{
    contains_string, contains_text, has_any_prefix, has_prefix, opt_view, starts_with,
    starts_with_any, text_eq,
};
use crate::crate_name::{crate_name_of, parse_crate_name};
use crate::protocol::{Frame, InApp, dup_opt_string};

verus! {

/// Frames that always mark the border between a trace and the runtime.
pub open spec fn is_well_known_border(f: Seq<char>) -> bool {
    f == "std::panicking::begin_panic"@ || f == "core::panicking::panic"@
}

/// Function names of the runtime and of this library, by module prefix.
pub open spec fn is_sys_function_spec(f: Seq<char>) -> bool {
    has_prefix(f, "std::"@) || has_prefix(f, "core::"@) || has_prefix(f, "alloc::"@) || has_prefix(
        f,
        "backtrace::"@,
    ) || has_prefix(f, "sentry::"@) || has_prefix(f, "sentry_types::"@) || has_prefix(
        f,
        "__rust_"@,
    ) || has_prefix(f, "___rust_"@)
}

/// A frame is a border frame: its function is well known as one, or is one
/// of `extra`.
pub open spec fn is_border(extra: Seq<String>, f: Frame) -> bool {
    match f.function {
        Some(n) => is_well_known_border(n@) || contains_text(extra, n@),
        None => false,
    }
}

/// `frames` without its trailing run of border frames.
pub open spec fn trimmed(extra: Seq<String>, frames: Seq<Frame>) -> Seq<Frame>
    decreases frames.len(),
{
    if frames.len() > 0 && is_border(extra, frames.last()) {
        trimmed(extra, frames.drop_last())
    } else {
        frames
    }
}

/// The package of a frame after classification.
pub open spec fn classified_package(f: Frame) -> Option<Seq<char>> {
    match f.function {
        Some(n) => if f.package is None {
            crate_name_of(n@)
        } else {
            opt_view(f.package)
        },
        None => opt_view(f.package),
    }
}

/// The in-app flag of a frame after the rules of precedence, before the
/// fallback: an explicit flag, then the never-in-app prefixes, then the always-in-app
/// prefixes, then the runtime's function names.
pub open spec fn ruled_in_app(always_in: Seq<String>, never_in: Seq<String>, f: Frame) -> InApp {
    match f.function {
        None => f.in_app,
        Some(n) => if f.in_app != InApp::Unknown {
            f.in_app
        } else if has_any_prefix(n@, never_in) {
            InApp::No
        } else if has_any_prefix(n@, always_in) {
            InApp::Yes
        } else if is_sys_function_spec(n@) {
            InApp::No
        } else {
            InApp::Unknown
        },
    }
}

/// Some frame is in the application's code once the rules have run.
pub open spec fn any_ruled_in_app(always_in: Seq<String>, never_in: Seq<String>, frames: Seq<Frame>) -> bool {
    exists|i: int| 0 <= i < frames.len() && ruled_in_app(always_in, never_in, #[trigger] frames[i]) == InApp::Yes
}

/// The final in-app flag of `f`, one of `frames`: where no frame is in the
/// application's code, every frame still unknown is taken to be.
pub open spec fn final_in_app(always_in: Seq<String>, never_in: Seq<String>, frames: Seq<Frame>, f: Frame) -> InApp {
    let r = ruled_in_app(always_in, never_in, f);
    if !any_ruled_in_app(always_in, never_in, frames) && r == InApp::Unknown {
        InApp::Yes
    } else {
        r
    }
}

/// `after` is `before` with each frame classified.
pub open spec fn frames_classified(
    always_in: Seq<String>,
    never_in: Seq<String>,
    before: Seq<Frame>,
    after: Seq<Frame>,
) -> bool {
    &&& after.len() == before.len()
    &&& forall|i: int|
        0 <= i < before.len() ==> {
            &&& (#[trigger] after[i]).function == before[i].function
            &&& opt_view(after[i].package) == classified_package(before[i])
            &&& after[i].in_app == final_in_app(always_in, never_in, before, before[i])
        }
}

/// Whether `func` is a function of the runtime or of this library.
pub fn is_sys_function(func: &str) -> (r: bool)
    ensures
        r == is_sys_function_spec(func@),
{
    starts_with(func, "std::") || starts_with(func, "core::") || starts_with(func, "alloc::")
        || starts_with(func, "backtrace::") || starts_with(func, "sentry::") || starts_with(
        func,
        "sentry_types::",
    ) || starts_with(func, "__rust_") || starts_with(func, "___rust_")
}

/// Whether `f` marks the border between a trace and the runtime.
pub fn is_border_frame(extra: &Vec<String>, f: &Frame) -> (r: bool)
    ensures
        r == is_border(extra@, *f),
{
    match &f.function {
        Some(n) => text_eq(n.as_str(), "std::panicking::begin_panic") || text_eq(
            n.as_str(),
            "core::panicking::panic",
        ) || contains_string(extra, n),
        None => false,
    }
}

/// Removes the trailing run of border frames.
pub fn trim_stacktrace(frames: &mut Vec<Frame>, extra: &Vec<String>)
    ensures
        final(frames)@ == trimmed(extra@, old(frames)@),
{
    loop
        invariant
            trimmed(extra@, frames@) == trimmed(extra@, old(frames)@),
        ensures
            frames@ == trimmed(extra@, old(frames)@),
        decreases frames@.len(),
    {
        let n = frames.len();
        if n == 0 {
            assert(trimmed(extra@, frames@) == frames@);
            break;
        }
        if !is_border_frame(extra, &frames[n - 1]) {
            assert(trimmed(extra@, frames@) == frames@);
            break;
        }
        let ghost before = frames@;
        let _ = frames.pop();
        assert(frames@ =~= before.drop_last());
    }
}

/// Sets the package of each frame from its function name where unset, and
/// decides which frames belong to the application.
pub fn classify_frames(frames: &Vec<Frame>, always_in: &Vec<String>, never_in: &Vec<String>) -> (r: Vec<Frame>)
    ensures
        frames_classified(always_in@, never_in@, frames@, r@),
{
    let mut ruled: Vec<Frame> = Vec::new();
    let mut any_in_app = false;
    let mut i: usize = 0;
    while i < frames.len()
        invariant
            i <= frames@.len(),
            ruled@.len() == i,
            any_in_app == exists|j: int| 0 <= j < i && ruled_in_app(always_in@, never_in@, #[trigger] frames@[j]) == InApp::Yes,
            forall|j: int| 0 <= j < i ==> {
                &&& (#[trigger] ruled@[j]).function == frames@[j].function
                &&& opt_view(ruled@[j].package) == classified_package(frames@[j])
                &&& ruled@[j].in_app == ruled_in_app(always_in@, never_in@, frames@[j])
            },
        decreases frames.len() - i,
    {
        let f = &frames[i];
        let (package, in_app) = match &f.function {
            None => (dup_opt_string(&f.package), f.in_app),
            Some(n) => {
                let package = if f.package.is_none() {
                    parse_crate_name(n.as_str())
                } else {
                    dup_opt_string(&f.package)
                };
                let in_app = if f.in_app != InApp::Unknown {
                    f.in_app
                } else if starts_with_any(n.as_str(), never_in) {
                    InApp::No
                } else if starts_with_any(n.as_str(), always_in) {
                    InApp::Yes
                } else if is_sys_function(n.as_str()) {
                    InApp::No
                } else {
                    InApp::Unknown
                };
                (package, in_app)
            },
        };
        if in_app == InApp::Yes {
            any_in_app = true;
        }
        ruled.push(Frame { function: dup_opt_string(&f.function), package, in_app });
        i = i + 1;
    }
    let mut out: Vec<Frame> = Vec::new();
    let mut i: usize = 0;
    while i < ruled.len()
        invariant
            i <= ruled@.len(),
            ruled@.len() == frames@.len(),
            out@.len() == i,
            any_in_app == any_ruled_in_app(always_in@, never_in@, frames@),
            forall|j: int| 0 <= j < ruled@.len() ==> {
                &&& (#[trigger] ruled@[j]).function == frames@[j].function
                &&& opt_view(ruled@[j].package) == classified_package(frames@[j])
                &&& ruled@[j].in_app == ruled_in_app(always_in@, never_in@, frames@[j])
            },
            forall|j: int| 0 <= j < i ==> {
                &&& (#[trigger] out@[j]).function == frames@[j].function
                &&& opt_view(out@[j].package) == classified_package(frames@[j])
                &&& out@[j].in_app == final_in_app(always_in@, never_in@, frames@, frames@[j])
            },
        decreases ruled.len() - i,
    {
        let f = &ruled[i];
        let in_app = if !any_in_app && f.in_app == InApp::Unknown {
            InApp::Yes
        } else {
            f.in_app
        };
        out.push(Frame { function: dup_opt_string(&f.function), package: dup_opt_string(&f.package), in_app });
        i = i + 1;
    }
    out
}

/// Where no frame is in the application's code after the rules, every frame
/// that they left unknown is taken to be; where one is, every frame keeps the
/// flag that the rules gave it.
pub proof fn fallback_only_without_app_frames(
    always_in: Seq<String>,
    never_in: Seq<String>,
    before: Seq<Frame>,
    after: Seq<Frame>,
)
    requires
        frames_classified(always_in, never_in, before, after),
    ensures
        (forall|i: int| 0 <= i < before.len() ==> ruled_in_app(always_in, never_in, #[trigger] before[i]) == InApp::Unknown)
            ==> forall|i: int| 0 <= i < after.len() ==> (#[trigger] after[i]).in_app == InApp::Yes,
        any_ruled_in_app(always_in, never_in, before) ==> forall|i: int| 0 <= i < after.len() ==> (#[trigger] after[i]).in_app == ruled_in_app(always_in, never_in, before[i]),
{
    if forall|i: int| 0 <= i < before.len() ==> ruled_in_app(always_in, never_in, #[trigger] before[i]) == InApp::Unknown {
        assert(!any_ruled_in_app(always_in, never_in, before));
        assert forall|i: int| 0 <= i < after.len() implies (#[trigger] after[i]).in_app == InApp::Yes by {
            assert(ruled_in_app(always_in, never_in, before[i]) == InApp::Unknown);
        }
    }
}

/// A frame with no explicit flag whose function matches a never-in-app
/// prefix is not in the application's code, even where it also matches an
/// always-in-app prefix.
pub proof fn never_in_app_prefix_wins(
    always_in: Seq<String>,
    never_in: Seq<String>,
    frames: Seq<Frame>,
    f: Frame,
)
    requires
        f.function is Some,
        f.in_app == InApp::Unknown,
        has_any_prefix(f.function->0@, never_in),
    ensures
        ruled_in_app(always_in, never_in, f) == InApp::No,
        final_in_app(always_in, never_in, frames, f) == InApp::No,
{
}

} // verus!
