use vstd::prelude::*;

verus! {

/// The user agent reported by this library.
pub const USER_AGENT: &'static str = "sentry.rust/0.1.0";

/// Configuration settings for the client.
#[derive(Clone, Debug)]
pub struct ClientOptions {
    /// module prefixes that are always considered in_app
    pub in_app_include: Vec<String>,
    /// module prefixes that are never in_app
    pub in_app_exclude: Vec<String>,
    /// border frames which indicate a border from a backtrace to
    /// useless internals.  Some are automatically included.
    pub extra_border_frames: Vec<String>,
    /// Maximum number of breadcrumbs (0 to disable feature).
    pub max_breadcrumbs: usize,
    /// Automatically trim backtraces of junk before sending.
    pub trim_backtraces: bool,
    /// The release to be sent with events.
    pub release: Option<String>,
    /// The environment to be sent with events.
    pub environment: Option<String>,
    /// The server name to be reported.
    pub server_name: Option<String>,
    /// The user agent that should be reported.
    pub user_agent: String,
}

/// `o` holds the default options: empty prefix lists, 100 breadcrumbs,
/// trimming on, no release, environment or server name, and the library's
/// user agent.
pub open spec fn is_default_options(o: ClientOptions) -> bool {
    &&& o.in_app_include@.len() == 0
    &&& o.in_app_exclude@.len() == 0
    &&& o.extra_border_frames@.len() == 0
    &&& o.max_breadcrumbs == 100
    &&& o.trim_backtraces
    &&& o.release is None
    &&& o.environment is None
    &&& o.server_name is None
    &&& o.user_agent@ == USER_AGENT@
}

impl Default for ClientOptions {
    /// Empty prefix lists, 100 breadcrumbs, trimming on, no release, and the
    /// library's user agent.  The environment and the server name depend on
    /// the build and the host, which the caller fills in where it knows them.
    fn default() -> (r: ClientOptions)
        ensures
            is_default_options(r),
    {
        ClientOptions {
            in_app_include: Vec::new(),
            in_app_exclude: Vec::new(),
            extra_border_frames: Vec::new(),
            max_breadcrumbs: 100,
            trim_backtraces: true,
            release: None,
            environment: None,
            server_name: None,
            user_agent: USER_AGENT.to_owned(),
        }
    }
}

} // verus!
