//! The site catalog: one descriptor per service, keyed by a unique site
//! name, immutable for the lifetime of a run.

use vstd::prelude::*;

verus! {

/// How a site signals that an identifier is not registered.
#[derive(Debug, Clone, Copy, PartialEq, Eq, Structural)]
pub enum ErrorType {
    StatusCode,
    Message,
    Redirect,
    ResponseUrl,
}

/// The "not found" markers of a `Message`-strategy site: one substring or
/// several.
#[derive(Debug, Clone)]
pub enum ErrorMessages {
    Single(String),
    Multiple(Vec<String>),
}

/// One catalog entry: the detection rule bundle for one site.
#[derive(Debug, Clone)]
pub struct SiteInfo {
    /// Profile URL template, holding one identifier placeholder.
    pub url: String,
    /// The site's home URL.
    pub url_main: String,
    /// The site's detection strategy.
    pub error_type: ErrorType,
    /// "Not found" markers; only read under the `Message` strategy.
    pub error_msg: Option<ErrorMessages>,
    /// Canonical miss URL; only read under the `ResponseUrl` strategy.
    pub error_url: Option<String>,
    /// Pattern the identifier must match, else the site rejects it
    /// before any request is issued.
    pub regex_check: Option<String>,
    /// A known registered identifier, kept for catalog upkeep.
    pub username_claimed: Option<String>,
    /// `GET`, `HEAD`, `POST` or `PUT`; a default is chosen when absent.
    pub request_method: Option<String>,
    /// Optional body for `POST`/`PUT` probes.
    pub request_payload: Option<String>,
    /// Probe URL template when distinct from the profile URL template.
    pub url_probe: Option<String>,
    /// Extra request headers.
    pub headers: Option<Vec<(String, String)>>,
    /// Whether the site carries adult content; read only by the
    /// pre-dispatch filter.
    pub is_nsfw: Option<bool>,
}

/// No two entries share a site name.
pub open spec fn distinct_names(s: Seq<(String, SiteInfo)>) -> bool {
    forall|i: int, j: int| 0 <= i < j < s.len() ==> s[i].0@ != s[j].0@
}

/// The loaded catalog: site name to descriptor, names unique.
#[derive(Debug, Clone)]
pub struct SitesData {
    pub sites: Vec<(String, SiteInfo)>,
}

impl SitesData {
    /// The catalog invariant: site names are pairwise distinct.
    pub open spec fn wf(self) -> bool {
        distinct_names(self.sites@)
    }

    /// Builds the catalog from `(name, descriptor)` entries; refused when
    /// two entries share a name.
    pub fn from_entries(entries: Vec<(String, SiteInfo)>) -> (r: Option<SitesData>)
        ensures
            r is Some <==> distinct_names(entries@),
            r matches Some(d) ==> d.sites == entries && d.wf(),
    {
        let n = entries.len();
        let mut i: usize = 0;
        while i < n
            invariant
                n == entries@.len(),
                i <= n,
                forall|a: int, b: int| 0 <= a < b < i ==> entries@[a].0@ != entries@[b].0@,
            decreases n - i,
        {
            let mut j: usize = 0;
            while j < i
                invariant
                    n == entries@.len(),
                    i < n,
                    j <= i,
                    forall|a: int, b: int| 0 <= a < b < i ==> entries@[a].0@ != entries@[b].0@,
                    forall|a: int| 0 <= a < j ==> entries@[a].0@ != entries@[i as int].0@,
                decreases i - j,
            {
                if crate::text::str_eq(entries[j].0.as_str(), entries[i].0.as_str()) {
                    proof {
                        assert(!distinct_names(entries@));
                    }
                    return None;
                }
                j = j + 1;
            }
            i = i + 1;
        }
        Some(SitesData { sites: entries })
    }

    /// The number of catalog entries.
    pub fn len(&self) -> (n: usize)
        ensures
            n == self.sites@.len(),
    {
        self.sites.len()
    }
}

} // verus!
