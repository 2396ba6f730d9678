//! Progress bookkeeping for the terminal display: counters and the list
//! of found accounts, advanced by the engine's progress events. The
//! drawing loop itself lives outside the library.

use crate::engine::ProgressUpdate;
use crate::text::dec_chars;
use crate::text::u64_to_dec;
use vstd::prelude::*;

verus! {

/// The display state: totals, the accounts found so far, and the site
/// checked most recently.
#[derive(Debug)]
pub struct TUIState {
    pub total_sites: usize,
    pub completed: usize,
    pub found_results: usize,
    pub is_running: bool,
    pub results: Vec<(String, String)>,
    pub current_site: String,
}

impl TUIState {
    /// A fresh display state for a batch of `total_sites` sites.
    pub fn new(total_sites: usize) -> (r: Self)
        ensures
            r.total_sites == total_sites,
            r.completed == 0,
            r.found_results == 0,
            r.is_running,
            r.results@.len() == 0,
            r.current_site@ == Seq::<char>::empty(),
    {
        proof {
            reveal_strlit("");
            assert(""@ =~= Seq::<char>::empty());
        }
        TUIState {
            total_sites,
            completed: 0,
            found_results: 0,
            is_running: true,
            results: Vec::new(),
            current_site: "".to_owned(),
        }
    }

    /// Advances the state by one progress event: a start fixes the total;
    /// a checked site bumps the completion count, records the account when
    /// it was found, and becomes the current site; completion stops the
    /// display. Counters saturate rather than wrap.
    pub fn handle_progress(&mut self, update: ProgressUpdate)
        ensures
            update matches ProgressUpdate::Started { total } ==> *final(self) == (TUIState {
                total_sites: total,
                ..*old(self)
            }),
            update matches ProgressUpdate::SiteChecked { site, url, found } ==> {
                &&& final(self).total_sites == old(self).total_sites
                &&& final(self).is_running == old(self).is_running
                &&& final(self).completed == (if old(self).completed < usize::MAX {
                    old(self).completed + 1
                } else {
                    old(self).completed as int
                })
                &&& final(self).current_site@ == site@
                &&& (found ==> {
                    &&& final(self).found_results == (if old(self).found_results < usize::MAX {
                        old(self).found_results + 1
                    } else {
                        old(self).found_results as int
                    })
                    &&& final(self).results@.len() == old(self).results@.len() + 1
                    &&& final(self).results@[old(self).results@.len() as int].0@ == site@
                    &&& final(self).results@[old(self).results@.len() as int].1@ == url@
                    &&& forall|k: int|
                        0 <= k < old(self).results@.len() ==> final(self).results@[k] == old(
                            self,
                        ).results@[k]
                })
                &&& (!found ==> {
                    &&& final(self).found_results == old(self).found_results
                    &&& final(self).results@ == old(self).results@
                })
            },
            update matches ProgressUpdate::Completed ==> *final(self) == (TUIState {
                is_running: false,
                ..*old(self)
            }),
    {
        match update {
            ProgressUpdate::Started { total } => {
                self.total_sites = total;
            },
            ProgressUpdate::SiteChecked { site, url, found } => {
                if self.completed < usize::MAX {
                    self.completed = self.completed + 1;
                }
                if found {
                    if self.found_results < usize::MAX {
                        self.found_results = self.found_results + 1;
                    }
                    self.results.push((site.clone(), url));
                }
                self.current_site = site;
            },
            ProgressUpdate::Completed => {
                self.is_running = false;
            },
        }
    }

    /// Stops the display.
    pub fn stop(&mut self)
        ensures
            *final(self) == (TUIState { is_running: false, ..*old(self) }),
    {
        self.is_running = false;
    }
}

/// `M`m `S`s for a minute or more, `S`s below one minute.
pub open spec fn spec_format_time(seconds: u64) -> Seq<char> {
    if seconds / 60 > 0 {
        dec_chars((seconds / 60) as nat) + "m "@ + dec_chars((seconds % 60) as nat) + "s"@
    } else {
        dec_chars((seconds % 60) as nat) + "s"@
    }
}

/// Renders a number of seconds as minutes and seconds.
pub fn format_time(seconds: u64) -> (res: String)
    ensures
        res@ == spec_format_time(seconds),
{
    let mins = seconds / 60;
    let secs = seconds % 60;
    if mins > 0 {
        let mut out = u64_to_dec(mins);
        out.append("m ");
        let d = u64_to_dec(secs);
        out.append(d.as_str());
        out.append("s");
        out
    } else {
        let mut out = u64_to_dec(secs);
        out.append("s");
        out
    }
}

} // verus!
