//! The user-agent table: a fixed set of browser identification strings,
//! one of which is drawn at random per request when rotation is on.

use rand::Rng;
use vstd::prelude::*;

verus! {

/// Relies on rand::thread_rng and rand::Rng::gen_range on `0..bound`:
/// the drawn value lies below the bound; the call panics only on an empty
/// range, which the precondition excludes. Nothing more is promised of a
/// random value.
#[verifier::external_body]
fn random_below(bound: usize) -> (r: usize)
    requires
        bound > 0,
    ensures
        r < bound,
{
    rand::thread_rng().gen_range(0..bound)
}

/// The fixed table of user-agent strings.
#[derive(Debug)]
pub struct UserAgentRotator {
    user_agents: Vec<String>,
}

impl UserAgentRotator {
    /// The table contents, as character sequences.
    pub closed spec fn agents(self) -> Seq<Seq<char>> {
        self.user_agents@.map_values(|s: String| s@)
    }

    /// The table, holding twenty user-agent strings.
    pub fn new() -> (r: Self)
        ensures
            r.agents().len() == 20,
    {
        let mut user_agents: Vec<String> = Vec::new();
        user_agents.push(
            "Mozilla/5.0 (Windows NT 10.0; Win64; x64) AppleWebKit/537.36 (KHTML, like Gecko) Chrome/120.0.0.0 Safari/537.36".to_owned(),
        );
        user_agents.push(
            "Mozilla/5.0 (Windows NT 10.0; Win64; x64) AppleWebKit/537.36 (KHTML, like Gecko) Chrome/119.0.0.0 Safari/537.36".to_owned(),
        );
        user_agents.push(
            "Mozilla/5.0 (Windows NT 10.0; Win64; x64) AppleWebKit/537.36 (KHTML, like Gecko) Chrome/118.0.0.0 Safari/537.36".to_owned(),
        );
        user_agents.push(
            "Mozilla/5.0 (Macintosh; Intel Mac OS X 10_15_7) AppleWebKit/537.36 (KHTML, like Gecko) Chrome/120.0.0.0 Safari/537.36".to_owned(),
        );
        user_agents.push(
            "Mozilla/5.0 (Macintosh; Intel Mac OS X 10_15_7) AppleWebKit/537.36 (KHTML, like Gecko) Chrome/119.0.0.0 Safari/537.36".to_owned(),
        );
        user_agents.push(
            "Mozilla/5.0 (X11; Linux x86_64) AppleWebKit/537.36 (KHTML, like Gecko) Chrome/120.0.0.0 Safari/537.36".to_owned(),
        );
        user_agents.push(
            "Mozilla/5.0 (X11; Linux x86_64) AppleWebKit/537.36 (KHTML, like Gecko) Chrome/119.0.0.0 Safari/537.36".to_owned(),
        );
        user_agents.push(
            "Mozilla/5.0 (Windows NT 10.0; Win64; x64; rv:121.0) Gecko/20100101 Firefox/121.0".to_owned(),
        );
        user_agents.push(
            "Mozilla/5.0 (Windows NT 10.0; Win64; x64; rv:120.0) Gecko/20100101 Firefox/120.0".to_owned(),
        );
        user_agents.push(
            "Mozilla/5.0 (Windows NT 10.0; Win64; x64; rv:119.0) Gecko/20100101 Firefox/119.0".to_owned(),
        );
        user_agents.push(
            "Mozilla/5.0 (Macintosh; Intel Mac OS X 10.15; rv:121.0) Gecko/20100101 Firefox/121.0".to_owned(),
        );
        user_agents.push(
            "Mozilla/5.0 (Macintosh; Intel Mac OS X 10.15; rv:120.0) Gecko/20100101 Firefox/120.0".to_owned(),
        );
        user_agents.push(
            "Mozilla/5.0 (X11; Linux x86_64; rv:121.0) Gecko/20100101 Firefox/121.0".to_owned(),
        );
        user_agents.push(
            "Mozilla/5.0 (X11; Linux x86_64; rv:120.0) Gecko/20100101 Firefox/120.0".to_owned(),
        );
        user_agents.push(
            "Mozilla/5.0 (Macintosh; Intel Mac OS X 10_15_7) AppleWebKit/605.1.15 (KHTML, like Gecko) Version/17.2 Safari/605.1.15".to_owned(),
        );
        user_agents.push(
            "Mozilla/5.0 (Macintosh; Intel Mac OS X 10_15_7) AppleWebKit/605.1.15 (KHTML, like Gecko) Version/17.1 Safari/605.1.15".to_owned(),
        );
        user_agents.push(
            "Mozilla/5.0 (Windows NT 10.0; Win64; x64) AppleWebKit/537.36 (KHTML, like Gecko) Chrome/120.0.0.0 Safari/537.36 Edg/120.0.0.0".to_owned(),
        );
        user_agents.push(
            "Mozilla/5.0 (Windows NT 10.0; Win64; x64) AppleWebKit/537.36 (KHTML, like Gecko) Chrome/119.0.0.0 Safari/537.36 Edg/119.0.0.0".to_owned(),
        );
        user_agents.push(
            "Mozilla/5.0 (Windows NT 10.0; Win64; x64) AppleWebKit/537.36 (KHTML, like Gecko) Chrome/120.0.0.0 Safari/537.36 OPR/106.0.0.0".to_owned(),
        );
        user_agents.push(
            "Mozilla/5.0 (Windows NT 10.0; Win64; x64) AppleWebKit/537.36 (KHTML, like Gecko) Chrome/119.0.0.0 Safari/537.36 OPR/105.0.0.0".to_owned(),
        );
        UserAgentRotator { user_agents }
    }

    /// One entry of the table, drawn at random.
    pub fn get_random(&self) -> (r: String)
        requires
            self.agents().len() > 0,
        ensures
            exists|i: int| 0 <= i < self.agents().len() && r@ == self.agents()[i],
    {
        let i = random_below(self.user_agents.len());
        let r = self.user_agents[i].clone();
        proof {
            assert(self.agents()[i as int] == self.user_agents@[i as int]@);
        }
        r
    }

    /// The whole table.
    pub fn get_all(&self) -> (r: &Vec<String>)
        ensures
            r@.map_values(|s: String| s@) == self.agents(),
    {
        &self.user_agents
    }
}

impl Default for UserAgentRotator {
    /// The same fixed table.
    fn default() -> (r: Self)
        ensures
            r.agents().len() == 20,
    {
        Self::new()
    }
}

} // verus!
