//! Bot-list sites that take server counts: the request each one expects and
//! how its answer is read.
use vstd::prelude::*;
use vstd::string::StringExecFns;
use crate::text::{decimal, decimal_string};

verus! {

/// The registry key under which the gateway's shard manager is shared.
pub struct ShardManagerWrapper;

/// What a bot list's HTTP status says about a stats post.
#[derive(Clone, Copy, Debug, PartialEq, Eq, Structural)]
pub enum StatusStep {
    /// A client or server error: the post failed with this status.
    Failed(u16),
    /// A success status other than 200: the post is taken as not accepted.
    NotAccepted,
    /// 200: the body says whether the post was accepted.
    ReadBody,
}

pub open spec fn status_step_of(status: u16) -> StatusStep {
    if 400 <= status && status < 600 {
        StatusStep::Failed(status)
    } else if status != 200 {
        StatusStep::NotAccepted
    } else {
        StatusStep::ReadBody
    }
}

/// Reads the HTTP status of a stats post.
pub fn status_step(status: u16) -> (r: StatusStep)
    ensures
        r == status_step_of(status),
{
    if 400 <= status && status < 600 {
        StatusStep::Failed(status)
    } else if status != 200 {
        StatusStep::NotAccepted
    } else {
        StatusStep::ReadBody
    }
}

/// The credentials of one bot on one list.
pub struct ListCredentials {
    pub token: Seq<char>,
    pub bot_id: u64,
}

/// `{"<field>":<count>}`.
pub open spec fn count_body(field: Seq<char>, count: u64) -> Seq<char> {
    "{\""@ + field + "\":"@ + decimal(count as nat) + "}"@
}

fn count_body_string(field: &str, count: u64) -> (r: String)
    ensures
        r@ == count_body(field@, count),
{
    let mut s = String::from_str("{\"");
    s.append(field);
    s.append("\":");
    let digits = decimal_string(count);
    s.append(digits.as_str());
    s.append("}");
    s
}

/// disforge.com.
pub struct DisforgeCom {
    token: String,
    bot_id: u64,
}

impl View for DisforgeCom {
    type V = ListCredentials;

    closed spec fn view(&self) -> ListCredentials {
        ListCredentials { token: self.token@, bot_id: self.bot_id }
    }
}

impl DisforgeCom {
    pub fn new(token: String, bot_id: u64) -> (r: Self)
        ensures
            r@ == (ListCredentials { token: token@, bot_id }),
    {
        DisforgeCom { token, bot_id }
    }

    pub fn token(&self) -> (r: &str)
        ensures
            r@ == self@.token,
    {
        self.token.as_str()
    }

    pub fn bot_id(&self) -> (r: u64)
        ensures
            r == self@.bot_id,
    {
        self.bot_id
    }

    pub open spec fn spec_stats_url(&self) -> Seq<char> {
        "https://disforge.com/api/botstats/"@ + decimal(self@.bot_id as nat)
    }

    /// Where the stats are posted.
    pub fn stats_url(&self) -> (r: String)
        ensures
            r@ == self.spec_stats_url(),
    {
        let mut s = String::from_str("https://disforge.com/api/botstats/");
        let digits = decimal_string(self.bot_id);
        s.append(digits.as_str());
        s
    }

    /// The header that carries the token.
    pub fn auth_header(&self) -> (r: &'static str)
        ensures
            r@ == "Authorization"@,
    {
        "Authorization"
    }

    /// The JSON body of a post for `server_count` servers.
    pub fn stats_body(&self, server_count: u64) -> (r: String)
        ensures
            r@ == count_body("servers"@, server_count),
    {
        count_body_string("servers", server_count)
    }

    /// Whether a 200 answer whose `status` field holds `status_field`
    /// accepts the post.
    pub fn accepted(&self, status_field: &str) -> (r: bool)
        ensures
            r == (status_field@ == "success"@),
    {
        let expected = String::from_str("success");
        let got = String::from_str(status_field);
        got == expected
    }
}

/// motiondevelopment.top.
pub struct MotionDevelopmentTop {
    token: String,
    bot_id: u64,
}

impl View for MotionDevelopmentTop {
    type V = ListCredentials;

    closed spec fn view(&self) -> ListCredentials {
        ListCredentials { token: self.token@, bot_id: self.bot_id }
    }
}

impl MotionDevelopmentTop {
    pub fn new(token: String, bot_id: u64) -> (r: Self)
        ensures
            r@ == (ListCredentials { token: token@, bot_id }),
    {
        MotionDevelopmentTop { token, bot_id }
    }

    pub fn token(&self) -> (r: &str)
        ensures
            r@ == self@.token,
    {
        self.token.as_str()
    }

    pub fn bot_id(&self) -> (r: u64)
        ensures
            r == self@.bot_id,
    {
        self.bot_id
    }

    pub open spec fn spec_stats_url(&self) -> Seq<char> {
        "https://motiondevelopment.top/api/v1.2/bots/"@ + decimal(self@.bot_id as nat) + "/stats"@
    }

    /// Where the stats are posted.
    pub fn stats_url(&self) -> (r: String)
        ensures
            r@ == self.spec_stats_url(),
    {
        let mut s = String::from_str("https://motiondevelopment.top/api/v1.2/bots/");
        let digits = decimal_string(self.bot_id);
        s.append(digits.as_str());
        s.append("/stats");
        s
    }

    /// The header that carries the token.
    pub fn auth_header(&self) -> (r: &'static str)
        ensures
            r@ == "Key"@,
    {
        "Key"
    }

    /// The JSON body of a post for `server_count` servers.
    pub fn stats_body(&self, server_count: u64) -> (r: String)
        ensures
            r@ == count_body("guilds"@, server_count),
    {
        count_body_string("guilds", server_count)
    }
}

} // verus!
