//! Agent configuration, team selection for one issue, call parameters, the
//! provider cost table and the rules that read provider errors.

use vstd::prelude::*;
use crate::text::{clone_opt, owned};

verus! {

/// One configured agent: who it is, which role it plays and which model
/// provider it calls.
#[derive(Clone, Debug)]
pub struct AgentConfig {
    pub id: String,
    pub name: String,
    /// scout | judge | reaper | smith | gatekeeper
    pub role: String,
    pub provider: String,
    pub model: String,
    pub api_key: Option<String>,
    pub bot_token: Option<String>,
    pub bot_user: Option<String>,
    pub status: String,
    pub current_task: String,
}

impl AgentConfig {
    /// A field-by-field copy.
    pub fn duplicate(&self) -> (res: AgentConfig)
        ensures
            res == *self,
    {
        AgentConfig {
            id: self.id.clone(),
            name: self.name.clone(),
            role: self.role.clone(),
            provider: self.provider.clone(),
            model: self.model.clone(),
            api_key: clone_opt(&self.api_key),
            bot_token: clone_opt(&self.bot_token),
            bot_user: clone_opt(&self.bot_user),
            status: self.status.clone(),
            current_task: self.current_task.clone(),
        }
    }
}

/// The team that works on one issue.
#[derive(Clone, Debug)]
pub struct FixAgents {
    pub judge: Option<AgentConfig>,
    pub reaper: AgentConfig,
    pub smith: Option<AgentConfig>,
    pub gatekeeper: AgentConfig,
}

/// Why no team could be formed.
#[derive(Clone, Copy, Debug, PartialEq, Eq, Structural)]
pub enum PickAgentsError {
    NoReapers,
    NoJudges,
    NoSmiths,
}

impl PickAgentsError {
    pub fn message(&self) -> (res: String)
        ensures
            res@ == match *self {
                PickAgentsError::NoReapers =>
                    "no reaper agents configured — at least one reaper is required"@,
                PickAgentsError::NoJudges =>
                    "no judge agents configured — at least one judge is required"@,
                PickAgentsError::NoSmiths =>
                    "no smith agents configured — at least one smith is required"@,
            },
    {
        match self {
            PickAgentsError::NoReapers => owned(
                "no reaper agents configured — at least one reaper is required",
            ),
            PickAgentsError::NoJudges => owned(
                "no judge agents configured — at least one judge is required",
            ),
            PickAgentsError::NoSmiths => owned(
                "no smith agents configured — at least one smith is required",
            ),
        }
    }
}

/// The agent of a role pool that works on the issue at position `idx` of the
/// run: the pool is used round-robin.
pub open spec fn round_robin(pool: Seq<AgentConfig>, idx: int) -> AgentConfig {
    pool[idx % (pool.len() as int)]
}

/// Forms the team for the issue at position `idx`: each role pool is used
/// round-robin; reapers, judges and smiths are required, and the reaper
/// stands in when no gatekeeper is configured.
pub fn pick_fix_agents(
    idx: usize,
    judges: &[AgentConfig],
    reapers: &[AgentConfig],
    smiths: &[AgentConfig],
    gatekeepers: &[AgentConfig],
) -> (res: Result<FixAgents, PickAgentsError>)
    ensures
        reapers@.len() == 0 ==> res == Err::<FixAgents, _>(PickAgentsError::NoReapers),
        reapers@.len() > 0 && judges@.len() == 0 ==> res == Err::<FixAgents, _>(
            PickAgentsError::NoJudges,
        ),
        reapers@.len() > 0 && judges@.len() > 0 && smiths@.len() == 0 ==> res == Err::<
            FixAgents,
            _,
        >(PickAgentsError::NoSmiths),
        reapers@.len() > 0 && judges@.len() > 0 && smiths@.len() > 0 ==> (res matches Ok(team) && {
            &&& team.judge == Some(round_robin(judges@, idx as int))
            &&& team.reaper == round_robin(reapers@, idx as int)
            &&& team.smith == Some(round_robin(smiths@, idx as int))
            &&& team.gatekeeper == if gatekeepers@.len() > 0 {
                round_robin(gatekeepers@, idx as int)
            } else {
                round_robin(reapers@, idx as int)
            }
        }),
{
    if reapers.len() == 0 {
        return Err(PickAgentsError::NoReapers);
    }
    if judges.len() == 0 {
        return Err(PickAgentsError::NoJudges);
    }
    if smiths.len() == 0 {
        return Err(PickAgentsError::NoSmiths);
    }
    let judge = judges[idx % judges.len()].duplicate();
    let reaper = reapers[idx % reapers.len()].duplicate();
    let smith = smiths[idx % smiths.len()].duplicate();
    let gatekeeper = if gatekeepers.len() > 0 {
        gatekeepers[idx % gatekeepers.len()].duplicate()
    } else {
        reapers[idx % reapers.len()].duplicate()
    };
    Ok(FixAgents { judge: Some(judge), reaper, smith: Some(smith), gatekeeper })
}

/// What one model call is made with.
pub struct AgentCallParams<'a> {
    pub provider: &'a str,
    pub model: &'a str,
    pub api_key: Option<&'a str>,
    pub bot_user: Option<&'a str>,
    pub system: &'a str,
    pub prompt: &'a str,
}

pub open spec fn opt_view(o: Option<String>) -> Option<Seq<char>> {
    match o {
        Some(s) => Some(s@),
        None => None,
    }
}

pub open spec fn opt_str_view(o: Option<&str>) -> Option<Seq<char>> {
    match o {
        Some(s) => Some(s@),
        None => None,
    }
}

fn as_deref_str<'a>(o: &'a Option<String>) -> (res: Option<&'a str>)
    ensures
        opt_str_view(res) == opt_view(*o),
{
    match o {
        Some(s) => Some(s.as_str()),
        None => None,
    }
}

/// The parameters of a call that `agent` makes with the given prompts.
pub fn call_params<'a>(agent: &'a AgentConfig, system: &'a str, prompt: &'a str) -> (res:
    AgentCallParams<'a>)
    ensures
        res.provider@ == agent.provider@,
        res.model@ == agent.model@,
        opt_str_view(res.api_key) == opt_view(agent.api_key),
        opt_str_view(res.bot_user) == opt_view(agent.bot_user),
        res.system@ == system@,
        res.prompt@ == prompt@,
{
    AgentCallParams {
        provider: agent.provider.as_str(),
        model: agent.model.as_str(),
        api_key: as_deref_str(&agent.api_key),
        bot_user: as_deref_str(&agent.bot_user),
        system,
        prompt,
    }
}

} // verus!
