//! The agent picker of the new-API-key modal: which agents are offered,
//! which one is selected, and when a key can be created.
use crate::text::str_eq;
use vstd::prelude::*;

verus! {

/// An agent identity an API key can be created for.
pub struct AgentIdentity {
    pub uid: String,
    pub name: String,
    /// Unavailable agents are not offered.
    pub available: bool,
}

impl Clone for AgentIdentity {
    fn clone(&self) -> (r: Self)
        ensures
            r == *self,
    {
        AgentIdentity { uid: self.uid.clone(), name: self.name.clone(), available: self.available }
    }
}

/// The kind of key being created.
#[derive(Clone, Copy, Debug, PartialEq, Eq, Structural)]
pub enum ApiKeyType {
    Personal,
    Agent,
}

/// The agents offered: the available ones, in order.
pub open spec fn offered(agents: Seq<AgentIdentity>) -> Seq<AgentIdentity> {
    agents.filter(|a: AgentIdentity| a.available)
}

/// Some offered agent has this UID.
pub open spec fn offers(agents: Seq<AgentIdentity>, uid: Seq<char>) -> bool {
    exists|i: int| 0 <= i < agents.len() && #[trigger] agents[i].uid@ == uid
}

/// The selection after the agent list is replaced by one offering `agents`:
/// a selection that is still offered stays; otherwise the first offered
/// agent (the default) is selected, or none when none is offered.
pub open spec fn selection_after_refresh(
    selected: Option<Seq<char>>,
    agents: Seq<AgentIdentity>,
) -> Option<Seq<char>> {
    match selected {
        Some(u) => if offers(agents, u) {
            Some(u)
        } else if agents.len() > 0 {
            Some(agents[0].uid@)
        } else {
            None
        },
        None => if agents.len() > 0 {
            Some(agents[0].uid@)
        } else {
            None
        },
    }
}

/// After a refresh the selection is always one of the offered agents, or
/// none only when no agent is offered. A selection that is still offered is
/// kept; one that is no longer offered gives way to the first offered agent.
pub proof fn law_refreshed_selection_is_offered(
    selected: Option<Seq<char>>,
    agents: Seq<AgentIdentity>,
)
    ensures
        match selection_after_refresh(selected, agents) {
            Some(u) => exists|i: int| 0 <= i < agents.len() && agents[i].uid@ == u,
            None => agents.len() == 0,
        },
        (match selected {
            Some(u) => exists|i: int| 0 <= i < agents.len() && agents[i].uid@ == u,
            None => false,
        }) ==> selection_after_refresh(selected, agents) == selected,
        (match selected {
            Some(u) => forall|i: int| 0 <= i < agents.len() ==> agents[i].uid@ != u,
            None => true,
        }) && agents.len() > 0 ==> selection_after_refresh(selected, agents) == Some(
            agents[0].uid@,
        ),
{
    match selection_after_refresh(selected, agents) {
        Some(u) => {
            if !offers(agents, u) {
                assert(agents[0].uid@ == u);
            }
        },
        None => {},
    }
}

/// Only available agents are offered: an agent is offered exactly when it
/// is an available agent of the list.
pub proof fn law_offered_agents_are_the_available(agents: Seq<AgentIdentity>, a: AgentIdentity)
    ensures
        offered(agents).contains(a) <==> (agents.contains(a) && a.available),
        offered(agents).len() <= agents.len(),
{
    broadcast use vstd::seq_lib::group_filter_ensures, Seq::lemma_filter_contains_rev;

    let keep = |x: AgentIdentity| x.available;
    if offered(agents).contains(a) {
        let k = choose|k: int| 0 <= k < offered(agents).len() && offered(agents)[k] == a;
        assert(keep(offered(agents)[k]));
    }
    if agents.contains(a) && a.available {
        let k = choose|k: int| 0 <= k < agents.len() && agents[k] == a;
        agents.lemma_filter_contains(keep, k);
    }
}

/// The label of the first agent with this UID.
pub open spec fn label_of(agents: Seq<AgentIdentity>, uid: Seq<char>) -> Option<Seq<char>>
    decreases agents.len(),
{
    if agents.len() == 0 {
        None
    } else if agents[0].uid@ == uid {
        Some(agents[0].name@)
    } else {
        label_of(agents.drop_first(), uid)
    }
}

/// The agent picker's state.
pub struct AgentPicker {
    agents: Vec<AgentIdentity>,
    selected_agent_uid: Option<String>,
    is_loading_agents: bool,
}

impl AgentPicker {
    /// The agents offered.
    pub closed spec fn agents(self) -> Seq<AgentIdentity> {
        self.agents@
    }

    /// The selected agent's UID.
    pub closed spec fn selected(self) -> Option<Seq<char>> {
        match self.selected_agent_uid {
            Some(u) => Some(u@),
            None => None,
        }
    }

    /// The agent list is being loaded.
    pub closed spec fn loading(self) -> bool {
        self.is_loading_agents
    }

    /// A picker with no agents and no selection.
    pub fn new() -> (r: Self)
        ensures
            r.agents().len() == 0,
            r.selected() is None,
            !r.loading(),
    {
        AgentPicker { agents: Vec::new(), selected_agent_uid: None, is_loading_agents: false }
    }

    /// The agents offered, in order.
    pub fn agents_offered(&self) -> (r: &Vec<AgentIdentity>)
        ensures
            r@ == self.agents(),
    {
        &self.agents
    }

    /// The selected agent's UID.
    pub fn selected_agent_uid(&self) -> (r: Option<&str>)
        ensures
            match r {
                Some(u) => self.selected() == Some(u@),
                None => self.selected() is None,
            },
    {
        match &self.selected_agent_uid {
            Some(u) => Some(u.as_str()),
            None => None,
        }
    }

    /// Marks the agent list as loading or loaded.
    pub fn set_loading(&mut self, loading: bool)
        ensures
            final(self).loading() == loading,
            final(self).agents() == old(self).agents(),
            final(self).selected() == old(self).selected(),
    {
        self.is_loading_agents = loading;
    }

    /// Replaces the agent list: only available agents are offered, and the
    /// selection follows [`selection_after_refresh`].
    pub fn set_agents(&mut self, agents: Vec<AgentIdentity>)
        ensures
            final(self).agents() == offered(agents@),
            final(self).selected() == selection_after_refresh(old(self).selected(), offered(agents@)),
            final(self).loading() == old(self).loading(),
            match final(self).selected() {
                Some(u) => exists|i: int|
                    0 <= i < final(self).agents().len() && final(self).agents()[i].uid@ == u
                        && final(self).agents()[i].available,
                None => final(self).agents().len() == 0,
            },
    {
        let ghost keep = |a: AgentIdentity| a.available;
        let mut kept: Vec<AgentIdentity> = Vec::new();
        let mut i: usize = 0;
        assert(agents@.take(0).filter(keep) =~= Seq::<AgentIdentity>::empty());
        while i < agents.len()
            invariant
                i <= agents@.len(),
                keep == (|a: AgentIdentity| a.available),
                kept@ == agents@.take(i as int).filter(keep),
            decreases agents@.len() - i,
        {
            proof {
                reveal_with_fuel(Seq::<_>::filter, 1);
                assert(agents@.take(i + 1).drop_last() =~= agents@.take(i as int));
            }
            if agents[i].available {
                kept.push(agents[i].clone());
            }
            i = i + 1;
        }
        assert(agents@.take(i as int) =~= agents@);
        proof {
            law_refreshed_selection_is_offered(self.selected(), kept@);
            assert forall|j: int| 0 <= j < kept@.len() implies (#[trigger] kept@[j]).available by {
                agents@.lemma_filter_pred(keep, j);
            }
        }
        let still_offered = match &self.selected_agent_uid {
            Some(u) => offers_uid(&kept, u.as_str()),
            None => false,
        };
        if !still_offered {
            if kept.len() > 0 {
                self.selected_agent_uid = Some(kept[0].uid.clone());
            } else {
                self.selected_agent_uid = None;
            }
        }
        self.agents = kept;
        proof {
            if let Some(u) = self.selected() {
                let j = choose|j: int| 0 <= j < self.agents@.len() && self.agents@[j].uid@ == u;
                assert(self.agents()[j].uid@ == u && self.agents()[j].available);
            } else {
                assert(self.agents@.len() == 0);
            }
        }
    }

    /// Selects an offered agent; a UID that is not offered changes nothing.
    pub fn select_agent(&mut self, uid: &str)
        ensures
            final(self).selected() == if offers(old(self).agents(), uid@) {
                Some(uid@)
            } else {
                old(self).selected()
            },
            final(self).agents() == old(self).agents(),
            final(self).loading() == old(self).loading(),
    {
        if offers_uid(&self.agents, uid) {
            self.selected_agent_uid = Some(String::from_str(uid));
        }
    }

    /// Clears the selection, as closing the modal does.
    pub fn reset_selection(&mut self)
        ensures
            final(self).selected() is None,
            final(self).agents() == old(self).agents(),
            final(self).loading() == old(self).loading(),
    {
        self.selected_agent_uid = None;
    }

    /// The label of the selected agent.
    pub fn selected_item_label(&self) -> (r: Option<String>)
        ensures
            match self.selected() {
                Some(u) => match r {
                    Some(l) => label_of(self.agents(), u) == Some(l@),
                    None => label_of(self.agents(), u) is None,
                },
                None => r is None,
            },
    {
        match &self.selected_agent_uid {
            None => None,
            Some(u) => {
                let mut i: usize = 0;
                assert(self.agents@.skip(0) =~= self.agents@);
                while i < self.agents.len()
                    invariant
                        i <= self.agents@.len(),
                        self.selected() == Some(u@),
                        label_of(self.agents@, u@) == label_of(self.agents@.skip(i as int), u@),
                    decreases self.agents@.len() - i,
                {
                    assert(self.agents@.skip(i as int)[0] == self.agents@[i as int]);
                    if str_eq(self.agents[i].uid.as_str(), u.as_str()) {
                        return Some(self.agents[i].name.clone());
                    }
                    assert(self.agents@.skip(i as int).drop_first() =~= self.agents@.skip(i + 1));
                    i = i + 1;
                }
                None
            },
        }
    }

    /// Creating an agent key needs a selected agent and a loaded list; a
    /// personal key needs neither.
    pub fn is_create_disabled(&self, kind: ApiKeyType) -> (r: bool)
        ensures
            r == (kind == ApiKeyType::Agent && (self.loading() || self.selected() is None)),
    {
        match kind {
            ApiKeyType::Personal => false,
            ApiKeyType::Agent => self.is_loading_agents || self.selected_agent_uid.is_none(),
        }
    }
}

fn offers_uid(agents: &Vec<AgentIdentity>, uid: &str) -> (r: bool)
    ensures
        r == offers(agents@, uid@),
{
    let mut i: usize = 0;
    while i < agents.len()
        invariant
            i <= agents@.len(),
            forall|k: int| 0 <= k < i ==> #[trigger] agents@[k].uid@ != uid@,
        decreases agents@.len() - i,
    {
        if str_eq(agents[i].uid.as_str(), uid) {
            return true;
        }
        i = i + 1;
    }
    false
}

} // verus!
