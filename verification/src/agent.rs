use vstd::prelude::*;

use crate::entity::EntityId;

verus! {

/// The steering behaviors switched on for a moving entity: seeking its
/// target, arriving at it, pursuing another entity, interposing itself
/// towards another entity, and keeping apart from other players.
#[derive(Debug, Clone, Copy, PartialEq, Eq, Structural)]
pub struct Agent {
    pub separation: bool,
    pub seek: bool,
    pub arrive: bool,
    pub pursuit: Option<EntityId>,
    pub interpose: Option<EntityId>,
}

impl Agent {
    /// An agent with every behavior off.
    pub fn default() -> (a: Agent)
        ensures
            a == (Agent { separation: false, seek: false, arrive: false, pursuit: None, interpose: None }),
    {
        Agent { separation: false, seek: false, arrive: false, pursuit: None, interpose: None }
    }

    pub fn separation_on(&mut self)
        ensures
            *final(self) == (Agent { separation: true, ..*old(self) }),
    {
        self.separation = true;
    }

    pub fn separation_off(&mut self)
        ensures
            *final(self) == (Agent { separation: false, ..*old(self) }),
    {
        self.separation = false;
    }

    pub fn seek_on(&mut self)
        ensures
            *final(self) == (Agent { seek: true, ..*old(self) }),
    {
        self.seek = true;
    }

    pub fn seek_off(&mut self)
        ensures
            *final(self) == (Agent { seek: false, ..*old(self) }),
    {
        self.seek = false;
    }

    pub fn arrive_on(&mut self)
        ensures
            *final(self) == (Agent { arrive: true, ..*old(self) }),
    {
        self.arrive = true;
    }

    pub fn arrive_off(&mut self)
        ensures
            *final(self) == (Agent { arrive: false, ..*old(self) }),
    {
        self.arrive = false;
    }

    pub fn pursuit_on(&mut self, target: EntityId)
        ensures
            *final(self) == (Agent { pursuit: Some(target), ..*old(self) }),
    {
        self.pursuit = Some(target);
    }

    pub fn pursuit_off(&mut self)
        ensures
            *final(self) == (Agent { pursuit: None, ..*old(self) }),
    {
        self.pursuit = None;
    }

    pub fn interpose_on(&mut self, target: EntityId)
        ensures
            *final(self) == (Agent { interpose: Some(target), ..*old(self) }),
    {
        self.interpose = Some(target);
    }

    pub fn interpose_off(&mut self)
        ensures
            *final(self) == (Agent { interpose: None, ..*old(self) }),
    {
        self.interpose = None;
    }
}

} // verus!
