use vstd::prelude::*;
use crate::celestial::relation::RelationType;

verus! {

/// What the connection menu asks for.
#[derive(Debug)]
pub enum ConnectionAction {
    CreateConnection { source_id: String, target_id: String, relation_type: RelationType },
}

/// The menu that offers to link two nodes: whether it is open, and the two
/// nodes that it was opened for.
pub struct ConnectionMenu {
    pub show_menu: bool,
    pub source_id: Option<String>,
    pub target_id: Option<String>,
}

impl ConnectionMenu {
    /// Whether the menu is closed and has forgotten its nodes.
    pub open spec fn is_closed(&self) -> bool {
        !self.show_menu && self.source_id is None && self.target_id is None
    }

    /// Whether the menu is open for two nodes.
    pub open spec fn is_armed(&self) -> bool {
        self.show_menu && self.source_id is Some && self.target_id is Some
    }

    pub fn new() -> (menu: Self)
        ensures
            menu.is_closed(),
    {
        Self { show_menu: false, source_id: None, target_id: None }
    }

    /// Opens the menu for a link from `source_id` to `target_id`.
    pub fn show_for_nodes(&mut self, source_id: String, target_id: String)
        ensures
            final(self).show_menu,
            final(self).source_id == Some(source_id),
            final(self).target_id == Some(target_id),
    {
        self.source_id = Some(source_id);
        self.target_id = Some(target_id);
        self.show_menu = true;
    }

    /// What the menu answers when a kind of link is chosen in it: the link to
    /// make, after which the menu closes. A menu that is not open for two
    /// nodes answers nothing and stays as it is.
    pub fn pick(&mut self, relation_type: RelationType) -> (action: Option<ConnectionAction>)
        ensures
            old(self).is_armed() ==> final(self).is_closed() && action == Some(
                ConnectionAction::CreateConnection {
                    source_id: old(self).source_id->0,
                    target_id: old(self).target_id->0,
                    relation_type,
                },
            ),
            !old(self).is_armed() ==> *final(self) == *old(self) && action is None,
    {
        if !self.show_menu || self.source_id.is_none() || self.target_id.is_none() {
            return None;
        }
        let source_id = self.source_id.take().unwrap();
        let target_id = self.target_id.take().unwrap();
        self.reset();
        Some(ConnectionAction::CreateConnection { source_id, target_id, relation_type })
    }

    /// Closes the menu and forgets its nodes.
    pub fn reset(&mut self)
        ensures
            final(self).is_closed(),
    {
        self.show_menu = false;
        self.source_id = None;
        self.target_id = None;
    }
}

} // verus!
