//! The client list screen of one profile: selection, a delete
//! confirmation popup, and the actions it hands to the workflow.

use vstd::prelude::*;

use crate::input::Key;
use crate::models::{Duplicate, Client, ClientV};
use crate::selection::{select_next, select_previous, spec_select_next, spec_select_previous};

verus! {

/// What the client list hands back to the workflow.
pub enum ClientAction {
    Back,
    NewClient(i32),
    EditClient(i32),
    DeleteClient(i32),
    SelectClient(i32),
}

/// The list screen's state, bound to its owning profile.
pub struct ClientsState {
    pub profile_id: i32,
    pub clients: Vec<Client>,
    pub selected: Option<usize>,
    pub show_delete_confirmation: bool,
}

/// Mathematical image of the list screen.
#[verifier::ext_equal]
pub struct ClientsV {
    pub profile_id: int,
    pub clients: Seq<ClientV>,
    pub selected: Option<int>,
    pub confirm: bool,
}

impl View for ClientsState {
    type V = ClientsV;

    open spec fn view(&self) -> ClientsV {
        ClientsV {
            profile_id: self.profile_id as int,
            clients: self.clients.deep_view(),
            selected: match self.selected {
                Some(i) => Some(i as int),
                None => None,
            },
            confirm: self.show_delete_confirmation,
        }
    }
}

/// The row under the cursor, when the cursor points into the list.
pub open spec fn spec_selected_client(v: ClientsV) -> Option<ClientV> {
    match v.selected {
        Some(i) => if 0 <= i < v.clients.len() {
            Some(v.clients[i])
        } else {
            None
        },
        None => None,
    }
}

impl ClientsState {
    /// A list over the loaded rows; the first one is selected if any.
    pub fn new(profile_id: i32, clients: Vec<Client>) -> (s: ClientsState)
        ensures
            s@.profile_id == profile_id as int,
            s@.clients == clients.deep_view(),
            s@.selected == (if clients.deep_view().len() > 0 {
                Some(0int)
            } else {
                None::<int>
            }),
            !s@.confirm,
    {
        let selected = if clients.len() > 0 {
            Some(0usize)
        } else {
            None
        };
        ClientsState { profile_id, clients, selected, show_delete_confirmation: false }
    }

    /// The owning profile's identity, for reloads and the back transition.
    pub fn profile_id(&self) -> (r: i32)
        ensures
            r as int == self@.profile_id,
    {
        self.profile_id
    }

    /// Moves the cursor down, wrapping at the end.
    pub fn next(&mut self)
        ensures
            final(self)@ == (ClientsV {
                selected: spec_select_next(old(self)@.clients.len() as int, old(self)@.selected),
                ..old(self)@
            }),
    {
        self.selected = select_next(self.clients.len(), self.selected);
        proof {
            assert(self@ =~= ClientsV {
                selected: spec_select_next(old(self)@.clients.len() as int, old(self)@.selected),
                ..old(self)@
            });
        }
    }

    /// Moves the cursor up, wrapping at the start.
    pub fn previous(&mut self)
        ensures
            final(self)@ == (ClientsV {
                selected: spec_select_previous(
                    old(self)@.clients.len() as int,
                    old(self)@.selected,
                ),
                ..old(self)@
            }),
    {
        self.selected = select_previous(self.clients.len(), self.selected);
        proof {
            assert(self@ =~= ClientsV {
                selected: spec_select_previous(
                    old(self)@.clients.len() as int,
                    old(self)@.selected,
                ),
                ..old(self)@
            });
        }
    }

    /// Shows or hides the delete confirmation popup.
    pub fn toggle_delete_confirmation(&mut self)
        ensures
            final(self)@ == (ClientsV { confirm: !old(self)@.confirm, ..old(self)@ }),
    {
        self.show_delete_confirmation = !self.show_delete_confirmation;
        proof {
            assert(self@ =~= ClientsV { confirm: !old(self)@.confirm, ..old(self)@ });
        }
    }

    /// The row under the cursor; see [`spec_selected_client`].
    pub fn selected_client(&self) -> (r: Option<Client>)
        ensures
            (match (r, spec_selected_client(self@)) {
                (Some(p), Some(q)) => p@ == q,
                (None, None) => true,
                _ => false,
            }),
    {
        match self.selected {
            Some(i) => if i < self.clients.len() {
                proof {
                    assert(self@.clients[i as int] == self.clients@[i as int]@);
                }
                Some(self.clients[i].duplicate())
            } else {
                None
            },
            None => None,
        }
    }

    /// The identity of the row under the cursor.
    pub fn selected_client_id(&self) -> (r: Option<i32>)
        ensures
            (match (r, spec_selected_client(self@)) {
                (Some(id), Some(q)) => id as int == q.id,
                (None, None) => true,
                _ => false,
            }),
    {
        match self.selected_client() {
            Some(p) => Some(p.id),
            None => None,
        }
    }
}

/// One key of the client list.  Outside the confirmation popup: Esc or
/// `q` goes back to the profiles, `n` opens a new-client wizard, `e` edits and Enter opens
/// the selected row, `d` asks for delete confirmation, Up and Down move
/// the cursor.  Inside the popup: `y` confirms the delete, Esc or `q`
/// dismiss it, everything else is ignored.
pub fn handle_input(state: &mut ClientsState, key: Key) -> (r: Option<ClientAction>)
    ensures
        ({
            let v = old(state)@;
            let sel = spec_selected_client(v);
            &&& (key == Key::Esc || key == Key::Char('q')) && v.confirm ==> final(state)@ == (
            ClientsV { confirm: false, ..v }) && r is None
            &&& (key == Key::Esc || key == Key::Char('q')) && !v.confirm ==> final(state)@ == v
                && (r matches Some(ClientAction::Back))
            &&& key == Key::Char('n') && !v.confirm ==> final(state)@ == v && (r matches Some(
                ClientAction::NewClient(pid),
            ) && pid as int == v.profile_id)
            &&& key == Key::Char('e') && !v.confirm ==> final(state)@ == v && (match sel {
                Some(p) => r matches Some(ClientAction::EditClient(id)) && id as int == p.id,
                None => r is None,
            })
            &&& key == Key::Char('d') && !v.confirm ==> (match sel {
                Some(p) => final(state)@ == (ClientsV { confirm: true, ..v }) && r is None,
                None => final(state)@ == v && r is None,
            })
            &&& key == Key::Char('y') && v.confirm ==> (match sel {
                Some(p) => final(state)@ == (ClientsV { confirm: false, ..v }) && (
                r matches Some(ClientAction::DeleteClient(id)) && id as int == p.id),
                None => final(state)@ == v && r is None,
            })
            &&& key == Key::Down && !v.confirm ==> final(state)@ == (ClientsV {
                selected: spec_select_next(v.clients.len() as int, v.selected),
                ..v
            }) && r is None
            &&& key == Key::Up && !v.confirm ==> final(state)@ == (ClientsV {
                selected: spec_select_previous(v.clients.len() as int, v.selected),
                ..v
            }) && r is None
            &&& key == Key::Enter && !v.confirm ==> final(state)@ == v && (match sel {
                Some(p) => r matches Some(ClientAction::SelectClient(id)) && id as int == p.id,
                None => r is None,
            })
            &&& v.confirm && !(key == Key::Esc || key == Key::Char('q') || key == Key::Char('y'))
                ==> final(state)@ == v && r is None
            &&& key == Key::Char('y') && !v.confirm ==> final(state)@ == v && r is None
            &&& !v.confirm && !(key == Key::Esc || key == Key::Char('q') || key == Key::Char('n')
                || key == Key::Char('e') || key == Key::Char('d') || key == Key::Char('y') || key
                == Key::Down || key == Key::Up || key == Key::Enter) ==> final(state)@ == v && r
                is None
        }),
{
    match key {
        Key::Esc => {
            if state.show_delete_confirmation {
                state.toggle_delete_confirmation();
            } else {
                return Some(ClientAction::Back);
            }
        },
        Key::Char(c) => {
            if c == 'q' {
                if state.show_delete_confirmation {
                    state.toggle_delete_confirmation();
                } else {
                    return Some(ClientAction::Back);
                }
            } else if c == 'n' {
                if !state.show_delete_confirmation {
                    return Some(ClientAction::NewClient(state.profile_id));
                }
            } else if c == 'e' {
                if !state.show_delete_confirmation {
                    match state.selected_client_id() {
                        Some(id) => {
                            return Some(ClientAction::EditClient(id));
                        },
                        None => {},
                    }
                }
            } else if c == 'd' {
                if !state.show_delete_confirmation && state.selected_client_id().is_some() {
                    state.toggle_delete_confirmation();
                }
            } else if c == 'y' {
                if state.show_delete_confirmation {
                    match state.selected_client_id() {
                        Some(id) => {
                            state.toggle_delete_confirmation();
                            return Some(ClientAction::DeleteClient(id));
                        },
                        None => {},
                    }
                }
            }
        },
        Key::Down => {
            if !state.show_delete_confirmation {
                state.next();
            }
        },
        Key::Up => {
            if !state.show_delete_confirmation {
                state.previous();
            }
        },
        Key::Enter => {
            if !state.show_delete_confirmation {
                match state.selected_client_id() {
                    Some(id) => {
                        return Some(ClientAction::SelectClient(id));
                    },
                    None => {},
                }
            }
        },
        _ => {},
    }
    None
}

} // verus!
