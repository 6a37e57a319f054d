//! The profile list screen: selection, a delete confirmation popup, and
//! the actions it hands to the workflow.

use vstd::prelude::*;

use crate::input::Key;
use crate::models::{Duplicate, Profile, ProfileV};
use crate::selection::{select_next, select_previous, spec_select_next, spec_select_previous};

verus! {

/// What the profile list hands back to the workflow.
pub enum ProfileAction {
    Exit,
    NewProfile,
    DeleteProfile(i32),
    SelectProfile(i32),
    EditProfile(i32),
}

/// The list screen's state.
pub struct ProfilesState {
    pub profiles: Vec<Profile>,
    pub selected: Option<usize>,
    pub show_delete_confirmation: bool,
}

/// Mathematical image of the list screen.
#[verifier::ext_equal]
pub struct ProfilesV {
    pub profiles: Seq<ProfileV>,
    pub selected: Option<int>,
    pub confirm: bool,
}

impl View for ProfilesState {
    type V = ProfilesV;

    open spec fn view(&self) -> ProfilesV {
        ProfilesV {
            profiles: self.profiles.deep_view(),
            selected: match self.selected {
                Some(i) => Some(i as int),
                None => None,
            },
            confirm: self.show_delete_confirmation,
        }
    }
}

/// The row under the cursor, when the cursor points into the list.
pub open spec fn spec_selected_profile(v: ProfilesV) -> Option<ProfileV> {
    match v.selected {
        Some(i) => if 0 <= i < v.profiles.len() {
            Some(v.profiles[i])
        } else {
            None
        },
        None => None,
    }
}

impl ProfilesState {
    /// A list over the loaded rows; the first one is selected if any.
    pub fn new(profiles: Vec<Profile>) -> (s: ProfilesState)
        ensures
            s@.profiles == profiles.deep_view(),
            s@.selected == (if profiles.deep_view().len() > 0 {
                Some(0int)
            } else {
                None::<int>
            }),
            !s@.confirm,
    {
        let selected = if profiles.len() > 0 {
            Some(0usize)
        } else {
            None
        };
        ProfilesState { profiles, selected, show_delete_confirmation: false }
    }

    /// Moves the cursor down, wrapping at the end.
    pub fn next(&mut self)
        ensures
            final(self)@ == (ProfilesV {
                selected: spec_select_next(old(self)@.profiles.len() as int, old(self)@.selected),
                ..old(self)@
            }),
    {
        self.selected = select_next(self.profiles.len(), self.selected);
        proof {
            assert(self@ =~= ProfilesV {
                selected: spec_select_next(old(self)@.profiles.len() as int, old(self)@.selected),
                ..old(self)@
            });
        }
    }

    /// Moves the cursor up, wrapping at the start.
    pub fn previous(&mut self)
        ensures
            final(self)@ == (ProfilesV {
                selected: spec_select_previous(
                    old(self)@.profiles.len() as int,
                    old(self)@.selected,
                ),
                ..old(self)@
            }),
    {
        self.selected = select_previous(self.profiles.len(), self.selected);
        proof {
            assert(self@ =~= ProfilesV {
                selected: spec_select_previous(
                    old(self)@.profiles.len() as int,
                    old(self)@.selected,
                ),
                ..old(self)@
            });
        }
    }

    /// Shows or hides the delete confirmation popup.
    pub fn toggle_delete_confirmation(&mut self)
        ensures
            final(self)@ == (ProfilesV { confirm: !old(self)@.confirm, ..old(self)@ }),
    {
        self.show_delete_confirmation = !self.show_delete_confirmation;
        proof {
            assert(self@ =~= ProfilesV { confirm: !old(self)@.confirm, ..old(self)@ });
        }
    }

    /// The row under the cursor; see [`spec_selected_profile`].
    pub fn selected_profile(&self) -> (r: Option<Profile>)
        ensures
            (match (r, spec_selected_profile(self@)) {
                (Some(p), Some(q)) => p@ == q,
                (None, None) => true,
                _ => false,
            }),
    {
        match self.selected {
            Some(i) => if i < self.profiles.len() {
                proof {
                    assert(self@.profiles[i as int] == self.profiles@[i as int]@);
                }
                Some(self.profiles[i].duplicate())
            } else {
                None
            },
            None => None,
        }
    }

    /// The identity of the row under the cursor.
    pub fn selected_profile_id(&self) -> (r: Option<i32>)
        ensures
            (match (r, spec_selected_profile(self@)) {
                (Some(id), Some(q)) => id as int == q.id,
                (None, None) => true,
                _ => false,
            }),
    {
        match self.selected_profile() {
            Some(p) => Some(p.id),
            None => None,
        }
    }
}

/// One key of the profile list.  Outside the confirmation popup: Esc or
/// `q` exits, `n` opens a new-profile wizard, `e` edits and Enter opens
/// the selected profile, `d` asks for delete confirmation, Up and Down
/// move the cursor.  Inside the popup: `y` confirms the delete, Esc or
/// `q` dismiss it, everything else is ignored.
pub fn handle_input(state: &mut ProfilesState, key: Key) -> (r: Option<ProfileAction>)
    ensures
        ({
            let v = old(state)@;
            let sel = spec_selected_profile(v);
            &&& (key == Key::Esc || key == Key::Char('q')) && v.confirm ==> final(state)@ == (
            ProfilesV { confirm: false, ..v }) && r is None
            &&& (key == Key::Esc || key == Key::Char('q')) && !v.confirm ==> final(state)@ == v
                && (r matches Some(ProfileAction::Exit))
            &&& key == Key::Char('n') && !v.confirm ==> final(state)@ == v && (r matches Some(
                ProfileAction::NewProfile,
            ))
            &&& key == Key::Char('e') && !v.confirm ==> final(state)@ == v && (match sel {
                Some(p) => r matches Some(ProfileAction::EditProfile(id)) && id as int == p.id,
                None => r is None,
            })
            &&& key == Key::Char('d') && !v.confirm ==> (match sel {
                Some(p) => final(state)@ == (ProfilesV { confirm: true, ..v }) && r is None,
                None => final(state)@ == v && r is None,
            })
            &&& key == Key::Char('y') && v.confirm ==> (match sel {
                Some(p) => final(state)@ == (ProfilesV { confirm: false, ..v }) && (
                r matches Some(ProfileAction::DeleteProfile(id)) && id as int == p.id),
                None => final(state)@ == v && r is None,
            })
            &&& key == Key::Down && !v.confirm ==> final(state)@ == (ProfilesV {
                selected: spec_select_next(v.profiles.len() as int, v.selected),
                ..v
            }) && r is None
            &&& key == Key::Up && !v.confirm ==> final(state)@ == (ProfilesV {
                selected: spec_select_previous(v.profiles.len() as int, v.selected),
                ..v
            }) && r is None
            &&& key == Key::Enter && !v.confirm ==> final(state)@ == v && (match sel {
                Some(p) => r matches Some(ProfileAction::SelectProfile(id)) && id as int == p.id,
                None => r is None,
            })
            &&& v.confirm && !(key == Key::Esc || key == Key::Char('q') || key == Key::Char('y'))
                ==> final(state)@ == v && r is None
            &&& key == Key::Char('y') && !v.confirm ==> final(state)@ == v && r is None
            &&& !v.confirm && !(key == Key::Esc || key == Key::Char('q') || key == Key::Char('n')
                || key == Key::Char('e') || key == Key::Char('d') || key == Key::Char('y') || key
                == Key::Down || key == Key::Up || key == Key::Enter) ==> final(state)@ == v && r
                is None
        }),
{
    match key {
        Key::Esc => {
            if state.show_delete_confirmation {
                state.toggle_delete_confirmation();
            } else {
                return Some(ProfileAction::Exit);
            }
        },
        Key::Char(c) => {
            if c == 'q' {
                if state.show_delete_confirmation {
                    state.toggle_delete_confirmation();
                } else {
                    return Some(ProfileAction::Exit);
                }
            } else if c == 'n' {
                if !state.show_delete_confirmation {
                    return Some(ProfileAction::NewProfile);
                }
            } else if c == 'e' {
                if !state.show_delete_confirmation {
                    match state.selected_profile_id() {
                        Some(id) => {
                            return Some(ProfileAction::EditProfile(id));
                        },
                        None => {},
                    }
                }
            } else if c == 'd' {
                if !state.show_delete_confirmation && state.selected_profile_id().is_some() {
                    state.toggle_delete_confirmation();
                }
            } else if c == 'y' {
                if state.show_delete_confirmation {
                    match state.selected_profile_id() {
                        Some(id) => {
                            state.toggle_delete_confirmation();
                            return Some(ProfileAction::DeleteProfile(id));
                        },
                        None => {},
                    }
                }
            }
        },
        Key::Down => {
            if !state.show_delete_confirmation {
                state.next();
            }
        },
        Key::Up => {
            if !state.show_delete_confirmation {
                state.previous();
            }
        },
        Key::Enter => {
            if !state.show_delete_confirmation {
                match state.selected_profile_id() {
                    Some(id) => {
                        return Some(ProfileAction::SelectProfile(id));
                    },
                    None => {},
                }
            }
        },
        _ => {},
    }
    None
}

} // verus!
