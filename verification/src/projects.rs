//! The project list screen of one client: selection, a delete
//! confirmation popup, and the actions it hands to the workflow.

use vstd::prelude::*;

use crate::input::Key;
use crate::models::{Duplicate, Project, ProjectV};
use crate::selection::{select_next, select_previous, spec_select_next, spec_select_previous};

verus! {

/// What the project list hands back to the workflow.
pub enum ProjectAction {
    Back,
    NewProject(i32),
    EditProject(i32),
    DeleteProject(i32),
    SelectProject(i32),
}

/// The list screen's state, bound to its owning client.
pub struct ProjectsState {
    pub client_id: i32,
    pub projects: Vec<Project>,
    pub selected: Option<usize>,
    pub show_delete_confirmation: bool,
}

/// Mathematical image of the list screen.
#[verifier::ext_equal]
pub struct ProjectsV {
    pub client_id: int,
    pub projects: Seq<ProjectV>,
    pub selected: Option<int>,
    pub confirm: bool,
}

impl View for ProjectsState {
    type V = ProjectsV;

    open spec fn view(&self) -> ProjectsV {
        ProjectsV {
            client_id: self.client_id as int,
            projects: self.projects.deep_view(),
            selected: match self.selected {
                Some(i) => Some(i as int),
                None => None,
            },
            confirm: self.show_delete_confirmation,
        }
    }
}

/// The row under the cursor, when the cursor points into the list.
pub open spec fn spec_selected_project(v: ProjectsV) -> Option<ProjectV> {
    match v.selected {
        Some(i) => if 0 <= i < v.projects.len() {
            Some(v.projects[i])
        } else {
            None
        },
        None => None,
    }
}

impl ProjectsState {
    /// A list over the loaded rows; the first one is selected if any.
    pub fn new(client_id: i32, projects: Vec<Project>) -> (s: ProjectsState)
        ensures
            s@.client_id == client_id as int,
            s@.projects == projects.deep_view(),
            s@.selected == (if projects.deep_view().len() > 0 {
                Some(0int)
            } else {
                None::<int>
            }),
            !s@.confirm,
    {
        let selected = if projects.len() > 0 {
            Some(0usize)
        } else {
            None
        };
        ProjectsState { client_id, projects, selected, show_delete_confirmation: false }
    }

    /// The owning client's identity, for reloads and the back transition.
    pub fn client_id(&self) -> (r: i32)
        ensures
            r as int == self@.client_id,
    {
        self.client_id
    }

    /// Moves the cursor down, wrapping at the end.
    pub fn next(&mut self)
        ensures
            final(self)@ == (ProjectsV {
                selected: spec_select_next(old(self)@.projects.len() as int, old(self)@.selected),
                ..old(self)@
            }),
    {
        self.selected = select_next(self.projects.len(), self.selected);
        proof {
            assert(self@ =~= ProjectsV {
                selected: spec_select_next(old(self)@.projects.len() as int, old(self)@.selected),
                ..old(self)@
            });
        }
    }

    /// Moves the cursor up, wrapping at the start.
    pub fn previous(&mut self)
        ensures
            final(self)@ == (ProjectsV {
                selected: spec_select_previous(
                    old(self)@.projects.len() as int,
                    old(self)@.selected,
                ),
                ..old(self)@
            }),
    {
        self.selected = select_previous(self.projects.len(), self.selected);
        proof {
            assert(self@ =~= ProjectsV {
                selected: spec_select_previous(
                    old(self)@.projects.len() as int,
                    old(self)@.selected,
                ),
                ..old(self)@
            });
        }
    }

    /// Shows or hides the delete confirmation popup.
    pub fn toggle_delete_confirmation(&mut self)
        ensures
            final(self)@ == (ProjectsV { confirm: !old(self)@.confirm, ..old(self)@ }),
    {
        self.show_delete_confirmation = !self.show_delete_confirmation;
        proof {
            assert(self@ =~= ProjectsV { confirm: !old(self)@.confirm, ..old(self)@ });
        }
    }

    /// The row under the cursor; see [`spec_selected_project`].
    pub fn selected_project(&self) -> (r: Option<Project>)
        ensures
            (match (r, spec_selected_project(self@)) {
                (Some(p), Some(q)) => p@ == q,
                (None, None) => true,
                _ => false,
            }),
    {
        match self.selected {
            Some(i) => if i < self.projects.len() {
                proof {
                    assert(self@.projects[i as int] == self.projects@[i as int]@);
                }
                Some(self.projects[i].duplicate())
            } else {
                None
            },
            None => None,
        }
    }

    /// The identity of the row under the cursor.
    pub fn selected_project_id(&self) -> (r: Option<i32>)
        ensures
            (match (r, spec_selected_project(self@)) {
                (Some(id), Some(q)) => id as int == q.id,
                (None, None) => true,
                _ => false,
            }),
    {
        match self.selected_project() {
            Some(p) => Some(p.id),
            None => None,
        }
    }
}

/// One key of the project list.  Outside the confirmation popup: Esc or
/// `q` goes back to the clients, `n` opens a new-project wizard, `e` edits and Enter opens
/// the selected row, `d` asks for delete confirmation, Up and Down move
/// the cursor.  Inside the popup: `y` confirms the delete, Esc or `q`
/// dismiss it, everything else is ignored.
pub fn handle_input(state: &mut ProjectsState, key: Key) -> (r: Option<ProjectAction>)
    ensures
        ({
            let v = old(state)@;
            let sel = spec_selected_project(v);
            &&& (key == Key::Esc || key == Key::Char('q')) && v.confirm ==> final(state)@ == (
            ProjectsV { confirm: false, ..v }) && r is None
            &&& (key == Key::Esc || key == Key::Char('q')) && !v.confirm ==> final(state)@ == v
                && (r matches Some(ProjectAction::Back))
            &&& key == Key::Char('n') && !v.confirm ==> final(state)@ == v && (r matches Some(
                ProjectAction::NewProject(pid),
            ) && pid as int == v.client_id)
            &&& key == Key::Char('e') && !v.confirm ==> final(state)@ == v && (match sel {
                Some(p) => r matches Some(ProjectAction::EditProject(id)) && id as int == p.id,
                None => r is None,
            })
            &&& key == Key::Char('d') && !v.confirm ==> (match sel {
                Some(p) => final(state)@ == (ProjectsV { confirm: true, ..v }) && r is None,
                None => final(state)@ == v && r is None,
            })
            &&& key == Key::Char('y') && v.confirm ==> (match sel {
                Some(p) => final(state)@ == (ProjectsV { confirm: false, ..v }) && (
                r matches Some(ProjectAction::DeleteProject(id)) && id as int == p.id),
                None => final(state)@ == v && r is None,
            })
            &&& key == Key::Down && !v.confirm ==> final(state)@ == (ProjectsV {
                selected: spec_select_next(v.projects.len() as int, v.selected),
                ..v
            }) && r is None
            &&& key == Key::Up && !v.confirm ==> final(state)@ == (ProjectsV {
                selected: spec_select_previous(v.projects.len() as int, v.selected),
                ..v
            }) && r is None
            &&& key == Key::Enter && !v.confirm ==> final(state)@ == v && (match sel {
                Some(p) => r matches Some(ProjectAction::SelectProject(id)) && id as int == p.id,
                None => r is None,
            })
            &&& v.confirm && !(key == Key::Esc || key == Key::Char('q') || key == Key::Char('y'))
                ==> final(state)@ == v && r is None
            &&& key == Key::Char('y') && !v.confirm ==> final(state)@ == v && r is None
            &&& !v.confirm && !(key == Key::Esc || key == Key::Char('q') || key == Key::Char('n')
                || key == Key::Char('e') || key == Key::Char('d') || key == Key::Char('y') || key
                == Key::Down || key == Key::Up || key == Key::Enter) ==> final(state)@ == v && r
                is None
        }),
{
    match key {
        Key::Esc => {
            if state.show_delete_confirmation {
                state.toggle_delete_confirmation();
            } else {
                return Some(ProjectAction::Back);
            }
        },
        Key::Char(c) => {
            if c == 'q' {
                if state.show_delete_confirmation {
                    state.toggle_delete_confirmation();
                } else {
                    return Some(ProjectAction::Back);
                }
            } else if c == 'n' {
                if !state.show_delete_confirmation {
                    return Some(ProjectAction::NewProject(state.client_id));
                }
            } else if c == 'e' {
                if !state.show_delete_confirmation {
                    match state.selected_project_id() {
                        Some(id) => {
                            return Some(ProjectAction::EditProject(id));
                        },
                        None => {},
                    }
                }
            } else if c == 'd' {
                if !state.show_delete_confirmation && state.selected_project_id().is_some() {
                    state.toggle_delete_confirmation();
                }
            } else if c == 'y' {
                if state.show_delete_confirmation {
                    match state.selected_project_id() {
                        Some(id) => {
                            state.toggle_delete_confirmation();
                            return Some(ProjectAction::DeleteProject(id));
                        },
                        None => {},
                    }
                }
            }
        },
        Key::Down => {
            if !state.show_delete_confirmation {
                state.next();
            }
        },
        Key::Up => {
            if !state.show_delete_confirmation {
                state.previous();
            }
        },
        Key::Enter => {
            if !state.show_delete_confirmation {
                match state.selected_project_id() {
                    Some(id) => {
                        return Some(ProjectAction::SelectProject(id));
                    },
                    None => {},
                }
            }
        },
        _ => {},
    }
    None
}

} // verus!
