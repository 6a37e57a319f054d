//! The project wizard: a name field and two calendar dates, each edited
//! through the one-part-at-a-time date editor.

use vstd::prelude::*;

use crate::date::{spec_date_step, spec_date_toggle, Date, DateEditView, DateInputState};
use crate::input::Key;
use crate::models::{Duplicate, Project, ProjectV};
use crate::profile_wizard::spec_edit_text;
use crate::text::string_pop;

verus! {

/// What the wizard hands back to the workflow.
pub enum ProjectWizardAction {
    Cancel,
    Save(Project),
}

/// The fields of the project form, in display order.
#[derive(Clone, Copy, PartialEq, Eq, Structural, Debug)]
pub enum ProjectField {
    Name,
    StartDate,
    EndDate,
}

/// The wizard's state: the draft, its owning client, the focused field,
/// edit mode, and one date editor per date field.
pub struct ProjectWizardState {
    pub client_id: i32,
    pub project: Project,
    pub current_field: ProjectField,
    pub editing: bool,
    pub start_date_state: DateInputState,
    pub end_date_state: DateInputState,
}

/// Mathematical image of the wizard state.
#[verifier::ext_equal]
pub struct ProjectWizardV {
    pub client_id: int,
    pub project: ProjectV,
    pub current_field: ProjectField,
    pub editing: bool,
    pub start_edit: DateEditView,
    pub end_edit: DateEditView,
}

impl View for ProjectWizardState {
    type V = ProjectWizardV;

    open spec fn view(&self) -> ProjectWizardV {
        ProjectWizardV {
            client_id: self.client_id as int,
            project: self.project@,
            current_field: self.current_field,
            editing: self.editing,
            start_edit: self.start_date_state@,
            end_edit: self.end_date_state@,
        }
    }
}

impl ProjectWizardV {
    /// Both embedded date editors are over valid dates with digit-only
    /// scratch buffers.
    pub open spec fn wf(self) -> bool {
        self.start_edit.wf() && self.end_edit.wf()
    }
}

/// Focus order, cycling downward with wraparound.
pub open spec fn spec_project_next_field(f: ProjectField) -> ProjectField {
    match f {
        ProjectField::Name => ProjectField::StartDate,
        ProjectField::StartDate => ProjectField::EndDate,
        ProjectField::EndDate => ProjectField::Name,
    }
}

/// Focus order, cycling upward with wraparound.
pub open spec fn spec_project_previous_field(f: ProjectField) -> ProjectField {
    match f {
        ProjectField::Name => ProjectField::EndDate,
        ProjectField::StartDate => ProjectField::Name,
        ProjectField::EndDate => ProjectField::StartDate,
    }
}

/// A project draft the wizard accepts: only the name must be filled.
pub open spec fn spec_project_valid(j: ProjectV) -> bool {
    j.name.len() > 0
}

impl ProjectWizardState {
    /// A wizard over an empty draft under client `client_id`, with both
    /// date editors seeded on `today`.
    pub fn new(client_id: i32, today: Date) -> (s: ProjectWizardState)
        requires
            today.valid(),
        ensures
            s@.client_id == client_id as int,
            s@.project.id == 0,
            s@.project.client_id == client_id as int,
            s@.project.name.len() == 0,
            s@.project.start_date == today,
            s@.project.end_date is None,
            s@.current_field == ProjectField::Name,
            !s@.editing,
            s@.start_edit == (DateEditView {
                date: today,
                editing: false,
                part: crate::date::DatePart::Year,
                scratch: Seq::<char>::empty(),
            }),
            s@.end_edit == s@.start_edit,
            s@.wf(),
    {
        ProjectWizardState {
            client_id,
            project: Project {
                id: 0,
                client_id,
                name: String::new(),
                start_date: today,
                end_date: None,
            },
            current_field: ProjectField::Name,
            editing: false,
            start_date_state: DateInputState::new(today),
            end_date_state: DateInputState::new(today),
        }
    }

    /// A wizard over an existing project; a missing end date seeds its
    /// editor on the start date.
    pub fn from_existing(project: Project) -> (s: ProjectWizardState)
        requires
            project@.start_date.valid(),
            project@.end_date matches Some(e) ==> e.valid(),
        ensures
            s@.project == project@,
            s@.client_id == project@.client_id,
            s@.current_field == ProjectField::Name,
            !s@.editing,
            s@.start_edit.date == project@.start_date,
            s@.end_edit.date == (match project@.end_date {
                Some(e) => e,
                None => project@.start_date,
            }),
            !s@.start_edit.editing && !s@.end_edit.editing,
            s@.wf(),
    {
        let client_id = project.client_id;
        let start = project.start_date;
        let end = match project.end_date {
            Some(e) => e,
            None => start,
        };
        ProjectWizardState {
            client_id,
            project,
            current_field: ProjectField::Name,
            editing: false,
            start_date_state: DateInputState::new(start),
            end_date_state: DateInputState::new(end),
        }
    }

    /// The owning client's identity.
    pub fn client_id(&self) -> (r: i32)
        ensures
            r as int == self@.client_id,
    {
        self.client_id
    }

    /// Flips edit mode.  Entering it opens the focused date editor;
    /// leaving it closes both date editors.
    pub fn toggle_editing(&mut self)
        ensures
            final(self)@.client_id == old(self)@.client_id,
            final(self)@.project == old(self)@.project,
            final(self)@.current_field == old(self).current_field,
            final(self)@.editing == !old(self).editing,
            !old(self).editing && old(self).current_field == ProjectField::StartDate
                ==> final(self)@.start_edit == spec_date_toggle(old(self)@.start_edit) && final(self)@.end_edit == old(self)@.end_edit,
            !old(self).editing && old(self).current_field == ProjectField::EndDate
                ==> final(self)@.end_edit == spec_date_toggle(old(self)@.end_edit) && final(self)@.start_edit == old(self)@.start_edit,
            !old(self).editing && old(self).current_field == ProjectField::Name ==> final(self)@.start_edit == old(self)@.start_edit && final(self)@.end_edit == old(self)@.end_edit,
            old(self).editing ==> final(self)@.start_edit == (DateEditView {
                editing: false,
                ..old(self)@.start_edit
            }) && final(self)@.end_edit == (DateEditView {
                editing: false,
                ..old(self)@.end_edit
            }),
            old(self)@.wf() ==> final(self)@.wf(),
    {
        self.editing = !self.editing;
        if self.editing {
            match self.current_field {
                ProjectField::StartDate => self.start_date_state.toggle_editing(),
                ProjectField::EndDate => self.end_date_state.toggle_editing(),
                _ => {},
            }
        } else {
            self.start_date_state.editing = false;
            self.end_date_state.editing = false;
        }
        proof {
            if old(self).editing {
                assert(self@.start_edit =~= DateEditView {
                    editing: false,
                    ..old(self)@.start_edit
                });
                assert(self@.end_edit =~= DateEditView { editing: false, ..old(self)@.end_edit });
            }
        }
    }

    /// Moves focus down, with wraparound.
    pub fn next_field(&mut self)
        ensures
            final(self)@ == (ProjectWizardV {
                current_field: spec_project_next_field(old(self).current_field),
                ..old(self)@
            }),
    {
        self.current_field = match self.current_field {
            ProjectField::Name => ProjectField::StartDate,
            ProjectField::StartDate => ProjectField::EndDate,
            ProjectField::EndDate => ProjectField::Name,
        };
    }

    /// Moves focus up, with wraparound.
    pub fn previous_field(&mut self)
        ensures
            final(self)@ == (ProjectWizardV {
                current_field: spec_project_previous_field(old(self).current_field),
                ..old(self)@
            }),
    {
        self.current_field = match self.current_field {
            ProjectField::Name => ProjectField::EndDate,
            ProjectField::StartDate => ProjectField::Name,
            ProjectField::EndDate => ProjectField::StartDate,
        };
    }

    /// Applies one key to the focused field while in edit mode.  The name
    /// takes plain text editing; a date field forwards the key to its
    /// date editor and mirrors the editor's date into the draft, the end
    /// date being materialized from the start date on first edit.
    pub fn edit_current_field(&mut self, key: Key)
        requires
            old(self)@.wf(),
        ensures
            final(self)@.wf(),
            !old(self).editing ==> final(self)@ == old(self)@,
            old(self).editing && old(self).current_field == ProjectField::Name ==> final(self)@ == (ProjectWizardV {
                project: ProjectV {
                    name: spec_edit_text(old(self)@.project.name, key),
                    ..old(self)@.project
                },
                ..old(self)@
            }),
            old(self).editing && old(self).current_field == ProjectField::StartDate ==> final(self)@ == (ProjectWizardV {
                project: ProjectV {
                    start_date: spec_date_step(old(self)@.start_edit, key).date,
                    ..old(self)@.project
                },
                start_edit: spec_date_step(old(self)@.start_edit, key),
                ..old(self)@
            }),
            old(self).editing && old(self).current_field == ProjectField::EndDate ==> final(self)@ == (ProjectWizardV {
                project: ProjectV {
                    end_date: Some(spec_date_step(old(self)@.end_edit, key).date),
                    ..old(self)@.project
                },
                end_edit: spec_date_step(old(self)@.end_edit, key),
                ..old(self)@
            }),
    {
        if !self.editing {
            return;
        }
        match self.current_field {
            ProjectField::Name => {
                match key {
                    Key::Char(c) => {
                        crate::text::push_char(&mut self.project.name, c);
                    },
                    Key::Backspace => {
                        let _ = string_pop(&mut self.project.name);
                    },
                    _ => {},
                }
            },
            ProjectField::StartDate => {
                self.start_date_state.handle_input(key);
                self.project.start_date = self.start_date_state.date;
            },
            ProjectField::EndDate => {
                if self.project.end_date.is_none() {
                    self.project.end_date = Some(self.project.start_date);
                }
                self.end_date_state.handle_input(key);
                self.project.end_date = Some(self.end_date_state.date);
            },
        }
    }

    /// Whether the draft may be saved; see [`spec_project_valid`].
    pub fn is_valid(&self) -> (r: bool)
        ensures
            r == spec_project_valid(self@.project),
    {
        self.project.name.as_str().unicode_len() > 0
    }
}

/// One key of the project wizard; the same dispatch as the profile
/// wizard's, with the date editors taking over inside their fields.
pub fn handle_input(state: &mut ProjectWizardState, key: Key) -> (r: Option<ProjectWizardAction>)
    requires
        old(state)@.wf(),
    ensures
        final(state)@.wf(),
        key == Key::Esc && old(state).editing ==> final(state)@.editing == false && final(state)@.project == old(state)@.project && r is None,
        key == Key::Esc && !old(state).editing ==> final(state)@ == old(state)@ && (
        r matches Some(ProjectWizardAction::Cancel)),
        key == Key::Enter ==> final(state)@.editing == !old(state).editing && final(state)@.project == old(state)@.project && r is None,
        key == Key::Up && !old(state).editing ==> final(state)@ == (ProjectWizardV {
            current_field: spec_project_previous_field(old(state).current_field),
            ..old(state)@
        }) && r is None,
        key == Key::Down && !old(state).editing ==> final(state)@ == (ProjectWizardV {
            current_field: spec_project_next_field(old(state).current_field),
            ..old(state)@
        }) && r is None,
        key == Key::Char('s') && !old(state).editing && spec_project_valid(old(state)@.project)
            ==> final(state)@ == old(state)@ && (r matches Some(ProjectWizardAction::Save(j))
            && j@ == old(state)@.project),
        key == Key::Char('s') && !old(state).editing && !spec_project_valid(old(state)@.project)
            ==> final(state)@ == old(state)@ && r is None,
        old(state).editing && key != Key::Esc && key != Key::Enter
            && old(state).current_field == ProjectField::StartDate ==> final(state)@ == (
        ProjectWizardV {
            project: ProjectV {
                start_date: spec_date_step(old(state)@.start_edit, key).date,
                ..old(state)@.project
            },
            start_edit: spec_date_step(old(state)@.start_edit, key),
            ..old(state)@
        }) && r is None,
        old(state).editing && key != Key::Esc && key != Key::Enter
            && old(state).current_field == ProjectField::EndDate ==> final(state)@ == (
        ProjectWizardV {
            project: ProjectV {
                end_date: Some(spec_date_step(old(state)@.end_edit, key).date),
                ..old(state)@.project
            },
            end_edit: spec_date_step(old(state)@.end_edit, key),
            ..old(state)@
        }) && r is None,
        old(state).editing && key != Key::Esc && key != Key::Enter
            && old(state).current_field == ProjectField::Name ==> final(state)@ == (
        ProjectWizardV {
            project: ProjectV {
                name: spec_edit_text(old(state)@.project.name, key),
                ..old(state)@.project
            },
            ..old(state)@
        }) && r is None,
        !old(state).editing && !(key == Key::Esc || key == Key::Enter || key == Key::Up || key
            == Key::Down || key == Key::Char('s')) ==> final(state)@ == old(state)@ && r is None,
{
    match key {
        Key::Esc => {
            if state.editing {
                state.toggle_editing();
            } else {
                return Some(ProjectWizardAction::Cancel);
            }
        },
        Key::Enter => {
            state.toggle_editing();
        },
        Key::Up if !state.editing => {
            state.previous_field();
        },
        Key::Down if !state.editing => {
            state.next_field();
        },
        Key::Char(c) if c == 's' && !state.editing => {
            if state.is_valid() {
                return Some(ProjectWizardAction::Save(state.project.duplicate()));
            }
        },
        _ => {
            if state.editing {
                state.edit_current_field(key);
            }
        },
    }
    None
}

} // verus!
