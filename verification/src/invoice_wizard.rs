//! The invoice wizard: two calendar dates, an hourly rate with a scratch
//! buffer, and the nested line-item editor — a selectable list whose
//! items are edited through a two-field sub-cycle (description, then
//! hours).  An hours text that does not parse is kept on screen with an
//! inline error; it is never discarded silently.

use vstd::prelude::*;

use crate::date::{spec_date_step, spec_date_toggle, Date, DateEditView, DateInputState};
use crate::input::{spec_is_digit, Key};
use crate::models::{
    duplicate_vec, Duplicate, Invoice, InvoiceLineItem, InvoiceLineItemV, InvoiceV,
    HOURS_CENTI_MAX, RATE_CENTS_MAX,
};
use crate::money::{format_cents, spec_cents_string};
use crate::text::{parse_fixed2, push_char, spec_parse_fixed2, string_pop, string_to_chars};

verus! {

/// What the wizard hands back to the workflow.
pub enum InvoiceWizardAction {
    Cancel,
    Save(Invoice, Vec<InvoiceLineItem>),
}

/// The fields of the invoice form, in display order.
#[derive(Clone, Copy, PartialEq, Eq, Structural, Debug)]
pub enum InvoiceField {
    SubmitDate,
    DueDate,
    Rate,
    LineItems,
}

/// The two-field sub-cycle inside one line item.
#[derive(Clone, Copy, PartialEq, Eq, Structural, Debug)]
pub enum LineItemField {
    Description,
    Hours,
}

/// The inline errors the wizard can show.
#[derive(Clone, Copy, PartialEq, Eq, Structural, Debug)]
pub enum WizardError {
    /// The hours text does not parse as a non-negative amount.
    InvalidHours,
    /// The rate text does not parse as a non-negative amount.
    InvalidRate,
    /// Save pressed with no line item or a rate of zero.
    IncompleteInvoice,
}

impl WizardError {
    /// The inline message for this error.
    pub fn message(&self) -> (r: String)
        ensures
            *self == WizardError::InvalidHours ==> r@
                == "Invalid hours. Please enter a valid number."@,
            *self == WizardError::InvalidRate ==> r@
                == "Invalid rate. Please enter a valid number."@,
            *self == WizardError::IncompleteInvoice ==> r@
                == "Please complete all required fields. Rate must be > 0 and at least one line item is required."@,
    {
        match self {
            WizardError::InvalidHours => "Invalid hours. Please enter a valid number.".to_owned(),
            WizardError::InvalidRate => "Invalid rate. Please enter a valid number.".to_owned(),
            WizardError::IncompleteInvoice => "Please complete all required fields. Rate must be > 0 and at least one line item is required.".to_owned(),
        }
    }
}

/// One line item being edited: which item, which of its two fields, and
/// the scratch text.
pub struct LineItemEdit {
    pub index: usize,
    pub field: LineItemField,
    pub text: String,
}

/// Mathematical image of [`LineItemEdit`].
#[verifier::ext_equal]
pub struct LineItemEditV {
    pub index: int,
    pub field: LineItemField,
    pub text: Seq<char>,
}

impl View for LineItemEdit {
    type V = LineItemEditV;

    open spec fn view(&self) -> LineItemEditV {
        LineItemEditV { index: self.index as int, field: self.field, text: self.text@ }
    }
}

/// The wizard's state.
pub struct InvoiceWizardState {
    pub project_id: i32,
    pub invoice_id: Option<i32>,
    pub rate_cents: u64,
    pub line_items: Vec<InvoiceLineItem>,
    pub current_field: InvoiceField,
    pub selected_item: Option<usize>,
    pub editing_line_item: Option<LineItemEdit>,
    pub editing: bool,
    pub active_input: String,
    pub show_error: Option<WizardError>,
    pub submit_date_state: DateInputState,
    pub due_date_state: DateInputState,
}

/// Mathematical image of the wizard state.
#[verifier::ext_equal]
pub struct InvoiceWizardV {
    pub project_id: int,
    pub invoice_id: Option<int>,
    pub rate_cents: int,
    pub line_items: Seq<InvoiceLineItemV>,
    pub current_field: InvoiceField,
    pub selected_item: Option<int>,
    pub editing_line_item: Option<LineItemEditV>,
    pub editing: bool,
    pub active_input: Seq<char>,
    pub show_error: Option<WizardError>,
    pub submit_edit: DateEditView,
    pub due_edit: DateEditView,
}

impl View for InvoiceWizardState {
    type V = InvoiceWizardV;

    open spec fn view(&self) -> InvoiceWizardV {
        InvoiceWizardV {
            project_id: self.project_id as int,
            invoice_id: match self.invoice_id {
                Some(i) => Some(i as int),
                None => None,
            },
            rate_cents: self.rate_cents as int,
            line_items: self.line_items.deep_view(),
            current_field: self.current_field,
            selected_item: match self.selected_item {
                Some(i) => Some(i as int),
                None => None,
            },
            editing_line_item: match self.editing_line_item {
                Some(ref e) => Some(e@),
                None => None,
            },
            editing: self.editing,
            active_input: self.active_input@,
            show_error: self.show_error,
            submit_edit: self.submit_date_state@,
            due_edit: self.due_date_state@,
        }
    }
}

/// All line items within the hours bound.
pub open spec fn spec_items_bounded(items: Seq<InvoiceLineItemV>) -> bool {
    forall|i: int|
        0 <= i < items.len() ==> 0 <= (#[trigger] items[i]).hours_centi <= HOURS_CENTI_MAX
}

impl InvoiceWizardV {
    /// Dates valid, money fields within the exact-arithmetic bounds.
    pub open spec fn wf(self) -> bool {
        &&& self.submit_edit.wf()
        &&& self.due_edit.wf()
        &&& 0 <= self.rate_cents <= RATE_CENTS_MAX
        &&& spec_items_bounded(self.line_items)
    }
}

/// Focus order, cycling downward with wraparound.
pub open spec fn spec_invoice_next_field(f: InvoiceField) -> InvoiceField {
    match f {
        InvoiceField::SubmitDate => InvoiceField::DueDate,
        InvoiceField::DueDate => InvoiceField::Rate,
        InvoiceField::Rate => InvoiceField::LineItems,
        InvoiceField::LineItems => InvoiceField::SubmitDate,
    }
}

/// Focus order, cycling upward with wraparound.
pub open spec fn spec_invoice_previous_field(f: InvoiceField) -> InvoiceField {
    match f {
        InvoiceField::SubmitDate => InvoiceField::LineItems,
        InvoiceField::DueDate => InvoiceField::SubmitDate,
        InvoiceField::Rate => InvoiceField::DueDate,
        InvoiceField::LineItems => InvoiceField::Rate,
    }
}

/// Edit-mode toggle: entering opens the focused date editor or seeds the
/// rate scratch from the current rate; leaving closes the date editors
/// and abandons any line-item edit.
pub open spec fn spec_wizard_toggle(v: InvoiceWizardV) -> InvoiceWizardV {
    if !v.editing {
        match v.current_field {
            InvoiceField::SubmitDate => InvoiceWizardV {
                editing: true,
                submit_edit: spec_date_toggle(v.submit_edit),
                ..v
            },
            InvoiceField::DueDate => InvoiceWizardV {
                editing: true,
                due_edit: spec_date_toggle(v.due_edit),
                ..v
            },
            InvoiceField::Rate => InvoiceWizardV {
                editing: true,
                active_input: spec_cents_string(v.rate_cents),
                ..v
            },
            InvoiceField::LineItems => InvoiceWizardV { editing: true, ..v },
        }
    } else {
        InvoiceWizardV {
            editing: false,
            submit_edit: DateEditView { editing: false, ..v.submit_edit },
            due_edit: DateEditView { editing: false, ..v.due_edit },
            editing_line_item: None,
            ..v
        }
    }
}

/// Adding a line item: a zero-valued item under a locally unique
/// sequential identity, selected, with its description in edit mode.
pub open spec fn spec_add_line_item(v: InvoiceWizardV) -> InvoiceWizardV {
    let new_id: int = if v.line_items.len() == 0 {
        1
    } else if v.line_items.last().id < i32::MAX {
        v.line_items.last().id + 1
    } else {
        v.line_items.last().id
    };
    let item = InvoiceLineItemV {
        id: new_id,
        invoice_id: match v.invoice_id {
            Some(i) => i,
            None => 0,
        },
        description: Seq::empty(),
        hours_centi: 0,
    };
    InvoiceWizardV {
        line_items: v.line_items.push(item),
        selected_item: Some(v.line_items.len() as int),
        editing_line_item: Some(
            LineItemEditV {
                index: v.line_items.len() as int,
                field: LineItemField::Description,
                text: Seq::empty(),
            },
        ),
        ..v
    }
}

/// Opening the selected item for editing, on its description.
pub open spec fn spec_edit_line_item(v: InvoiceWizardV) -> InvoiceWizardV {
    match v.selected_item {
        Some(i) => if 0 <= i < v.line_items.len() {
            InvoiceWizardV {
                editing_line_item: Some(
                    LineItemEditV {
                        index: i,
                        field: LineItemField::Description,
                        text: v.line_items[i].description,
                    },
                ),
                ..v
            }
        } else {
            v
        },
        None => v,
    }
}

/// Deleting the selected item and re-clamping the selection.
pub open spec fn spec_delete_line_item(v: InvoiceWizardV) -> InvoiceWizardV {
    match v.selected_item {
        Some(i) => if 0 <= i < v.line_items.len() {
            let rest = v.line_items.remove(i);
            InvoiceWizardV {
                line_items: rest,
                selected_item: if rest.len() == 0 {
                    None
                } else if i >= rest.len() {
                    Some(rest.len() - 1)
                } else {
                    Some(i)
                },
                editing_line_item: None,
                ..v
            }
        } else {
            v
        },
        None => v,
    }
}

/// Committing the line-item field under edit: the description commits
/// and moves on to the hours; the hours commit only if the text parses,
/// otherwise the text stays and an inline error is shown.
pub open spec fn spec_commit_line_item_field(v: InvoiceWizardV) -> InvoiceWizardV {
    match v.editing_line_item {
        Some(e) => if 0 <= e.index < v.line_items.len() {
            match e.field {
                LineItemField::Description => InvoiceWizardV {
                    line_items: v.line_items.update(
                        e.index,
                        InvoiceLineItemV { description: e.text, ..v.line_items[e.index] },
                    ),
                    editing_line_item: Some(
                        LineItemEditV {
                            index: e.index,
                            field: LineItemField::Hours,
                            text: spec_cents_string(v.line_items[e.index].hours_centi),
                        },
                    ),
                    ..v
                },
                LineItemField::Hours => match spec_parse_fixed2(e.text) {
                    Some(h) => InvoiceWizardV {
                        line_items: v.line_items.update(
                            e.index,
                            InvoiceLineItemV { hours_centi: h, ..v.line_items[e.index] },
                        ),
                        editing_line_item: None,
                        ..v
                    },
                    None => InvoiceWizardV { show_error: Some(WizardError::InvalidHours), ..v },
                },
            }
        } else {
            v
        },
        None => v,
    }
}

/// One key applied to the focused field while in edit mode.
pub open spec fn spec_wizard_edit_key(v: InvoiceWizardV, key: Key) -> InvoiceWizardV {
    if !v.editing {
        v
    } else {
        match v.current_field {
            InvoiceField::SubmitDate => InvoiceWizardV {
                submit_edit: spec_date_step(v.submit_edit, key),
                ..v
            },
            InvoiceField::DueDate => InvoiceWizardV {
                due_edit: spec_date_step(v.due_edit, key),
                ..v
            },
            InvoiceField::Rate => match key {
                Key::Char(c) => if spec_is_digit(c) || c == '.' {
                    InvoiceWizardV { active_input: v.active_input.push(c), ..v }
                } else {
                    v
                },
                Key::Backspace => if v.active_input.len() == 0 {
                    v
                } else {
                    InvoiceWizardV { active_input: v.active_input.drop_last(), ..v }
                },
                _ => v,
            },
            InvoiceField::LineItems => match v.editing_line_item {
                Some(e) => match key {
                    Key::Char(c) => InvoiceWizardV {
                        editing_line_item: Some(LineItemEditV { text: e.text.push(c), ..e }),
                        ..v
                    },
                    Key::Backspace => if e.text.len() == 0 {
                        v
                    } else {
                        InvoiceWizardV {
                            editing_line_item: Some(
                                LineItemEditV { text: e.text.drop_last(), ..e },
                            ),
                            ..v
                        }
                    },
                    _ => v,
                },
                None => v,
            },
        }
    }
}

/// The rate the wizard would save: the scratch text if it parses, the
/// stored rate otherwise.
pub open spec fn spec_effective_rate(v: InvoiceWizardV) -> int {
    if v.active_input.len() == 0 {
        v.rate_cents
    } else {
        match spec_parse_fixed2(v.active_input) {
            Some(x) => x,
            None => v.rate_cents,
        }
    }
}

/// The invoice a save emits: the stored identity (zero for a draft), a
/// number reusing that identity or falling back to the given one, the
/// dates as edited, the effective rate, and the Draft status.
pub open spec fn spec_to_invoice(v: InvoiceWizardV, fallback_number: int) -> InvoiceV {
    InvoiceV {
        id: match v.invoice_id {
            Some(i) => i,
            None => 0,
        },
        project_id: v.project_id,
        number: match v.invoice_id {
            Some(i) => i,
            None => fallback_number,
        },
        submit_date: v.submit_edit.date,
        due_date: v.due_edit.date,
        rate_cents: spec_effective_rate(v),
        status: "Draft"@,
    }
}

/// A draft the wizard accepts: a positive effective rate and at least
/// one line item.
pub open spec fn spec_invoice_wizard_valid(v: InvoiceWizardV) -> bool {
    &&& v.line_items.len() > 0
    &&& (if v.active_input.len() == 0 {
        v.rate_cents > 0
    } else {
        match spec_parse_fixed2(v.active_input) {
            Some(x) => x > 0,
            None => false,
        }
    })
}

/// What a dispatched key asks the workflow to do.
pub enum InvoiceStepAction {
    KeepGoing,
    DoCancel,
    DoSave,
}

/// The wizard's whole transition function over one key (after the
/// pending inline error has been cleared).
pub open spec fn spec_invoice_step(v: InvoiceWizardV, key: Key) -> (InvoiceWizardV, InvoiceStepAction) {
    let in_items = v.current_field == InvoiceField::LineItems;
    match key {
        Key::Esc => if v.editing {
            (spec_wizard_toggle(v), InvoiceStepAction::KeepGoing)
        } else {
            (v, InvoiceStepAction::DoCancel)
        },
        Key::Enter => if v.editing {
            if v.current_field == InvoiceField::Rate {
                match spec_parse_fixed2(v.active_input) {
                    Some(x) => (
                        spec_wizard_toggle(InvoiceWizardV { rate_cents: x, ..v }),
                        InvoiceStepAction::KeepGoing,
                    ),
                    None => (
                        InvoiceWizardV { show_error: Some(WizardError::InvalidRate), ..v },
                        InvoiceStepAction::KeepGoing,
                    ),
                }
            } else if in_items {
                if v.editing_line_item is Some {
                    (spec_commit_line_item_field(v), InvoiceStepAction::KeepGoing)
                } else {
                    (spec_wizard_toggle(v), InvoiceStepAction::KeepGoing)
                }
            } else {
                (spec_wizard_toggle(v), InvoiceStepAction::KeepGoing)
            }
        } else {
            (spec_wizard_toggle(v), InvoiceStepAction::KeepGoing)
        },
        Key::Char(c) => if c == 's' && !v.editing {
            if spec_invoice_wizard_valid(v) {
                (v, InvoiceStepAction::DoSave)
            } else {
                (
                    InvoiceWizardV { show_error: Some(WizardError::IncompleteInvoice), ..v },
                    InvoiceStepAction::KeepGoing,
                )
            }
        } else if c == 'a' && in_items && v.editing && v.editing_line_item is None {
            (spec_add_line_item(v), InvoiceStepAction::KeepGoing)
        } else if c == 'e' && in_items && v.editing && v.editing_line_item is None
            && v.selected_item is Some {
            (spec_edit_line_item(v), InvoiceStepAction::KeepGoing)
        } else if c == 'd' && in_items && v.editing && v.editing_line_item is None
            && v.selected_item is Some {
            (spec_delete_line_item(v), InvoiceStepAction::KeepGoing)
        } else if v.editing {
            (spec_wizard_edit_key(v, key), InvoiceStepAction::KeepGoing)
        } else {
            (v, InvoiceStepAction::KeepGoing)
        },
        Key::Tab => if in_items && v.editing && v.editing_line_item is Some {
            (spec_commit_line_item_field(v), InvoiceStepAction::KeepGoing)
        } else {
            (v, InvoiceStepAction::KeepGoing)
        },
        Key::Up => if !v.editing {
            (
                InvoiceWizardV {
                    current_field: spec_invoice_previous_field(v.current_field),
                    ..v
                },
                InvoiceStepAction::KeepGoing,
            )
        } else if in_items && v.editing_line_item is None {
            if v.line_items.len() == 0 {
                (v, InvoiceStepAction::KeepGoing)
            } else {
                let i: int = match v.selected_item {
                    Some(i) => if i == 0 {
                        v.line_items.len() - 1
                    } else {
                        i - 1
                    },
                    None => 0,
                };
                (InvoiceWizardV { selected_item: Some(i), ..v }, InvoiceStepAction::KeepGoing)
            }
        } else {
            (spec_wizard_edit_key(v, key), InvoiceStepAction::KeepGoing)
        },
        Key::Down => if !v.editing {
            (
                InvoiceWizardV { current_field: spec_invoice_next_field(v.current_field), ..v },
                InvoiceStepAction::KeepGoing,
            )
        } else if in_items && v.editing_line_item is None {
            if v.line_items.len() == 0 {
                (v, InvoiceStepAction::KeepGoing)
            } else {
                let i: int = match v.selected_item {
                    Some(i) => if i >= v.line_items.len() - 1 {
                        0
                    } else {
                        i + 1
                    },
                    None => 0,
                };
                (InvoiceWizardV { selected_item: Some(i), ..v }, InvoiceStepAction::KeepGoing)
            }
        } else {
            (spec_wizard_edit_key(v, key), InvoiceStepAction::KeepGoing)
        },
        _ => if v.editing {
            (spec_wizard_edit_key(v, key), InvoiceStepAction::KeepGoing)
        } else {
            (v, InvoiceStepAction::KeepGoing)
        },
    }
}

impl InvoiceWizardState {
    /// A wizard over a fresh or an existing invoice.  A fresh one starts
    /// on `today` with the given default due date; an existing invoice
    /// brings its own dates, rate and line items, with the first item
    /// selected.
    pub fn new(
        project_id: i32,
        invoice_id: Option<i32>,
        existing_invoice: Option<Invoice>,
        existing_line_items: Option<Vec<InvoiceLineItem>>,
        today: Date,
        default_due: Date,
    ) -> (s: InvoiceWizardState)
        requires
            today.valid(),
            default_due.valid(),
            existing_invoice matches Some(n) ==> n@.submit_date.valid() && n@.due_date.valid()
                && n@.rate_cents <= RATE_CENTS_MAX,
            existing_line_items matches Some(items) ==> forall|i: int|
                0 <= i < items@.len() ==> (#[trigger] items@[i])@.hours_centi <= HOURS_CENTI_MAX,
        ensures
            s@.project_id == project_id as int,
            s@.invoice_id == (match invoice_id {
                Some(i) => Some(i as int),
                None => None::<int>,
            }),
            s@.current_field == InvoiceField::SubmitDate,
            !s@.editing,
            s@.editing_line_item is None,
            s@.active_input.len() == 0,
            s@.show_error is None,
            existing_invoice is None ==> {
                &&& s@.rate_cents == 0
                &&& s@.line_items.len() == 0
                &&& s@.selected_item is None
                &&& s@.submit_edit.date == today
                &&& s@.due_edit.date == default_due
            },
            existing_invoice matches Some(n) ==> {
                &&& s@.rate_cents == n@.rate_cents
                &&& s@.submit_edit.date == n@.submit_date
                &&& s@.due_edit.date == n@.due_date
                &&& s@.line_items == (match existing_line_items {
                    Some(items) => items.deep_view(),
                    None => Seq::<InvoiceLineItemV>::empty(),
                })
                &&& s@.selected_item == (if s@.line_items.len() > 0 {
                    Some(0int)
                } else {
                    None::<int>
                })
            },
            s@.wf(),
    {
        match existing_invoice {
            Some(invoice) => {
                let items = match existing_line_items {
                    Some(items) => items,
                    None => Vec::new(),
                };
                let selected = if items.len() > 0 {
                    Some(0usize)
                } else {
                    None
                };
                InvoiceWizardState {
                    project_id,
                    invoice_id,
                    rate_cents: invoice.rate_cents,
                    line_items: items,
                    current_field: InvoiceField::SubmitDate,
                    selected_item: selected,
                    editing_line_item: None,
                    editing: false,
                    active_input: String::new(),
                    show_error: None,
                    submit_date_state: DateInputState::new(invoice.submit_date),
                    due_date_state: DateInputState::new(invoice.due_date),
                }
            },
            None => InvoiceWizardState {
                project_id,
                invoice_id,
                rate_cents: 0,
                line_items: Vec::new(),
                current_field: InvoiceField::SubmitDate,
                selected_item: None,
                editing_line_item: None,
                editing: false,
                active_input: String::new(),
                show_error: None,
                submit_date_state: DateInputState::new(today),
                due_date_state: DateInputState::new(default_due),
            },
        }
    }

    /// Flips edit mode; see [`spec_wizard_toggle`].
    pub fn toggle_editing(&mut self)
        ensures
            final(self)@ == spec_wizard_toggle(old(self)@),
            spec_items_bounded(old(self)@.line_items) ==> spec_items_bounded(
                final(self)@.line_items,
            ),
    {
        self.editing = !self.editing;
        if self.editing {
            match self.current_field {
                InvoiceField::SubmitDate => {
                    self.submit_date_state.toggle_editing();
                },
                InvoiceField::DueDate => {
                    self.due_date_state.toggle_editing();
                },
                InvoiceField::Rate => {
                    self.active_input = format_cents(self.rate_cents);
                },
                InvoiceField::LineItems => {},
            }
        } else {
            self.submit_date_state.editing = false;
            self.due_date_state.editing = false;
            self.editing_line_item = None;
        }
        proof {
            assert(self@ =~= spec_wizard_toggle(old(self)@));
        }
    }

    /// Moves focus down, with wraparound.
    pub fn next_field(&mut self)
        ensures
            final(self)@ == (InvoiceWizardV {
                current_field: spec_invoice_next_field(old(self).current_field),
                ..old(self)@
            }),
    {
        self.current_field = match self.current_field {
            InvoiceField::SubmitDate => InvoiceField::DueDate,
            InvoiceField::DueDate => InvoiceField::Rate,
            InvoiceField::Rate => InvoiceField::LineItems,
            InvoiceField::LineItems => InvoiceField::SubmitDate,
        };
        proof {
            assert(self@ =~= InvoiceWizardV {
                current_field: spec_invoice_next_field(old(self).current_field),
                ..old(self)@
            });
        }
    }

    /// Moves focus up, with wraparound.
    pub fn previous_field(&mut self)
        ensures
            final(self)@ == (InvoiceWizardV {
                current_field: spec_invoice_previous_field(old(self).current_field),
                ..old(self)@
            }),
    {
        self.current_field = match self.current_field {
            InvoiceField::SubmitDate => InvoiceField::LineItems,
            InvoiceField::DueDate => InvoiceField::SubmitDate,
            InvoiceField::Rate => InvoiceField::DueDate,
            InvoiceField::LineItems => InvoiceField::Rate,
        };
        proof {
            assert(self@ =~= InvoiceWizardV {
                current_field: spec_invoice_previous_field(old(self).current_field),
                ..old(self)@
            });
        }
    }

    /// Adds a zero-valued line item; see [`spec_add_line_item`].
    pub fn add_line_item(&mut self)
        ensures
            final(self)@ == spec_add_line_item(old(self)@),
            spec_items_bounded(old(self)@.line_items) ==> spec_items_bounded(
                final(self)@.line_items,
            ),
    {
        let new_id: i32 = if self.line_items.len() == 0 {
            1
        } else {
            let last_id = self.line_items[self.line_items.len() - 1].id;
            if last_id < i32::MAX {
                last_id + 1
            } else {
                last_id
            }
        };
        let item = InvoiceLineItem {
            id: new_id,
            invoice_id: match self.invoice_id {
                Some(i) => i,
                None => 0,
            },
            description: String::new(),
            hours_centi: 0,
        };
        let index = self.line_items.len();
        self.line_items.push(item);
        self.selected_item = Some(index);
        self.editing_line_item = Some(
            LineItemEdit { index, field: LineItemField::Description, text: String::new() },
        );
        proof {
            assert(self@.line_items =~= spec_add_line_item(old(self)@).line_items);
            assert(self@ =~= spec_add_line_item(old(self)@));
        }
    }

    /// Opens the selected item for editing; see [`spec_edit_line_item`].
    pub fn edit_line_item(&mut self)
        ensures
            final(self)@ == spec_edit_line_item(old(self)@),
            spec_items_bounded(old(self)@.line_items) ==> spec_items_bounded(
                final(self)@.line_items,
            ),
    {
        match self.selected_item {
            Some(i) => {
                if i < self.line_items.len() {
                    let text = self.line_items[i].description.clone();
                    proof {
                        assert(self.line_items@[i as int].description@ == old(
                            self,
                        )@.line_items[i as int].description);
                    }
                    self.editing_line_item = Some(
                        LineItemEdit { index: i, field: LineItemField::Description, text },
                    );
                }
            },
            None => {},
        }
        proof {
            assert(self@ =~= spec_edit_line_item(old(self)@));
        }
    }

    /// Deletes the selected item; see [`spec_delete_line_item`].
    pub fn delete_line_item(&mut self)
        ensures
            final(self)@ == spec_delete_line_item(old(self)@),
            spec_items_bounded(old(self)@.line_items) ==> spec_items_bounded(
                final(self)@.line_items,
            ),
    {
        match self.selected_item {
            Some(i) => {
                if i < self.line_items.len() {
                    let _ = self.line_items.remove(i);
                    if self.line_items.len() == 0 {
                        self.selected_item = None;
                    } else if i >= self.line_items.len() {
                        self.selected_item = Some(self.line_items.len() - 1);
                    } else {
                        self.selected_item = Some(i);
                    }
                    self.editing_line_item = None;
                    proof {
                        assert(self@.line_items =~= old(self)@.line_items.remove(i as int));
                    }
                }
            },
            None => {},
        }
        proof {
            assert(self@ =~= spec_delete_line_item(old(self)@));
        }
    }

    /// Commits the line-item field under edit; see
    /// [`spec_commit_line_item_field`].
    pub fn next_field_in_line_item(&mut self)
        ensures
            final(self)@ == spec_commit_line_item_field(old(self)@),
            spec_items_bounded(old(self)@.line_items) ==> spec_items_bounded(
                final(self)@.line_items,
            ),
    {
        let edit = match &self.editing_line_item {
            Some(e) => LineItemEdit { index: e.index, field: e.field, text: e.text.clone() },
            None => {
                proof {
                    assert(self@ =~= spec_commit_line_item_field(old(self)@));
                }
                return ;
            },
        };
        if edit.index >= self.line_items.len() {
            proof {
                assert(self@ =~= spec_commit_line_item_field(old(self)@));
            }
            return ;
        }
        let i = edit.index;
        match edit.field {
            LineItemField::Description => {
                let hours_text = format_cents(self.line_items[i].hours_centi);
                let mut row = self.line_items[i].duplicate();
                row.description = edit.text;
                self.line_items[i] = row;
                self.editing_line_item = Some(
                    LineItemEdit { index: i, field: LineItemField::Hours, text: hours_text },
                );
                proof {
                    assert(self@.line_items =~= spec_commit_line_item_field(
                        old(self)@,
                    ).line_items);
                    assert(self@ =~= spec_commit_line_item_field(old(self)@));
                }
            },
            LineItemField::Hours => {
                let chars = string_to_chars(edit.text.as_str());
                match parse_fixed2(&chars) {
                    Some(h) => {
                        let mut row = self.line_items[i].duplicate();
                        row.hours_centi = h;
                        self.line_items[i] = row;
                        self.editing_line_item = None;
                        proof {
                            assert(self@.line_items =~= spec_commit_line_item_field(
                                old(self)@,
                            ).line_items);
                            assert(self@ =~= spec_commit_line_item_field(old(self)@));
                        }
                    },
                    None => {
                        self.show_error = Some(WizardError::InvalidHours);
                        proof {
                            assert(self@ =~= spec_commit_line_item_field(old(self)@));
                        }
                    },
                }
            },
        }
    }

    /// Applies one key to the focused field while in edit mode; see
    /// [`spec_wizard_edit_key`].
    pub fn edit_current_field(&mut self, key: Key)
        requires
            old(self)@.submit_edit.wf(),
            old(self)@.due_edit.wf(),
        ensures
            final(self)@ == spec_wizard_edit_key(old(self)@, key),
            final(self)@.submit_edit.wf(),
            final(self)@.due_edit.wf(),
            final(self)@.line_items == old(self)@.line_items,
            final(self)@.rate_cents == old(self)@.rate_cents,
    {
        if !self.editing {
            return ;
        }
        match self.current_field {
            InvoiceField::SubmitDate => {
                self.submit_date_state.handle_input(key);
            },
            InvoiceField::DueDate => {
                self.due_date_state.handle_input(key);
            },
            InvoiceField::Rate => {
                match key {
                    Key::Char(c) => {
                        if crate::input::digit_of(c).is_some() || c == '.' {
                            push_char(&mut self.active_input, c);
                        }
                    },
                    Key::Backspace => {
                        let _ = string_pop(&mut self.active_input);
                    },
                    _ => {},
                }
            },
            InvoiceField::LineItems => {
                match &mut self.editing_line_item {
                    Some(e) => {
                        match key {
                            Key::Char(c) => {
                                push_char(&mut e.text, c);
                            },
                            Key::Backspace => {
                                let _ = string_pop(&mut e.text);
                            },
                            _ => {},
                        }
                    },
                    None => {},
                }
            },
        }
        proof {
            assert(self@ =~= spec_wizard_edit_key(old(self)@, key));
        }
    }

    /// The invoice a save emits; see [`spec_to_invoice`].
    pub fn to_invoice(&self, fallback_number: i32) -> (r: Invoice)
        requires
            self@.wf(),
        ensures
            r@ == spec_to_invoice(self@, fallback_number as int),
            r@.rate_cents <= RATE_CENTS_MAX,
    {
        let rate = if self.active_input.as_str().unicode_len() == 0 {
            self.rate_cents
        } else {
            let chars = string_to_chars(self.active_input.as_str());
            match parse_fixed2(&chars) {
                Some(x) => x,
                None => self.rate_cents,
            }
        };
        Invoice {
            id: match self.invoice_id {
                Some(i) => i,
                None => 0,
            },
            project_id: self.project_id,
            number: match self.invoice_id {
                Some(i) => i,
                None => fallback_number,
            },
            submit_date: self.submit_date_state.date,
            due_date: self.due_date_state.date,
            rate_cents: rate,
            status: "Draft".to_owned(),
        }
    }

    /// Whether the draft may be saved; see [`spec_invoice_wizard_valid`].
    pub fn is_valid(&self) -> (r: bool)
        ensures
            r == spec_invoice_wizard_valid(self@),
    {
        let rate_valid = if self.active_input.as_str().unicode_len() == 0 {
            self.rate_cents > 0
        } else {
            let chars = string_to_chars(self.active_input.as_str());
            match parse_fixed2(&chars) {
                Some(x) => x > 0,
                None => false,
            }
        };
        self.line_items.len() > 0 && rate_valid
    }
}

/// One key of the invoice wizard.  The pending inline error is cleared
/// first; then the key takes one step of [`spec_invoice_step`], and a
/// save emits the invoice of [`spec_to_invoice`] (numbered with
/// `fallback_number` when the invoice is new) together with a copy of
/// the line items.
#[verifier::rlimit(60)]
pub fn handle_input(
    state: &mut InvoiceWizardState,
    key: Key,
    fallback_number: i32,
) -> (r: Option<InvoiceWizardAction>)
    requires
        old(state)@.wf(),
    ensures
        ({
            let base = InvoiceWizardV { show_error: None, ..old(state)@ };
            let step = spec_invoice_step(base, key);
            &&& final(state)@ == step.0
            &&& final(state)@.wf()
            &&& (match step.1 {
                InvoiceStepAction::KeepGoing => r is None,
                InvoiceStepAction::DoCancel => r matches Some(InvoiceWizardAction::Cancel),
                InvoiceStepAction::DoSave => r matches Some(InvoiceWizardAction::Save(inv, items))
                    && inv@ == spec_to_invoice(base, fallback_number as int)
                    && items.deep_view() == base.line_items,
            })
        }),
{
    state.show_error = None;
    let ghost base = InvoiceWizardV { show_error: None, ..old(state)@ };
    proof {
        assert(state@ =~= base);
    }
    match key {
        Key::Esc => {
            if state.editing {
                state.toggle_editing();
            } else {
                return Some(InvoiceWizardAction::Cancel);
            }
        },
        Key::Enter => {
            if state.editing {
                if state.current_field == InvoiceField::Rate {
                    let chars = string_to_chars(state.active_input.as_str());
                    match parse_fixed2(&chars) {
                        Some(x) => {
                            state.rate_cents = x;
                            proof {
                                assert(state@ =~= InvoiceWizardV {
                                    rate_cents: x as int,
                                    ..base
                                });
                            }
                            state.toggle_editing();
                        },
                        None => {
                            state.show_error = Some(WizardError::InvalidRate);
                            proof {
                                assert(state@ =~= spec_invoice_step(base, key).0);
                            }
                        },
                    }
                } else if state.current_field == InvoiceField::LineItems {
                    if state.editing_line_item.is_some() {
                        state.next_field_in_line_item();
                    } else {
                        state.toggle_editing();
                    }
                } else {
                    state.toggle_editing();
                }
            } else {
                state.toggle_editing();
            }
        },
        Key::Char(c) => {
            if c == 's' && !state.editing {
                if state.is_valid() {
                    let invoice = state.to_invoice(fallback_number);
                    let items = duplicate_vec(&state.line_items);
                    return Some(InvoiceWizardAction::Save(invoice, items));
                } else {
                    state.show_error = Some(WizardError::IncompleteInvoice);
                    proof {
                        assert(state@ =~= spec_invoice_step(base, key).0);
                    }
                }
            } else if c == 'a' && state.current_field == InvoiceField::LineItems && state.editing
                && state.editing_line_item.is_none() {
                state.add_line_item();
            } else if c == 'e' && state.current_field == InvoiceField::LineItems && state.editing
                && state.editing_line_item.is_none() && state.selected_item.is_some() {
                state.edit_line_item();
            } else if c == 'd' && state.current_field == InvoiceField::LineItems && state.editing
                && state.editing_line_item.is_none() && state.selected_item.is_some() {
                state.delete_line_item();
            } else if state.editing {
                state.edit_current_field(key);
            }
        },
        Key::Tab => {
            if state.current_field == InvoiceField::LineItems && state.editing
                && state.editing_line_item.is_some() {
                state.next_field_in_line_item();
            }
        },
        Key::Up => {
            if !state.editing {
                state.previous_field();
            } else if state.current_field == InvoiceField::LineItems
                && state.editing_line_item.is_none() {
                let len = state.line_items.len();
                if len > 0 {
                    let i = match state.selected_item {
                        Some(i) => if i == 0 {
                            len - 1
                        } else {
                            i - 1
                        },
                        None => 0,
                    };
                    state.selected_item = Some(i);
                    proof {
                        assert(state@ =~= spec_invoice_step(base, key).0);
                    }
                }
            } else {
                state.edit_current_field(key);
            }
        },
        Key::Down => {
            if !state.editing {
                state.next_field();
            } else if state.current_field == InvoiceField::LineItems
                && state.editing_line_item.is_none() {
                let len = state.line_items.len();
                if len > 0 {
                    let i = match state.selected_item {
                        Some(i) => if i >= len - 1 {
                            0
                        } else {
                            i + 1
                        },
                        None => 0,
                    };
                    state.selected_item = Some(i);
                    proof {
                        assert(state@ =~= spec_invoice_step(base, key).0);
                    }
                }
            } else {
                state.edit_current_field(key);
            }
        },
        _ => {
            if state.editing {
                state.edit_current_field(key);
            }
        },
    }
    None
}

} // verus!
