//! The invoice list screen of one project, which also hosts the email
//! overlay: while the overlay is open it takes every key, and the list
//! guarantees the overlay's artifacts are released on every way out.

use vstd::prelude::*;

use crate::email_wizard::{EmailWizardState, EmailWizardV};
use crate::input::Key;
use crate::models::{Duplicate, Invoice, InvoiceV};
use crate::selection::{select_next, select_previous, spec_select_next, spec_select_previous};

verus! {

/// What the invoice list hands back to the workflow.
pub enum InvoiceAction {
    Back,
    NewInvoice(i32),
    EditInvoice(i32),
    EmailInvoice(i32),
}

/// The list screen's state, bound to its owning project, with the
/// optional email overlay on top.
pub struct InvoicesState {
    pub project_id: i32,
    pub project_name: String,
    pub invoices: Vec<Invoice>,
    pub selected: Option<usize>,
    pub email_wizard_state: Option<EmailWizardState>,
}

/// Mathematical image of the list screen.
#[verifier::ext_equal]
pub struct InvoicesV {
    pub project_id: int,
    pub project_name: Seq<char>,
    pub invoices: Seq<InvoiceV>,
    pub selected: Option<int>,
    pub email: Option<EmailWizardV>,
}

impl View for InvoicesState {
    type V = InvoicesV;

    open spec fn view(&self) -> InvoicesV {
        InvoicesV {
            project_id: self.project_id as int,
            project_name: self.project_name@,
            invoices: self.invoices.deep_view(),
            selected: match self.selected {
                Some(i) => Some(i as int),
                None => None,
            },
            email: match self.email_wizard_state {
                Some(ref e) => Some(e@),
                None => None,
            },
        }
    }
}

/// The row under the cursor, when the cursor points into the list.
pub open spec fn spec_selected_invoice(v: InvoicesV) -> Option<InvoiceV> {
    match v.selected {
        Some(i) => if 0 <= i < v.invoices.len() {
            Some(v.invoices[i])
        } else {
            None
        },
        None => None,
    }
}

/// The artifact paths an overlay still holds.
pub open spec fn spec_overlay_artifacts(e: EmailWizardV) -> Seq<Seq<char>> {
    match (e.md_path, e.pdf_path) {
        (Some(m), Some(p)) => seq![m, p],
        (Some(m), None) => seq![m],
        (None, Some(p)) => seq![p],
        (None, None) => Seq::<Seq<char>>::empty(),
    }
}

impl InvoicesState {
    /// A list over the loaded rows; the first one is selected if any.
    pub fn new(project_id: i32, project_name: String, invoices: Vec<Invoice>) -> (s: InvoicesState)
        ensures
            s@.project_id == project_id as int,
            s@.project_name == project_name@,
            s@.invoices == invoices.deep_view(),
            s@.selected == (if invoices.deep_view().len() > 0 {
                Some(0int)
            } else {
                None::<int>
            }),
            s@.email is None,
    {
        let selected = if invoices.len() > 0 {
            Some(0usize)
        } else {
            None
        };
        InvoicesState { project_id, project_name, invoices, selected, email_wizard_state: None }
    }

    /// Moves the cursor down, wrapping at the end.
    pub fn next(&mut self)
        ensures
            final(self)@ == (InvoicesV {
                selected: spec_select_next(old(self)@.invoices.len() as int, old(self)@.selected),
                ..old(self)@
            }),
    {
        self.selected = select_next(self.invoices.len(), self.selected);
        proof {
            assert(self@ =~= InvoicesV {
                selected: spec_select_next(old(self)@.invoices.len() as int, old(self)@.selected),
                ..old(self)@
            });
        }
    }

    /// Moves the cursor up, wrapping at the start.
    pub fn previous(&mut self)
        ensures
            final(self)@ == (InvoicesV {
                selected: spec_select_previous(
                    old(self)@.invoices.len() as int,
                    old(self)@.selected,
                ),
                ..old(self)@
            }),
    {
        self.selected = select_previous(self.invoices.len(), self.selected);
        proof {
            assert(self@ =~= InvoicesV {
                selected: spec_select_previous(
                    old(self)@.invoices.len() as int,
                    old(self)@.selected,
                ),
                ..old(self)@
            });
        }
    }

    /// The row under the cursor; see [`spec_selected_invoice`].
    pub fn selected_invoice(&self) -> (r: Option<Invoice>)
        ensures
            (match (r, spec_selected_invoice(self@)) {
                (Some(n), Some(q)) => n@ == q,
                (None, None) => true,
                _ => false,
            }),
    {
        match self.selected {
            Some(i) => if i < self.invoices.len() {
                proof {
                    assert(self@.invoices[i as int] == self.invoices@[i as int]@);
                }
                Some(self.invoices[i].duplicate())
            } else {
                None
            },
            None => None,
        }
    }

    /// The identity of the row under the cursor.
    pub fn selected_invoice_id(&self) -> (r: Option<i32>)
        ensures
            (match (r, spec_selected_invoice(self@)) {
                (Some(id), Some(q)) => id as int == q.id,
                (None, None) => true,
                _ => false,
            }),
    {
        match self.selected_invoice() {
            Some(n) => Some(n.id),
            None => None,
        }
    }

    /// The owning project's identity.
    pub fn project_id(&self) -> (r: i32)
        ensures
            r as int == self@.project_id,
    {
        self.project_id
    }

    /// The owning project's name, for the screen title.
    pub fn project_name(&self) -> (r: String)
        ensures
            r@ == self@.project_name,
    {
        self.project_name.clone()
    }

    /// Opens a fresh email overlay for invoice `invoice_id`.
    pub fn start_email_wizard(&mut self, invoice_id: i32)
        ensures
            final(self)@ == (InvoicesV {
                email: Some(
                    EmailWizardV {
                        invoice_id: invoice_id as int,
                        invoice: None,
                        line_items: None,
                        recipient_email: Seq::<char>::empty(),
                        subject: Seq::<char>::empty(),
                        message: Seq::<char>::empty(),
                        current_field: crate::email_wizard::EmailField::RecipientEmail,
                        show_error: None,
                        show_success: false,
                        md_path: None,
                        pdf_path: None,
                        dismissing: false,
                    },
                ),
                ..old(self)@
            }),
    {
        self.email_wizard_state = Some(EmailWizardState::new(invoice_id));
        proof {
            assert(self@ =~= InvoicesV {
                email: Some(
                    EmailWizardV {
                        invoice_id: invoice_id as int,
                        invoice: None,
                        line_items: None,
                        recipient_email: Seq::<char>::empty(),
                        subject: Seq::<char>::empty(),
                        message: Seq::<char>::empty(),
                        current_field: crate::email_wizard::EmailField::RecipientEmail,
                        show_error: None,
                        show_success: false,
                        md_path: None,
                        pdf_path: None,
                        dismissing: false,
                    },
                ),
                ..old(self)@
            });
        }
    }

    /// Closes the overlay, releasing its artifacts first; the returned
    /// paths are the files the caller must delete.  With no overlay open
    /// this does nothing and returns no paths.
    pub fn close_email_wizard(&mut self) -> (r: Vec<String>)
        ensures
            final(self)@ == (InvoicesV { email: None, ..old(self)@ }),
            r.deep_view() == (match old(self)@.email {
                Some(e) => spec_overlay_artifacts(e),
                None => Seq::<Seq<char>>::empty(),
            }),
    {
        let r = match &mut self.email_wizard_state {
            Some(e) => e.cleanup_files(),
            None => Vec::new(),
        };
        self.email_wizard_state = None;
        proof {
            assert(self@ =~= InvoicesV { email: None, ..old(self)@ });
            assert(r.deep_view() =~= (match old(self)@.email {
                Some(e) => spec_overlay_artifacts(e),
                None => Seq::<Seq<char>>::empty(),
            }));
        }
        r
    }

    /// The forced closure the workflow applies before any unrelated
    /// screen transition: identical to [`InvoicesState::close_email_wizard`],
    /// kept as its own entry point so every such path is explicit.
    pub fn force_close_email_wizard(&mut self) -> (r: Vec<String>)
        ensures
            final(self)@ == (InvoicesV { email: None, ..old(self)@ }),
            r.deep_view() == (match old(self)@.email {
                Some(e) => spec_overlay_artifacts(e),
                None => Seq::<Seq<char>>::empty(),
            }),
    {
        self.close_email_wizard()
    }

    /// Whether the email overlay is open.
    pub fn is_in_email_wizard(&self) -> (r: bool)
        ensures
            r == (self@.email is Some),
    {
        self.email_wizard_state.is_some()
    }
}

/// One key of the invoice list, with no overlay open: Esc or `q` goes
/// back to the projects, `n` opens a new-invoice wizard, `e` edits and
/// `m` opens the email overlay for the selected invoice, Up and Down
/// move the cursor.  While the overlay is open the workflow routes keys
/// to the overlay instead, and this function leaves everything alone.
pub fn handle_input(state: &mut InvoicesState, key: Key) -> (r: Option<InvoiceAction>)
    ensures
        ({
            let v = old(state)@;
            let sel = spec_selected_invoice(v);
            &&& v.email is Some ==> final(state)@ == v && r is None
            &&& v.email is None ==> {
                &&& (key == Key::Esc || key == Key::Char('q')) ==> final(state)@ == v && (
                r matches Some(InvoiceAction::Back))
                &&& key == Key::Char('n') ==> final(state)@ == v && (r matches Some(
                    InvoiceAction::NewInvoice(pid),
                ) && pid as int == v.project_id)
                &&& key == Key::Char('e') ==> final(state)@ == v && (match sel {
                    Some(n) => r matches Some(InvoiceAction::EditInvoice(id)) && id as int
                        == n.id,
                    None => r is None,
                })
                &&& key == Key::Char('m') ==> final(state)@ == v && (match sel {
                    Some(n) => r matches Some(InvoiceAction::EmailInvoice(id)) && id as int
                        == n.id,
                    None => r is None,
                })
                &&& key == Key::Down ==> final(state)@ == (InvoicesV {
                    selected: spec_select_next(v.invoices.len() as int, v.selected),
                    ..v
                }) && r is None
                &&& key == Key::Up ==> final(state)@ == (InvoicesV {
                    selected: spec_select_previous(v.invoices.len() as int, v.selected),
                    ..v
                }) && r is None
                &&& !(key == Key::Esc || key == Key::Char('q') || key == Key::Char('n') || key
                    == Key::Char('e') || key == Key::Char('m') || key == Key::Down || key
                    == Key::Up) ==> final(state)@ == v && r is None
            }
        }),
{
    if state.email_wizard_state.is_some() {
        return None;
    }
    match key {
        Key::Esc => {
            return Some(InvoiceAction::Back);
        },
        Key::Char(c) => {
            if c == 'q' {
                return Some(InvoiceAction::Back);
            } else if c == 'n' {
                return Some(InvoiceAction::NewInvoice(state.project_id));
            } else if c == 'e' {
                match state.selected_invoice_id() {
                    Some(id) => {
                        return Some(InvoiceAction::EditInvoice(id));
                    },
                    None => {},
                }
            } else if c == 'm' {
                match state.selected_invoice_id() {
                    Some(id) => {
                        return Some(InvoiceAction::EmailInvoice(id));
                    },
                    None => {},
                }
            }
        },
        Key::Down => {
            state.next();
        },
        Key::Up => {
            state.previous();
        },
        _ => {},
    }
    None
}

} // verus!
