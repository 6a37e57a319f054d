//! The email overlay over the invoice list: composes a message for one
//! invoice, pre-filled from the invoice's owning chain, and owns the two
//! generated document artifacts until every exit path has released them.

use vstd::prelude::*;

use crate::date::spec_date_string;
use crate::input::Key;
use crate::models::{
    Invoice, InvoiceLineItem, InvoiceLineItemV, InvoiceV, HOURS_CENTI_MAX, RATE_CENTS_MAX,
};
use crate::money::{
    format_money_myriadths, invoice_total_myriadths, spec_invoice_total, spec_money_string,
};
use crate::text::{push_char, push_u64_dec, spec_dec_digits, string_pop, string_to_chars};

verus! {

/// What the overlay hands back to the invoice list.
pub enum EmailWizardAction {
    Cancel,
    Send,
}

/// The overlay's field cycle, ending on the send confirmation.
#[derive(Clone, Copy, PartialEq, Eq, Structural, Debug)]
pub enum EmailField {
    RecipientEmail,
    Subject,
    Message,
    ReadyToSend,
}

/// Why the overlay refuses to send.
#[derive(Clone, Copy, PartialEq, Eq, Structural, Debug)]
pub enum EmailValidationError {
    EmptyRecipient,
    InvalidEmail,
    EmptySubject,
}

impl EmailValidationError {
    /// The inline message for this error.
    pub fn message(&self) -> (r: String)
        ensures
            *self == EmailValidationError::EmptyRecipient ==> r@
                == "Recipient email cannot be empty"@,
            *self == EmailValidationError::InvalidEmail ==> r@ == "Invalid email address"@,
            *self == EmailValidationError::EmptySubject ==> r@ == "Subject cannot be empty"@,
    {
        match self {
            EmailValidationError::EmptyRecipient => "Recipient email cannot be empty".to_owned(),
            EmailValidationError::InvalidEmail => "Invalid email address".to_owned(),
            EmailValidationError::EmptySubject => "Subject cannot be empty".to_owned(),
        }
    }
}

/// The overlay's state: the loaded invoice, the message under
/// composition, and the generated artifact paths still to release.
pub struct EmailWizardState {
    pub invoice_id: i32,
    pub invoice: Option<Invoice>,
    pub line_items: Option<Vec<InvoiceLineItem>>,
    pub recipient_email: String,
    pub subject: String,
    pub message: String,
    pub current_field: EmailField,
    pub show_error: Option<EmailValidationError>,
    pub show_success: bool,
    pub generated_md_path: Option<String>,
    pub generated_pdf_path: Option<String>,
    pub dismissing: bool,
}

/// Mathematical image of the overlay state.
#[verifier::ext_equal]
pub struct EmailWizardV {
    pub invoice_id: int,
    pub invoice: Option<InvoiceV>,
    pub line_items: Option<Seq<InvoiceLineItemV>>,
    pub recipient_email: Seq<char>,
    pub subject: Seq<char>,
    pub message: Seq<char>,
    pub current_field: EmailField,
    pub show_error: Option<EmailValidationError>,
    pub show_success: bool,
    pub md_path: Option<Seq<char>>,
    pub pdf_path: Option<Seq<char>>,
    pub dismissing: bool,
}

impl View for EmailWizardState {
    type V = EmailWizardV;

    open spec fn view(&self) -> EmailWizardV {
        EmailWizardV {
            invoice_id: self.invoice_id as int,
            invoice: match self.invoice {
                Some(ref n) => Some(n@),
                None => None,
            },
            line_items: match self.line_items {
                Some(ref items) => Some(items.deep_view()),
                None => None,
            },
            recipient_email: self.recipient_email@,
            subject: self.subject@,
            message: self.message@,
            current_field: self.current_field,
            show_error: self.show_error,
            show_success: self.show_success,
            md_path: match self.generated_md_path {
                Some(ref p) => Some(p@),
                None => None,
            },
            pdf_path: match self.generated_pdf_path {
                Some(ref p) => Some(p@),
                None => None,
            },
            dismissing: self.dismissing,
        }
    }
}

/// Field cycle forward, wrapping from the send confirmation back to the
/// recipient.
pub open spec fn spec_email_next_field(f: EmailField) -> EmailField {
    match f {
        EmailField::RecipientEmail => EmailField::Subject,
        EmailField::Subject => EmailField::Message,
        EmailField::Message => EmailField::ReadyToSend,
        EmailField::ReadyToSend => EmailField::RecipientEmail,
    }
}

/// Field cycle backward, wrapping from the recipient to the send
/// confirmation.
pub open spec fn spec_email_previous_field(f: EmailField) -> EmailField {
    match f {
        EmailField::RecipientEmail => EmailField::ReadyToSend,
        EmailField::Subject => EmailField::RecipientEmail,
        EmailField::Message => EmailField::Subject,
        EmailField::ReadyToSend => EmailField::Message,
    }
}

/// Whether `c` occurs in `s`.
pub open spec fn spec_contains_char(s: Seq<char>, c: char) -> bool {
    exists|i: int| 0 <= i < s.len() && s[i] == c
}

/// Executable twin of [`spec_contains_char`].
fn contains_char(s: &str, c: char) -> (r: bool)
    ensures
        r == spec_contains_char(s@, c),
{
    let chars = string_to_chars(s);
    let mut i: usize = 0;
    while i < chars.len()
        invariant
            i <= chars@.len(),
            chars@ == s@,
            forall|j: int| 0 <= j < i ==> s@[j] != c,
        decreases chars@.len() - i,
    {
        if chars[i] == c {
            return true;
        }
        i = i + 1;
    }
    false
}

/// What blocks a send, checked in order: an empty recipient, a recipient
/// without an at sign, an empty subject; otherwise the send may go out.
pub open spec fn spec_email_validation(v: EmailWizardV) -> Result<(), EmailValidationError> {
    if v.recipient_email.len() == 0 {
        Err(EmailValidationError::EmptyRecipient)
    } else if !spec_contains_char(v.recipient_email, '@') {
        Err(EmailValidationError::InvalidEmail)
    } else if v.subject.len() == 0 {
        Err(EmailValidationError::EmptySubject)
    } else {
        Ok(())
    }
}

/// The pre-filled subject line: the invoice number and the project name.
pub open spec fn spec_subject_line(number: int, project_name: Seq<char>) -> Seq<char> {
    "Invoice #"@ + spec_dec_digits(number) + " for "@ + project_name
}

/// The pre-filled message body: the invoice number, both dates, and the
/// computed total over the line items.
pub open spec fn spec_default_message(n: InvoiceV, total: int) -> Seq<char> {
    "Dear Client,\n\nPlease find attached the invoice #"@ + spec_dec_digits(n.number)
        + " for our recent work.\n\nInvoice Number: "@ + spec_dec_digits(n.number)
        + "\nSubmit Date: "@ + spec_date_string(n.submit_date) + "\nDue Date: "@
        + spec_date_string(n.due_date) + "\nTotal Amount: $"@ + spec_money_string(total)
        + "\n\nThank you for your business.\nPlease let me know if you have any questions.\n\nRegards,\nYour Name"@
}

/// One character of input to the focused text field; the marker
/// character (delete) removes the last character instead.
pub open spec fn spec_email_edit(v: EmailWizardV, c: char) -> EmailWizardV {
    let t = if v.current_field == EmailField::RecipientEmail {
        v.recipient_email
    } else if v.current_field == EmailField::Subject {
        v.subject
    } else {
        v.message
    };
    let t2 = if c == '\u{7f}' {
        if t.len() == 0 {
            t
        } else {
            t.drop_last()
        }
    } else {
        t.push(c)
    };
    match v.current_field {
        EmailField::RecipientEmail => EmailWizardV { recipient_email: t2, ..v },
        EmailField::Subject => EmailWizardV { subject: t2, ..v },
        EmailField::Message => EmailWizardV { message: t2, ..v },
        EmailField::ReadyToSend => v,
    }
}

impl EmailWizardState {
    /// A fresh overlay for invoice `invoice_id`, before its data loads.
    pub fn new(invoice_id: i32) -> (s: EmailWizardState)
        ensures
            s@ == (EmailWizardV {
                invoice_id: invoice_id as int,
                invoice: None,
                line_items: None,
                recipient_email: Seq::<char>::empty(),
                subject: Seq::<char>::empty(),
                message: Seq::<char>::empty(),
                current_field: EmailField::RecipientEmail,
                show_error: None,
                show_success: false,
                md_path: None,
                pdf_path: None,
                dismissing: false,
            }),
    {
        let s = EmailWizardState {
            invoice_id,
            invoice: None,
            line_items: None,
            recipient_email: String::new(),
            subject: String::new(),
            message: String::new(),
            current_field: EmailField::RecipientEmail,
            show_error: None,
            show_success: false,
            generated_md_path: None,
            generated_pdf_path: None,
            dismissing: false,
        };
        proof {
            assert(s@ =~= EmailWizardV {
                invoice_id: invoice_id as int,
                invoice: None,
                line_items: None,
                recipient_email: Seq::<char>::empty(),
                subject: Seq::<char>::empty(),
                message: Seq::<char>::empty(),
                current_field: EmailField::RecipientEmail,
                show_error: None,
                show_success: false,
                md_path: None,
                pdf_path: None,
                dismissing: false,
            });
        }
        s
    }

    /// Loads the invoice with its line items and pre-fills the recipient
    /// from the client, the subject from the number and project name, and
    /// the message body with the computed total.
    pub fn load_invoice(
        &mut self,
        invoice: Invoice,
        line_items: Vec<InvoiceLineItem>,
        project_name: String,
        client_email: String,
    )
        requires
            invoice@.number >= 0,
            invoice@.submit_date.valid(),
            invoice@.due_date.valid(),
            invoice@.rate_cents <= RATE_CENTS_MAX,
            forall|i: int|
                0 <= i < line_items@.len() ==> (#[trigger] line_items@[i])@.hours_centi
                    <= HOURS_CENTI_MAX,
        ensures
            final(self)@ == (EmailWizardV {
                invoice: Some(invoice@),
                line_items: Some(line_items.deep_view()),
                recipient_email: client_email@,
                subject: spec_subject_line(invoice@.number, project_name@),
                message: spec_default_message(
                    invoice@,
                    spec_invoice_total(line_items.deep_view(), invoice@.rate_cents),
                ),
                ..old(self)@
            }),
    {
        let total = invoice_total_myriadths(&line_items, invoice.rate_cents);
        let mut subject = String::new();
        subject.append("Invoice #");
        push_u64_dec(&mut subject, invoice.number as u64);
        subject.append(" for ");
        subject.append(project_name.as_str());
        proof {
            assert(subject@ =~= spec_subject_line(invoice@.number, project_name@));
        }
        let mut message = String::new();
        message.append("Dear Client,\n\nPlease find attached the invoice #");
        push_u64_dec(&mut message, invoice.number as u64);
        message.append(" for our recent work.\n\nInvoice Number: ");
        push_u64_dec(&mut message, invoice.number as u64);
        message.append("\nSubmit Date: ");
        let submit_text = crate::date::format_date(invoice.submit_date);
        message.append(submit_text.as_str());
        message.append("\nDue Date: ");
        let due_text = crate::date::format_date(invoice.due_date);
        message.append(due_text.as_str());
        message.append("\nTotal Amount: $");
        let total_text = format_money_myriadths(total);
        message.append(total_text.as_str());
        message.append(
            "\n\nThank you for your business.\nPlease let me know if you have any questions.\n\nRegards,\nYour Name",
        );
        proof {
            assert(message@ =~= spec_default_message(
                invoice@,
                spec_invoice_total(line_items.deep_view(), invoice@.rate_cents),
            ));
        }
        let ghost invoice_v = invoice@;
        let ghost items_v = line_items.deep_view();
        let ghost email_v = client_email@;
        self.subject = subject;
        self.recipient_email = client_email;
        self.invoice = Some(invoice);
        self.line_items = Some(line_items);
        self.message = message;
        proof {
            assert(self@ =~= EmailWizardV {
                invoice: Some(invoice_v),
                line_items: Some(items_v),
                recipient_email: email_v,
                subject: spec_subject_line(invoice_v.number, project_name@),
                message: spec_default_message(
                    invoice_v,
                    spec_invoice_total(items_v, invoice_v.rate_cents),
                ),
                ..old(self)@
            });
        }
    }

    /// The invoice total over the loaded line items, in myriadths; zero
    /// before the invoice has loaded.
    pub fn total_myriadths(&self) -> (t: u128)
        requires
            self@.invoice matches Some(n) ==> 0 <= n.rate_cents <= RATE_CENTS_MAX,
            self@.line_items matches Some(items) ==> forall|i: int|
                0 <= i < items.len() ==> 0 <= (#[trigger] items[i]).hours_centi
                    <= HOURS_CENTI_MAX,
        ensures
            (self@.invoice is Some && self@.line_items is Some) ==> t as int
                == spec_invoice_total(self@.line_items->Some_0, self@.invoice->Some_0.rate_cents),
            !(self@.invoice is Some && self@.line_items is Some) ==> t == 0,
    {
        match (&self.invoice, &self.line_items) {
            (Some(invoice), Some(items)) => {
                proof {
                    assert(self@.line_items->Some_0 == items.deep_view());
                    assert forall|i: int|
                        0 <= i < items@.len() implies (#[trigger] items@[i])@.hours_centi
                        <= HOURS_CENTI_MAX by {
                        assert(items.deep_view()[i] == items@[i]@);
                    }
                }
                invoice_total_myriadths(items, invoice.rate_cents)
            },
            _ => 0,
        }
    }

    /// Moves the field focus forward, with wraparound.
    pub fn next_field(&mut self)
        ensures
            final(self)@ == (EmailWizardV {
                current_field: spec_email_next_field(old(self).current_field),
                ..old(self)@
            }),
    {
        self.current_field = match self.current_field {
            EmailField::RecipientEmail => EmailField::Subject,
            EmailField::Subject => EmailField::Message,
            EmailField::Message => EmailField::ReadyToSend,
            EmailField::ReadyToSend => EmailField::RecipientEmail,
        };
        proof {
            assert(self@ =~= EmailWizardV {
                current_field: spec_email_next_field(old(self).current_field),
                ..old(self)@
            });
        }
    }

    /// Moves the field focus backward, with wraparound.
    pub fn previous_field(&mut self)
        ensures
            final(self)@ == (EmailWizardV {
                current_field: spec_email_previous_field(old(self).current_field),
                ..old(self)@
            }),
    {
        self.current_field = match self.current_field {
            EmailField::RecipientEmail => EmailField::ReadyToSend,
            EmailField::Subject => EmailField::RecipientEmail,
            EmailField::Message => EmailField::Subject,
            EmailField::ReadyToSend => EmailField::Message,
        };
        proof {
            assert(self@ =~= EmailWizardV {
                current_field: spec_email_previous_field(old(self).current_field),
                ..old(self)@
            });
        }
    }

    /// One character into the focused field; see [`spec_email_edit`].
    pub fn handle_input(&mut self, input: char)
        ensures
            final(self)@ == spec_email_edit(old(self)@, input),
    {
        let target = match self.current_field {
            EmailField::RecipientEmail => &mut self.recipient_email,
            EmailField::Subject => &mut self.subject,
            EmailField::Message => &mut self.message,
            EmailField::ReadyToSend => {
                proof {
                    assert(self@ =~= spec_email_edit(old(self)@, input));
                }
                return ;
            },
        };
        if input == '\u{7f}' {
            let _ = string_pop(target);
        } else {
            push_char(target, input);
        }
        proof {
            assert(self@ =~= spec_email_edit(old(self)@, input));
        }
    }

    /// Whether the message may be sent; see [`spec_email_validation`].
    pub fn validate(&self) -> (r: Result<(), EmailValidationError>)
        ensures
            r == spec_email_validation(self@),
    {
        if self.recipient_email.as_str().unicode_len() == 0 {
            return Err(EmailValidationError::EmptyRecipient);
        }
        if !contains_char(self.recipient_email.as_str(), '@') {
            return Err(EmailValidationError::InvalidEmail);
        }
        if self.subject.as_str().unicode_len() == 0 {
            return Err(EmailValidationError::EmptySubject);
        }
        Ok(())
    }

    /// Releases the generated artifacts: both recorded paths are handed
    /// back for deletion, exactly once — a second call returns nothing.
    pub fn cleanup_files(&mut self) -> (r: Vec<String>)
        ensures
            final(self)@ == (EmailWizardV { md_path: None, pdf_path: None, ..old(self)@ }),
            r.deep_view() == (match (old(self)@.md_path, old(self)@.pdf_path) {
                (Some(m), Some(p)) => seq![m, p],
                (Some(m), None) => seq![m],
                (None, Some(p)) => seq![p],
                (None, None) => Seq::<Seq<char>>::empty(),
            }),
    {
        let mut r: Vec<String> = Vec::new();
        match &self.generated_md_path {
            Some(m) => {
                r.push(m.clone());
            },
            None => {},
        }
        match &self.generated_pdf_path {
            Some(p) => {
                r.push(p.clone());
            },
            None => {},
        }
        self.generated_md_path = None;
        self.generated_pdf_path = None;
        proof {
            assert(self@ =~= EmailWizardV { md_path: None, pdf_path: None, ..old(self)@ });
            assert(r.deep_view() =~= (match (old(self)@.md_path, old(self)@.pdf_path) {
                (Some(m), Some(p)) => seq![m, p],
                (Some(m), None) => seq![m],
                (None, Some(p)) => seq![p],
                (None, None) => Seq::<Seq<char>>::empty(),
            }));
        }
        r
    }

    /// Marks the overlay for dismissal and releases the artifacts at
    /// once; every exit path of the overlay goes through here or through
    /// [`EmailWizardState::cleanup_files`].
    pub fn dismiss(&mut self) -> (r: Vec<String>)
        ensures
            final(self)@ == (EmailWizardV {
                md_path: None,
                pdf_path: None,
                dismissing: true,
                ..old(self)@
            }),
            r.deep_view() == (match (old(self)@.md_path, old(self)@.pdf_path) {
                (Some(m), Some(p)) => seq![m, p],
                (Some(m), None) => seq![m],
                (None, Some(p)) => seq![p],
                (None, None) => Seq::<Seq<char>>::empty(),
            }),
    {
        self.dismissing = true;
        let r = self.cleanup_files();
        proof {
            assert(self@ =~= EmailWizardV {
                md_path: None,
                pdf_path: None,
                dismissing: true,
                ..old(self)@
            });
        }
        r
    }

    /// Applies the mail collaborator's outcome — the recoverable-error
    /// rule for sends: a delivered message marks success and dismisses
    /// the overlay, releasing both artifacts for deletion; a failed send
    /// leaves the overlay exactly as it stands, open for a retry or a
    /// cancel, its artifacts still owned.
    pub fn apply_send_outcome(&mut self, delivered: bool) -> (released: Vec<String>)
        ensures
            delivered ==> final(self)@ == (EmailWizardV {
                show_success: true,
                md_path: None,
                pdf_path: None,
                dismissing: true,
                ..old(self)@
            }),
            delivered ==> released.deep_view() == (match (old(self)@.md_path, old(self)@.pdf_path) {
                (Some(m), Some(p)) => seq![m, p],
                (Some(m), None) => seq![m],
                (None, Some(p)) => seq![p],
                (None, None) => Seq::<Seq<char>>::empty(),
            }),
            !delivered ==> final(self)@ == old(self)@ && released.deep_view() == Seq::<
                Seq<char>,
            >::empty(),
    {
        if delivered {
            self.show_success = true;
            let released = self.dismiss();
            proof {
                assert(self@ =~= EmailWizardV {
                    show_success: true,
                    md_path: None,
                    pdf_path: None,
                    dismissing: true,
                    ..old(self)@
                });
            }
            released
        } else {
            let released: Vec<String> = Vec::new();
            proof {
                assert(released.deep_view() =~= Seq::<Seq<char>>::empty());
            }
            released
        }
    }

    /// Whether the overlay is on its way out.
    pub fn is_dismissing(&self) -> (r: bool)
        ensures
            r == self@.dismissing,
    {
        self.dismissing
    }

    /// Whether the last send went through.
    pub fn has_success_message(&self) -> (r: bool)
        ensures
            r == self@.show_success,
    {
        self.show_success
    }
}

/// One key of the email overlay: Esc cancels from any field, Tab and
/// Shift+Tab cycle the fields with wraparound, Enter advances or — on
/// the send confirmation — validates and asks for the send, characters
/// and backspace edit the focused field.  Pending messages are cleared
/// first.
pub fn handle_input(state: &mut EmailWizardState, key: Key) -> (r: Option<EmailWizardAction>)
    ensures
        ({
            let base = EmailWizardV { show_error: None, show_success: false, ..old(state)@ };
            &&& key == Key::Esc ==> final(state)@ == base && (r matches Some(
                EmailWizardAction::Cancel,
            ))
            &&& key == Key::Backspace ==> final(state)@ == spec_email_edit(base, '\u{7f}') && r
                is None
            &&& (key is Char) ==> final(state)@ == spec_email_edit(base, key->Char_0) && r
                is None
            &&& key == Key::Tab ==> final(state)@ == (EmailWizardV {
                current_field: spec_email_next_field(base.current_field),
                ..base
            }) && r is None
            &&& key == Key::BackTab ==> final(state)@ == (EmailWizardV {
                current_field: spec_email_previous_field(base.current_field),
                ..base
            }) && r is None
            &&& key == Key::Enter && base.current_field != EmailField::ReadyToSend ==> final(state)@ == (EmailWizardV {
                current_field: spec_email_next_field(base.current_field),
                ..base
            }) && r is None
            &&& key == Key::Enter && base.current_field == EmailField::ReadyToSend ==> (match spec_email_validation(base) {
                Ok(u) => final(state)@ == base && (r matches Some(EmailWizardAction::Send)),
                Err(e) => final(state)@ == (EmailWizardV { show_error: Some(e), ..base }) && r
                    is None,
            })
            &&& !(key == Key::Esc || key == Key::Backspace || (key is Char) || key == Key::Tab
                || key == Key::BackTab || key == Key::Enter) ==> final(state)@ == base && r
                is None
        }),
{
    state.show_error = None;
    state.show_success = false;
    let ghost base = EmailWizardV { show_error: None, show_success: false, ..old(state)@ };
    proof {
        assert(state@ =~= base);
    }
    match key {
        Key::Backspace => {
            state.handle_input('\u{7f}');
        },
        Key::Esc => {
            return Some(EmailWizardAction::Cancel);
        },
        Key::Char(c) => {
            state.handle_input(c);
        },
        Key::Enter => {
            if state.current_field == EmailField::ReadyToSend {
                match state.validate() {
                    Ok(u) => {
                        return Some(EmailWizardAction::Send);
                    },
                    Err(e) => {
                        state.show_error = Some(e);
                        proof {
                            assert(state@ =~= EmailWizardV { show_error: Some(e), ..base });
                        }
                    },
                }
            } else {
                state.next_field();
            }
        },
        Key::Tab => {
            state.next_field();
        },
        Key::BackTab => {
            state.previous_field();
        },
        _ => {},
    }
    None
}

} // verus!
