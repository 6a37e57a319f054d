use invoice_manager::client_wizard::{ClientField, ClientWizardAction, ClientWizardState};
use invoice_manager::date::Date;
use invoice_manager::email_wizard::{EmailField, EmailValidationError, EmailWizardState};
use invoice_manager::input::Key;
use invoice_manager::invoice_wizard::{
    InvoiceField, InvoiceWizardAction, InvoiceWizardState, LineItemField, WizardError,
};
use invoice_manager::models::{Invoice, InvoiceLineItem};
use invoice_manager::profile_wizard::{ProfileField, ProfileWizardAction, ProfileWizardState};
use invoice_manager::project_wizard::{ProjectField, ProjectWizardAction, ProjectWizardState};

fn d(year: i32, month: u32, day: u32) -> Date {
    Date { year, month, day }
}

fn type_str_profile(state: &mut ProfileWizardState, text: &str) {
    for c in text.chars() {
        invoice_manager::profile_wizard::handle_input(state, Key::Char(c));
    }
}

#[test]
fn profile_field_cycle_wraps_both_ways() {
    let mut w = ProfileWizardState::new();
    assert_eq!(w.current_field, ProfileField::Name);
    w.previous_field();
    assert_eq!(w.current_field, ProfileField::BankRoutingNumber);
    w.next_field();
    assert_eq!(w.current_field, ProfileField::Name);
    for _ in 0..7 {
        w.next_field();
    }
    assert_eq!(w.current_field, ProfileField::Name);
}

#[test]
fn profile_save_blocked_until_required_fields_filled() {
    let mut w = ProfileWizardState::new();
    assert!(!w.is_valid());
    let r = invoice_manager::profile_wizard::handle_input(&mut w, Key::Char('s'));
    assert!(r.is_none());

    // Fill every required field (the address may stay empty).
    let fields = ["Acme", "acme@x.y", "555", "", "Bank", "1111", "2222"];
    for (i, text) in fields.iter().enumerate() {
        invoice_manager::profile_wizard::handle_input(&mut w, Key::Enter);
        type_str_profile(&mut w, text);
        invoice_manager::profile_wizard::handle_input(&mut w, Key::Enter);
        if i < fields.len() - 1 {
            invoice_manager::profile_wizard::handle_input(&mut w, Key::Down);
        }
    }
    assert!(w.is_valid());
    match invoice_manager::profile_wizard::handle_input(&mut w, Key::Char('s')) {
        Some(ProfileWizardAction::Save(p)) => {
            assert_eq!(p.id, 0);
            assert_eq!(p.name, "Acme");
            assert_eq!(p.bank_routing_number, "2222");
        },
        _ => panic!("expected a save"),
    }
}

#[test]
fn profile_backspace_edits_the_focused_field() {
    let mut w = ProfileWizardState::new();
    invoice_manager::profile_wizard::handle_input(&mut w, Key::Enter);
    type_str_profile(&mut w, "Acmee");
    invoice_manager::profile_wizard::handle_input(&mut w, Key::Backspace);
    assert_eq!(w.profile.name, "Acme");
}

#[test]
fn profile_escape_cancels_from_browsing_only() {
    let mut w = ProfileWizardState::new();
    invoice_manager::profile_wizard::handle_input(&mut w, Key::Enter);
    // Inside edit mode Esc only leaves the field.
    assert!(invoice_manager::profile_wizard::handle_input(&mut w, Key::Esc).is_none());
    assert!(!w.editing);
    match invoice_manager::profile_wizard::handle_input(&mut w, Key::Esc) {
        Some(ProfileWizardAction::Cancel) => {},
        _ => panic!("expected a cancel"),
    }
}

#[test]
fn client_wizard_binds_the_owning_profile() {
    let mut w = ClientWizardState::new(9);
    assert_eq!(w.profile_id(), 9);
    assert_eq!(w.client.profile_id, 9);
    assert_eq!(w.current_field, ClientField::Name);
    assert!(!w.is_valid());
    for (field_text, last) in [("Bob", false), ("bob@x.com", false), ("555", true)] {
        invoice_manager::client_wizard::handle_input(&mut w, Key::Enter);
        for c in field_text.chars() {
            invoice_manager::client_wizard::handle_input(&mut w, Key::Char(c));
        }
        invoice_manager::client_wizard::handle_input(&mut w, Key::Enter);
        if !last {
            invoice_manager::client_wizard::handle_input(&mut w, Key::Down);
        }
    }
    match invoice_manager::client_wizard::handle_input(&mut w, Key::Char('s')) {
        Some(ClientWizardAction::Save(c)) => {
            assert_eq!(c.name, "Bob");
            assert_eq!(c.email, "bob@x.com");
            assert_eq!(c.profile_id, 9);
        },
        _ => panic!("expected a save"),
    }
}

#[test]
fn project_wizard_edits_dates_through_the_date_editor() {
    let mut w = ProjectWizardState::new(3, d(2024, 6, 15));
    assert_eq!(w.current_field, ProjectField::Name);
    invoice_manager::project_wizard::handle_input(&mut w, Key::Enter);
    for c in "Website".chars() {
        invoice_manager::project_wizard::handle_input(&mut w, Key::Char(c));
    }
    invoice_manager::project_wizard::handle_input(&mut w, Key::Enter);
    invoice_manager::project_wizard::handle_input(&mut w, Key::Down);
    assert_eq!(w.current_field, ProjectField::StartDate);
    invoice_manager::project_wizard::handle_input(&mut w, Key::Enter);
    for c in "2024".chars() {
        invoice_manager::project_wizard::handle_input(&mut w, Key::Char(c));
    }
    invoice_manager::project_wizard::handle_input(&mut w, Key::Left);  // focus the day
    for c in "01".chars() {
        invoice_manager::project_wizard::handle_input(&mut w, Key::Char(c));
    }
    invoice_manager::project_wizard::handle_input(&mut w, Key::Left);  // focus the month
    for c in "01".chars() {
        invoice_manager::project_wizard::handle_input(&mut w, Key::Char(c));
    }
    invoice_manager::project_wizard::handle_input(&mut w, Key::Enter);
    assert_eq!(w.project.start_date, d(2024, 1, 1));
    assert_eq!(w.project.end_date, None);
    assert!(w.is_valid());
    match invoice_manager::project_wizard::handle_input(&mut w, Key::Char('s')) {
        Some(ProjectWizardAction::Save(j)) => {
            assert_eq!(j.name, "Website");
            assert_eq!(j.start_date, d(2024, 1, 1));
            assert_eq!(j.end_date, None);
            assert_eq!(j.client_id, 3);
        },
        _ => panic!("expected a save"),
    }
}

fn key(w: &mut InvoiceWizardState, k: Key) -> Option<InvoiceWizardAction> {
    invoice_manager::invoice_wizard::handle_input(w, k, 1234)
}

fn fresh_invoice_wizard() -> InvoiceWizardState {
    InvoiceWizardState::new(7, None, None, None, d(2024, 2, 1), d(2024, 2, 6))
}

#[test]
fn invoice_wizard_requires_rate_and_a_line_item() {
    let mut w = fresh_invoice_wizard();
    assert!(!w.is_valid());
    assert!(key(&mut w, Key::Char('s')).is_none());
    assert_eq!(w.show_error, Some(WizardError::IncompleteInvoice));
    assert_eq!(
        w.show_error.unwrap().message(),
        "Please complete all required fields. Rate must be > 0 and at least one line item is required."
    );
}

#[test]
fn invoice_wizard_rejects_an_unparsable_rate() {
    let mut w = fresh_invoice_wizard();
    key(&mut w, Key::Down);
    key(&mut w, Key::Down);
    assert_eq!(w.current_field, InvoiceField::Rate);
    key(&mut w, Key::Enter);
    assert_eq!(w.active_input, "0.00");
    key(&mut w, Key::Char('.'));  // "0.00." cannot parse
    key(&mut w, Key::Enter);
    assert_eq!(w.show_error, Some(WizardError::InvalidRate));
    assert!(w.editing);
}

#[test]
fn line_item_sub_cycle_commits_description_then_hours() {
    let mut w = fresh_invoice_wizard();
    // Rate 50.00.
    key(&mut w, Key::Down);
    key(&mut w, Key::Down);
    key(&mut w, Key::Enter);
    for _ in 0..4 {
        key(&mut w, Key::Backspace);
    }
    for c in "50".chars() {
        key(&mut w, Key::Char(c));
    }
    key(&mut w, Key::Enter);
    assert_eq!(w.rate_cents, 5000);

    // One line item: "Design", 4 hours.
    key(&mut w, Key::Down);
    assert_eq!(w.current_field, InvoiceField::LineItems);
    key(&mut w, Key::Enter);
    key(&mut w, Key::Char('a'));
    assert_eq!(w.line_items.len(), 1);
    assert_eq!(w.selected_item, Some(0));
    for c in "Design".chars() {
        key(&mut w, Key::Char(c));
    }
    key(&mut w, Key::Enter);  // commit the description, move to the hours
    assert_eq!(w.line_items[0].description, "Design");
    assert_eq!(w.editing_line_item.as_ref().unwrap().field, LineItemField::Hours);
    for _ in 0..4 {
        key(&mut w, Key::Backspace);
    }
    for c in "4".chars() {
        key(&mut w, Key::Char(c));
    }
    key(&mut w, Key::Enter);  // commit the hours
    assert_eq!(w.line_items[0].hours_centi, 400);
    assert!(w.editing_line_item.is_none());
    key(&mut w, Key::Enter);  // leave the list editor
    assert!(!w.editing);

    assert!(w.is_valid());
    match key(&mut w, Key::Char('s')) {
        Some(InvoiceWizardAction::Save(invoice, items)) => {
            assert_eq!(invoice.id, 0);
            assert_eq!(invoice.number, 1234);
            assert_eq!(invoice.rate_cents, 5000);
            assert_eq!(invoice.status, "Draft");
            assert_eq!(invoice.submit_date, d(2024, 2, 1));
            assert_eq!(invoice.due_date, d(2024, 2, 6));
            assert_eq!(items.len(), 1);
            assert_eq!(items[0].hours_centi, 400);
        },
        _ => panic!("expected a save"),
    }
}

#[test]
fn unparsable_hours_stay_on_screen_with_an_inline_error() {
    let mut w = fresh_invoice_wizard();
    key(&mut w, Key::Up);  // wrap upward straight to the line items
    assert_eq!(w.current_field, InvoiceField::LineItems);
    key(&mut w, Key::Enter);
    key(&mut w, Key::Char('a'));
    key(&mut w, Key::Enter);  // commit empty description, move to hours
    for _ in 0..4 {
        key(&mut w, Key::Backspace);
    }
    for c in "x".chars() {
        key(&mut w, Key::Char(c));
    }
    key(&mut w, Key::Enter);
    // The invalid text is kept, unlike the date editor's silent discard.
    assert_eq!(w.show_error, Some(WizardError::InvalidHours));
    assert_eq!(w.editing_line_item.as_ref().unwrap().text, "x");
    assert_eq!(w.editing_line_item.as_ref().unwrap().field, LineItemField::Hours);
}

#[test]
fn deleting_line_items_reclamps_the_selection() {
    let mut w = fresh_invoice_wizard();
    key(&mut w, Key::Up);
    key(&mut w, Key::Enter);
    for _ in 0..3 {
        key(&mut w, Key::Char('a'));
        key(&mut w, Key::Enter);  // past the description
        key(&mut w, Key::Enter);  // commit the zero hours
    }
    assert_eq!(w.line_items.len(), 3);
    assert_eq!(w.selected_item, Some(2));
    let ids: Vec<i32> = w.line_items.iter().map(|t| t.id).collect();
    assert_eq!(ids, vec![1, 2, 3]);
    key(&mut w, Key::Char('d'));
    assert_eq!(w.line_items.len(), 2);
    assert_eq!(w.selected_item, Some(1));
    key(&mut w, Key::Char('d'));
    key(&mut w, Key::Char('d'));
    assert_eq!(w.line_items.len(), 0);
    assert_eq!(w.selected_item, None);
}

#[test]
fn editing_an_existing_invoice_reuses_its_identity_as_number() {
    let invoice = Invoice {
        id: 55,
        project_id: 7,
        number: 55,
        submit_date: d(2024, 3, 1),
        due_date: d(2024, 3, 10),
        rate_cents: 2500,
        status: "Draft".to_string(),
    };
    let items = vec![InvoiceLineItem {
        id: 1,
        invoice_id: 55,
        description: "Work".to_string(),
        hours_centi: 200,
    }];
    let mut w = InvoiceWizardState::new(
        7,
        Some(55),
        Some(invoice),
        Some(items),
        d(2024, 4, 1),
        d(2024, 4, 6),
    );
    assert_eq!(w.rate_cents, 2500);
    assert_eq!(w.selected_item, Some(0));
    match key(&mut w, Key::Char('s')) {
        Some(InvoiceWizardAction::Save(saved, _)) => {
            assert_eq!(saved.id, 55);
            assert_eq!(saved.number, 55);
            assert_eq!(saved.submit_date, d(2024, 3, 1));
        },
        _ => panic!("expected a save"),
    }
}

#[test]
fn email_overlay_cycles_fields_with_wraparound() {
    let mut e = EmailWizardState::new(1);
    assert_eq!(e.current_field, EmailField::RecipientEmail);
    invoice_manager::email_wizard::handle_input(&mut e, Key::Tab);
    assert_eq!(e.current_field, EmailField::Subject);
    invoice_manager::email_wizard::handle_input(&mut e, Key::Tab);
    invoice_manager::email_wizard::handle_input(&mut e, Key::Tab);
    assert_eq!(e.current_field, EmailField::ReadyToSend);
    invoice_manager::email_wizard::handle_input(&mut e, Key::Tab);
    assert_eq!(e.current_field, EmailField::RecipientEmail);
    invoice_manager::email_wizard::handle_input(&mut e, Key::BackTab);
    assert_eq!(e.current_field, EmailField::ReadyToSend);
}

#[test]
fn email_validation_reports_each_failure() {
    let mut e = EmailWizardState::new(1);
    assert_eq!(e.validate(), Err(EmailValidationError::EmptyRecipient));
    assert_eq!(
        EmailValidationError::EmptyRecipient.message(),
        "Recipient email cannot be empty"
    );
    e.recipient_email = "nowhere".to_string();
    assert_eq!(e.validate(), Err(EmailValidationError::InvalidEmail));
    e.recipient_email = "bob@x.com".to_string();
    assert_eq!(e.validate(), Err(EmailValidationError::EmptySubject));
    e.subject = "Hello".to_string();
    assert_eq!(e.validate(), Ok(()));
}

#[test]
fn email_artifacts_are_released_exactly_once() {
    let mut e = EmailWizardState::new(1);
    e.generated_md_path = Some("invoices/invoice_7.md".to_string());
    e.generated_pdf_path = Some("invoices/invoice_7.pdf".to_string());
    let released = e.dismiss();
    assert!(e.is_dismissing());
    assert_eq!(released, vec![
        "invoices/invoice_7.md".to_string(),
        "invoices/invoice_7.pdf".to_string(),
    ]);
    // A second release finds nothing left.
    let again = e.cleanup_files();
    assert!(again.is_empty());
}
