use invoice_manager::input::Key;
use invoice_manager::session::{AppScreen, AppState};
use invoice_manager::store::{Database, StorageError};

fn press(app: &mut AppState, key: Key) {
    let quit = app.handle_key(key).expect("no storage failure expected");
    assert!(!quit);
}

fn type_text(app: &mut AppState, text: &str) {
    for c in text.chars() {
        press(app, Key::Char(c));
    }
}

/// Fills the focused wizard text field: enter edit mode, type, leave.
fn fill_field(app: &mut AppState, text: &str) {
    press(app, Key::Enter);
    type_text(app, text);
    press(app, Key::Enter);
}

/// Types a date into an open date editor as year, then day, then month,
/// so every intermediate date stays valid.
fn fill_date_field(app: &mut AppState, year: &str, month: &str, day: &str) {
    press(app, Key::Enter);  // open the date editor
    type_text(app, year);
    press(app, Key::Left);  // focus the day
    type_text(app, day);
    press(app, Key::Left);  // focus the month
    type_text(app, month);
    press(app, Key::Enter);  // close the editor
}

/// Drives the whole billing chain of the worked example: a profile, a
/// client with a known address, a project, and one invoice with a
/// single line item, all through the wizards.
fn drive_example(app: &mut AppState) {
    // Profile "Acme".
    assert_eq!(app.screen, AppScreen::Profiles);
    press(app, Key::Char('n'));
    assert_eq!(app.screen, AppScreen::ProfileWizard);
    for (text, step_down) in [
        ("Acme", true),
        ("acme@biller.example", true),
        ("555-0100", true),
        ("", true),  // the address may stay empty
        ("First Bank", true),
        ("000111", true),
        ("222333", false),
    ] {
        fill_field(app, text);
        if step_down {
            press(app, Key::Down);
        }
    }
    press(app, Key::Char('s'));
    assert_eq!(app.screen, AppScreen::Profiles);

    // Client "Bob" under the profile.
    press(app, Key::Enter);
    assert!(matches!(app.screen, AppScreen::Clients(_)));
    press(app, Key::Char('n'));
    for (text, step_down) in [("Bob", true), ("bob@x.com", true), ("555-0101", false)] {
        fill_field(app, text);
        if step_down {
            press(app, Key::Down);
        }
    }
    press(app, Key::Char('s'));
    assert!(matches!(app.screen, AppScreen::Clients(_)));

    // Project "Website", starting 2024-01-01, no end date.
    press(app, Key::Enter);
    assert!(matches!(app.screen, AppScreen::Projects(_)));
    press(app, Key::Char('n'));
    fill_field(app, "Website");
    press(app, Key::Down);
    fill_date_field(app, "2024", "01", "01");
    press(app, Key::Char('s'));
    assert!(matches!(app.screen, AppScreen::Projects(_)));
    {
        let projects = app.projects_state.as_ref().unwrap();
        assert_eq!(projects.projects.len(), 1);
        assert_eq!(projects.projects[0].name, "Website");
        assert_eq!(projects.projects[0].end_date, None);
    }

    // Invoice: submitted 2024-02-01, due 2024-02-10, rate 50.00, one
    // line item "Design" of four hours.
    press(app, Key::Enter);
    assert!(matches!(app.screen, AppScreen::Invoices(_)));
    press(app, Key::Char('n'));
    assert!(matches!(app.screen, AppScreen::InvoiceWizard(_, None)));
    fill_date_field(app, "2024", "02", "01");
    press(app, Key::Down);
    fill_date_field(app, "2024", "02", "10");
    press(app, Key::Down);
    press(app, Key::Enter);  // edit the rate; the scratch reads 0.00
    for _ in 0..4 {
        press(app, Key::Backspace);
    }
    type_text(app, "50");
    press(app, Key::Enter);
    press(app, Key::Down);  // the line item list
    press(app, Key::Enter);  // enter the list editor
    press(app, Key::Char('a'));
    type_text(app, "Design");
    press(app, Key::Enter);  // commit the description
    for _ in 0..4 {
        press(app, Key::Backspace);
    }
    type_text(app, "4");
    press(app, Key::Enter);  // commit the hours
    press(app, Key::Enter);  // leave the list editor
    press(app, Key::Char('s'));
    assert!(matches!(app.screen, AppScreen::Invoices(_)));
}

#[test]
fn worked_example_reaches_the_invoice_list() {
    let mut app = AppState::new(Database::new());
    drive_example(&mut app);
    let invoices = app.invoices_state.as_ref().unwrap();
    assert_eq!(invoices.invoices.len(), 1);
    let row = &invoices.invoices[0];
    assert_eq!(row.status, "Draft");
    assert_eq!(row.submit_date, invoice_manager::date::Date { year: 2024, month: 2, day: 1 });
    assert_eq!(row.due_date, invoice_manager::date::Date { year: 2024, month: 2, day: 10 });
    assert_eq!(row.rate_cents, 5000);
    assert!(row.number >= 0 && row.number < 10000);
    assert_eq!(invoices.project_name(), "Website");

    // The saved row reads back field for field through the store.
    let (loaded, items) = app.db.get_invoice_with_line_items(row.id).unwrap();
    assert_eq!(loaded.rate_cents, 5000);
    assert_eq!(items.len(), 1);
    assert_eq!(items[0].description, "Design");
    assert_eq!(items[0].hours_centi, 400);
    assert_eq!(items[0].invoice_id, row.id);
}

#[test]
fn email_overlay_prefills_from_the_owning_chain() {
    let mut app = AppState::new(Database::new());
    drive_example(&mut app);
    press(&mut app, Key::Char('m'));
    let invoices = app.invoices_state.as_ref().unwrap();
    let overlay = invoices.email_wizard_state.as_ref().unwrap();
    assert_eq!(overlay.recipient_email, "bob@x.com");
    assert!(overlay.subject.starts_with("Invoice #"));
    assert!(overlay.subject.ends_with(" for Website"));
    assert!(overlay.message.contains("Total Amount: $200.00"));
    assert!(overlay.message.contains("Submit Date: 2024-02-01"));
    assert!(overlay.message.contains("Due Date: 2024-02-10"));
    assert_eq!(overlay.total_myriadths(), 2_000_000);
    // The two generated artifacts are booked in the ledger.
    assert_eq!(app.temp_files.len(), 2);
    assert!(app.temp_files[0].ends_with(".md"));
    assert!(app.temp_files[1].ends_with(".pdf"));
}

#[test]
fn cancelling_the_overlay_releases_every_artifact() {
    // Cancelling right after opening, before any edits.
    let mut app = AppState::new(Database::new());
    drive_example(&mut app);
    press(&mut app, Key::Char('m'));
    assert_eq!(app.temp_files.len(), 2);
    press(&mut app, Key::Esc);
    assert!(app.temp_files.is_empty());
    assert!(app.invoices_state.as_ref().unwrap().email_wizard_state.is_none());

    // Cancelling after moving to another field and editing.
    press(&mut app, Key::Char('m'));
    press(&mut app, Key::Tab);
    type_text(&mut app, "More subject");
    press(&mut app, Key::Tab);
    assert_eq!(app.temp_files.len(), 2);
    press(&mut app, Key::Esc);
    assert!(app.temp_files.is_empty());
    assert!(app.invoices_state.as_ref().unwrap().email_wizard_state.is_none());
}

#[test]
fn sending_the_composed_mail_closes_and_cleans_the_overlay() {
    let mut app = AppState::new(Database::new());
    drive_example(&mut app);
    press(&mut app, Key::Char('m'));
    // Walk to the send confirmation and send.
    press(&mut app, Key::Tab);
    press(&mut app, Key::Tab);
    press(&mut app, Key::Tab);
    press(&mut app, Key::Enter);
    assert!(app.invoices_state.as_ref().unwrap().email_wizard_state.is_none());
    assert!(app.temp_files.is_empty());
}

#[test]
fn deleting_the_profile_removes_the_whole_subtree() {
    let mut app = AppState::new(Database::new());
    drive_example(&mut app);
    // Climb back to the profile list.
    press(&mut app, Key::Esc);  // invoices -> projects
    press(&mut app, Key::Esc);  // projects -> clients
    press(&mut app, Key::Esc);  // clients -> profiles
    assert_eq!(app.screen, AppScreen::Profiles);
    press(&mut app, Key::Char('d'));
    press(&mut app, Key::Char('y'));
    assert_eq!(app.db.profiles.len(), 0);
    assert_eq!(app.db.clients.len(), 0);
    assert_eq!(app.db.projects.len(), 0);
    assert_eq!(app.db.invoices.len(), 0);
    assert_eq!(app.db.line_items.len(), 0);
}

#[test]
fn quit_comes_only_from_the_profile_list() {
    let mut app = AppState::new(Database::new());
    assert!(!app.handle_key(Key::Char('x')).unwrap());
    assert!(app.handle_key(Key::Esc).unwrap());
}

#[test]
fn editing_a_profile_updates_in_place() {
    let mut app = AppState::new(Database::new());
    drive_example(&mut app);
    press(&mut app, Key::Esc);
    press(&mut app, Key::Esc);
    press(&mut app, Key::Esc);
    press(&mut app, Key::Char('e'));
    assert_eq!(app.screen, AppScreen::ProfileWizard);
    // Append to the name and save.
    press(&mut app, Key::Enter);
    type_text(&mut app, " Inc");
    press(&mut app, Key::Enter);
    press(&mut app, Key::Char('s'));
    assert_eq!(app.screen, AppScreen::Profiles);
    assert_eq!(app.db.profiles.len(), 1);
    assert_eq!(app.db.profiles[0].name, "Acme Inc");
    assert_eq!(app.db.profiles[0].email, "acme@biller.example");
}

#[test]
fn an_exhausted_identity_space_surfaces_as_a_storage_error() {
    let mut app = AppState::new(Database::new());
    app.db.next_id = i32::MAX;
    press(&mut app, Key::Char('n'));
    for (text, step_down) in [
        ("A", true),
        ("a@b.c", true),
        ("1", true),
        ("", true),
        ("B", true),
        ("2", true),
        ("3", false),
    ] {
        press(&mut app, Key::Enter);
        type_text(&mut app, text);
        press(&mut app, Key::Enter);
        if step_down {
            press(&mut app, Key::Down);
        }
    }
    assert_eq!(app.handle_key(Key::Char('s')).unwrap_err(), StorageError::Full);
}

#[test]
fn clock_helpers_stay_within_their_contracts() {
    let today = invoice_manager::clock::today_or_default();
    assert!(invoice_manager::date::date_valid(today));
    let due = invoice_manager::clock::default_due_date(today);
    assert!(invoice_manager::date::date_valid(due));
    let number = invoice_manager::clock::fresh_invoice_number();
    assert!((0..10000).contains(&number));
    assert_eq!(invoice_manager::clock::number_from_timestamp(123_456_789), 6789);
    assert_eq!(invoice_manager::clock::number_from_timestamp(-1), 9999);
}
