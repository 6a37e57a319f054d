use invoice_manager::date::Date;
use invoice_manager::models::{Client, Invoice, InvoiceLineItem, Profile, Project};
use invoice_manager::store::{Database, StorageError};

fn d(year: i32, month: u32, day: u32) -> Date {
    Date { year, month, day }
}

fn profile_draft(name: &str) -> Profile {
    Profile {
        id: 0,
        name: name.to_string(),
        phonenumber: "555-0100".to_string(),
        address: Some("1 Main St".to_string()),
        email: "a@b.c".to_string(),
        bank_name: "Bank".to_string(),
        bank_account_number: "12345".to_string(),
        bank_routing_number: "67890".to_string(),
    }
}

fn client_draft(name: &str, email: &str, profile_id: i32) -> Client {
    Client {
        id: 0,
        name: name.to_string(),
        phone: "555-0101".to_string(),
        address: None,
        email: email.to_string(),
        profile_id,
    }
}

fn project_draft(name: &str, client_id: i32) -> Project {
    Project { id: 0, client_id, name: name.to_string(), start_date: d(2024, 1, 1), end_date: None }
}

fn invoice_draft(project_id: i32, number: i32, rate_cents: u64) -> Invoice {
    Invoice {
        id: 0,
        project_id,
        number,
        submit_date: d(2024, 2, 1),
        due_date: d(2024, 2, 10),
        rate_cents,
        status: "Draft".to_string(),
    }
}

fn line_item_draft(description: &str, hours_centi: u64) -> InvoiceLineItem {
    InvoiceLineItem { id: 0, invoice_id: 0, description: description.to_string(), hours_centi }
}

#[test]
fn insert_assigns_identity_and_loads_back_field_for_field() {
    let mut db = Database::new();
    let draft = profile_draft("Acme");
    let id = db.create_profile(&draft).unwrap();
    assert_eq!(id, 1);
    let loaded = db.get_profile(id).unwrap();
    assert_eq!(loaded.id, id);
    assert_eq!(loaded.name, draft.name);
    assert_eq!(loaded.phonenumber, draft.phonenumber);
    assert_eq!(loaded.address, draft.address);
    assert_eq!(loaded.email, draft.email);
    assert_eq!(loaded.bank_name, draft.bank_name);
    assert_eq!(loaded.bank_account_number, draft.bank_account_number);
    assert_eq!(loaded.bank_routing_number, draft.bank_routing_number);
}

#[test]
fn update_rewrites_and_loads_the_new_fields() {
    let mut db = Database::new();
    let id = db.create_profile(&profile_draft("Before")).unwrap();
    let mut changed = profile_draft("After");
    changed.id = id;
    changed.email = "after@b.c".to_string();
    db.update_profile(&changed).unwrap();
    let loaded = db.get_profile(id).unwrap();
    assert_eq!(loaded.name, "After");
    assert_eq!(loaded.email, "after@b.c");
    assert_eq!(db.load_profiles().len(), 1);
}

#[test]
fn missing_rows_are_not_found() {
    let db = Database::new();
    assert_eq!(db.get_profile(7).unwrap_err(), StorageError::NotFound);
    assert_eq!(db.get_client(7).unwrap_err(), StorageError::NotFound);
    assert_eq!(db.get_project(7).unwrap_err(), StorageError::NotFound);
    assert_eq!(db.get_invoice(7).unwrap_err(), StorageError::NotFound);
}

/// Builds a profile with `n` clients, each with `m` projects, each with
/// `k` invoices, each with `l` line items; returns the profile identity.
fn build_tree(db: &mut Database, n: usize, m: usize, k: usize, l: usize) -> i32 {
    let pid = db.create_profile(&profile_draft("Root")).unwrap();
    for ci in 0..n {
        let cid = db.create_client(&client_draft(&format!("c{}", ci), "c@x.y", pid)).unwrap();
        for ji in 0..m {
            let jid = db.create_project(&project_draft(&format!("p{}", ji), cid)).unwrap();
            for ki in 0..k {
                let nid = db.create_invoice(&invoice_draft(jid, ki as i32, 100)).unwrap();
                for li in 0..l {
                    let mut t = line_item_draft(&format!("t{}", li), 100);
                    t.invoice_id = nid;
                    db.create_line_item(&t).unwrap();
                }
            }
        }
    }
    pid
}

#[test]
fn profile_cascade_leaves_zero_residual_rows() {
    let mut db = Database::new();
    let pid = build_tree(&mut db, 2, 3, 2, 2);
    // An unrelated tree that must survive untouched.
    let other = build_tree(&mut db, 1, 1, 1, 1);

    assert_eq!(db.load_clients_by_profile(pid).len(), 2);
    db.delete_profile(pid).unwrap();

    assert!(db.get_profile(pid).is_err());
    assert_eq!(db.load_clients_by_profile(pid).len(), 0);
    // Nothing beneath the deleted profile survives in any table.
    assert_eq!(db.profiles.len(), 1);
    assert_eq!(db.clients.len(), 1);
    assert_eq!(db.projects.len(), 1);
    assert_eq!(db.invoices.len(), 1);
    assert_eq!(db.line_items.len(), 1);
    // The other tree is fully intact.
    assert!(db.get_profile(other).is_ok());
    assert_eq!(db.load_clients_by_profile(other).len(), 1);
}

#[test]
fn profile_cascade_is_all_or_nothing() {
    let mut db = Database::new();
    let pid = build_tree(&mut db, 2, 2, 2, 2);
    let profiles_before = db.profiles.len();
    let clients_before = db.clients.len();
    let projects_before = db.projects.len();
    let invoices_before = db.invoices.len();
    let items_before = db.line_items.len();

    // The cascade issues, per client, two statements per project plus
    // one, and then one statement for the clients and one for the
    // profile: (2*2+1)*2 + 2 = 12 statements in all.  A budget one short
    // of the last delete step must roll everything back.
    let failed = db.delete_profile_tx(pid, Some(11));
    assert_eq!(failed.unwrap_err(), StorageError::TransactionFailed);
    assert_eq!(db.profiles.len(), profiles_before);
    assert_eq!(db.clients.len(), clients_before);
    assert_eq!(db.projects.len(), projects_before);
    assert_eq!(db.invoices.len(), invoices_before);
    assert_eq!(db.line_items.len(), items_before);

    // With exactly enough budget the whole subtree goes.
    db.delete_profile_tx(pid, Some(12)).unwrap();
    assert_eq!(db.profiles.len(), 0);
    assert_eq!(db.clients.len(), 0);
    assert_eq!(db.projects.len(), 0);
    assert_eq!(db.invoices.len(), 0);
    assert_eq!(db.line_items.len(), 0);
}

#[test]
fn client_cascade_and_budget() {
    let mut db = Database::new();
    let pid = db.create_profile(&profile_draft("P")).unwrap();
    let cid = db.create_client(&client_draft("C", "c@x.y", pid)).unwrap();
    let jid = db.create_project(&project_draft("J", cid)).unwrap();
    let nid = db.create_invoice(&invoice_draft(jid, 1, 100)).unwrap();
    let mut t = line_item_draft("T", 100);
    t.invoice_id = nid;
    db.create_line_item(&t).unwrap();

    // One project: two statements for it, one for the projects, one for
    // the client — four in all.
    assert_eq!(db.delete_client_tx(cid, Some(3)).unwrap_err(), StorageError::TransactionFailed);
    assert_eq!(db.clients.len(), 1);
    db.delete_client_tx(cid, Some(4)).unwrap();
    assert_eq!(db.clients.len(), 0);
    assert_eq!(db.projects.len(), 0);
    assert_eq!(db.invoices.len(), 0);
    assert_eq!(db.line_items.len(), 0);
    assert_eq!(db.profiles.len(), 1);
}

#[test]
fn invoice_delete_takes_its_line_items_along() {
    let mut db = Database::new();
    let pid = db.create_profile(&profile_draft("P")).unwrap();
    let cid = db.create_client(&client_draft("C", "c@x.y", pid)).unwrap();
    let jid = db.create_project(&project_draft("J", cid)).unwrap();
    let n1 = db.create_invoice(&invoice_draft(jid, 1, 100)).unwrap();
    let n2 = db.create_invoice(&invoice_draft(jid, 2, 100)).unwrap();
    for nid in [n1, n2] {
        let mut t = line_item_draft("T", 100);
        t.invoice_id = nid;
        db.create_line_item(&t).unwrap();
    }
    db.delete_invoice(n1).unwrap();
    assert!(db.get_invoice(n1).is_err());
    assert_eq!(db.get_line_items_by_invoice(n1).len(), 0);
    assert_eq!(db.get_line_items_by_invoice(n2).len(), 1);
}

#[test]
fn project_delete_is_plain() {
    // The workflow's direct project delete removes only the project row.
    let mut db = Database::new();
    let pid = db.create_profile(&profile_draft("P")).unwrap();
    let cid = db.create_client(&client_draft("C", "c@x.y", pid)).unwrap();
    let jid = db.create_project(&project_draft("J", cid)).unwrap();
    db.create_invoice(&invoice_draft(jid, 1, 100)).unwrap();
    db.delete_project(jid).unwrap();
    assert!(db.get_project(jid).is_err());
    assert_eq!(db.invoices.len(), 1);
}

#[test]
fn save_transaction_inserts_then_replaces_line_items() {
    let mut db = Database::new();
    let pid = db.create_profile(&profile_draft("P")).unwrap();
    let cid = db.create_client(&client_draft("C", "c@x.y", pid)).unwrap();
    let jid = db.create_project(&project_draft("J", cid)).unwrap();

    let items = vec![line_item_draft("Design", 400), line_item_draft("Build", 250)];
    let invoice_id =
        db.save_invoice_with_line_items(&invoice_draft(jid, 42, 5000), &items).unwrap();
    let (saved, saved_items) = db.get_invoice_with_line_items(invoice_id).unwrap();
    assert_eq!(saved.number, 42);
    assert_eq!(saved.status, "Draft");
    assert_eq!(saved_items.len(), 2);
    assert!(saved_items.iter().all(|t| t.invoice_id == invoice_id));

    // Saving again over the same invoice replaces its line items.
    let mut again = invoice_draft(jid, 42, 7500);
    again.id = invoice_id;
    let replacement = vec![line_item_draft("Rework", 100)];
    let same_id = db.save_invoice_with_line_items(&again, &replacement).unwrap();
    assert_eq!(same_id, invoice_id);
    let (updated, updated_items) = db.get_invoice_with_line_items(invoice_id).unwrap();
    assert_eq!(updated.rate_cents, 7500);
    assert_eq!(updated.number, 42);
    assert_eq!(updated_items.len(), 1);
    assert_eq!(updated_items[0].description, "Rework");
}

#[test]
fn invoice_listing_is_newest_first() {
    let mut db = Database::new();
    let pid = db.create_profile(&profile_draft("P")).unwrap();
    let cid = db.create_client(&client_draft("C", "c@x.y", pid)).unwrap();
    let jid = db.create_project(&project_draft("J", cid)).unwrap();
    let mut early = invoice_draft(jid, 1, 100);
    early.submit_date = d(2024, 1, 5);
    let mut late = invoice_draft(jid, 2, 100);
    late.submit_date = d(2024, 3, 1);
    let mut middle = invoice_draft(jid, 3, 100);
    middle.submit_date = d(2024, 2, 10);
    db.create_invoice(&early).unwrap();
    db.create_invoice(&late).unwrap();
    db.create_invoice(&middle).unwrap();
    let rows = db.load_invoices_by_project(jid);
    let numbers: Vec<i32> = rows.iter().map(|n| n.number).collect();
    assert_eq!(numbers, vec![2, 3, 1]);
}

#[test]
fn line_items_come_back_in_saved_order() {
    let mut db = Database::new();
    let pid = db.create_profile(&profile_draft("P")).unwrap();
    let cid = db.create_client(&client_draft("C", "c@x.y", pid)).unwrap();
    let jid = db.create_project(&project_draft("J", cid)).unwrap();
    let items = vec![
        line_item_draft("first", 100),
        line_item_draft("second", 200),
        line_item_draft("third", 300),
    ];
    let nid = db.save_invoice_with_line_items(&invoice_draft(jid, 7, 100), &items).unwrap();
    let listed = db.get_line_items_by_invoice(nid);
    let names: Vec<&str> = listed.iter().map(|t| t.description.as_str()).collect();
    assert_eq!(names, vec!["first", "second", "third"]);
    for pair in listed.windows(2) {
        assert!(pair[0].id < pair[1].id);
    }
}

#[test]
fn creating_under_a_missing_parent_is_refused() {
    let mut db = Database::new();
    // No profile with identity 9 can exist yet.
    assert_eq!(
        db.create_client(&client_draft("C", "c@x.y", 9)).unwrap_err(),
        StorageError::NotFound
    );
    let pid = db.create_profile(&profile_draft("P")).unwrap();
    assert_eq!(db.create_project(&project_draft("J", 99)).unwrap_err(), StorageError::NotFound);
    assert_eq!(db.create_invoice(&invoice_draft(99, 1, 100)).unwrap_err(), StorageError::NotFound);
    let mut stray = line_item_draft("T", 100);
    stray.invoice_id = 99;
    assert_eq!(db.create_line_item(&stray).unwrap_err(), StorageError::NotFound);
    // Saving over an identity no invoice can carry is refused whole.
    let mut ghost_update = invoice_draft(1, 1, 100);
    ghost_update.id = 99;
    assert_eq!(
        db.save_invoice_with_line_items(&ghost_update, &Vec::new()).unwrap_err(),
        StorageError::NotFound
    );
    assert!(db.get_profile(pid).is_ok());
}
