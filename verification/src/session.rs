//! The top-level workflow: one active screen over the storage engine.
//!
//! The session owns the loaded collections and the single active wizard
//! or overlay, dispatches each key to the active component, performs the
//! storage side effect its action asks for, and moves to the next screen
//! with its data re-loaded — load on enter, persist on save, reload the
//! owning list after a child mutation.  It also keeps the ledger of
//! generated document files in step with the email overlay, so that the
//! artifacts are released on every exit path.

use vstd::prelude::*;

use crate::client_wizard::{self, ClientWizardAction, ClientWizardState};
use crate::clients::{self, ClientAction, ClientsState};
use crate::clock::{default_due_date, fresh_invoice_number, today_or_default};
use crate::email_wizard::{self, EmailWizardAction};
use crate::input::Key;
use crate::invoice_gen::InvoiceGenerator;
use crate::invoice_wizard::{self, InvoiceWizardAction, InvoiceWizardState};
use crate::invoices::{self, spec_overlay_artifacts, InvoiceAction, InvoicesState};
use crate::models::{Client, ClientV, Invoice, InvoiceLineItem, Profile, Project, ProjectV};
use crate::profile_wizard::{self, ProfileWizardAction, ProfileWizardState};
use crate::profiles::{self, ProfileAction, ProfilesState};
use crate::project_wizard::{self, ProjectWizardAction, ProjectWizardState};
use crate::projects::{self, ProjectAction, ProjectsState};
use crate::store::{
    spec_delete_client, spec_delete_profile, spec_has_client, spec_has_invoice, spec_has_profile,
    spec_has_project, Database, DatabaseV, StorageError,
};

verus! {

/// The current screen, carrying what is needed to re-enter it.
#[derive(Clone, Copy, PartialEq, Eq, Structural, Debug)]
pub enum AppScreen {
    Profiles,
    ProfileWizard,
    /// Carries the owning profile.
    Clients(i32),
    /// Carries the owning profile.
    ClientWizard(i32),
    /// Carries the owning client.
    Projects(i32),
    /// Carries the owning client.
    ProjectWizard(i32),
    /// Carries the owning project.
    Invoices(i32),
    /// Carries the owning project and the invoice under edit, if any.
    InvoiceWizard(i32, Option<i32>),
}

/// The whole application state: the store, the active screen, the
/// per-screen states, and the ledger of generated files still on disk.
pub struct AppState {
    pub db: Database,
    pub screen: AppScreen,
    pub profiles_state: Option<ProfilesState>,
    pub profile_wizard_state: Option<ProfileWizardState>,
    pub clients_state: Option<ClientsState>,
    pub client_wizard_state: Option<ClientWizardState>,
    pub projects_state: Option<ProjectsState>,
    pub project_wizard_state: Option<ProjectWizardState>,
    pub invoices_state: Option<InvoicesState>,
    pub invoice_wizard_state: Option<InvoiceWizardState>,
    pub temp_files: Vec<String>,
}

/// Mathematical image of the application state.
#[verifier::ext_equal]
pub struct AppStateV {
    pub db: DatabaseV,
    pub screen: AppScreen,
    pub profiles: Option<crate::profiles::ProfilesV>,
    pub profile_wizard: Option<crate::profile_wizard::ProfileWizardV>,
    pub clients: Option<crate::clients::ClientsV>,
    pub client_wizard: Option<crate::client_wizard::ClientWizardV>,
    pub projects: Option<crate::projects::ProjectsV>,
    pub project_wizard: Option<crate::project_wizard::ProjectWizardV>,
    pub invoices: Option<crate::invoices::InvoicesV>,
    pub invoice_wizard: Option<crate::invoice_wizard::InvoiceWizardV>,
    pub temp_files: Seq<Seq<char>>,
}

impl View for AppState {
    type V = AppStateV;

    open spec fn view(&self) -> AppStateV {
        AppStateV {
            db: self.db@,
            screen: self.screen,
            profiles: match self.profiles_state {
                Some(ref s) => Some(s@),
                None => None,
            },
            profile_wizard: match self.profile_wizard_state {
                Some(ref s) => Some(s@),
                None => None,
            },
            clients: match self.clients_state {
                Some(ref s) => Some(s@),
                None => None,
            },
            client_wizard: match self.client_wizard_state {
                Some(ref s) => Some(s@),
                None => None,
            },
            projects: match self.projects_state {
                Some(ref s) => Some(s@),
                None => None,
            },
            project_wizard: match self.project_wizard_state {
                Some(ref s) => Some(s@),
                None => None,
            },
            invoices: match self.invoices_state {
                Some(ref s) => Some(s@),
                None => None,
            },
            invoice_wizard: match self.invoice_wizard_state {
                Some(ref s) => Some(s@),
                None => None,
            },
            temp_files: self.temp_files.deep_view(),
        }
    }
}

impl AppStateV {
    /// The file ledger holds exactly the artifacts the open overlay still
    /// owns — and is empty with no overlay.
    pub open spec fn ledger_ok(self) -> bool {
        self.temp_files == (match self.invoices {
            Some(inv) => match inv.email {
                Some(e) => spec_overlay_artifacts(e),
                None => Seq::<Seq<char>>::empty(),
            },
            None => Seq::<Seq<char>>::empty(),
        })
    }

    /// No overlay is open on the retained invoice list.
    pub open spec fn overlay_closed(self) -> bool {
        match self.invoices {
            Some(inv) => inv.email is None,
            None => true,
        }
    }

    /// The wizard states that exist are well formed; an invoice wizard
    /// editing an existing invoice knows a non-negative identity.
    pub open spec fn wizards_ok(self) -> bool {
        &&& (match self.project_wizard {
            Some(w) => w.wf() && w.project.start_date.valid() && (match w.project.end_date {
                Some(e) => e.valid(),
                None => true,
            }),
            None => true,
        })
        &&& (match self.invoice_wizard {
            Some(w) => w.wf() && (match w.invoice_id {
                Some(i) => 0 <= i,
                None => true,
            }),
            None => true,
        })
    }

    /// The data invariant, away from the active-screen requirement: the
    /// store invariant, the ledger, the wizard states, and an overlay
    /// only while the invoice list is the active screen.
    pub open spec fn inv_data(self) -> bool {
        &&& self.db.inv()
        &&& self.ledger_ok()
        &&& self.wizards_ok()
        &&& ((self.screen matches AppScreen::Invoices(_)) || self.overlay_closed())
    }

    /// The active screen's component state exists.
    pub open spec fn active_ready(self) -> bool {
        match self.screen {
            AppScreen::Profiles => self.profiles is Some,
            AppScreen::ProfileWizard => self.profile_wizard is Some,
            AppScreen::Clients(_) => self.clients is Some,
            AppScreen::ClientWizard(_) => self.client_wizard is Some,
            AppScreen::Projects(_) => self.projects is Some,
            AppScreen::ProjectWizard(_) => self.project_wizard is Some,
            AppScreen::Invoices(_) => self.invoices is Some,
            AppScreen::InvoiceWizard(_, _) => self.invoice_wizard is Some,
        }
    }

    /// The session invariant.
    pub open spec fn wf(self) -> bool {
        self.inv_data() && self.active_ready()
    }
}

impl AppState {
    /// A session over a store, opening on the profile list.
    pub fn new(db: Database) -> (s: AppState)
        requires
            db@.inv(),
        ensures
            s@.wf(),
            s@.db == db@,
            s@.screen == AppScreen::Profiles,
            s@.profiles matches Some(p) && p.profiles == db@.profiles,
            s@.temp_files.len() == 0,
    {
        let profiles = db.load_profiles();
        let s = AppState {
            db,
            screen: AppScreen::Profiles,
            profiles_state: Some(ProfilesState::new(profiles)),
            profile_wizard_state: None,
            clients_state: None,
            client_wizard_state: None,
            projects_state: None,
            project_wizard_state: None,
            invoices_state: None,
            invoice_wizard_state: None,
            temp_files: Vec::new(),
        };
        proof {
            assert(s@.temp_files =~= Seq::<Seq<char>>::empty());
        }
        s
    }

    /// Reloads the profile list and makes it the active screen.
    pub fn load_profiles_screen(&mut self)
        requires
            old(self)@.inv_data(),
            old(self)@.overlay_closed(),
        ensures
            final(self)@.wf(),
            final(self)@.db == old(self)@.db,
            final(self)@.screen == AppScreen::Profiles,
            final(self)@.profiles matches Some(p) && p.profiles == old(self)@.db.profiles
                && !p.confirm,
            final(self)@.temp_files == old(self)@.temp_files,
            final(self)@.invoices == old(self)@.invoices,
    {
        let profiles = self.db.load_profiles();
        self.profiles_state = Some(ProfilesState::new(profiles));
        self.screen = AppScreen::Profiles;
    }

    /// Loads the clients of `profile_id` and enters their list.
    pub fn enter_clients(&mut self, profile_id: i32)
        requires
            old(self)@.inv_data(),
            old(self)@.overlay_closed(),
        ensures
            final(self)@.wf(),
            final(self)@.db == old(self)@.db,
            final(self)@.screen == AppScreen::Clients(profile_id),
            final(self)@.clients matches Some(c) && c.profile_id == profile_id as int
                && c.clients == old(self)@.db.clients.filter(
                |x: ClientV| x.profile_id == profile_id as int,
            ) && !c.confirm,
            final(self)@.temp_files == old(self)@.temp_files,
            final(self)@.invoices == old(self)@.invoices,
    {
        let rows = self.db.load_clients_by_profile(profile_id);
        self.clients_state = Some(ClientsState::new(profile_id, rows));
        self.screen = AppScreen::Clients(profile_id);
    }

    /// Loads the projects of `client_id` and enters their list.
    pub fn enter_projects(&mut self, client_id: i32)
        requires
            old(self)@.inv_data(),
            old(self)@.overlay_closed(),
        ensures
            final(self)@.wf(),
            final(self)@.db == old(self)@.db,
            final(self)@.screen == AppScreen::Projects(client_id),
            final(self)@.projects matches Some(j) && j.client_id == client_id as int
                && j.projects == old(self)@.db.projects.filter(
                |x: ProjectV| x.client_id == client_id as int,
            ) && !j.confirm,
            final(self)@.temp_files == old(self)@.temp_files,
            final(self)@.invoices == old(self)@.invoices,
    {
        let rows = self.db.load_projects_by_client(client_id);
        self.projects_state = Some(ProjectsState::new(client_id, rows));
        self.screen = AppScreen::Projects(client_id);
    }

    /// Loads the invoices of `project_id` together with the project's
    /// display name and enters their list; with the project missing the
    /// transition is aborted and nothing changes.
    pub fn enter_invoices(&mut self, project_id: i32) -> (r: Result<(), StorageError>)
        requires
            old(self)@.inv_data(),
            old(self)@.overlay_closed(),
        ensures
            final(self)@.db == old(self)@.db,
            final(self)@.temp_files == old(self)@.temp_files,
            match r {
                Ok(u) => final(self)@.wf() && final(self)@.screen == AppScreen::Invoices(
                    project_id,
                ) && (final(self)@.invoices matches Some(inv) && inv.project_id
                    == project_id as int && inv.invoices.to_multiset() == old(
                    self,
                )@.db.invoices.filter(
                    |x: crate::models::InvoiceV| x.project_id == project_id as int,
                ).to_multiset() && crate::store::spec_newest_first(inv.invoices)
                    && inv.email is None),
                Err(e) => e == StorageError::NotFound && !spec_has_project(
                    old(self)@.db.projects,
                    project_id as int,
                ) && final(self)@ == old(self)@,
            },
    {
        let project = match self.db.get_project(project_id) {
            Ok(p) => p,
            Err(e) => {
                return Err(e);
            },
        };
        let rows = self.db.load_invoices_by_project(project_id);
        self.invoices_state = Some(InvoicesState::new(project_id, project.name, rows));
        self.screen = AppScreen::Invoices(project_id);
        Ok(())
    }
}


impl AppState {
    /// Persists a profile draft: identity zero inserts, anything else
    /// rewrites the row of that identity.  Only the store moves.
    fn persist_profile(&mut self, profile: &Profile) -> (r: Result<(), StorageError>)
        requires
            old(self)@.db.inv(),
        ensures
            final(self)@.db.inv(),
            final(self)@ == (AppStateV { db: final(self)@.db, ..old(self)@ }),
            final(self)@.db.clients == old(self)@.db.clients,
            final(self)@.db.projects == old(self)@.db.projects,
            final(self)@.db.invoices == old(self)@.db.invoices,
            final(self)@.db.line_items == old(self)@.db.line_items,
            match r {
                Ok(u) => {
                    &&& (profile@.id == 0 ==> final(self)@.db.profiles == old(
                        self,
                    )@.db.profiles.push(
                        crate::store::spec_profile_created(profile@, old(self)@.db.next_id),
                    ))
                    &&& (profile@.id != 0 ==> final(self)@.db.profiles == old(
                        self,
                    )@.db.profiles.map_values(
                        |row: crate::models::ProfileV|
                            if row.id == profile@.id {
                                crate::store::spec_profile_updated(row, profile@)
                            } else {
                                row
                            },
                    ))
                },
                Err(e) => e == StorageError::Full && profile@.id == 0 && old(self)@.db.next_id
                    == i32::MAX && final(self)@.db == old(self)@.db,
            },
    {
        if profile.id == 0 {
            if self.db.next_id == i32::MAX {
                return Err(StorageError::Full);
            }
            match self.db.create_profile(profile) {
                Ok(u) => Ok(()),
                Err(e) => Err(e),
            }
        } else {
            self.db.update_profile(profile)
        }
    }

    /// Persists a client draft; see [`AppState::persist_profile`].
    fn persist_client(&mut self, client: &Client) -> (r: Result<(), StorageError>)
        requires
            old(self)@.db.inv(),
        ensures
            final(self)@.db.inv(),
            final(self)@ == (AppStateV { db: final(self)@.db, ..old(self)@ }),
            final(self)@.db.profiles == old(self)@.db.profiles,
            final(self)@.db.projects == old(self)@.db.projects,
            final(self)@.db.invoices == old(self)@.db.invoices,
            final(self)@.db.line_items == old(self)@.db.line_items,
            match r {
                Ok(u) => {
                    &&& (client@.id == 0 ==> final(self)@.db.clients == old(
                        self,
                    )@.db.clients.push(
                        crate::store::spec_client_created(client@, old(self)@.db.next_id),
                    ))
                    &&& (client@.id != 0 ==> final(self)@.db.clients == old(
                        self,
                    )@.db.clients.map_values(
                        |row: ClientV|
                            if row.id == client@.id {
                                crate::store::spec_client_updated(row, client@)
                            } else {
                                row
                            },
                    ))
                },
                Err(e) => final(self)@.db == old(self)@.db && client@.id == 0 && ((e
                    == StorageError::Full && old(self)@.db.next_id == i32::MAX) || (e
                    == StorageError::NotFound && !(0 <= client@.profile_id < old(
                    self,
                )@.db.next_id))),
            },
            client@.id != 0 ==> r is Ok,
            client@.id == 0 && 0 <= client@.profile_id < old(self)@.db.next_id && old(
                self,
            )@.db.next_id < i32::MAX ==> r is Ok,
    {
        if client.id == 0 {
            if self.db.next_id == i32::MAX {
                return Err(StorageError::Full);
            }
            match self.db.create_client(client) {
                Ok(u) => Ok(()),
                Err(e) => Err(e),
            }
        } else {
            self.db.update_client(client)
        }
    }

    /// Persists a project draft; see [`AppState::persist_profile`].
    fn persist_project(&mut self, project: &Project) -> (r: Result<(), StorageError>)
        requires
            old(self)@.db.inv(),
            project@.start_date.valid(),
            project@.end_date matches Some(e) ==> e.valid(),
        ensures
            final(self)@.db.inv(),
            final(self)@ == (AppStateV { db: final(self)@.db, ..old(self)@ }),
            final(self)@.db.profiles == old(self)@.db.profiles,
            final(self)@.db.clients == old(self)@.db.clients,
            final(self)@.db.invoices == old(self)@.db.invoices,
            final(self)@.db.line_items == old(self)@.db.line_items,
            match r {
                Ok(u) => {
                    &&& (project@.id == 0 ==> final(self)@.db.projects == old(
                        self,
                    )@.db.projects.push(
                        crate::store::spec_project_created(project@, old(self)@.db.next_id),
                    ))
                    &&& (project@.id != 0 ==> final(self)@.db.projects == old(
                        self,
                    )@.db.projects.map_values(
                        |row: ProjectV|
                            if row.id == project@.id {
                                crate::store::spec_project_updated(row, project@)
                            } else {
                                row
                            },
                    ))
                },
                Err(e) => final(self)@.db == old(self)@.db && project@.id == 0 && ((e
                    == StorageError::Full && old(self)@.db.next_id == i32::MAX) || (e
                    == StorageError::NotFound && !(0 <= project@.client_id < old(
                    self,
                )@.db.next_id))),
            },
            project@.id != 0 ==> r is Ok,
            project@.id == 0 && 0 <= project@.client_id < old(self)@.db.next_id && old(
                self,
            )@.db.next_id < i32::MAX ==> r is Ok,
    {
        if project.id == 0 {
            if self.db.next_id == i32::MAX {
                return Err(StorageError::Full);
            }
            match self.db.create_project(project) {
                Ok(u) => Ok(()),
                Err(e) => Err(e),
            }
        } else {
            self.db.update_project(project)
        }
    }

    /// Persists an invoice with its line items in one transaction; see
    /// the store's save operation for the exact shape.
    fn persist_invoice(&mut self, invoice: &Invoice, items: &Vec<InvoiceLineItem>) -> (r: Result<
        i32,
        StorageError,
    >)
        requires
            old(self)@.db.inv(),
            invoice@.rate_cents <= crate::models::RATE_CENTS_MAX,
            invoice@.submit_date.valid(),
            invoice@.due_date.valid(),
            invoice@.number >= 0,
            forall|i: int|
                0 <= i < items@.len() ==> (#[trigger] items@[i])@.hours_centi
                    <= crate::models::HOURS_CENTI_MAX,
        ensures
            final(self)@.db.inv(),
            final(self)@ == (AppStateV { db: final(self)@.db, ..old(self)@ }),
            final(self)@.db.profiles == old(self)@.db.profiles,
            final(self)@.db.clients == old(self)@.db.clients,
            final(self)@.db.projects == old(self)@.db.projects,
            match r {
                Ok(id) => ({
                    let target = if invoice@.id == 0 {
                        old(self)@.db.next_id
                    } else {
                        invoice@.id
                    };
                    let first = if invoice@.id == 0 {
                        old(self)@.db.next_id + 1
                    } else {
                        old(self)@.db.next_id
                    };
                    &&& id as int == target
                    &&& (invoice@.id == 0 ==> final(self)@.db.invoices == old(
                        self,
                    )@.db.invoices.push(crate::store::spec_invoice_created(invoice@, target)))
                    &&& (invoice@.id != 0 ==> final(self)@.db.invoices == old(
                        self,
                    )@.db.invoices.map_values(
                        |x: crate::models::InvoiceV|
                            if x.id == invoice@.id {
                                crate::store::spec_invoice_updated(x, invoice@)
                            } else {
                                x
                            },
                    ))
                    &&& (invoice@.id == 0 ==> final(self)@.db.line_items == old(
                        self,
                    )@.db.line_items + crate::store::spec_items_created(
                        items.deep_view(),
                        first,
                        target,
                    ))
                    &&& (invoice@.id != 0 ==> final(self)@.db.line_items == old(
                        self,
                    )@.db.line_items.filter(
                        |t: crate::models::InvoiceLineItemV| t.invoice_id != target,
                    ) + crate::store::spec_items_created(items.deep_view(), first, target))
                }),
                Err(e) => final(self)@.db == old(self)@.db && (e == StorageError::Full || (e
                    == StorageError::NotFound && !(if invoice@.id == 0 {
                    0 <= invoice@.project_id < old(self)@.db.next_id
                } else {
                    0 < invoice@.id < old(self)@.db.next_id
                }))),
            },
            (if invoice@.id == 0 {
                0 <= invoice@.project_id < old(self)@.db.next_id
            } else {
                0 < invoice@.id < old(self)@.db.next_id
            }) && old(self)@.db.next_id + 1 + items@.len() <= i32::MAX ==> r is Ok,
    {
        let len = items.len();
        if len > (i32::MAX as usize) {
            return Err(StorageError::Full);
        }
        let needed: i64 = (self.db.next_id as i64) + 1 + (len as i64);
        if needed > (i32::MAX as i64) {
            return Err(StorageError::Full);
        }
        self.db.save_invoice_with_line_items(invoice, items)
    }
}


/// What a freshly opened email overlay holds for invoice `invoice_id`
/// over store `db`: the invoice row and its line items, the recipient
/// and subject pre-filled from the owning client and project, the
/// message with the computed total, and the two recorded artifact paths.
pub open spec fn spec_overlay_loaded(
    db: DatabaseV,
    invoice_id: int,
    e: crate::email_wizard::EmailWizardV,
) -> bool {
    match e.invoice {
        Some(nv) => {
            let items_v = db.line_items.filter(
                |t: crate::models::InvoiceLineItemV| t.invoice_id == invoice_id,
            );
            &&& nv.id == invoice_id
            &&& db.invoices.contains(nv)
            &&& e.line_items == Some(items_v)
            &&& e.message == crate::email_wizard::spec_default_message(
                nv,
                crate::money::spec_invoice_total(items_v, nv.rate_cents),
            )
            &&& exists|jv: ProjectV|
                #[trigger] db.projects.contains(jv) && jv.id == nv.project_id && e.subject
                    == crate::email_wizard::spec_subject_line(nv.number, jv.name) && (
                exists|cv: ClientV|
                    #[trigger] db.clients.contains(cv) && cv.id == jv.client_id
                        && e.recipient_email == cv.email)
            &&& e.md_path == Some(crate::invoice_gen::spec_markdown_path("invoices"@, nv.number))
            &&& e.pdf_path == Some(crate::invoice_gen::spec_document_path("invoices"@, nv.number))
            &&& !e.dismissing
        },
        None => false,
    }
}

impl AppState {
    /// Opens the email overlay for invoice `invoice_id` on the invoice
    /// list: loads the invoice, its line items and the owning project,
    /// client and profile chain, pre-fills the message, records the two
    /// generated document paths, and books them into the file ledger.
    /// A missing row aborts the transition and changes nothing.
    fn open_email_overlay(&mut self, invoice_id: i32) -> (r: Result<(), StorageError>)
        requires
            old(self)@.wf(),
            old(self).screen matches AppScreen::Invoices(_),
            old(self)@.overlay_closed(),
        ensures
            final(self)@.wf(),
            final(self)@.db == old(self)@.db,
            final(self)@.screen == old(self).screen,
            match r {
                Ok(u) => final(self)@.invoices matches Some(inv) && inv.email matches Some(e)
                    && spec_overlay_loaded(old(self)@.db, invoice_id as int, e),
                Err(e) => final(self)@ == old(self)@,
            },
    {
        let pair = match self.db.get_invoice_with_line_items(invoice_id) {
            Ok(p) => p,
            Err(e) => {
                return Err(e);
            },
        };
        let invoice = pair.0;
        let items = pair.1;
        let project = match self.db.get_project(invoice.project_id) {
            Ok(p) => p,
            Err(e) => {
                return Err(e);
            },
        };
        let client = match self.db.get_client(project.client_id) {
            Ok(c) => c,
            Err(e) => {
                return Err(e);
            },
        };
        proof {
            let dbv = self@.db;
            assert(dbv.invoices.contains(invoice@));
            let k = choose|k: int| 0 <= k < dbv.invoices.len() && dbv.invoices[k] == invoice@;
            assert(invoice@.number >= 0 && invoice@.submit_date.valid()
                && invoice@.due_date.valid() && 0 <= invoice@.rate_cents
                <= crate::models::RATE_CENTS_MAX);
            crate::store::lemma_filter_subset(
                dbv.line_items,
                |t: crate::models::InvoiceLineItemV| t.invoice_id == invoice_id as int,
            );
            assert forall|i: int|
                0 <= i < items@.len() implies (#[trigger] items@[i])@.hours_centi
                <= crate::models::HOURS_CENTI_MAX by {
                assert(items.deep_view()[i] == items@[i]@);
                assert(dbv.line_items.contains(items.deep_view()[i]));
                let m = choose|m: int|
                    0 <= m < dbv.line_items.len() && dbv.line_items[m] == items.deep_view()[i];
            }
        }
        let generator = InvoiceGenerator::new("invoices");
        let md = generator.markdown_path(invoice.number);
        let pdf = generator.document_path(invoice.number);
        let ghost invoice_v = invoice@;
        let ghost project_v = project@;
        let ghost client_v = client@;
        match &mut self.invoices_state {
            Some(st) => {
                st.start_email_wizard(invoice_id);
                match &mut st.email_wizard_state {
                    Some(e) => {
                        e.load_invoice(invoice, items, project.name, client.email);
                        e.generated_md_path = Some(md.clone());
                        e.generated_pdf_path = Some(pdf.clone());
                    },
                    None => {},
                }
            },
            None => {},
        }
        let mut ledger: Vec<String> = Vec::new();
        ledger.push(md);
        ledger.push(pdf);
        self.temp_files = ledger;
        proof {
            assert(self@.temp_files =~= seq![
                crate::invoice_gen::spec_markdown_path("invoices"@, invoice_v.number),
                crate::invoice_gen::spec_document_path("invoices"@, invoice_v.number),
            ]);
            assert(old(self)@.db.projects.contains(project_v) && project_v.id
                == invoice_v.project_id);
            assert(old(self)@.db.clients.contains(client_v) && client_v.id
                == project_v.client_id);
        }
        Ok(())
    }
}


/// What one key on the profile list does, stated over the session
/// before and after it.
pub open spec fn spec_profiles_screen_post(
    pre: AppStateV,
    post: AppStateV,
    key: Key,
    r: Result<bool, StorageError>,
) -> bool {
    let lst = pre.profiles->Some_0;
    let sel = crate::profiles::spec_selected_profile(lst);
    &&& (((key == Key::Esc || key == Key::Char('q')) && !lst.confirm) <==> r
        == Ok::<bool, StorageError>(true))
    &&& (key == Key::Enter && !lst.confirm && sel is Some ==> r == Ok::<
        bool,
        StorageError,
    >(false) && (post.screen matches AppScreen::Clients(pid) && pid as int
        == sel->Some_0.id) && post.db == pre.db)
    &&& (key == Key::Char('y') && lst.confirm && sel is Some ==> r == Ok::<
        bool,
        StorageError,
    >(false) && post.db == spec_delete_profile(pre.db, sel->Some_0.id) && post.screen == AppScreen::Profiles && (post.profiles matches Some(p)
        && p.profiles == post.db.profiles))
    &&& (key == Key::Char('n') && !lst.confirm ==> r == Ok::<bool, StorageError>(false)
        && post.screen == AppScreen::ProfileWizard && (
    post.profile_wizard matches Some(w) && w.profile.id == 0 && !w.editing)
        && post.db == pre.db)
    &&& (key == Key::Char('e') && !lst.confirm && sel is Some && spec_has_profile(
        pre.db.profiles,
        sel->Some_0.id,
    ) ==> r == Ok::<bool, StorageError>(false) && post.screen
        == AppScreen::ProfileWizard && (post.profile_wizard matches Some(w)
        && w.profile.id == sel->Some_0.id && pre.db.profiles.contains(w.profile)
        && !w.editing) && post.db == pre.db)
    &&& (!(key == Key::Char('y') && lst.confirm && sel is Some) ==> post.db
        == pre.db)
}

/// What one key on the client list does.
pub open spec fn spec_clients_screen_post(
    pre: AppStateV,
    post: AppStateV,
    key: Key,
    r: Result<bool, StorageError>,
) -> bool {
    let lst = pre.clients->Some_0;
    let sel = crate::clients::spec_selected_client(lst);
    &&& (r is Ok ==> r == Ok::<bool, StorageError>(false))
    &&& ((key == Key::Esc || key == Key::Char('q')) && !lst.confirm ==> post.screen == AppScreen::Profiles && post.db == pre.db && (
    post.profiles matches Some(p) && p.profiles == pre.db.profiles))
    &&& (key == Key::Enter && !lst.confirm && sel is Some ==> (
    post.screen matches AppScreen::Projects(cid) && cid as int
        == sel->Some_0.id) && post.db == pre.db)
    &&& (key == Key::Char('y') && lst.confirm && sel is Some ==> post.db
        == spec_delete_client(pre.db, sel->Some_0.id) && post.screen == pre.screen
        && (post.clients matches Some(c) && c.clients
        == post.db.clients.filter(
        |x: ClientV| x.profile_id == lst.profile_id,
    )))
    &&& (key == Key::Char('n') && !lst.confirm ==> (
    post.screen matches AppScreen::ClientWizard(pid) && pid as int
        == lst.profile_id) && (post.client_wizard matches Some(w)
        && w.client.id == 0 && w.client.profile_id == lst.profile_id && !w.editing)
        && post.db == pre.db)
    &&& (key == Key::Char('e') && !lst.confirm && sel is Some && spec_has_client(
        pre.db.clients,
        sel->Some_0.id,
    ) ==> (post.screen matches AppScreen::ClientWizard(pid)) && (
    post.client_wizard matches Some(w) && w.client.id == sel->Some_0.id
        && pre.db.clients.contains(w.client) && !w.editing) && post.db == pre.db)
    &&& (!(key == Key::Char('y') && lst.confirm && sel is Some) ==> post.db
        == pre.db)
}

/// What one key on the project list does.
pub open spec fn spec_projects_screen_post(
    pre: AppStateV,
    post: AppStateV,
    key: Key,
    r: Result<bool, StorageError>,
) -> bool {
    let lst = pre.projects->Some_0;
    let sel = crate::projects::spec_selected_project(lst);
    &&& (r is Ok ==> r == Ok::<bool, StorageError>(false))
    &&& (key == Key::Enter && !lst.confirm && sel is Some && spec_has_project(
        pre.db.projects,
        sel->Some_0.id,
    ) ==> r is Ok && (post.screen matches AppScreen::Invoices(jid)
        && jid as int == sel->Some_0.id) && post.db == pre.db)
    &&& (key == Key::Char('y') && lst.confirm && sel is Some ==> post.db
        == (DatabaseV {
        projects: pre.db.projects.filter(
            |x: ProjectV| x.id != sel->Some_0.id,
        ),
        ..pre.db
    }) && post.screen == pre.screen && (
    post.projects matches Some(j) && j.projects
        == post.db.projects.filter(
        |x: ProjectV| x.client_id == lst.client_id,
    )))
    &&& (key == Key::Char('n') && !lst.confirm ==> (
    post.screen matches AppScreen::ProjectWizard(cid) && cid as int
        == lst.client_id) && (post.project_wizard matches Some(w)
        && w.project.id == 0 && w.project.client_id == lst.client_id && !w.editing)
        && post.db == pre.db)
    &&& (key == Key::Char('e') && !lst.confirm && sel is Some && spec_has_project(
        pre.db.projects,
        sel->Some_0.id,
    ) ==> (post.screen matches AppScreen::ProjectWizard(cid)) && (
    post.project_wizard matches Some(w) && w.project.id == sel->Some_0.id
        && pre.db.projects.contains(w.project) && !w.editing) && post.db
        == pre.db)
    &&& (!(key == Key::Char('y') && lst.confirm && sel is Some) ==> post.db
        == pre.db)
}

/// What one key on the invoice list (or its open overlay) does.
pub open spec fn spec_invoices_screen_post(
    pre: AppStateV,
    post: AppStateV,
    key: Key,
    r: Result<bool, StorageError>,
) -> bool {
    let lst = pre.invoices->Some_0;
    let sel = crate::invoices::spec_selected_invoice(lst);
    &&& (r is Ok ==> r == Ok::<bool, StorageError>(false))
    &&& (post.db == pre.db)
    &&& (lst.email matches Some(e) && e.dismissing ==> post.overlay_closed()
        && post.temp_files.len() == 0 && r is Ok)
    &&& (lst.email matches Some(e) && !e.dismissing && key == Key::Esc ==> post.overlay_closed() && post.temp_files.len() == 0 && r is Ok)
    &&& (lst.email is None && (key == Key::Esc || key == Key::Char('q'))
        && spec_has_project(pre.db.projects, lst.project_id) ==> r is Ok)
    &&& (lst.email is None && key == Key::Char('n') ==> r is Ok && (
    post.screen matches AppScreen::InvoiceWizard(pid, nid) && pid as int
        == lst.project_id && nid is None) && (
    post.invoice_wizard matches Some(w) && w.invoice_id is None
        && w.line_items.len() == 0 && w.rate_cents == 0))
    &&& (lst.email is None && key == Key::Char('e') && sel is Some
        && spec_has_invoice(pre.db.invoices, sel->Some_0.id) ==> r is Ok && (
    post.screen matches AppScreen::InvoiceWizard(pid, nid) && (
    nid matches Some(nid0) && nid0 as int == sel->Some_0.id)) && (
    post.invoice_wizard matches Some(w) && (w.invoice_id matches Some(wid)
        && wid == sel->Some_0.id)))
    &&& (lst.email is None && key == Key::Char('m') && sel is Some
        && spec_has_invoice(pre.db.invoices, sel->Some_0.id) ==> (r is Ok ==> post.screen == pre.screen && (post.invoices matches Some(inv)
        && inv.email matches Some(e) && spec_overlay_loaded(
        pre.db,
        sel->Some_0.id,
        e,
    ))) && (r is Err ==> post == pre))
}

/// What one key in the profile wizard does.
pub open spec fn spec_profile_wizard_screen_post(
    pre: AppStateV,
    post: AppStateV,
    key: Key,
    r: Result<bool, StorageError>,
) -> bool {
    let w = pre.profile_wizard->Some_0;
    &&& (r is Ok ==> r == Ok::<bool, StorageError>(false))
    &&& (key == Key::Esc && !w.editing ==> r is Ok && post.screen
        == AppScreen::Profiles && post.db == pre.db && (
    post.profiles matches Some(p) && p.profiles == pre.db.profiles))
    &&& (key == Key::Char('s') && !w.editing
        && crate::profile_wizard::spec_profile_valid(w.profile) && w.profile.id == 0
        && pre.db.next_id < i32::MAX ==> r is Ok && post.db.profiles
        == pre.db.profiles.push(
        crate::store::spec_profile_created(w.profile, pre.db.next_id),
    ) && post.screen == AppScreen::Profiles && (
    post.profiles matches Some(p) && p.profiles
        == post.db.profiles))
    &&& (key == Key::Char('s') && !w.editing
        && crate::profile_wizard::spec_profile_valid(w.profile) && w.profile.id != 0
        ==> r is Ok && post.db.profiles == pre.db.profiles.map_values(
        |row: crate::models::ProfileV|
            if row.id == w.profile.id {
                crate::store::spec_profile_updated(row, w.profile)
            } else {
                row
            },
    ) && post.screen == AppScreen::Profiles)
    &&& (!(key == Key::Char('s') && !w.editing
        && crate::profile_wizard::spec_profile_valid(w.profile)) ==> post.db
        == pre.db)
}

/// What one key in the client wizard does.
pub open spec fn spec_client_wizard_screen_post(
    pre: AppStateV,
    post: AppStateV,
    key: Key,
    r: Result<bool, StorageError>,
) -> bool {
    let w = pre.client_wizard->Some_0;
    let pid = pre.screen->ClientWizard_0;
    &&& (r is Ok ==> r == Ok::<bool, StorageError>(false))
    &&& (key == Key::Esc && !w.editing ==> r is Ok && post.screen
        == AppScreen::Clients(pid) && post.db == pre.db)
    &&& (key == Key::Char('s') && !w.editing
        && crate::client_wizard::spec_client_valid(w.client) && w.client.id == 0 && 0
        <= w.client.profile_id < pre.db.next_id
        && pre.db.next_id < i32::MAX ==> r is Ok && post.db.clients
        == pre.db.clients.push(
        crate::store::spec_client_created(w.client, pre.db.next_id),
    ) && post.screen == AppScreen::Clients(pid) && (
    post.clients matches Some(c) && c.clients
        == post.db.clients.filter(
        |x: ClientV| x.profile_id == pid as int,
    )))
    &&& (key == Key::Char('s') && !w.editing
        && crate::client_wizard::spec_client_valid(w.client) && w.client.id != 0 ==> r
        is Ok && post.db.clients == pre.db.clients.map_values(
        |row: ClientV|
            if row.id == w.client.id {
                crate::store::spec_client_updated(row, w.client)
            } else {
                row
            },
    ) && post.screen == AppScreen::Clients(pid))
    &&& (!(key == Key::Char('s') && !w.editing
        && crate::client_wizard::spec_client_valid(w.client)) ==> post.db
        == pre.db)
}

/// What one key in the project wizard does.
pub open spec fn spec_project_wizard_screen_post(
    pre: AppStateV,
    post: AppStateV,
    key: Key,
    r: Result<bool, StorageError>,
) -> bool {
    let w = pre.project_wizard->Some_0;
    &&& (r is Ok ==> r == Ok::<bool, StorageError>(false))
    &&& (key == Key::Esc && !w.editing ==> r is Ok && (
    post.screen matches AppScreen::Projects(cid) && cid as int
        == w.client_id) && post.db == pre.db)
    &&& (key == Key::Char('s') && !w.editing
        && crate::project_wizard::spec_project_valid(w.project) && w.project.id == 0 && 0
        <= w.project.client_id < pre.db.next_id
        && pre.db.next_id < i32::MAX ==> r is Ok && post.db.projects
        == pre.db.projects.push(
        crate::store::spec_project_created(w.project, pre.db.next_id),
    ) && (post.screen matches AppScreen::Projects(cid) && cid as int
        == w.project.client_id))
    &&& (key == Key::Char('s') && !w.editing
        && crate::project_wizard::spec_project_valid(w.project) && w.project.id != 0
        ==> r is Ok && post.db.projects == pre.db.projects.map_values(
        |row: ProjectV|
            if row.id == w.project.id {
                crate::store::spec_project_updated(row, w.project)
            } else {
                row
            },
    ))
    &&& (!(key == Key::Char('s') && !w.editing
        && crate::project_wizard::spec_project_valid(w.project)) ==> post.db
        == pre.db)
}

/// What one key in the invoice wizard does.
pub open spec fn spec_invoice_wizard_screen_post(
    pre: AppStateV,
    post: AppStateV,
    key: Key,
    r: Result<bool, StorageError>,
) -> bool {
    let w = pre.invoice_wizard->Some_0;
    let base = crate::invoice_wizard::InvoiceWizardV { show_error: None, ..w };
    let step = crate::invoice_wizard::spec_invoice_step(base, key);
    &&& (r is Ok ==> r == Ok::<bool, StorageError>(false))
    &&& (step.1 is DoSave && w.invoice_id is None && 0 <= w.project_id < pre.db.next_id
        && pre.db.next_id + 1 + w.line_items.len() <= i32::MAX ==> (exists|fb: int|
        0 <= fb < 10000 && post.db.invoices == pre.db.invoices.push(
            crate::store::spec_invoice_created(
                crate::invoice_wizard::spec_to_invoice(base, fb),
                pre.db.next_id,
            ),
        ) && #[trigger] crate::store::spec_items_created(
            w.line_items,
            pre.db.next_id + 1,
            pre.db.next_id,
        ) == post.db.line_items.skip(pre.db.line_items.len() as int)))
    &&& (step.1 is DoCancel || step.1 is DoSave ==> (r is Ok ==> (
    post.screen matches AppScreen::Invoices(pid) && pid as int
        == pre.screen->InvoiceWizard_0 as int)))
    &&& (step.1 is KeepGoing ==> r is Ok && post.db == pre.db && post.screen == pre.screen && post.invoice_wizard == Some(step.0))
}

impl AppState {
    /// One key on the profile list: selection drills down into the
    /// profile's clients, new and edit open the profile wizard, a
    /// confirmed delete cascades through the store and reloads the list,
    /// and Esc asks to leave the application.
    pub fn handle_profiles_screen(&mut self, key: Key) -> (r: Result<bool, StorageError>)
        requires
            old(self)@.wf(),
            old(self).screen == AppScreen::Profiles,
        ensures
            final(self)@.wf(),
            spec_profiles_screen_post(old(self)@, final(self)@, key, r),
    {
        let action = match &mut self.profiles_state {
            Some(st) => profiles::handle_input(st, key),
            None => None,
        };
        match action {
            Some(ProfileAction::Exit) => Ok(true),
            Some(ProfileAction::SelectProfile(id)) => {
                self.enter_clients(id);
                Ok(false)
            },
            Some(ProfileAction::DeleteProfile(id)) => {
                match self.db.delete_profile(id) {
                    Ok(u) => u,
                    Err(e) => {
                        return Err(e);
                    },
                };
                self.load_profiles_screen();
                Ok(false)
            },
            Some(ProfileAction::EditProfile(id)) => {
                match self.db.get_profile(id) {
                    Ok(p) => {
                        self.profile_wizard_state = Some(ProfileWizardState::from_existing(p));
                        self.screen = AppScreen::ProfileWizard;
                        Ok(false)
                    },
                    Err(e) => Err(e),
                }
            },
            Some(ProfileAction::NewProfile) => {
                self.profile_wizard_state = Some(ProfileWizardState::new());
                self.screen = AppScreen::ProfileWizard;
                Ok(false)
            },
            None => Ok(false),
        }
    }

    /// One key on the client list: Back returns to the profiles,
    /// selection drills into the client's projects, new and edit open
    /// the client wizard, a confirmed delete cascades and reloads.
    pub fn handle_clients_screen(&mut self, key: Key) -> (r: Result<bool, StorageError>)
        requires
            old(self)@.wf(),
            old(self).screen matches AppScreen::Clients(_),
        ensures
            final(self)@.wf(),
            spec_clients_screen_post(old(self)@, final(self)@, key, r),
    {
        let action = match &mut self.clients_state {
            Some(st) => clients::handle_input(st, key),
            None => None,
        };
        match action {
            Some(ClientAction::Back) => {
                self.load_profiles_screen();
                Ok(false)
            },
            Some(ClientAction::SelectClient(id)) => {
                self.enter_projects(id);
                Ok(false)
            },
            Some(ClientAction::DeleteClient(id)) => {
                match self.db.delete_client(id) {
                    Ok(u) => u,
                    Err(e) => {
                        return Err(e);
                    },
                };
                let pid = match &self.clients_state {
                    Some(st) => st.profile_id(),
                    None => 0,
                };
                let rows = self.db.load_clients_by_profile(pid);
                self.clients_state = Some(ClientsState::new(pid, rows));
                Ok(false)
            },
            Some(ClientAction::EditClient(id)) => {
                match self.db.get_client(id) {
                    Ok(c) => {
                        let pid = c.profile_id;
                        self.client_wizard_state = Some(ClientWizardState::from_existing(c));
                        self.screen = AppScreen::ClientWizard(pid);
                        Ok(false)
                    },
                    Err(e) => Err(e),
                }
            },
            Some(ClientAction::NewClient(pid)) => {
                self.client_wizard_state = Some(ClientWizardState::new(pid));
                self.screen = AppScreen::ClientWizard(pid);
                Ok(false)
            },
            None => Ok(false),
        }
    }

    /// One key on the project list: Back climbs to the owning profile's
    /// clients, selection drills into the project's invoices, new and
    /// edit open the project wizard, delete removes the single project
    /// row and reloads.
    pub fn handle_projects_screen(&mut self, key: Key) -> (r: Result<bool, StorageError>)
        requires
            old(self)@.wf(),
            old(self).screen matches AppScreen::Projects(_),
        ensures
            final(self)@.wf(),
            spec_projects_screen_post(old(self)@, final(self)@, key, r),
    {
        let action = match &mut self.projects_state {
            Some(st) => projects::handle_input(st, key),
            None => None,
        };
        match action {
            Some(ProjectAction::Back) => {
                let cid = match &self.projects_state {
                    Some(st) => st.client_id(),
                    None => 0,
                };
                match self.db.get_client(cid) {
                    Ok(c) => {
                        self.enter_clients(c.profile_id);
                        Ok(false)
                    },
                    Err(e) => Err(e),
                }
            },
            Some(ProjectAction::SelectProject(id)) => {
                match self.enter_invoices(id) {
                    Ok(u) => Ok(false),
                    Err(e) => Err(e),
                }
            },
            Some(ProjectAction::DeleteProject(id)) => {
                match self.db.delete_project(id) {
                    Ok(u) => u,
                    Err(e) => {
                        return Err(e);
                    },
                };
                let cid = match &self.projects_state {
                    Some(st) => st.client_id(),
                    None => 0,
                };
                let rows = self.db.load_projects_by_client(cid);
                self.projects_state = Some(ProjectsState::new(cid, rows));
                Ok(false)
            },
            Some(ProjectAction::EditProject(id)) => {
                match self.db.get_project(id) {
                    Ok(j) => {
                        proof {
                            let dbv = old(self)@.db;
                            let k = choose|k: int|
                                0 <= k < dbv.projects.len() && dbv.projects[k] == j@;
                        }
                        let cid = j.client_id;
                        self.project_wizard_state = Some(ProjectWizardState::from_existing(j));
                        self.screen = AppScreen::ProjectWizard(cid);
                        Ok(false)
                    },
                    Err(e) => Err(e),
                }
            },
            Some(ProjectAction::NewProject(cid)) => {
                let today = today_or_default();
                self.project_wizard_state = Some(ProjectWizardState::new(cid, today));
                self.screen = AppScreen::ProjectWizard(cid);
                Ok(false)
            },
            None => Ok(false),
        }
    }
}


impl AppState {
    /// One key on the invoice list.  A dismissing overlay is forced
    /// closed and cleaned before anything else.  An open overlay takes
    /// the key itself: Esc cancels it — releasing the generated files,
    /// always, from any field — and a validated send hands the message
    /// off and likewise closes and cleans.  With no overlay: Back climbs
    /// to the owning client's projects, new and edit open the invoice
    /// wizard, and the mail key opens the overlay for the selection.
    pub fn handle_invoices_screen(&mut self, key: Key) -> (r: Result<bool, StorageError>)
        requires
            old(self)@.wf(),
            old(self).screen matches AppScreen::Invoices(_),
        ensures
            final(self)@.wf(),
            spec_invoices_screen_post(old(self)@, final(self)@, key, r),
    {
        // A dismissing overlay is forced closed before any dispatch.
        let dismissing = match &self.invoices_state {
            Some(st) => match &st.email_wizard_state {
                Some(e) => e.is_dismissing(),
                None => false,
            },
            None => false,
        };
        if dismissing {
            match &mut self.invoices_state {
                Some(st) => {
                    let _released = st.force_close_email_wizard();
                },
                None => {},
            }
            self.temp_files = Vec::new();
            proof {
                assert(self@.temp_files =~= Seq::<Seq<char>>::empty());
            }
            return Ok(false);
        }
        let in_overlay = match &self.invoices_state {
            Some(st) => st.is_in_email_wizard(),
            None => false,
        };
        if in_overlay {
            let outcome = match &mut self.invoices_state {
                Some(st) => match &mut st.email_wizard_state {
                    Some(e) => email_wizard::handle_input(e, key),
                    None => None,
                },
                None => None,
            };
            match outcome {
                Some(EmailWizardAction::Cancel) => {
                    match &mut self.invoices_state {
                        Some(st) => {
                            let _released = st.close_email_wizard();
                        },
                        None => {},
                    }
                    self.temp_files = Vec::new();
                    proof {
                        assert(self@.temp_files =~= Seq::<Seq<char>>::empty());
                    }
                },
                Some(EmailWizardAction::Send) => {
                    // This reference session's mail collaborator accepts
                    // the hand-off; the overlay applies the outcome and
                    // releases its files.
                    match &mut self.invoices_state {
                        Some(st) => {
                            match &mut st.email_wizard_state {
                                Some(e) => {
                                    let _released = e.apply_send_outcome(true);
                                },
                                None => {},
                            }
                            let _closed = st.close_email_wizard();
                        },
                        None => {},
                    }
                    self.temp_files = Vec::new();
                    proof {
                        assert(self@.temp_files =~= Seq::<Seq<char>>::empty());
                    }
                },
                None => {},
            }
            return Ok(false);
        }
        let action = match &mut self.invoices_state {
            Some(st) => invoices::handle_input(st, key),
            None => None,
        };
        match action {
            Some(InvoiceAction::Back) => {
                let pid = match &self.invoices_state {
                    Some(st) => st.project_id(),
                    None => 0,
                };
                match self.db.get_project(pid) {
                    Ok(j) => {
                        self.enter_projects(j.client_id);
                        Ok(false)
                    },
                    Err(e) => Err(e),
                }
            },
            Some(InvoiceAction::NewInvoice(pid)) => {
                let today = today_or_default();
                let due = default_due_date(today);
                self.invoice_wizard_state = Some(
                    InvoiceWizardState::new(pid, None, None, None, today, due),
                );
                self.screen = AppScreen::InvoiceWizard(pid, None);
                Ok(false)
            },
            Some(InvoiceAction::EditInvoice(id)) => {
                match self.db.get_invoice_with_line_items(id) {
                    Ok(pair) => {
                        let invoice = pair.0;
                        let items = pair.1;
                        proof {
                            let dbv = old(self)@.db;
                            assert(dbv.invoices.contains(invoice@));
                            let k = choose|k: int|
                                0 <= k < dbv.invoices.len() && dbv.invoices[k] == invoice@;
                            crate::store::lemma_filter_subset(
                                dbv.line_items,
                                |t: crate::models::InvoiceLineItemV| t.invoice_id == id as int,
                            );
                            assert forall|i: int|
                                0 <= i < items@.len() implies (
                            #[trigger] items@[i])@.hours_centi
                                <= crate::models::HOURS_CENTI_MAX by {
                                assert(items.deep_view()[i] == items@[i]@);
                                assert(dbv.line_items.contains(items.deep_view()[i]));
                                let m = choose|m: int|
                                    0 <= m < dbv.line_items.len() && dbv.line_items[m]
                                        == items.deep_view()[i];
                            }
                        }
                        let pid = invoice.project_id;
                        let today = today_or_default();
                        let due = default_due_date(today);
                        self.invoice_wizard_state = Some(
                            InvoiceWizardState::new(
                                pid,
                                Some(id),
                                Some(invoice),
                                Some(items),
                                today,
                                due,
                            ),
                        );
                        self.screen = AppScreen::InvoiceWizard(pid, Some(id));
                        Ok(false)
                    },
                    Err(e) => Err(e),
                }
            },
            Some(InvoiceAction::EmailInvoice(id)) => {
                match self.open_email_overlay(id) {
                    Ok(u) => Ok(false),
                    Err(e) => Err(e),
                }
            },
            None => Ok(false),
        }
    }
}


impl AppState {
    /// One key in the profile wizard: a valid save persists the draft —
    /// inserting an identity-zero draft, rewriting an existing row — and
    /// returns to the reloaded profile list; Cancel discards the draft
    /// and returns likewise.
    pub fn handle_profile_wizard_screen(&mut self, key: Key) -> (r: Result<bool, StorageError>)
        requires
            old(self)@.wf(),
            old(self).screen == AppScreen::ProfileWizard,
        ensures
            final(self)@.wf(),
            spec_profile_wizard_screen_post(old(self)@, final(self)@, key, r),
    {
        let action = match &mut self.profile_wizard_state {
            Some(st) => profile_wizard::handle_input(st, key),
            None => None,
        };
        match action {
            Some(ProfileWizardAction::Cancel) => {
                self.load_profiles_screen();
                Ok(false)
            },
            Some(ProfileWizardAction::Save(profile)) => {
                match self.persist_profile(&profile) {
                    Ok(u) => u,
                    Err(e) => {
                        return Err(e);
                    },
                };
                self.load_profiles_screen();
                Ok(false)
            },
            None => Ok(false),
        }
    }

    /// One key in the client wizard: save persists and returns to the
    /// reloaded client list of the owning profile, Cancel returns alike.
    pub fn handle_client_wizard_screen(&mut self, key: Key) -> (r: Result<bool, StorageError>)
        requires
            old(self)@.wf(),
            old(self).screen matches AppScreen::ClientWizard(_),
        ensures
            final(self)@.wf(),
            spec_client_wizard_screen_post(old(self)@, final(self)@, key, r),
    {
        let pid = match self.screen {
            AppScreen::ClientWizard(p) => p,
            _ => 0,
        };
        let action = match &mut self.client_wizard_state {
            Some(st) => client_wizard::handle_input(st, key),
            None => None,
        };
        match action {
            Some(ClientWizardAction::Cancel) => {
                self.enter_clients(pid);
                Ok(false)
            },
            Some(ClientWizardAction::Save(client)) => {
                match self.persist_client(&client) {
                    Ok(u) => u,
                    Err(e) => {
                        return Err(e);
                    },
                };
                self.enter_clients(pid);
                Ok(false)
            },
            None => Ok(false),
        }
    }

    /// One key in the project wizard: save persists and returns to the
    /// reloaded project list of the saved project's client, Cancel
    /// returns to the wizard's own client list.
    pub fn handle_project_wizard_screen(&mut self, key: Key) -> (r: Result<bool, StorageError>)
        requires
            old(self)@.wf(),
            old(self).screen matches AppScreen::ProjectWizard(_),
        ensures
            final(self)@.wf(),
            spec_project_wizard_screen_post(old(self)@, final(self)@, key, r),
    {
        let action = match &mut self.project_wizard_state {
            Some(st) => project_wizard::handle_input(st, key),
            None => None,
        };
        match action {
            Some(ProjectWizardAction::Cancel) => {
                let cid = match &self.project_wizard_state {
                    Some(st) => st.client_id(),
                    None => 0,
                };
                self.enter_projects(cid);
                Ok(false)
            },
            Some(ProjectWizardAction::Save(project)) => {
                let cid = project.client_id;
                match self.persist_project(&project) {
                    Ok(u) => u,
                    Err(e) => {
                        return Err(e);
                    },
                };
                self.enter_projects(cid);
                Ok(false)
            },
            None => Ok(false),
        }
    }

    /// One key in the invoice wizard: a valid save runs the one-save
    /// transaction — insert or rewrite the invoice, replace its line
    /// items — and returns to the reloaded invoice list; Cancel returns
    /// likewise.  A fresh invoice draws its number from the clock.
    pub fn handle_invoice_wizard_screen(&mut self, key: Key) -> (r: Result<bool, StorageError>)
        requires
            old(self)@.wf(),
            old(self).screen matches AppScreen::InvoiceWizard(_, _),
        ensures
            final(self)@.wf(),
            spec_invoice_wizard_screen_post(old(self)@, final(self)@, key, r),
    {
        let pid = match self.screen {
            AppScreen::InvoiceWizard(p, _) => p,
            _ => 0,
        };
        let fallback = fresh_invoice_number();
        let action = match &mut self.invoice_wizard_state {
            Some(st) => invoice_wizard::handle_input(st, key, fallback),
            None => None,
        };
        match action {
            Some(InvoiceWizardAction::Cancel) => {
                match self.enter_invoices(pid) {
                    Ok(u) => Ok(false),
                    Err(e) => Err(e),
                }
            },
            Some(InvoiceWizardAction::Save(invoice, items)) => {
                let ghost w = old(self)@.invoice_wizard->Some_0;
                let ghost base = crate::invoice_wizard::InvoiceWizardV { show_error: None, ..w };
                let ghost pre_db = self@.db;
                proof {
                    crate::text::lemma_parse_fixed2_bound(base.active_input);
                    assert forall|i: int|
                        0 <= i < items@.len() implies (#[trigger] items@[i])@.hours_centi
                        <= crate::models::HOURS_CENTI_MAX by {
                        assert(items.deep_view()[i] == items@[i]@);
                    }
                }
                match self.persist_invoice(&invoice, &items) {
                    Ok(u) => u,
                    Err(e) => {
                        return Err(e);
                    },
                };
                proof {
                    if w.invoice_id is None {
                        let created = crate::store::spec_items_created(
                            w.line_items,
                            pre_db.next_id + 1,
                            pre_db.next_id,
                        );
                        assert((pre_db.line_items + created).skip(pre_db.line_items.len() as int)
                            =~= created);
                    }
                }
                match self.enter_invoices(pid) {
                    Ok(u) => Ok(false),
                    Err(e) => Err(e),
                }
            },
            None => Ok(false),
        }
    }

    /// One key, wherever the workflow stands: the key goes to the active
    /// screen, and the whole transition table holds — each screen's step
    /// predicate is promised under the screen that was active.  The quit
    /// flag comes back true only from the profile list's exit key.
    pub fn handle_key(&mut self, key: Key) -> (r: Result<bool, StorageError>)
        requires
            old(self)@.wf(),
        ensures
            final(self)@.wf(),
            r == Ok::<bool, StorageError>(true) ==> old(self).screen == AppScreen::Profiles,
            old(self).screen == AppScreen::Profiles ==> spec_profiles_screen_post(
                old(self)@,
                final(self)@,
                key,
                r,
            ),
            old(self).screen == AppScreen::ProfileWizard ==> spec_profile_wizard_screen_post(
                old(self)@,
                final(self)@,
                key,
                r,
            ),
            (old(self).screen matches AppScreen::Clients(_)) ==> spec_clients_screen_post(
                old(self)@,
                final(self)@,
                key,
                r,
            ),
            (old(self).screen matches AppScreen::ClientWizard(_))
                ==> spec_client_wizard_screen_post(old(self)@, final(self)@, key, r),
            (old(self).screen matches AppScreen::Projects(_)) ==> spec_projects_screen_post(
                old(self)@,
                final(self)@,
                key,
                r,
            ),
            (old(self).screen matches AppScreen::ProjectWizard(_))
                ==> spec_project_wizard_screen_post(old(self)@, final(self)@, key, r),
            (old(self).screen matches AppScreen::Invoices(_)) ==> spec_invoices_screen_post(
                old(self)@,
                final(self)@,
                key,
                r,
            ),
            (old(self).screen matches AppScreen::InvoiceWizard(_, _))
                ==> spec_invoice_wizard_screen_post(old(self)@, final(self)@, key, r),
    {
        match self.screen {
            AppScreen::Profiles => self.handle_profiles_screen(key),
            AppScreen::ProfileWizard => self.handle_profile_wizard_screen(key),
            AppScreen::Clients(_) => self.handle_clients_screen(key),
            AppScreen::ClientWizard(_) => self.handle_client_wizard_screen(key),
            AppScreen::Projects(_) => self.handle_projects_screen(key),
            AppScreen::ProjectWizard(_) => self.handle_project_wizard_screen(key),
            AppScreen::Invoices(_) => self.handle_invoices_screen(key),
            AppScreen::InvoiceWizard(_, _) => self.handle_invoice_wizard_screen(key),
        }
    }
}

} // verus!
