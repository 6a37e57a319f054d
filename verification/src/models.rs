//! The billing hierarchy: profiles own clients, clients own projects,
//! projects own invoices, invoices own line items.
//!
//! Every entity carries a numeric identity; zero means "not yet persisted"
//! (a draft).  Money is held in integer cents per hour and hours in integer
//! hundredths of an hour, so every derived amount is exact.

use vstd::prelude::*;

use crate::date::Date;

verus! {

/// Upper bound on an hourly rate in cents: one million currency units.
pub const RATE_CENTS_MAX: u64 = 100_000_000;

/// Upper bound on a line item's hours in hundredths: one million hours.
pub const HOURS_CENTI_MAX: u64 = 100_000_000;

/// The biller: contact lines and the bank account an invoice names.
#[derive(Debug)]
pub struct Profile {
    pub id: i32,
    pub name: String,
    pub phonenumber: String,
    pub address: Option<String>,
    pub email: String,
    pub bank_name: String,
    pub bank_account_number: String,
    pub bank_routing_number: String,
}

/// A customer of one profile.
#[derive(Debug)]
pub struct Client {
    pub id: i32,
    pub name: String,
    pub phone: String,
    pub address: Option<String>,
    pub email: String,
    pub profile_id: i32,
}

/// A piece of work for one client.
#[derive(Debug)]
pub struct Project {
    pub id: i32,
    pub client_id: i32,
    pub name: String,
    pub start_date: Date,
    pub end_date: Option<Date>,
}

/// A bill for one project, at one hourly rate in cents.
#[derive(Debug)]
pub struct Invoice {
    pub id: i32,
    pub project_id: i32,
    pub number: i32,
    pub submit_date: Date,
    pub due_date: Date,
    pub rate_cents: u64,
    pub status: String,
}

/// One billed position of an invoice; hours in hundredths.
#[derive(Debug)]
pub struct InvoiceLineItem {
    pub id: i32,
    pub invoice_id: i32,
    pub description: String,
    pub hours_centi: u64,
}

/// Mathematical image of a [`Profile`].
pub struct ProfileV {
    pub id: int,
    pub name: Seq<char>,
    pub phonenumber: Seq<char>,
    pub address: Option<Seq<char>>,
    pub email: Seq<char>,
    pub bank_name: Seq<char>,
    pub bank_account_number: Seq<char>,
    pub bank_routing_number: Seq<char>,
}

impl View for Profile {
    type V = ProfileV;

    open spec fn view(&self) -> ProfileV {
        ProfileV {
            id: self.id as int,
            name: self.name@,
            phonenumber: self.phonenumber@,
            address: match self.address {
                Some(a) => Some(a@),
                None => None,
            },
            email: self.email@,
            bank_name: self.bank_name@,
            bank_account_number: self.bank_account_number@,
            bank_routing_number: self.bank_routing_number@,
        }
    }
}

/// Mathematical image of a [`Client`].
pub struct ClientV {
    pub id: int,
    pub name: Seq<char>,
    pub phone: Seq<char>,
    pub address: Option<Seq<char>>,
    pub email: Seq<char>,
    pub profile_id: int,
}

impl View for Client {
    type V = ClientV;

    open spec fn view(&self) -> ClientV {
        ClientV {
            id: self.id as int,
            name: self.name@,
            phone: self.phone@,
            address: match self.address {
                Some(a) => Some(a@),
                None => None,
            },
            email: self.email@,
            profile_id: self.profile_id as int,
        }
    }
}

/// Mathematical image of a [`Project`].
pub struct ProjectV {
    pub id: int,
    pub client_id: int,
    pub name: Seq<char>,
    pub start_date: Date,
    pub end_date: Option<Date>,
}

impl View for Project {
    type V = ProjectV;

    open spec fn view(&self) -> ProjectV {
        ProjectV {
            id: self.id as int,
            client_id: self.client_id as int,
            name: self.name@,
            start_date: self.start_date,
            end_date: self.end_date,
        }
    }
}

/// Mathematical image of an [`Invoice`].
pub struct InvoiceV {
    pub id: int,
    pub project_id: int,
    pub number: int,
    pub submit_date: Date,
    pub due_date: Date,
    pub rate_cents: int,
    pub status: Seq<char>,
}

impl View for Invoice {
    type V = InvoiceV;

    open spec fn view(&self) -> InvoiceV {
        InvoiceV {
            id: self.id as int,
            project_id: self.project_id as int,
            number: self.number as int,
            submit_date: self.submit_date,
            due_date: self.due_date,
            rate_cents: self.rate_cents as int,
            status: self.status@,
        }
    }
}

/// Mathematical image of an [`InvoiceLineItem`].
pub struct InvoiceLineItemV {
    pub id: int,
    pub invoice_id: int,
    pub description: Seq<char>,
    pub hours_centi: int,
}

impl View for InvoiceLineItem {
    type V = InvoiceLineItemV;

    open spec fn view(&self) -> InvoiceLineItemV {
        InvoiceLineItemV {
            id: self.id as int,
            invoice_id: self.invoice_id as int,
            description: self.description@,
            hours_centi: self.hours_centi as int,
        }
    }
}

impl DeepView for Profile {
    type V = ProfileV;

    open spec fn deep_view(&self) -> ProfileV {
        self.view()
    }
}

impl DeepView for Client {
    type V = ClientV;

    open spec fn deep_view(&self) -> ClientV {
        self.view()
    }
}

impl DeepView for Project {
    type V = ProjectV;

    open spec fn deep_view(&self) -> ProjectV {
        self.view()
    }
}

impl DeepView for Invoice {
    type V = InvoiceV;

    open spec fn deep_view(&self) -> InvoiceV {
        self.view()
    }
}

impl DeepView for InvoiceLineItem {
    type V = InvoiceLineItemV;

    open spec fn deep_view(&self) -> InvoiceLineItemV {
        self.view()
    }
}

/// A verified deep copy: the result's mathematical image equals the
/// original's.
pub trait Duplicate: Sized + DeepView {
    /// A field-for-field copy.
    fn duplicate(&self) -> (r: Self)
        ensures
            r.deep_view() == self.deep_view(),
    ;
}

/// Copies an optional text field.
fn duplicate_opt_string(s: &Option<String>) -> (r: Option<String>)
    ensures
        (match (r, s) {
            (Some(a), Some(b)) => a@ == b@,
            (None, None) => true,
            _ => false,
        }),
{
    match s {
        Some(a) => Some(a.clone()),
        None => None,
    }
}

impl Duplicate for Profile {
    fn duplicate(&self) -> (r: Profile) {
        Profile {
            id: self.id,
            name: self.name.clone(),
            phonenumber: self.phonenumber.clone(),
            address: duplicate_opt_string(&self.address),
            email: self.email.clone(),
            bank_name: self.bank_name.clone(),
            bank_account_number: self.bank_account_number.clone(),
            bank_routing_number: self.bank_routing_number.clone(),
        }
    }
}

impl Duplicate for Client {
    fn duplicate(&self) -> (r: Client) {
        Client {
            id: self.id,
            name: self.name.clone(),
            phone: self.phone.clone(),
            address: duplicate_opt_string(&self.address),
            email: self.email.clone(),
            profile_id: self.profile_id,
        }
    }
}

impl Duplicate for Project {
    fn duplicate(&self) -> (r: Project) {
        Project {
            id: self.id,
            client_id: self.client_id,
            name: self.name.clone(),
            start_date: self.start_date,
            end_date: self.end_date,
        }
    }
}

impl Duplicate for Invoice {
    fn duplicate(&self) -> (r: Invoice) {
        Invoice {
            id: self.id,
            project_id: self.project_id,
            number: self.number,
            submit_date: self.submit_date,
            due_date: self.due_date,
            rate_cents: self.rate_cents,
            status: self.status.clone(),
        }
    }
}

impl Duplicate for InvoiceLineItem {
    fn duplicate(&self) -> (r: InvoiceLineItem) {
        InvoiceLineItem {
            id: self.id,
            invoice_id: self.invoice_id,
            description: self.description.clone(),
            hours_centi: self.hours_centi,
        }
    }
}

/// Copies a whole table of rows.
pub fn duplicate_vec<T: Duplicate>(items: &Vec<T>) -> (r: Vec<T>)
    ensures
        r.deep_view() == items.deep_view(),
{
    let mut out: Vec<T> = Vec::new();
    let mut i: usize = 0;
    while i < items.len()
        invariant
            i <= items@.len(),
            out@.len() == i,
            forall|j: int| 0 <= j < i ==> #[trigger] out@[j].deep_view() == items@[j].deep_view(),
        decreases items@.len() - i,
    {
        out.push(items[i].duplicate());
        i = i + 1;
    }
    proof {
        assert forall|j: int| 0 <= j < items@.len() implies out.deep_view()[j]
            == items.deep_view()[j] by {
            assert(out.deep_view()[j] == out@[j].deep_view());
            assert(items.deep_view()[j] == items@[j].deep_view());
        }
        assert(out.deep_view() =~= items.deep_view());
    }
    out
}

} // verus!
