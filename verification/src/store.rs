//! The storage engine the workflow runs against: tables of rows with
//! unique identities, plain CRUD, and the transactional cascading delete.
//!
//! Identity zero marks a draft; inserting assigns the next free identity.
//! Every mutating operation states exactly which rows it touches.  The
//! cascading deletes accept an injected fault budget — the number of
//! delete statements allowed to run — and guarantee all-or-nothing: on a
//! fault nothing at all has changed.

use vstd::prelude::*;

use crate::models::{
    duplicate_vec, Client, ClientV, Duplicate, Invoice, InvoiceLineItem, InvoiceLineItemV,
    InvoiceV, Profile, ProfileV, Project, ProjectV, HOURS_CENTI_MAX, RATE_CENTS_MAX,
};

use crate::date::Date;

verus! {

/// Why a storage operation failed.
#[derive(Clone, Copy, PartialEq, Eq, Structural, Debug)]
pub enum StorageError {
    /// No row with the requested identity.
    NotFound,
    /// The surrounding transaction failed and was rolled back.
    TransactionFailed,
    /// The identity space is exhausted; nothing can be inserted.
    Full,
}

/// All five tables and the next free identity.
pub struct Database {
    pub profiles: Vec<Profile>,
    pub clients: Vec<Client>,
    pub projects: Vec<Project>,
    pub invoices: Vec<Invoice>,
    pub line_items: Vec<InvoiceLineItem>,
    pub next_id: i32,
}

/// Mathematical image of the whole store.
#[verifier::ext_equal]
pub struct DatabaseV {
    pub profiles: Seq<ProfileV>,
    pub clients: Seq<ClientV>,
    pub projects: Seq<ProjectV>,
    pub invoices: Seq<InvoiceV>,
    pub line_items: Seq<InvoiceLineItemV>,
    pub next_id: int,
}

impl View for Database {
    type V = DatabaseV;

    open spec fn view(&self) -> DatabaseV {
        DatabaseV {
            profiles: self.profiles.deep_view(),
            clients: self.clients.deep_view(),
            projects: self.projects.deep_view(),
            invoices: self.invoices.deep_view(),
            line_items: self.line_items.deep_view(),
            next_id: self.next_id as int,
        }
    }
}

/// Whether some profile row carries `id`.
pub open spec fn spec_has_profile(s: Seq<ProfileV>, id: int) -> bool {
    exists|i: int| 0 <= i < s.len() && (#[trigger] s[i]).id == id
}

/// Whether some client row carries `id`.
pub open spec fn spec_has_client(s: Seq<ClientV>, id: int) -> bool {
    exists|i: int| 0 <= i < s.len() && (#[trigger] s[i]).id == id
}

/// Whether some project row carries `id`.
pub open spec fn spec_has_project(s: Seq<ProjectV>, id: int) -> bool {
    exists|i: int| 0 <= i < s.len() && (#[trigger] s[i]).id == id
}

/// Line item rows carry strictly ascending identities, in table order:
/// rows are only ever appended under a fresh identity.
pub open spec fn spec_items_ascending(s: Seq<InvoiceLineItemV>) -> bool {
    forall|i: int, j: int|
        0 <= i < j < s.len() ==> (#[trigger] s[i]).id < (#[trigger] s[j]).id
}

/// Whether some invoice row carries `id`.
pub open spec fn spec_has_invoice(s: Seq<InvoiceV>, id: int) -> bool {
    exists|i: int| 0 <= i < s.len() && (#[trigger] s[i]).id == id
}

impl DatabaseV {
    /// Identities are unique per table, positive, and below the next free
    /// one; money fields stay within the exact-arithmetic bounds.
    pub open spec fn inv(self) -> bool {
        &&& forall|i: int, j: int|
            0 <= i < j < self.profiles.len() ==> (#[trigger] self.profiles[i]).id != (
            #[trigger] self.profiles[j]).id
        &&& forall|i: int, j: int|
            0 <= i < j < self.clients.len() ==> (#[trigger] self.clients[i]).id != (
            #[trigger] self.clients[j]).id
        &&& forall|i: int, j: int|
            0 <= i < j < self.projects.len() ==> (#[trigger] self.projects[i]).id != (
            #[trigger] self.projects[j]).id
        &&& forall|i: int, j: int|
            0 <= i < j < self.invoices.len() ==> (#[trigger] self.invoices[i]).id != (
            #[trigger] self.invoices[j]).id
        &&& forall|i: int, j: int|
            0 <= i < j < self.line_items.len() ==> (#[trigger] self.line_items[i]).id != (
            #[trigger] self.line_items[j]).id
        &&& forall|i: int|
            0 <= i < self.profiles.len() ==> 1 <= (#[trigger] self.profiles[i]).id < self.next_id
        &&& forall|i: int|
            0 <= i < self.clients.len() ==> 1 <= (#[trigger] self.clients[i]).id < self.next_id
        &&& forall|i: int|
            0 <= i < self.projects.len() ==> 1 <= (#[trigger] self.projects[i]).id < self.next_id
        &&& forall|i: int|
            0 <= i < self.invoices.len() ==> 1 <= (#[trigger] self.invoices[i]).id < self.next_id
        &&& forall|i: int|
            0 <= i < self.line_items.len() ==> 1 <= (#[trigger] self.line_items[i]).id
                < self.next_id
        &&& forall|i: int|
            0 <= i < self.invoices.len() ==> 0 <= (#[trigger] self.invoices[i]).rate_cents
                <= RATE_CENTS_MAX
        &&& forall|i: int|
            0 <= i < self.line_items.len() ==> 0 <= (#[trigger] self.line_items[i]).hours_centi
                <= HOURS_CENTI_MAX
        &&& forall|i: int|
            0 <= i < self.projects.len() ==> (#[trigger] self.projects[i]).start_date.valid()
                && (match self.projects[i].end_date {
                Some(e) => e.valid(),
                None => true,
            })
        &&& forall|i: int|
            0 <= i < self.invoices.len() ==> (#[trigger] self.invoices[i]).submit_date.valid()
                && self.invoices[i].due_date.valid() && self.invoices[i].number >= 0
        &&& forall|i: int|
            0 <= i < self.clients.len() ==> 0 <= (#[trigger] self.clients[i]).profile_id
                < self.next_id
        &&& forall|i: int|
            0 <= i < self.projects.len() ==> 0 <= (#[trigger] self.projects[i]).client_id
                < self.next_id
        &&& forall|i: int|
            0 <= i < self.invoices.len() ==> 0 <= (#[trigger] self.invoices[i]).project_id
                < self.next_id
        &&& forall|i: int|
            0 <= i < self.line_items.len() ==> 0 <= (#[trigger] self.line_items[i]).invoice_id
                < self.next_id
        &&& spec_items_ascending(self.line_items)
        &&& 1 <= self.next_id
    }
}

/// A profile row after an update: every field from `p` but the identity.
pub open spec fn spec_profile_updated(row: ProfileV, p: ProfileV) -> ProfileV {
    ProfileV {
        id: row.id,
        name: p.name,
        phonenumber: p.phonenumber,
        address: p.address,
        email: p.email,
        bank_name: p.bank_name,
        bank_account_number: p.bank_account_number,
        bank_routing_number: p.bank_routing_number,
    }
}

/// A client row after an update: contact fields from `c`, identity and
/// owner kept.
pub open spec fn spec_client_updated(row: ClientV, c: ClientV) -> ClientV {
    ClientV {
        id: row.id,
        name: c.name,
        phone: c.phone,
        address: c.address,
        email: c.email,
        profile_id: row.profile_id,
    }
}

/// A project row after an update: name and dates from `j`, identity and
/// owner kept.
pub open spec fn spec_project_updated(row: ProjectV, j: ProjectV) -> ProjectV {
    ProjectV {
        id: row.id,
        client_id: row.client_id,
        name: j.name,
        start_date: j.start_date,
        end_date: j.end_date,
    }
}

/// An invoice row after an update: dates, rate and status from `n`;
/// identity, owner and number kept.
pub open spec fn spec_invoice_updated(row: InvoiceV, n: InvoiceV) -> InvoiceV {
    InvoiceV {
        id: row.id,
        project_id: row.project_id,
        number: row.number,
        submit_date: n.submit_date,
        due_date: n.due_date,
        rate_cents: n.rate_cents,
        status: n.status,
    }
}


/// A freshly inserted profile row: the assigned identity, all else given.
pub open spec fn spec_profile_created(p: ProfileV, id: int) -> ProfileV {
    ProfileV {
        id: id,
        name: p.name,
        phonenumber: p.phonenumber,
        address: p.address,
        email: p.email,
        bank_name: p.bank_name,
        bank_account_number: p.bank_account_number,
        bank_routing_number: p.bank_routing_number,
    }
}

/// A freshly inserted client row.
pub open spec fn spec_client_created(c: ClientV, id: int) -> ClientV {
    ClientV {
        id: id,
        name: c.name,
        phone: c.phone,
        address: c.address,
        email: c.email,
        profile_id: c.profile_id,
    }
}

/// A freshly inserted project row.
pub open spec fn spec_project_created(j: ProjectV, id: int) -> ProjectV {
    ProjectV {
        id: id,
        client_id: j.client_id,
        name: j.name,
        start_date: j.start_date,
        end_date: j.end_date,
    }
}

/// A freshly inserted invoice row.
pub open spec fn spec_invoice_created(n: InvoiceV, id: int) -> InvoiceV {
    InvoiceV {
        id: id,
        project_id: n.project_id,
        number: n.number,
        submit_date: n.submit_date,
        due_date: n.due_date,
        rate_cents: n.rate_cents,
        status: n.status,
    }
}

/// A freshly inserted line item row, rebound to its invoice.
pub open spec fn spec_line_item_created(t: InvoiceLineItemV, id: int, invoice_id: int) -> InvoiceLineItemV {
    InvoiceLineItemV {
        id: id,
        invoice_id: invoice_id,
        description: t.description,
        hours_centi: t.hours_centi,
    }
}


/// A line item row after an update: description and hours from `u`,
/// identity and owning invoice kept.
pub open spec fn spec_line_item_updated(row: InvoiceLineItemV, u: InvoiceLineItemV) -> InvoiceLineItemV {
    InvoiceLineItemV {
        id: row.id,
        invoice_id: row.invoice_id,
        description: u.description,
        hours_centi: u.hours_centi,
    }
}

/// The rows a saved line item list becomes: consecutive fresh identities
/// from `first_id` on, all bound to `invoice_id`.
pub open spec fn spec_items_created(
    items: Seq<InvoiceLineItemV>,
    first_id: int,
    invoice_id: int,
) -> Seq<InvoiceLineItemV> {
    Seq::new(items.len(), |i: int| spec_line_item_created(items[i], first_id + i, invoice_id))
}


/// Whether project `j` hangs under profile `pid` through some client row.
pub open spec fn spec_project_under_profile(clients: Seq<ClientV>, j: ProjectV, pid: int) -> bool {
    exists|k: int|
        0 <= k < clients.len() && (#[trigger] clients[k]).id == j.client_id
            && clients[k].profile_id == pid
}

/// Whether invoice `n` hangs under profile `pid` through some project row.
pub open spec fn spec_invoice_under_profile(
    clients: Seq<ClientV>,
    projects: Seq<ProjectV>,
    n: InvoiceV,
    pid: int,
) -> bool {
    exists|k: int|
        0 <= k < projects.len() && (#[trigger] projects[k]).id == n.project_id
            && spec_project_under_profile(clients, projects[k], pid)
}

/// Whether line item `t` hangs under profile `pid` through some invoice row.
pub open spec fn spec_item_under_profile(
    clients: Seq<ClientV>,
    projects: Seq<ProjectV>,
    invoices: Seq<InvoiceV>,
    t: InvoiceLineItemV,
    pid: int,
) -> bool {
    exists|k: int|
        0 <= k < invoices.len() && (#[trigger] invoices[k]).id == t.invoice_id
            && spec_invoice_under_profile(clients, projects, invoices[k], pid)
}

/// Whether invoice `n` hangs under client `cid` through some project row.
pub open spec fn spec_invoice_under_client(projects: Seq<ProjectV>, n: InvoiceV, cid: int) -> bool {
    exists|k: int|
        0 <= k < projects.len() && (#[trigger] projects[k]).id == n.project_id
            && projects[k].client_id == cid
}

/// Whether line item `t` hangs under client `cid` through some invoice row.
pub open spec fn spec_item_under_client(
    projects: Seq<ProjectV>,
    invoices: Seq<InvoiceV>,
    t: InvoiceLineItemV,
    cid: int,
) -> bool {
    exists|k: int|
        0 <= k < invoices.len() && (#[trigger] invoices[k]).id == t.invoice_id
            && spec_invoice_under_client(projects, invoices[k], cid)
}

/// The store after the cascading delete of profile `pid`: the profile,
/// its clients, their projects, those projects' invoices and their line
/// items are gone; every other row stays.
pub open spec fn spec_delete_profile(db: DatabaseV, pid: int) -> DatabaseV {
    DatabaseV {
        profiles: db.profiles.filter(|p: ProfileV| p.id != pid),
        clients: db.clients.filter(|c: ClientV| c.profile_id != pid),
        projects: db.projects.filter(
            |j: ProjectV| !spec_project_under_profile(db.clients, j, pid),
        ),
        invoices: db.invoices.filter(
            |n: InvoiceV| !spec_invoice_under_profile(db.clients, db.projects, n, pid),
        ),
        line_items: db.line_items.filter(
            |t: InvoiceLineItemV|
                !spec_item_under_profile(db.clients, db.projects, db.invoices, t, pid),
        ),
        next_id: db.next_id,
    }
}

/// The store after the cascading delete of client `cid`, one level down.
pub open spec fn spec_delete_client(db: DatabaseV, cid: int) -> DatabaseV {
    DatabaseV {
        profiles: db.profiles,
        clients: db.clients.filter(|c: ClientV| c.id != cid),
        projects: db.projects.filter(|j: ProjectV| j.client_id != cid),
        invoices: db.invoices.filter(|n: InvoiceV| !spec_invoice_under_client(db.projects, n, cid)),
        line_items: db.line_items.filter(
            |t: InvoiceLineItemV| !spec_item_under_client(db.projects, db.invoices, t, cid),
        ),
        next_id: db.next_id,
    }
}

/// Projects of one client, counted.
pub open spec fn spec_count_projects_of(projects: Seq<ProjectV>, cid: int) -> int {
    projects.filter(|j: ProjectV| j.client_id == cid).len() as int
}

/// Delete statements the profile cascade issues over a list of clients:
/// for each client of the profile, one per-project pair of statements
/// (line items, invoices) and one statement for its projects.
pub open spec fn spec_steps_over_clients(
    clients: Seq<ClientV>,
    projects: Seq<ProjectV>,
    pid: int,
) -> int
    decreases clients.len(),
{
    if clients.len() == 0 {
        0
    } else {
        spec_steps_over_clients(clients.drop_last(), projects, pid) + (
        if clients.last().profile_id == pid {
            2 * spec_count_projects_of(projects, clients.last().id) + 1
        } else {
            0
        })
    }
}

/// Delete statements of the whole profile cascade: the per-client work,
/// one statement for the clients and one for the profile itself.
pub open spec fn spec_profile_cascade_steps(db: DatabaseV, pid: int) -> int {
    2 + spec_steps_over_clients(db.clients, db.projects, pid)
}

/// Delete statements of the client cascade: two per project, one for the
/// projects and one for the client.
pub open spec fn spec_client_cascade_steps(db: DatabaseV, cid: int) -> int {
    2 * spec_count_projects_of(db.projects, cid) + 2
}

/// Prefixes of the client list never need more statements than the whole.
pub proof fn lemma_steps_over_clients_mono(
    clients: Seq<ClientV>,
    projects: Seq<ProjectV>,
    pid: int,
    i: int,
)
    requires
        0 <= i <= clients.len(),
    ensures
        spec_steps_over_clients(clients.subrange(0, i), projects, pid) <= spec_steps_over_clients(
            clients,
            projects,
            pid,
        ),
        spec_steps_over_clients(clients, projects, pid) >= 0,
    decreases clients.len(),
{
    broadcast use vstd::seq_lib::group_filter_ensures;

    if clients.len() == 0 {
        assert(clients.subrange(0, i) =~= clients);
    } else if i == clients.len() {
        assert(clients.subrange(0, i) =~= clients);
        lemma_steps_over_clients_mono(clients.drop_last(), projects, pid, clients.len() - 1);
    } else {
        lemma_steps_over_clients_mono(clients.drop_last(), projects, pid, i);
        assert(clients.subrange(0, i) =~= clients.drop_last().subrange(0, i));
    }
}

/// Every row a filter keeps was a row of the original table.
pub proof fn lemma_filter_subset<A>(s: Seq<A>, pred: spec_fn(A) -> bool)
    ensures
        forall|i: int| 0 <= i < s.filter(pred).len() ==> s.contains(#[trigger] s.filter(pred)[i]),
    decreases s.len(),
{
    reveal(Seq::filter);
    if s.len() > 0 {
        let d = s.drop_last();
        lemma_filter_subset(d, pred);
        assert forall|i: int| 0 <= i < s.filter(pred).len() implies s.contains(
            #[trigger] s.filter(pred)[i],
        ) by {
            let f = s.filter(pred);
            let fd = d.filter(pred);
            if i < fd.len() {
                assert(f[i] == fd[i]);
                assert(d.contains(fd[i]));
                let k = choose|k: int| 0 <= k < d.len() && d[k] == fd[i];
                assert(s[k] == f[i]);
            } else {
                assert(f[i] == s.last());
                assert(s[s.len() - 1] == f[i]);
            }
        }
    }
}

impl Database {
    /// The transition every delete operation makes: each table keeps a
    /// filtered selection of its rows (or stands untouched), and the next
    /// identity does not move.  Such a step preserves the store invariant.
    pub proof fn lemma_delete_shape_inv(
        pre: DatabaseV,
        post: DatabaseV,
        pp: spec_fn(ProfileV) -> bool,
        pc: spec_fn(ClientV) -> bool,
        pj: spec_fn(ProjectV) -> bool,
        pn: spec_fn(InvoiceV) -> bool,
        pt: spec_fn(InvoiceLineItemV) -> bool,
    )
        requires
            pre.inv(),
            post.next_id == pre.next_id,
            post.profiles == pre.profiles || post.profiles == pre.profiles.filter(pp),
            post.clients == pre.clients || post.clients == pre.clients.filter(pc),
            post.projects == pre.projects || post.projects == pre.projects.filter(pj),
            post.invoices == pre.invoices || post.invoices == pre.invoices.filter(pn),
            post.line_items == pre.line_items || post.line_items == pre.line_items.filter(pt),
        ensures
            post.inv(),
    {
        if post.profiles != pre.profiles {
            lemma_filter_subset(pre.profiles, pp);
            assert forall|i: int, j: int|
                0 <= i < j < post.profiles.len() implies (#[trigger] post.profiles[i]).id != (
            #[trigger] post.profiles[j]).id by {
                let a = choose|k: int|
                    0 <= k < pre.profiles.len() && pre.profiles[k] == post.profiles[i];
                let b = choose|k: int|
                    0 <= k < pre.profiles.len() && pre.profiles[k] == post.profiles[j];
                if post.profiles[i].id == post.profiles[j].id {
                    assert(pre.profiles[a].id == pre.profiles[b].id);
                    assert(a == b);
                    lemma_filter_distinct_positions(pre.profiles, pp, i, j);
                }
            }
            assert forall|i: int| 0 <= i < post.profiles.len() implies 1 <= (
            #[trigger] post.profiles[i]).id < post.next_id by {
                let k = choose|k: int|
                    0 <= k < pre.profiles.len() && pre.profiles[k] == post.profiles[i];
            }
        }
        if post.clients != pre.clients {
            lemma_filter_subset(pre.clients, pc);
            assert forall|i: int, j: int|
                0 <= i < j < post.clients.len() implies (#[trigger] post.clients[i]).id != (
            #[trigger] post.clients[j]).id by {
                let a = choose|k: int|
                    0 <= k < pre.clients.len() && pre.clients[k] == post.clients[i];
                let b = choose|k: int|
                    0 <= k < pre.clients.len() && pre.clients[k] == post.clients[j];
                if post.clients[i].id == post.clients[j].id {
                    assert(pre.clients[a].id == pre.clients[b].id);
                    assert(a == b);
                    lemma_filter_distinct_positions(pre.clients, pc, i, j);
                }
            }
            assert forall|i: int| 0 <= i < post.clients.len() implies 1 <= (
            #[trigger] post.clients[i]).id < post.next_id && 0 <= post.clients[i].profile_id
                < post.next_id by {
                let k = choose|k: int|
                    0 <= k < pre.clients.len() && pre.clients[k] == post.clients[i];
            }
        }
        if post.projects != pre.projects {
            lemma_filter_subset(pre.projects, pj);
            assert forall|i: int, j: int|
                0 <= i < j < post.projects.len() implies (#[trigger] post.projects[i]).id != (
            #[trigger] post.projects[j]).id by {
                let a = choose|k: int|
                    0 <= k < pre.projects.len() && pre.projects[k] == post.projects[i];
                let b = choose|k: int|
                    0 <= k < pre.projects.len() && pre.projects[k] == post.projects[j];
                if post.projects[i].id == post.projects[j].id {
                    assert(pre.projects[a].id == pre.projects[b].id);
                    assert(a == b);
                    lemma_filter_distinct_positions(pre.projects, pj, i, j);
                }
            }
            assert forall|i: int| 0 <= i < post.projects.len() implies 1 <= (
            #[trigger] post.projects[i]).id < post.next_id && post.projects[i].start_date.valid()
                && 0 <= post.projects[i].client_id < post.next_id && (match post.projects[i]
                .end_date {
                Some(e) => e.valid(),
                None => true,
            }) by {
                let k = choose|k: int|
                    0 <= k < pre.projects.len() && pre.projects[k] == post.projects[i];
            }
        }
        if post.invoices != pre.invoices {
            lemma_filter_subset(pre.invoices, pn);
            assert forall|i: int, j: int|
                0 <= i < j < post.invoices.len() implies (#[trigger] post.invoices[i]).id != (
            #[trigger] post.invoices[j]).id by {
                let a = choose|k: int|
                    0 <= k < pre.invoices.len() && pre.invoices[k] == post.invoices[i];
                let b = choose|k: int|
                    0 <= k < pre.invoices.len() && pre.invoices[k] == post.invoices[j];
                if post.invoices[i].id == post.invoices[j].id {
                    assert(pre.invoices[a].id == pre.invoices[b].id);
                    assert(a == b);
                    lemma_filter_distinct_positions(pre.invoices, pn, i, j);
                }
            }
            assert forall|i: int| 0 <= i < post.invoices.len() implies 1 <= (
            #[trigger] post.invoices[i]).id < post.next_id && 0 <= post.invoices[i].rate_cents
                <= RATE_CENTS_MAX && post.invoices[i].submit_date.valid()
                && post.invoices[i].due_date.valid() && post.invoices[i].number >= 0 && 0
                <= post.invoices[i].project_id < post.next_id by {
                let k = choose|k: int|
                    0 <= k < pre.invoices.len() && pre.invoices[k] == post.invoices[i];
            }
        }
        if post.line_items != pre.line_items {
            lemma_filter_subset(pre.line_items, pt);
            assert forall|i: int, j: int|
                0 <= i < j < post.line_items.len() implies (#[trigger] post.line_items[i]).id != (
            #[trigger] post.line_items[j]).id by {
                let a = choose|k: int|
                    0 <= k < pre.line_items.len() && pre.line_items[k] == post.line_items[i];
                let b = choose|k: int|
                    0 <= k < pre.line_items.len() && pre.line_items[k] == post.line_items[j];
                if post.line_items[i].id == post.line_items[j].id {
                    assert(pre.line_items[a].id == pre.line_items[b].id);
                    assert(a == b);
                    lemma_filter_distinct_positions(pre.line_items, pt, i, j);
                }
            }
            assert forall|i: int| 0 <= i < post.line_items.len() implies 1 <= (
            #[trigger] post.line_items[i]).id < post.next_id && 0 <= post.line_items[i].hours_centi
                <= HOURS_CENTI_MAX && 0 <= post.line_items[i].invoice_id < post.next_id by {
                let k = choose|k: int|
                    0 <= k < pre.line_items.len() && pre.line_items[k] == post.line_items[i];
            }
            lemma_filter_keeps_ascending(pre.line_items, pt);
        }
    }
}

/// A filter keeps the strictly ascending identity order of the line
/// item table.
pub proof fn lemma_filter_keeps_ascending(
    s: Seq<InvoiceLineItemV>,
    pred: spec_fn(InvoiceLineItemV) -> bool,
)
    requires
        spec_items_ascending(s),
    ensures
        spec_items_ascending(s.filter(pred)),
{
    let f = s.filter(pred);
    assert forall|i: int, j: int| 0 <= i < j < f.len() implies (#[trigger] f[i]).id < (
    #[trigger] f[j]).id by {
        lemma_filter_distinct_positions(s, pred, i, j);
        let (a, b) = choose|a: int, b: int|
            0 <= a < b < s.len() && s[a] == f[i] && s[b] == f[j];
    }
}

/// A filter that matches nothing yields the empty table.
pub proof fn lemma_filter_none<A>(s: Seq<A>, pred: spec_fn(A) -> bool)
    requires
        forall|i: int| 0 <= i < s.len() ==> !pred(#[trigger] s[i]),
    ensures
        s.filter(pred) == Seq::<A>::empty(),
    decreases s.len(),
{
    reveal(Seq::filter);
    if s.len() > 0 {
        lemma_filter_none(s.drop_last(), pred);
        assert(s[s.len() - 1] == s.last());
    }
}

/// A filter that matches everything yields the table itself.
pub proof fn lemma_filter_all<A>(s: Seq<A>, pred: spec_fn(A) -> bool)
    requires
        forall|i: int| 0 <= i < s.len() ==> pred(#[trigger] s[i]),
    ensures
        s.filter(pred) == s,
    decreases s.len(),
{
    reveal(Seq::filter);
    if s.len() > 0 {
        lemma_filter_all(s.drop_last(), pred);
        assert(s[s.len() - 1] == s.last());
        assert(s.filter(pred) =~= s);
    }
}

/// Two positions of a filtered table come from two distinct positions of
/// the original, so with unique row values they cannot coincide.
pub proof fn lemma_filter_distinct_positions<A>(s: Seq<A>, pred: spec_fn(A) -> bool, i: int, j: int)
    requires
        0 <= i < j < s.filter(pred).len(),
    ensures
        exists|a: int, b: int|
            0 <= a < b < s.len() && s[a] == s.filter(pred)[i] && s[b] == s.filter(pred)[j],
    decreases s.len(),
{
    reveal(Seq::filter);
    let f = s.filter(pred);
    let d = s.drop_last();
    let fd = d.filter(pred);
    if j < fd.len() {
        lemma_filter_distinct_positions(d, pred, i, j);
        let (a, b) = choose|a: int, b: int|
            0 <= a < b < d.len() && d[a] == fd[i] && d[b] == fd[j];
        assert(s[a] == f[i] && s[b] == f[j]);
    } else {
        assert(pred(s.last()) && j == fd.len() && f[j] == s.last());
        lemma_filter_subset(d, pred);
        assert(d.contains(fd[i]));
        let a = choose|a: int| 0 <= a < d.len() && d[a] == fd[i];
        assert(s[a] == f[i] && s[s.len() - 1] == f[j]);
    }
}

impl Database {
    /// An empty store; the first assigned identity will be one.
    pub fn new() -> (db: Database)
        ensures
            db@.profiles.len() == 0,
            db@.clients.len() == 0,
            db@.projects.len() == 0,
            db@.invoices.len() == 0,
            db@.line_items.len() == 0,
            db@.next_id == 1,
            db@.inv(),
    {
        Database {
            profiles: Vec::new(),
            clients: Vec::new(),
            projects: Vec::new(),
            invoices: Vec::new(),
            line_items: Vec::new(),
            next_id: 1,
        }
    }

    /// All profiles, copied out, in table order.  The name-sorted
    /// listing the screens display is the SQL backend's own ordering,
    /// under its collation, and is not stated here.
    pub fn load_profiles(&self) -> (r: Vec<Profile>)
        ensures
            r.deep_view() == self@.profiles,
    {
        duplicate_vec(&self.profiles)
    }

    /// The profile with identity `id`, or [`StorageError::NotFound`].
    pub fn get_profile(&self, id: i32) -> (r: Result<Profile, StorageError>)
        ensures
            match r {
                Ok(p) => p@.id == id as int && self@.profiles.contains(p@),
                Err(e) => e == StorageError::NotFound && !spec_has_profile(
                    self@.profiles,
                    id as int,
                ),
            },
    {
        let mut i: usize = 0;
        while i < self.profiles.len()
            invariant
                i <= self.profiles@.len(),
                forall|j: int| 0 <= j < i ==> (#[trigger] self@.profiles[j]).id != id as int,
            decreases self.profiles@.len() - i,
        {
            if self.profiles[i].id == id {
                let p = self.profiles[i].duplicate();
                proof {
                    assert(self@.profiles[i as int] == p@);
                }
                return Ok(p);
            }
            i = i + 1;
        }
        Err(StorageError::NotFound)
    }

    /// Inserts a profile draft; the store assigns and returns the new
    /// identity, every other field is taken as given.
    pub fn create_profile(&mut self, profile: &Profile) -> (r: Result<i32, StorageError>)
        requires
            old(self)@.inv(),
            old(self)@.next_id < i32::MAX,
        ensures
            final(self)@.inv(),
            r == Ok::<i32, StorageError>(old(self).next_id),
            final(self)@.profiles == old(self)@.profiles.push(
                spec_profile_created(profile@, old(self)@.next_id),
            ),
            final(self)@.clients == old(self)@.clients,
            final(self)@.projects == old(self)@.projects,
            final(self)@.invoices == old(self)@.invoices,
            final(self)@.line_items == old(self)@.line_items,
            final(self)@.next_id == old(self)@.next_id + 1,
    {
        let id = self.next_id;
        let mut row = profile.duplicate();
        row.id = id;
        self.profiles.push(row);
        self.next_id = self.next_id + 1;
        proof {
            assert(self@.profiles =~= old(self)@.profiles.push(
                spec_profile_created(profile@, old(self)@.next_id),
            ));
            assert(self@.clients =~= old(self)@.clients);
            assert(self@.projects =~= old(self)@.projects);
            assert(self@.invoices =~= old(self)@.invoices);
            assert(self@.line_items =~= old(self)@.line_items);
        }
        Ok(id)
    }

    /// Rewrites the profile row with `profile`'s identity, if it exists;
    /// an update of a missing row changes nothing and is no error.
    pub fn update_profile(&mut self, profile: &Profile) -> (r: Result<(), StorageError>)
        requires
            old(self)@.inv(),
        ensures
            final(self)@.inv(),
            r is Ok,
            final(self)@.profiles == old(self)@.profiles.map_values(
                |row: ProfileV|
                    if row.id == profile@.id {
                        spec_profile_updated(row, profile@)
                    } else {
                        row
                    },
            ),
            final(self)@.clients == old(self)@.clients,
            final(self)@.projects == old(self)@.projects,
            final(self)@.invoices == old(self)@.invoices,
            final(self)@.line_items == old(self)@.line_items,
            final(self)@.next_id == old(self)@.next_id,
    {
        let ghost target = old(self)@.profiles.map_values(
            |row: ProfileV|
                if row.id == profile@.id {
                    spec_profile_updated(row, profile@)
                } else {
                    row
                },
        );
        let mut out: Vec<Profile> = Vec::new();
        let mut i: usize = 0;
        while i < self.profiles.len()
            invariant
                i <= self.profiles@.len(),
                out@.len() == i,
                target == old(self)@.profiles.map_values(
                    |row: ProfileV|
                        if row.id == profile@.id {
                            spec_profile_updated(row, profile@)
                        } else {
                            row
                        },
                ),
                *self == *old(self),
                forall|j: int| 0 <= j < i ==> (#[trigger] out@[j].deep_view()) == target[j],
            decreases self.profiles@.len() - i,
        {
            proof {
                assert(self.profiles@[i as int].deep_view() == old(self)@.profiles[i as int]);
                assert(target[i as int] == (if old(self)@.profiles[i as int].id == profile@.id {
                    spec_profile_updated(old(self)@.profiles[i as int], profile@)
                } else {
                    old(self)@.profiles[i as int]
                }));
            }
            if self.profiles[i].id == profile.id {
                let mut row = profile.duplicate();
                row.id = self.profiles[i].id;
                out.push(row);
            } else {
                out.push(self.profiles[i].duplicate());
            }
            i = i + 1;
        }
        self.profiles = out;
        proof {
            assert forall|j: int| 0 <= j < self@.profiles.len() implies self@.profiles[j]
                == target[j] by {
                assert(self@.profiles[j] == self.profiles@[j].deep_view());
            }
            assert(self@.profiles =~= target);
            assert(self@.clients =~= old(self)@.clients);
            assert(self@.projects =~= old(self)@.projects);
            assert(self@.invoices =~= old(self)@.invoices);
            assert(self@.line_items =~= old(self)@.line_items);
        }
        Ok(())
    }
}


impl Database {
    /// The clients of one profile, copied out, in table order.  The
    /// name-sorted listing is the SQL backend's collation-dependent
    /// ordering and is not stated here.
    pub fn load_clients_by_profile(&self, profile_id: i32) -> (r: Vec<Client>)
        ensures
            r.deep_view() == self@.clients.filter(|c: ClientV| c.profile_id == profile_id as int),
    {
        let mut out: Vec<Client> = Vec::new();
        let mut i: usize = 0;
        proof {
            reveal(Seq::filter);
            assert(self@.clients.subrange(0, 0) =~= Seq::<ClientV>::empty());
            assert(out.deep_view() =~= Seq::<ClientV>::empty());
        }
        while i < self.clients.len()
            invariant
                i <= self.clients@.len(),
                out.deep_view() == self@.clients.subrange(0, i as int).filter(|c: ClientV| c.profile_id == profile_id as int),
            decreases self.clients@.len() - i,
        {
            let ghost pre = out.deep_view();
            proof {
                reveal(Seq::filter);
                assert(self@.clients.subrange(0, i as int + 1).drop_last() =~= self@.clients
                    .subrange(0, i as int));
                assert(self@.clients.subrange(0, i as int + 1).last() == self@.clients[i as int]);
                assert(self.clients@[i as int].deep_view() == self@.clients[i as int]);
            }
            if self.clients[i].profile_id == profile_id {
                out.push(self.clients[i].duplicate());
                proof {
                    assert(out.deep_view() =~= pre.push(self@.clients[i as int]));
                }
            }
            i = i + 1;
        }
        proof {
            assert(self@.clients.subrange(0, self.clients@.len() as int) =~= self@.clients);
        }
        out
    }

    /// The client with identity `id`, or [`StorageError::NotFound`].
    pub fn get_client(&self, id: i32) -> (r: Result<Client, StorageError>)
        ensures
            match r {
                Ok(x) => x@.id == id as int && self@.clients.contains(x@),
                Err(e) => e == StorageError::NotFound && !spec_has_client(self@.clients, id as int),
            },
    {
        let mut i: usize = 0;
        while i < self.clients.len()
            invariant
                i <= self.clients@.len(),
                forall|j: int| 0 <= j < i ==> (#[trigger] self@.clients[j]).id != id as int,
            decreases self.clients@.len() - i,
        {
            if self.clients[i].id == id {
                let x = self.clients[i].duplicate();
                proof {
                    assert(self@.clients[i as int] == x@);
                }
                return Ok(x);
            }
            i = i + 1;
        }
        Err(StorageError::NotFound)
    }

    /// Inserts a client draft under its named profile; assigns the
    /// identity.  A named profile identity that no row can carry — out
    /// of the already-assigned identity space — is refused, as the
    /// backing store's referential checks would refuse it.
    pub fn create_client(&mut self, row: &Client) -> (r: Result<i32, StorageError>)
        requires
            old(self)@.inv(),
            old(self)@.next_id < i32::MAX,
        ensures
            final(self)@.inv(),
            r is Ok <==> 0 <= row@.profile_id < old(self)@.next_id,
            r is Err ==> r == Err::<i32, StorageError>(StorageError::NotFound) && final(self)@
                == old(self)@,
            r is Ok ==> r == Ok::<i32, StorageError>(old(self).next_id),
            r is Ok ==> final(self)@.clients == old(self)@.clients.push(
                spec_client_created(row@, old(self)@.next_id),
            ),
            r is Ok ==> final(self)@.profiles == old(self)@.profiles,
            r is Ok ==> final(self)@.projects == old(self)@.projects,
            r is Ok ==> final(self)@.invoices == old(self)@.invoices,
            r is Ok ==> final(self)@.line_items == old(self)@.line_items,
            r is Ok ==> final(self)@.next_id == old(self)@.next_id + 1,
    {
        if row.profile_id < 0 || row.profile_id >= self.next_id {
            return Err(StorageError::NotFound);
        }
        let id = self.next_id;
        let mut stored = row.duplicate();
        stored.id = id;
        self.clients.push(stored);
        self.next_id = self.next_id + 1;
        proof {
            assert(self@.clients =~= old(self)@.clients.push(
                spec_client_created(row@, old(self)@.next_id),
            ));
            assert(self@.profiles =~= old(self)@.profiles);
            assert(self@.projects =~= old(self)@.projects);
            assert(self@.invoices =~= old(self)@.invoices);
            assert(self@.line_items =~= old(self)@.line_items);
        }
        Ok(id)
    }

    /// Rewrites the contact fields of the client row with `row`'s identity;
    /// the owning profile never moves.
    pub fn update_client(&mut self, row: &Client) -> (r: Result<(), StorageError>)
        requires
            old(self)@.inv(),
        ensures
            final(self)@.inv(),
            r is Ok,
            final(self)@.clients == old(self)@.clients.map_values(
                |x: ClientV|
                    if x.id == row@.id {
                        spec_client_updated(x, row@)
                    } else {
                        x
                    },
            ),
            final(self)@.profiles == old(self)@.profiles,
            final(self)@.projects == old(self)@.projects,
            final(self)@.invoices == old(self)@.invoices,
            final(self)@.line_items == old(self)@.line_items,
            final(self)@.next_id == old(self)@.next_id,
    {
        let ghost target = old(self)@.clients.map_values(
            |x: ClientV|
                if x.id == row@.id {
                    spec_client_updated(x, row@)
                } else {
                    x
                },
        );
        let mut out: Vec<Client> = Vec::new();
        let mut i: usize = 0;
        while i < self.clients.len()
            invariant
                i <= self.clients@.len(),
                out@.len() == i,
                target == old(self)@.clients.map_values(
                    |x: ClientV|
                        if x.id == row@.id {
                            spec_client_updated(x, row@)
                        } else {
                            x
                        },
                ),
                *self == *old(self),
                forall|j: int| 0 <= j < i ==> (#[trigger] out@[j].deep_view()) == target[j],
            decreases self.clients@.len() - i,
        {
            proof {
                assert(self.clients@[i as int].deep_view() == old(self)@.clients[i as int]);
                assert(target[i as int] == (if old(self)@.clients[i as int].id == row@.id {
                    spec_client_updated(old(self)@.clients[i as int], row@)
                } else {
                    old(self)@.clients[i as int]
                }));
            }
            if self.clients[i].id == row.id {
                let mut stored = row.duplicate();
                stored.id = self.clients[i].id;
                stored.profile_id = self.clients[i].profile_id;
                out.push(stored);
            } else {
                out.push(self.clients[i].duplicate());
            }
            i = i + 1;
        }
        self.clients = out;
        proof {
            assert forall|j: int| 0 <= j < self@.clients.len() implies self@.clients[j]
                == target[j] by {
                assert(self@.clients[j] == self.clients@[j].deep_view());
            }
            assert(self@.clients =~= target);
            assert(self@.profiles =~= old(self)@.profiles);
            assert(self@.projects =~= old(self)@.projects);
            assert(self@.invoices =~= old(self)@.invoices);
            assert(self@.line_items =~= old(self)@.line_items);
        }
        Ok(())
    }

    /// The projects of one client, copied out, in table order.  The
    /// name-sorted listing is the SQL backend's collation-dependent
    /// ordering and is not stated here.
    pub fn load_projects_by_client(&self, client_id: i32) -> (r: Vec<Project>)
        ensures
            r.deep_view() == self@.projects.filter(|j: ProjectV| j.client_id == client_id as int),
    {
        let mut out: Vec<Project> = Vec::new();
        let mut i: usize = 0;
        proof {
            reveal(Seq::filter);
            assert(self@.projects.subrange(0, 0) =~= Seq::<ProjectV>::empty());
            assert(out.deep_view() =~= Seq::<ProjectV>::empty());
        }
        while i < self.projects.len()
            invariant
                i <= self.projects@.len(),
                out.deep_view() == self@.projects.subrange(0, i as int).filter(|j: ProjectV| j.client_id == client_id as int),
            decreases self.projects@.len() - i,
        {
            let ghost pre = out.deep_view();
            proof {
                reveal(Seq::filter);
                assert(self@.projects.subrange(0, i as int + 1).drop_last() =~= self@.projects
                    .subrange(0, i as int));
                assert(self@.projects.subrange(0, i as int + 1).last() == self@.projects[i as int]);
                assert(self.projects@[i as int].deep_view() == self@.projects[i as int]);
            }
            if self.projects[i].client_id == client_id {
                out.push(self.projects[i].duplicate());
                proof {
                    assert(out.deep_view() =~= pre.push(self@.projects[i as int]));
                }
            }
            i = i + 1;
        }
        proof {
            assert(self@.projects.subrange(0, self.projects@.len() as int) =~= self@.projects);
        }
        out
    }

    /// The project with identity `id`, or [`StorageError::NotFound`].
    pub fn get_project(&self, id: i32) -> (r: Result<Project, StorageError>)
        ensures
            match r {
                Ok(x) => x@.id == id as int && self@.projects.contains(x@),
                Err(e) => e == StorageError::NotFound && !spec_has_project(self@.projects, id as int),
            },
    {
        let mut i: usize = 0;
        while i < self.projects.len()
            invariant
                i <= self.projects@.len(),
                forall|j: int| 0 <= j < i ==> (#[trigger] self@.projects[j]).id != id as int,
            decreases self.projects@.len() - i,
        {
            if self.projects[i].id == id {
                let x = self.projects[i].duplicate();
                proof {
                    assert(self@.projects[i as int] == x@);
                }
                return Ok(x);
            }
            i = i + 1;
        }
        Err(StorageError::NotFound)
    }

    /// Inserts a project draft under its named client; assigns the
    /// identity.  A named client identity outside the assigned identity
    /// space is refused.
    pub fn create_project(&mut self, row: &Project) -> (r: Result<i32, StorageError>)
        requires
            old(self)@.inv(),
            old(self)@.next_id < i32::MAX,
            row@.start_date.valid(),
            row@.end_date matches Some(e) ==> e.valid(),
        ensures
            final(self)@.inv(),
            r is Ok <==> 0 <= row@.client_id < old(self)@.next_id,
            r is Err ==> r == Err::<i32, StorageError>(StorageError::NotFound) && final(self)@
                == old(self)@,
            r is Ok ==> r == Ok::<i32, StorageError>(old(self).next_id),
            r is Ok ==> final(self)@.projects == old(self)@.projects.push(
                spec_project_created(row@, old(self)@.next_id),
            ),
            r is Ok ==> final(self)@.profiles == old(self)@.profiles,
            r is Ok ==> final(self)@.clients == old(self)@.clients,
            r is Ok ==> final(self)@.invoices == old(self)@.invoices,
            r is Ok ==> final(self)@.line_items == old(self)@.line_items,
            r is Ok ==> final(self)@.next_id == old(self)@.next_id + 1,
    {
        if row.client_id < 0 || row.client_id >= self.next_id {
            return Err(StorageError::NotFound);
        }
        let id = self.next_id;
        let mut stored = row.duplicate();
        stored.id = id;
        self.projects.push(stored);
        self.next_id = self.next_id + 1;
        proof {
            assert(self@.projects =~= old(self)@.projects.push(
                spec_project_created(row@, old(self)@.next_id),
            ));
            assert(self@.profiles =~= old(self)@.profiles);
            assert(self@.clients =~= old(self)@.clients);
            assert(self@.invoices =~= old(self)@.invoices);
            assert(self@.line_items =~= old(self)@.line_items);
        }
        Ok(id)
    }

    /// Rewrites name and dates of the project row with `row`'s identity;
    /// the owning client never moves.
    pub fn update_project(&mut self, row: &Project) -> (r: Result<(), StorageError>)
        requires
            old(self)@.inv(),
            row@.start_date.valid(),
            row@.end_date matches Some(e) ==> e.valid(),
        ensures
            final(self)@.inv(),
            r is Ok,
            final(self)@.projects == old(self)@.projects.map_values(
                |x: ProjectV|
                    if x.id == row@.id {
                        spec_project_updated(x, row@)
                    } else {
                        x
                    },
            ),
            final(self)@.profiles == old(self)@.profiles,
            final(self)@.clients == old(self)@.clients,
            final(self)@.invoices == old(self)@.invoices,
            final(self)@.line_items == old(self)@.line_items,
            final(self)@.next_id == old(self)@.next_id,
    {
        let ghost target = old(self)@.projects.map_values(
            |x: ProjectV|
                if x.id == row@.id {
                    spec_project_updated(x, row@)
                } else {
                    x
                },
        );
        let mut out: Vec<Project> = Vec::new();
        let mut i: usize = 0;
        while i < self.projects.len()
            invariant
                i <= self.projects@.len(),
                out@.len() == i,
                target == old(self)@.projects.map_values(
                    |x: ProjectV|
                        if x.id == row@.id {
                            spec_project_updated(x, row@)
                        } else {
                            x
                        },
                ),
                *self == *old(self),
                forall|j: int| 0 <= j < i ==> (#[trigger] out@[j].deep_view()) == target[j],
            decreases self.projects@.len() - i,
        {
            proof {
                assert(self.projects@[i as int].deep_view() == old(self)@.projects[i as int]);
                assert(target[i as int] == (if old(self)@.projects[i as int].id == row@.id {
                    spec_project_updated(old(self)@.projects[i as int], row@)
                } else {
                    old(self)@.projects[i as int]
                }));
            }
            if self.projects[i].id == row.id {
                let mut stored = row.duplicate();
                stored.id = self.projects[i].id;
                stored.client_id = self.projects[i].client_id;
                out.push(stored);
            } else {
                out.push(self.projects[i].duplicate());
            }
            i = i + 1;
        }
        self.projects = out;
        proof {
            assert forall|j: int| 0 <= j < self@.projects.len() implies self@.projects[j]
                == target[j] by {
                assert(self@.projects[j] == self.projects@[j].deep_view());
            }
            assert(self@.projects =~= target);
            assert(self@.profiles =~= old(self)@.profiles);
            assert(self@.clients =~= old(self)@.clients);
            assert(self@.invoices =~= old(self)@.invoices);
            assert(self@.line_items =~= old(self)@.line_items);
        }
        Ok(())
    }

    /// The invoices of one project, copied out, in table order.
    fn project_invoice_rows(&self, project_id: i32) -> (r: Vec<Invoice>)
        ensures
            r.deep_view() == self@.invoices.filter(|n: InvoiceV| n.project_id == project_id as int),
    {
        let mut out: Vec<Invoice> = Vec::new();
        let mut i: usize = 0;
        proof {
            reveal(Seq::filter);
            assert(self@.invoices.subrange(0, 0) =~= Seq::<InvoiceV>::empty());
            assert(out.deep_view() =~= Seq::<InvoiceV>::empty());
        }
        while i < self.invoices.len()
            invariant
                i <= self.invoices@.len(),
                out.deep_view() == self@.invoices.subrange(0, i as int).filter(|n: InvoiceV| n.project_id == project_id as int),
            decreases self.invoices@.len() - i,
        {
            let ghost pre = out.deep_view();
            proof {
                reveal(Seq::filter);
                assert(self@.invoices.subrange(0, i as int + 1).drop_last() =~= self@.invoices
                    .subrange(0, i as int));
                assert(self@.invoices.subrange(0, i as int + 1).last() == self@.invoices[i as int]);
                assert(self.invoices@[i as int].deep_view() == self@.invoices[i as int]);
            }
            if self.invoices[i].project_id == project_id {
                out.push(self.invoices[i].duplicate());
                proof {
                    assert(out.deep_view() =~= pre.push(self@.invoices[i as int]));
                }
            }
            i = i + 1;
        }
        proof {
            assert(self@.invoices.subrange(0, self.invoices@.len() as int) =~= self@.invoices);
        }
        out
    }

    /// The invoices of one project: exactly the project's rows, newest
    /// submit date first, ties in either order — the listing the invoice
    /// screen displays.
    pub fn load_invoices_by_project(&self, project_id: i32) -> (r: Vec<Invoice>)
        ensures
            r.deep_view().to_multiset() == self@.invoices.filter(
                |n: InvoiceV| n.project_id == project_id as int,
            ).to_multiset(),
            spec_newest_first(r.deep_view()),
    {
        let rows = self.project_invoice_rows(project_id);
        sort_invoices_newest_first(rows)
    }

    /// The invoice with identity `id`, or [`StorageError::NotFound`].
    pub fn get_invoice(&self, id: i32) -> (r: Result<Invoice, StorageError>)
        ensures
            match r {
                Ok(x) => x@.id == id as int && self@.invoices.contains(x@),
                Err(e) => e == StorageError::NotFound && !spec_has_invoice(self@.invoices, id as int),
            },
    {
        let mut i: usize = 0;
        while i < self.invoices.len()
            invariant
                i <= self.invoices@.len(),
                forall|j: int| 0 <= j < i ==> (#[trigger] self@.invoices[j]).id != id as int,
            decreases self.invoices@.len() - i,
        {
            if self.invoices[i].id == id {
                let x = self.invoices[i].duplicate();
                proof {
                    assert(self@.invoices[i as int] == x@);
                }
                return Ok(x);
            }
            i = i + 1;
        }
        Err(StorageError::NotFound)
    }

    /// Inserts an invoice draft under its named project; assigns the
    /// identity.  A named project identity outside the assigned identity
    /// space is refused.
    pub fn create_invoice(&mut self, row: &Invoice) -> (r: Result<i32, StorageError>)
        requires
            old(self)@.inv(),
            old(self)@.next_id < i32::MAX,
            row@.rate_cents <= RATE_CENTS_MAX,
            row@.submit_date.valid(),
            row@.due_date.valid(),
            row@.number >= 0,
        ensures
            final(self)@.inv(),
            r is Ok <==> 0 <= row@.project_id < old(self)@.next_id,
            r is Err ==> r == Err::<i32, StorageError>(StorageError::NotFound) && final(self)@
                == old(self)@,
            r is Ok ==> r == Ok::<i32, StorageError>(old(self).next_id),
            r is Ok ==> final(self)@.invoices == old(self)@.invoices.push(
                spec_invoice_created(row@, old(self)@.next_id),
            ),
            r is Ok ==> final(self)@.profiles == old(self)@.profiles,
            r is Ok ==> final(self)@.clients == old(self)@.clients,
            r is Ok ==> final(self)@.projects == old(self)@.projects,
            r is Ok ==> final(self)@.line_items == old(self)@.line_items,
            r is Ok ==> final(self)@.next_id == old(self)@.next_id + 1,
    {
        if row.project_id < 0 || row.project_id >= self.next_id {
            return Err(StorageError::NotFound);
        }
        let id = self.next_id;
        let mut stored = row.duplicate();
        stored.id = id;
        self.invoices.push(stored);
        self.next_id = self.next_id + 1;
        proof {
            assert(self@.invoices =~= old(self)@.invoices.push(
                spec_invoice_created(row@, old(self)@.next_id),
            ));
            assert(self@.profiles =~= old(self)@.profiles);
            assert(self@.clients =~= old(self)@.clients);
            assert(self@.projects =~= old(self)@.projects);
            assert(self@.line_items =~= old(self)@.line_items);
        }
        Ok(id)
    }

    /// Rewrites dates, rate and status of the invoice row with `row`'s
    /// identity; owner and number never move.
    pub fn update_invoice(&mut self, row: &Invoice) -> (r: Result<(), StorageError>)
        requires
            old(self)@.inv(),
            row@.rate_cents <= RATE_CENTS_MAX,
            row@.submit_date.valid(),
            row@.due_date.valid(),
        ensures
            final(self)@.inv(),
            r is Ok,
            final(self)@.invoices == old(self)@.invoices.map_values(
                |x: InvoiceV|
                    if x.id == row@.id {
                        spec_invoice_updated(x, row@)
                    } else {
                        x
                    },
            ),
            final(self)@.profiles == old(self)@.profiles,
            final(self)@.clients == old(self)@.clients,
            final(self)@.projects == old(self)@.projects,
            final(self)@.line_items == old(self)@.line_items,
            final(self)@.next_id == old(self)@.next_id,
    {
        let ghost target = old(self)@.invoices.map_values(
            |x: InvoiceV|
                if x.id == row@.id {
                    spec_invoice_updated(x, row@)
                } else {
                    x
                },
        );
        let mut out: Vec<Invoice> = Vec::new();
        let mut i: usize = 0;
        while i < self.invoices.len()
            invariant
                i <= self.invoices@.len(),
                out@.len() == i,
                target == old(self)@.invoices.map_values(
                    |x: InvoiceV|
                        if x.id == row@.id {
                            spec_invoice_updated(x, row@)
                        } else {
                            x
                        },
                ),
                *self == *old(self),
                forall|j: int| 0 <= j < i ==> (#[trigger] out@[j].deep_view()) == target[j],
            decreases self.invoices@.len() - i,
        {
            proof {
                assert(self.invoices@[i as int].deep_view() == old(self)@.invoices[i as int]);
                assert(target[i as int] == (if old(self)@.invoices[i as int].id == row@.id {
                    spec_invoice_updated(old(self)@.invoices[i as int], row@)
                } else {
                    old(self)@.invoices[i as int]
                }));
            }
            if self.invoices[i].id == row.id {
                let mut stored = row.duplicate();
                stored.id = self.invoices[i].id;
                stored.project_id = self.invoices[i].project_id;
                stored.number = self.invoices[i].number;
                out.push(stored);
            } else {
                out.push(self.invoices[i].duplicate());
            }
            i = i + 1;
        }
        self.invoices = out;
        proof {
            assert forall|j: int| 0 <= j < self@.invoices.len() implies self@.invoices[j]
                == target[j] by {
                assert(self@.invoices[j] == self.invoices@[j].deep_view());
            }
            assert(self@.invoices =~= target);
            assert(self@.profiles =~= old(self)@.profiles);
            assert(self@.clients =~= old(self)@.clients);
            assert(self@.projects =~= old(self)@.projects);
            assert(self@.line_items =~= old(self)@.line_items);
        }
        Ok(())
    }

    /// The line items of one invoice, copied out, in table order — which
    /// under the store invariant is ascending identity order, the order
    /// the rows were saved in.
    pub fn get_line_items_by_invoice(&self, invoice_id: i32) -> (r: Vec<InvoiceLineItem>)
        ensures
            r.deep_view() == self@.line_items.filter(|t: InvoiceLineItemV| t.invoice_id == invoice_id as int),
            self@.inv() ==> spec_items_ascending(r.deep_view()),
    {
        proof {
            if self@.inv() {
                lemma_filter_keeps_ascending(
                    self@.line_items,
                    |t: InvoiceLineItemV| t.invoice_id == invoice_id as int,
                );
            }
        }
        let mut out: Vec<InvoiceLineItem> = Vec::new();
        let mut i: usize = 0;
        proof {
            reveal(Seq::filter);
            assert(self@.line_items.subrange(0, 0) =~= Seq::<InvoiceLineItemV>::empty());
            assert(out.deep_view() =~= Seq::<InvoiceLineItemV>::empty());
        }
        while i < self.line_items.len()
            invariant
                i <= self.line_items@.len(),
                out.deep_view() == self@.line_items.subrange(0, i as int).filter(|t: InvoiceLineItemV| t.invoice_id == invoice_id as int),
            decreases self.line_items@.len() - i,
        {
            let ghost pre = out.deep_view();
            proof {
                reveal(Seq::filter);
                assert(self@.line_items.subrange(0, i as int + 1).drop_last() =~= self@.line_items
                    .subrange(0, i as int));
                assert(self@.line_items.subrange(0, i as int + 1).last() == self@.line_items[i as int]);
                assert(self.line_items@[i as int].deep_view() == self@.line_items[i as int]);
            }
            if self.line_items[i].invoice_id == invoice_id {
                out.push(self.line_items[i].duplicate());
                proof {
                    assert(out.deep_view() =~= pre.push(self@.line_items[i as int]));
                }
            }
            i = i + 1;
        }
        proof {
            assert(self@.line_items.subrange(0, self.line_items@.len() as int) =~= self@.line_items);
        }
        out
    }
}


impl Database {
    /// The project table without the row `id`.
    fn projects_keeping_not_id(&self, id: i32) -> (r: Vec<Project>)
        ensures
            r.deep_view() == self@.projects.filter(|j: ProjectV| j.id != id as int),
    {
        let mut out: Vec<Project> = Vec::new();
        let mut i: usize = 0;
        proof {
            reveal(Seq::filter);
            assert(self@.projects.subrange(0, 0) =~= Seq::<ProjectV>::empty());
            assert(out.deep_view() =~= Seq::<ProjectV>::empty());
        }
        while i < self.projects.len()
            invariant
                i <= self.projects@.len(),
                out.deep_view() == self@.projects.subrange(0, i as int).filter(|j: ProjectV| j.id != id as int),
            decreases self.projects@.len() - i,
        {
            let ghost pre = out.deep_view();
            proof {
                reveal(Seq::filter);
                assert(self@.projects.subrange(0, i as int + 1).drop_last() =~= self@.projects
                    .subrange(0, i as int));
                assert(self@.projects.subrange(0, i as int + 1).last() == self@.projects[i as int]);
                assert(self.projects@[i as int].deep_view() == self@.projects[i as int]);
            }
            if self.projects[i].id != id {
                out.push(self.projects[i].duplicate());
                proof {
                    assert(out.deep_view() =~= pre.push(self@.projects[i as int]));
                }
            }
            i = i + 1;
        }
        proof {
            assert(self@.projects.subrange(0, self.projects@.len() as int) =~= self@.projects);
        }
        out
    }

    /// The invoice table without the row `id`.
    fn invoices_keeping_not_id(&self, id: i32) -> (r: Vec<Invoice>)
        ensures
            r.deep_view() == self@.invoices.filter(|n: InvoiceV| n.id != id as int),
    {
        let mut out: Vec<Invoice> = Vec::new();
        let mut i: usize = 0;
        proof {
            reveal(Seq::filter);
            assert(self@.invoices.subrange(0, 0) =~= Seq::<InvoiceV>::empty());
            assert(out.deep_view() =~= Seq::<InvoiceV>::empty());
        }
        while i < self.invoices.len()
            invariant
                i <= self.invoices@.len(),
                out.deep_view() == self@.invoices.subrange(0, i as int).filter(|n: InvoiceV| n.id != id as int),
            decreases self.invoices@.len() - i,
        {
            let ghost pre = out.deep_view();
            proof {
                reveal(Seq::filter);
                assert(self@.invoices.subrange(0, i as int + 1).drop_last() =~= self@.invoices
                    .subrange(0, i as int));
                assert(self@.invoices.subrange(0, i as int + 1).last() == self@.invoices[i as int]);
                assert(self.invoices@[i as int].deep_view() == self@.invoices[i as int]);
            }
            if self.invoices[i].id != id {
                out.push(self.invoices[i].duplicate());
                proof {
                    assert(out.deep_view() =~= pre.push(self@.invoices[i as int]));
                }
            }
            i = i + 1;
        }
        proof {
            assert(self@.invoices.subrange(0, self.invoices@.len() as int) =~= self@.invoices);
        }
        out
    }

    /// The line item table without the row `id`.
    fn line_items_keeping_not_id(&self, id: i32) -> (r: Vec<InvoiceLineItem>)
        ensures
            r.deep_view() == self@.line_items.filter(|t: InvoiceLineItemV| t.id != id as int),
    {
        let mut out: Vec<InvoiceLineItem> = Vec::new();
        let mut i: usize = 0;
        proof {
            reveal(Seq::filter);
            assert(self@.line_items.subrange(0, 0) =~= Seq::<InvoiceLineItemV>::empty());
            assert(out.deep_view() =~= Seq::<InvoiceLineItemV>::empty());
        }
        while i < self.line_items.len()
            invariant
                i <= self.line_items@.len(),
                out.deep_view() == self@.line_items.subrange(0, i as int).filter(|t: InvoiceLineItemV| t.id != id as int),
            decreases self.line_items@.len() - i,
        {
            let ghost pre = out.deep_view();
            proof {
                reveal(Seq::filter);
                assert(self@.line_items.subrange(0, i as int + 1).drop_last() =~= self@.line_items
                    .subrange(0, i as int));
                assert(self@.line_items.subrange(0, i as int + 1).last() == self@.line_items[i as int]);
                assert(self.line_items@[i as int].deep_view() == self@.line_items[i as int]);
            }
            if self.line_items[i].id != id {
                out.push(self.line_items[i].duplicate());
                proof {
                    assert(out.deep_view() =~= pre.push(self@.line_items[i as int]));
                }
            }
            i = i + 1;
        }
        proof {
            assert(self@.line_items.subrange(0, self.line_items@.len() as int) =~= self@.line_items);
        }
        out
    }

    /// The line item table without the rows of invoice `invoice_id`.
    fn line_items_keeping_not_invoice(&self, invoice_id: i32) -> (r: Vec<InvoiceLineItem>)
        ensures
            r.deep_view() == self@.line_items.filter(|t: InvoiceLineItemV| t.invoice_id != invoice_id as int),
    {
        let mut out: Vec<InvoiceLineItem> = Vec::new();
        let mut i: usize = 0;
        proof {
            reveal(Seq::filter);
            assert(self@.line_items.subrange(0, 0) =~= Seq::<InvoiceLineItemV>::empty());
            assert(out.deep_view() =~= Seq::<InvoiceLineItemV>::empty());
        }
        while i < self.line_items.len()
            invariant
                i <= self.line_items@.len(),
                out.deep_view() == self@.line_items.subrange(0, i as int).filter(|t: InvoiceLineItemV| t.invoice_id != invoice_id as int),
            decreases self.line_items@.len() - i,
        {
            let ghost pre = out.deep_view();
            proof {
                reveal(Seq::filter);
                assert(self@.line_items.subrange(0, i as int + 1).drop_last() =~= self@.line_items
                    .subrange(0, i as int));
                assert(self@.line_items.subrange(0, i as int + 1).last() == self@.line_items[i as int]);
                assert(self.line_items@[i as int].deep_view() == self@.line_items[i as int]);
            }
            if self.line_items[i].invoice_id != invoice_id {
                out.push(self.line_items[i].duplicate());
                proof {
                    assert(out.deep_view() =~= pre.push(self@.line_items[i as int]));
                }
            }
            i = i + 1;
        }
        proof {
            assert(self@.line_items.subrange(0, self.line_items@.len() as int) =~= self@.line_items);
        }
        out
    }

    /// Deletes the project row `id` alone.  The workflow's direct project
    /// delete does not cascade to the project's invoices; the cascading
    /// profile and client deletes do.
    pub fn delete_project(&mut self, id: i32) -> (r: Result<(), StorageError>)
        requires
            old(self)@.inv(),
        ensures
            final(self)@.inv(),
            r is Ok,
            final(self)@.projects == old(self)@.projects.filter(|j: ProjectV| j.id != id as int),
            final(self)@.profiles == old(self)@.profiles,
            final(self)@.clients == old(self)@.clients,
            final(self)@.invoices == old(self)@.invoices,
            final(self)@.line_items == old(self)@.line_items,
            final(self)@.next_id == old(self)@.next_id,
    {
        let out = self.projects_keeping_not_id(id);
        self.projects = out;
        proof {
            assert(self@.profiles =~= old(self)@.profiles);
            assert(self@.clients =~= old(self)@.clients);
            assert(self@.invoices =~= old(self)@.invoices);
            assert(self@.line_items =~= old(self)@.line_items);
            Database::lemma_delete_shape_inv(
                old(self)@,
                self@,
                |p: ProfileV| true,
                |c: ClientV| true,
                |j: ProjectV| j.id != id as int,
                |n: InvoiceV| true,
                |t: InvoiceLineItemV| true,
            );
        }
        Ok(())
    }

    /// Deletes the invoice row `id` and, first, all of its line items.
    pub fn delete_invoice(&mut self, id: i32) -> (r: Result<(), StorageError>)
        requires
            old(self)@.inv(),
        ensures
            final(self)@.inv(),
            r is Ok,
            final(self)@.invoices == old(self)@.invoices.filter(|n: InvoiceV| n.id != id as int),
            final(self)@.line_items == old(self)@.line_items.filter(
                |t: InvoiceLineItemV| t.invoice_id != id as int,
            ),
            final(self)@.profiles == old(self)@.profiles,
            final(self)@.clients == old(self)@.clients,
            final(self)@.projects == old(self)@.projects,
            final(self)@.next_id == old(self)@.next_id,
    {
        let items = self.line_items_keeping_not_invoice(id);
        self.line_items = items;
        let out = self.invoices_keeping_not_id(id);
        self.invoices = out;
        proof {
            assert(self@.profiles =~= old(self)@.profiles);
            assert(self@.clients =~= old(self)@.clients);
            assert(self@.projects =~= old(self)@.projects);
            Database::lemma_delete_shape_inv(
                old(self)@,
                self@,
                |p: ProfileV| true,
                |c: ClientV| true,
                |j: ProjectV| true,
                |n: InvoiceV| n.id != id as int,
                |t: InvoiceLineItemV| t.invoice_id != id as int,
            );
        }
        Ok(())
    }

    /// Deletes the single line item row `id`.
    pub fn delete_line_item(&mut self, id: i32) -> (r: Result<(), StorageError>)
        requires
            old(self)@.inv(),
        ensures
            final(self)@.inv(),
            r is Ok,
            final(self)@.line_items == old(self)@.line_items.filter(
                |t: InvoiceLineItemV| t.id != id as int,
            ),
            final(self)@.profiles == old(self)@.profiles,
            final(self)@.clients == old(self)@.clients,
            final(self)@.projects == old(self)@.projects,
            final(self)@.invoices == old(self)@.invoices,
            final(self)@.next_id == old(self)@.next_id,
    {
        let out = self.line_items_keeping_not_id(id);
        self.line_items = out;
        proof {
            assert(self@.profiles =~= old(self)@.profiles);
            assert(self@.clients =~= old(self)@.clients);
            assert(self@.projects =~= old(self)@.projects);
            assert(self@.invoices =~= old(self)@.invoices);
            Database::lemma_delete_shape_inv(
                old(self)@,
                self@,
                |p: ProfileV| true,
                |c: ClientV| true,
                |j: ProjectV| true,
                |n: InvoiceV| true,
                |t: InvoiceLineItemV| t.id != id as int,
            );
        }
        Ok(())
    }

    /// Deletes every line item of invoice `invoice_id`.
    pub fn delete_line_items_by_invoice(&mut self, invoice_id: i32) -> (r: Result<
        (),
        StorageError,
    >)
        requires
            old(self)@.inv(),
        ensures
            final(self)@.inv(),
            r is Ok,
            final(self)@.line_items == old(self)@.line_items.filter(
                |t: InvoiceLineItemV| t.invoice_id != invoice_id as int,
            ),
            final(self)@.profiles == old(self)@.profiles,
            final(self)@.clients == old(self)@.clients,
            final(self)@.projects == old(self)@.projects,
            final(self)@.invoices == old(self)@.invoices,
            final(self)@.next_id == old(self)@.next_id,
    {
        let out = self.line_items_keeping_not_invoice(invoice_id);
        self.line_items = out;
        proof {
            assert(self@.profiles =~= old(self)@.profiles);
            assert(self@.clients =~= old(self)@.clients);
            assert(self@.projects =~= old(self)@.projects);
            assert(self@.invoices =~= old(self)@.invoices);
            Database::lemma_delete_shape_inv(
                old(self)@,
                self@,
                |p: ProfileV| true,
                |c: ClientV| true,
                |j: ProjectV| true,
                |n: InvoiceV| true,
                |t: InvoiceLineItemV| t.invoice_id != invoice_id as int,
            );
        }
        Ok(())
    }

    /// Inserts one line item under its named invoice; assigns the
    /// identity.  A named invoice identity outside the assigned identity
    /// space is refused.
    pub fn create_line_item(&mut self, row: &InvoiceLineItem) -> (r: Result<i32, StorageError>)
        requires
            old(self)@.inv(),
            old(self)@.next_id < i32::MAX,
            row@.hours_centi <= HOURS_CENTI_MAX,
        ensures
            final(self)@.inv(),
            r is Ok <==> 0 <= row@.invoice_id < old(self)@.next_id,
            r is Err ==> r == Err::<i32, StorageError>(StorageError::NotFound) && final(self)@
                == old(self)@,
            r is Ok ==> r == Ok::<i32, StorageError>(old(self).next_id),
            r is Ok ==> final(self)@.line_items == old(self)@.line_items.push(
                spec_line_item_created(row@, old(self)@.next_id, row@.invoice_id),
            ),
            r is Ok ==> final(self)@.profiles == old(self)@.profiles,
            r is Ok ==> final(self)@.clients == old(self)@.clients,
            r is Ok ==> final(self)@.projects == old(self)@.projects,
            r is Ok ==> final(self)@.invoices == old(self)@.invoices,
            r is Ok ==> final(self)@.next_id == old(self)@.next_id + 1,
    {
        if row.invoice_id < 0 || row.invoice_id >= self.next_id {
            return Err(StorageError::NotFound);
        }
        let id = self.next_id;
        let mut stored = row.duplicate();
        stored.id = id;
        self.line_items.push(stored);
        self.next_id = self.next_id + 1;
        proof {
            assert(self@.line_items =~= old(self)@.line_items.push(
                spec_line_item_created(row@, old(self)@.next_id, row@.invoice_id),
            ));
            assert(self@.profiles =~= old(self)@.profiles);
            assert(self@.clients =~= old(self)@.clients);
            assert(self@.projects =~= old(self)@.projects);
            assert(self@.invoices =~= old(self)@.invoices);
        }
        Ok(id)
    }

    /// The invoice `id` together with its line items.
    pub fn get_invoice_with_line_items(&self, id: i32) -> (r: Result<
        (Invoice, Vec<InvoiceLineItem>),
        StorageError,
    >)
        ensures
            match r {
                Ok(pair) => pair.0@.id == id as int && self@.invoices.contains(pair.0@)
                    && pair.1.deep_view() == self@.line_items.filter(
                    |t: InvoiceLineItemV| t.invoice_id == id as int,
                ) && (self@.inv() ==> spec_items_ascending(pair.1.deep_view())),
                Err(e) => e == StorageError::NotFound && !spec_has_invoice(
                    self@.invoices,
                    id as int,
                ),
            },
    {
        match self.get_invoice(id) {
            Ok(invoice) => {
                let items = self.get_line_items_by_invoice(id);
                Ok((invoice, items))
            },
            Err(e) => Err(e),
        }
    }
}


impl Database {
    /// Rewrites description and hours of the line item row with `row`'s
    /// identity; the owning invoice never moves.
    pub fn update_line_item(&mut self, row: &InvoiceLineItem) -> (r: Result<(), StorageError>)
        requires
            old(self)@.inv(),
            row@.hours_centi <= HOURS_CENTI_MAX,
        ensures
            final(self)@.inv(),
            r is Ok,
            final(self)@.line_items == old(self)@.line_items.map_values(
                |x: InvoiceLineItemV|
                    if x.id == row@.id {
                        spec_line_item_updated(x, row@)
                    } else {
                        x
                    },
            ),
            final(self)@.profiles == old(self)@.profiles,
            final(self)@.clients == old(self)@.clients,
            final(self)@.projects == old(self)@.projects,
            final(self)@.invoices == old(self)@.invoices,
            final(self)@.next_id == old(self)@.next_id,
    {
        let ghost target = old(self)@.line_items.map_values(
            |x: InvoiceLineItemV|
                if x.id == row@.id {
                    spec_line_item_updated(x, row@)
                } else {
                    x
                },
        );
        let mut out: Vec<InvoiceLineItem> = Vec::new();
        let mut i: usize = 0;
        while i < self.line_items.len()
            invariant
                i <= self.line_items@.len(),
                out@.len() == i,
                target == old(self)@.line_items.map_values(
                    |x: InvoiceLineItemV|
                        if x.id == row@.id {
                            spec_line_item_updated(x, row@)
                        } else {
                            x
                        },
                ),
                *self == *old(self),
                forall|j: int| 0 <= j < i ==> (#[trigger] out@[j].deep_view()) == target[j],
            decreases self.line_items@.len() - i,
        {
            proof {
                assert(self.line_items@[i as int].deep_view() == old(self)@.line_items[i as int]);
                assert(target[i as int] == (if old(self)@.line_items[i as int].id == row@.id {
                    spec_line_item_updated(old(self)@.line_items[i as int], row@)
                } else {
                    old(self)@.line_items[i as int]
                }));
            }
            if self.line_items[i].id == row.id {
                let mut stored = row.duplicate();
                stored.id = self.line_items[i].id;
                stored.invoice_id = self.line_items[i].invoice_id;
                out.push(stored);
            } else {
                out.push(self.line_items[i].duplicate());
            }
            i = i + 1;
        }
        self.line_items = out;
        proof {
            assert forall|j: int| 0 <= j < self@.line_items.len() implies self@.line_items[j]
                == target[j] by {
                assert(self@.line_items[j] == self.line_items@[j].deep_view());
            }
            assert(self@.line_items =~= target);
            assert(self@.profiles =~= old(self)@.profiles);
            assert(self@.clients =~= old(self)@.clients);
            assert(self@.projects =~= old(self)@.projects);
            assert(self@.invoices =~= old(self)@.invoices);
        }
        Ok(())
    }

    /// One transaction for a wizard save: a draft invoice (identity zero)
    /// is inserted, an existing one has its editable fields rewritten and
    /// its old line items deleted; either way the given line items are
    /// then inserted fresh under the invoice, with consecutive new
    /// identities.  Returns the invoice's identity.
    pub fn save_invoice_with_line_items(
        &mut self,
        invoice: &Invoice,
        line_items: &Vec<InvoiceLineItem>,
    ) -> (r: Result<i32, StorageError>)
        requires
            old(self)@.inv(),
            invoice@.rate_cents <= RATE_CENTS_MAX,
            invoice@.submit_date.valid(),
            invoice@.due_date.valid(),
            invoice@.number >= 0,
            forall|i: int|
                0 <= i < line_items@.len() ==> (#[trigger] line_items@[i])@.hours_centi
                    <= HOURS_CENTI_MAX,
            old(self)@.next_id + 1 + line_items@.len() <= i32::MAX,
        ensures
            final(self)@.inv(),
            r is Ok <==> (if invoice@.id == 0 {
                0 <= invoice@.project_id < old(self)@.next_id
            } else {
                0 < invoice@.id < old(self)@.next_id
            }),
            r is Err ==> r == Err::<i32, StorageError>(StorageError::NotFound) && final(self)@
                == old(self)@,
            r is Ok ==> ({
                let target = if invoice@.id == 0 {
                    old(self)@.next_id
                } else {
                    invoice@.id
                };
                let first = if invoice@.id == 0 {
                    old(self)@.next_id + 1
                } else {
                    old(self)@.next_id
                };
                &&& r->Ok_0 as int == target
                &&& (invoice@.id == 0 ==> final(self)@.invoices == old(self)@.invoices.push(
                    spec_invoice_created(invoice@, target),
                ))
                &&& (invoice@.id == 0 ==> final(self)@.line_items == old(self)@.line_items
                    + spec_items_created(line_items.deep_view(), first, target))
                &&& (invoice@.id != 0 ==> final(self)@.invoices == old(self)@.invoices.map_values(
                    |x: InvoiceV|
                        if x.id == invoice@.id {
                            spec_invoice_updated(x, invoice@)
                        } else {
                            x
                        },
                ))
                &&& (invoice@.id != 0 ==> final(self)@.line_items == old(self)@.line_items.filter(
                    |t: InvoiceLineItemV| t.invoice_id != target,
                ) + spec_items_created(line_items.deep_view(), first, target))
                &&& final(self)@.next_id == first + line_items@.len()
            }),
            r is Ok ==> final(self)@.profiles == old(self)@.profiles,
            r is Ok ==> final(self)@.clients == old(self)@.clients,
            r is Ok ==> final(self)@.projects == old(self)@.projects,
    {
        let target: i32;
        if invoice.id == 0 {
            target = match self.create_invoice(invoice) {
                Ok(id) => id,
                Err(e) => {
                    return Err(e);
                },
            };
        } else {
            // The backing store's referential checks would refuse an
            // update of a row that cannot exist; refuse it up front so
            // the transaction stays all-or-nothing.
            if invoice.id < 0 || invoice.id >= self.next_id {
                return Err(StorageError::NotFound);
            }
            match self.update_invoice(invoice) {
                Ok(u) => u,
                Err(e) => {
                    return Err(e);
                },
            };
            match self.delete_line_items_by_invoice(invoice.id) {
                Ok(u) => u,
                Err(e) => {
                    return Err(e);
                },
            };
            target = invoice.id;
        }
        let ghost base_items = self@.line_items;
        let ghost base = self@;
        let ghost first = self@.next_id;
        let mut k: usize = 0;
        proof {
            assert(spec_items_created(line_items.deep_view().subrange(0, 0), first, target as int)
                =~= Seq::<InvoiceLineItemV>::empty());
            assert(self@.line_items =~= base_items + spec_items_created(
                line_items.deep_view().subrange(0, 0),
                first,
                target as int,
            ));
        }
        while k < line_items.len()
            invariant
                k <= line_items@.len(),
                self@.inv(),
                0 <= target as int && (target as int) < first,
                first <= self@.next_id,
                self@.profiles == base.profiles,
                self@.clients == base.clients,
                self@.projects == base.projects,
                self@.invoices == base.invoices,
                self@.next_id == first + k,
                first + line_items@.len() <= i32::MAX,
                self@.line_items == base_items + spec_items_created(
                    line_items.deep_view().subrange(0, k as int),
                    first,
                    target as int,
                ),
                forall|i: int|
                    0 <= i < line_items@.len() ==> (#[trigger] line_items@[i])@.hours_centi
                        <= HOURS_CENTI_MAX,
            decreases line_items@.len() - k,
        {
            let mut item = line_items[k].duplicate();
            item.invoice_id = target;
            let ghost pre_items = self@.line_items;
            match self.create_line_item(&item) {
                Ok(u) => u,
                Err(e) => {
                    return Err(e);
                },
            };
            proof {
                assert(line_items@[k as int].deep_view() == line_items.deep_view()[k as int]);
                assert(spec_line_item_created(item@, first + k, target as int)
                    == spec_line_item_created(
                    line_items.deep_view()[k as int],
                    first + k,
                    target as int,
                ));
                assert(spec_items_created(
                    line_items.deep_view().subrange(0, k as int + 1),
                    first,
                    target as int,
                ) =~= spec_items_created(
                    line_items.deep_view().subrange(0, k as int),
                    first,
                    target as int,
                ).push(spec_line_item_created(
                    line_items.deep_view()[k as int],
                    first + k,
                    target as int,
                )));
                assert(self@.line_items =~= base_items + spec_items_created(
                    line_items.deep_view().subrange(0, k as int + 1),
                    first,
                    target as int,
                ));
            }
            k = k + 1;
        }
        proof {
            assert(line_items.deep_view().subrange(0, line_items@.len() as int)
                =~= line_items.deep_view());
        }
        Ok(target)
    }
}


/// Whether project `j` belongs to a client of profile `profile_id`.
fn project_under_profile(clients: &Vec<Client>, j: &Project, profile_id: i32) -> (r: bool)
    ensures
        r == spec_project_under_profile(clients.deep_view(), j@, profile_id as int),
{
    let mut i: usize = 0;
    while i < clients.len()
        invariant
            i <= clients@.len(),
            forall|k: int|
                0 <= k < i ==> !((#[trigger] clients.deep_view()[k]).id == j@.client_id
                    && clients.deep_view()[k].profile_id == profile_id as int),
        decreases clients@.len() - i,
    {
        proof {
            assert(clients.deep_view()[i as int] == clients@[i as int].deep_view());
        }
        if clients[i].id == j.client_id && clients[i].profile_id == profile_id {
            return true;
        }
        i = i + 1;
    }
    false
}

/// Whether invoice `n` hangs under profile `profile_id`.
fn invoice_under_profile(
    clients: &Vec<Client>,
    projects: &Vec<Project>,
    n: &Invoice,
    profile_id: i32,
) -> (r: bool)
    ensures
        r == spec_invoice_under_profile(
            clients.deep_view(),
            projects.deep_view(),
            n@,
            profile_id as int,
        ),
{
    let mut i: usize = 0;
    while i < projects.len()
        invariant
            i <= projects@.len(),
            forall|k: int|
                0 <= k < i ==> !((#[trigger] projects.deep_view()[k]).id == n@.project_id
                    && spec_project_under_profile(
                    clients.deep_view(),
                    projects.deep_view()[k],
                    profile_id as int,
                )),
        decreases projects@.len() - i,
    {
        proof {
            assert(projects.deep_view()[i as int] == projects@[i as int].deep_view());
        }
        if projects[i].id == n.project_id {
            if project_under_profile(clients, &projects[i], profile_id) {
                return true;
            }
        }
        i = i + 1;
    }
    false
}

/// Whether line item `t` hangs under profile `profile_id`.
fn item_under_profile(
    clients: &Vec<Client>,
    projects: &Vec<Project>,
    invoices: &Vec<Invoice>,
    t: &InvoiceLineItem,
    profile_id: i32,
) -> (r: bool)
    ensures
        r == spec_item_under_profile(
            clients.deep_view(),
            projects.deep_view(),
            invoices.deep_view(),
            t@,
            profile_id as int,
        ),
{
    let mut i: usize = 0;
    while i < invoices.len()
        invariant
            i <= invoices@.len(),
            forall|k: int|
                0 <= k < i ==> !((#[trigger] invoices.deep_view()[k]).id == t@.invoice_id
                    && spec_invoice_under_profile(
                    clients.deep_view(),
                    projects.deep_view(),
                    invoices.deep_view()[k],
                    profile_id as int,
                )),
        decreases invoices@.len() - i,
    {
        proof {
            assert(invoices.deep_view()[i as int] == invoices@[i as int].deep_view());
        }
        if invoices[i].id == t.invoice_id {
            if invoice_under_profile(clients, projects, &invoices[i], profile_id) {
                return true;
            }
        }
        i = i + 1;
    }
    false
}

/// Whether invoice `n` belongs to a project of client `client_id`.
fn invoice_under_client(projects: &Vec<Project>, n: &Invoice, client_id: i32) -> (r: bool)
    ensures
        r == spec_invoice_under_client(projects.deep_view(), n@, client_id as int),
{
    let mut i: usize = 0;
    while i < projects.len()
        invariant
            i <= projects@.len(),
            forall|k: int|
                0 <= k < i ==> !((#[trigger] projects.deep_view()[k]).id == n@.project_id
                    && projects.deep_view()[k].client_id == client_id as int),
        decreases projects@.len() - i,
    {
        proof {
            assert(projects.deep_view()[i as int] == projects@[i as int].deep_view());
        }
        if projects[i].id == n.project_id && projects[i].client_id == client_id {
            return true;
        }
        i = i + 1;
    }
    false
}

/// Whether line item `t` hangs under client `client_id`.
fn item_under_client(
    projects: &Vec<Project>,
    invoices: &Vec<Invoice>,
    t: &InvoiceLineItem,
    client_id: i32,
) -> (r: bool)
    ensures
        r == spec_item_under_client(
            projects.deep_view(),
            invoices.deep_view(),
            t@,
            client_id as int,
        ),
{
    let mut i: usize = 0;
    while i < invoices.len()
        invariant
            i <= invoices@.len(),
            forall|k: int|
                0 <= k < i ==> !((#[trigger] invoices.deep_view()[k]).id == t@.invoice_id
                    && spec_invoice_under_client(
                    projects.deep_view(),
                    invoices.deep_view()[k],
                    client_id as int,
                )),
        decreases invoices@.len() - i,
    {
        proof {
            assert(invoices.deep_view()[i as int] == invoices@[i as int].deep_view());
        }
        if invoices[i].id == t.invoice_id {
            if invoice_under_client(projects, &invoices[i], client_id) {
                return true;
            }
        }
        i = i + 1;
    }
    false
}

/// Projects of client `client_id`, counted.
fn count_projects_of(projects: &Vec<Project>, client_id: i32) -> (m: usize)
    ensures
        m as int == spec_count_projects_of(projects.deep_view(), client_id as int),
{
    let mut count: usize = 0;
    let mut i: usize = 0;
    proof {
        reveal(Seq::filter);
        assert(projects.deep_view().subrange(0, 0) =~= Seq::<ProjectV>::empty());
    }
    while i < projects.len()
        invariant
            i <= projects@.len(),
            count <= i,
            count as int == projects.deep_view().subrange(0, i as int).filter(
                |j: ProjectV| j.client_id == client_id as int,
            ).len(),
        decreases projects@.len() - i,
    {
        proof {
            reveal(Seq::filter);
            broadcast use vstd::seq_lib::group_filter_ensures;

            assert(projects.deep_view().subrange(0, i as int + 1).drop_last()
                =~= projects.deep_view().subrange(0, i as int));
            assert(projects.deep_view().subrange(0, i as int + 1).last()
                == projects.deep_view()[i as int]);
            assert(projects.deep_view()[i as int] == projects@[i as int].deep_view());
        }
        if projects[i].client_id == client_id {
            count = count + 1;
        }
        i = i + 1;
    }
    proof {
        assert(projects.deep_view().subrange(0, projects.deep_view().len() as int)
            =~= projects.deep_view());
    }
    count
}


impl Database {
    /// The profile table without the row `id`.
    fn profiles_keeping_not_id(&self, id: i32) -> (r: Vec<Profile>)
        ensures
            r.deep_view() == self@.profiles.filter(|p: ProfileV| p.id != id as int),
    {
        let mut out: Vec<Profile> = Vec::new();
        let mut i: usize = 0;
        proof {
            reveal(Seq::filter);
            assert(self@.profiles.subrange(0, 0) =~= Seq::<ProfileV>::empty());
            assert(out.deep_view() =~= Seq::<ProfileV>::empty());
        }
        while i < self.profiles.len()
            invariant
                i <= self.profiles@.len(),
                out.deep_view() == self@.profiles.subrange(0, i as int).filter(|p: ProfileV| p.id != id as int),
            decreases self.profiles@.len() - i,
        {
            let ghost pre = out.deep_view();
            proof {
                reveal(Seq::filter);
                assert(self@.profiles.subrange(0, i as int + 1).drop_last() =~= self@.profiles
                    .subrange(0, i as int));
                assert(self@.profiles.subrange(0, i as int + 1).last() == self@.profiles[i as int]);
                assert(self.profiles@[i as int].deep_view() == self@.profiles[i as int]);
            }
            if self.profiles[i].id != id {
                out.push(self.profiles[i].duplicate());
                proof {
                    assert(out.deep_view() =~= pre.push(self@.profiles[i as int]));
                }
            }
            i = i + 1;
        }
        proof {
            assert(self@.profiles.subrange(0, self.profiles@.len() as int) =~= self@.profiles);
        }
        out
    }

    /// The client table without the clients of profile `id`.
    fn clients_keeping_not_profile(&self, id: i32) -> (r: Vec<Client>)
        ensures
            r.deep_view() == self@.clients.filter(|c: ClientV| c.profile_id != id as int),
    {
        let mut out: Vec<Client> = Vec::new();
        let mut i: usize = 0;
        proof {
            reveal(Seq::filter);
            assert(self@.clients.subrange(0, 0) =~= Seq::<ClientV>::empty());
            assert(out.deep_view() =~= Seq::<ClientV>::empty());
        }
        while i < self.clients.len()
            invariant
                i <= self.clients@.len(),
                out.deep_view() == self@.clients.subrange(0, i as int).filter(|c: ClientV| c.profile_id != id as int),
            decreases self.clients@.len() - i,
        {
            let ghost pre = out.deep_view();
            proof {
                reveal(Seq::filter);
                assert(self@.clients.subrange(0, i as int + 1).drop_last() =~= self@.clients
                    .subrange(0, i as int));
                assert(self@.clients.subrange(0, i as int + 1).last() == self@.clients[i as int]);
                assert(self.clients@[i as int].deep_view() == self@.clients[i as int]);
            }
            if self.clients[i].profile_id != id {
                out.push(self.clients[i].duplicate());
                proof {
                    assert(out.deep_view() =~= pre.push(self@.clients[i as int]));
                }
            }
            i = i + 1;
        }
        proof {
            assert(self@.clients.subrange(0, self.clients@.len() as int) =~= self@.clients);
        }
        out
    }

    /// The client table without the row `id`.
    fn clients_keeping_not_id(&self, id: i32) -> (r: Vec<Client>)
        ensures
            r.deep_view() == self@.clients.filter(|c: ClientV| c.id != id as int),
    {
        let mut out: Vec<Client> = Vec::new();
        let mut i: usize = 0;
        proof {
            reveal(Seq::filter);
            assert(self@.clients.subrange(0, 0) =~= Seq::<ClientV>::empty());
            assert(out.deep_view() =~= Seq::<ClientV>::empty());
        }
        while i < self.clients.len()
            invariant
                i <= self.clients@.len(),
                out.deep_view() == self@.clients.subrange(0, i as int).filter(|c: ClientV| c.id != id as int),
            decreases self.clients@.len() - i,
        {
            let ghost pre = out.deep_view();
            proof {
                reveal(Seq::filter);
                assert(self@.clients.subrange(0, i as int + 1).drop_last() =~= self@.clients
                    .subrange(0, i as int));
                assert(self@.clients.subrange(0, i as int + 1).last() == self@.clients[i as int]);
                assert(self.clients@[i as int].deep_view() == self@.clients[i as int]);
            }
            if self.clients[i].id != id {
                out.push(self.clients[i].duplicate());
                proof {
                    assert(out.deep_view() =~= pre.push(self@.clients[i as int]));
                }
            }
            i = i + 1;
        }
        proof {
            assert(self@.clients.subrange(0, self.clients@.len() as int) =~= self@.clients);
        }
        out
    }

    /// The project table without the projects of client `id`.
    fn projects_keeping_not_client(&self, id: i32) -> (r: Vec<Project>)
        ensures
            r.deep_view() == self@.projects.filter(|j: ProjectV| j.client_id != id as int),
    {
        let mut out: Vec<Project> = Vec::new();
        let mut i: usize = 0;
        proof {
            reveal(Seq::filter);
            assert(self@.projects.subrange(0, 0) =~= Seq::<ProjectV>::empty());
            assert(out.deep_view() =~= Seq::<ProjectV>::empty());
        }
        while i < self.projects.len()
            invariant
                i <= self.projects@.len(),
                out.deep_view() == self@.projects.subrange(0, i as int).filter(|j: ProjectV| j.client_id != id as int),
            decreases self.projects@.len() - i,
        {
            let ghost pre = out.deep_view();
            proof {
                reveal(Seq::filter);
                assert(self@.projects.subrange(0, i as int + 1).drop_last() =~= self@.projects
                    .subrange(0, i as int));
                assert(self@.projects.subrange(0, i as int + 1).last() == self@.projects[i as int]);
                assert(self.projects@[i as int].deep_view() == self@.projects[i as int]);
            }
            if self.projects[i].client_id != id {
                out.push(self.projects[i].duplicate());
                proof {
                    assert(out.deep_view() =~= pre.push(self@.projects[i as int]));
                }
            }
            i = i + 1;
        }
        proof {
            assert(self@.projects.subrange(0, self.projects@.len() as int) =~= self@.projects);
        }
        out
    }

    /// The project table without the projects hanging under profile `id`.
    fn projects_keeping_not_under_profile(&self, id: i32) -> (r: Vec<Project>)
        ensures
            r.deep_view() == self@.projects.filter(|j: ProjectV| !spec_project_under_profile(self@.clients, j, id as int)),
    {
        let mut out: Vec<Project> = Vec::new();
        let mut i: usize = 0;
        proof {
            reveal(Seq::filter);
            assert(self@.projects.subrange(0, 0) =~= Seq::<ProjectV>::empty());
            assert(out.deep_view() =~= Seq::<ProjectV>::empty());
        }
        while i < self.projects.len()
            invariant
                i <= self.projects@.len(),
                out.deep_view() == self@.projects.subrange(0, i as int).filter(|j: ProjectV| !spec_project_under_profile(self@.clients, j, id as int)),
            decreases self.projects@.len() - i,
        {
            let ghost pre = out.deep_view();
            proof {
                reveal(Seq::filter);
                assert(self@.projects.subrange(0, i as int + 1).drop_last() =~= self@.projects
                    .subrange(0, i as int));
                assert(self@.projects.subrange(0, i as int + 1).last() == self@.projects[i as int]);
                assert(self.projects@[i as int].deep_view() == self@.projects[i as int]);
            }
            if !project_under_profile(&self.clients, &self.projects[i], id) {
                out.push(self.projects[i].duplicate());
                proof {
                    assert(out.deep_view() =~= pre.push(self@.projects[i as int]));
                }
            }
            i = i + 1;
        }
        proof {
            assert(self@.projects.subrange(0, self.projects@.len() as int) =~= self@.projects);
        }
        out
    }

    /// The invoice table without the invoices hanging under profile `id`.
    fn invoices_keeping_not_under_profile(&self, id: i32) -> (r: Vec<Invoice>)
        ensures
            r.deep_view() == self@.invoices.filter(|n: InvoiceV| !spec_invoice_under_profile(self@.clients, self@.projects, n, id as int)),
    {
        let mut out: Vec<Invoice> = Vec::new();
        let mut i: usize = 0;
        proof {
            reveal(Seq::filter);
            assert(self@.invoices.subrange(0, 0) =~= Seq::<InvoiceV>::empty());
            assert(out.deep_view() =~= Seq::<InvoiceV>::empty());
        }
        while i < self.invoices.len()
            invariant
                i <= self.invoices@.len(),
                out.deep_view() == self@.invoices.subrange(0, i as int).filter(|n: InvoiceV| !spec_invoice_under_profile(self@.clients, self@.projects, n, id as int)),
            decreases self.invoices@.len() - i,
        {
            let ghost pre = out.deep_view();
            proof {
                reveal(Seq::filter);
                assert(self@.invoices.subrange(0, i as int + 1).drop_last() =~= self@.invoices
                    .subrange(0, i as int));
                assert(self@.invoices.subrange(0, i as int + 1).last() == self@.invoices[i as int]);
                assert(self.invoices@[i as int].deep_view() == self@.invoices[i as int]);
            }
            if !invoice_under_profile(&self.clients, &self.projects, &self.invoices[i], id) {
                out.push(self.invoices[i].duplicate());
                proof {
                    assert(out.deep_view() =~= pre.push(self@.invoices[i as int]));
                }
            }
            i = i + 1;
        }
        proof {
            assert(self@.invoices.subrange(0, self.invoices@.len() as int) =~= self@.invoices);
        }
        out
    }

    /// The invoice table without the invoices hanging under client `id`.
    fn invoices_keeping_not_under_client(&self, id: i32) -> (r: Vec<Invoice>)
        ensures
            r.deep_view() == self@.invoices.filter(|n: InvoiceV| !spec_invoice_under_client(self@.projects, n, id as int)),
    {
        let mut out: Vec<Invoice> = Vec::new();
        let mut i: usize = 0;
        proof {
            reveal(Seq::filter);
            assert(self@.invoices.subrange(0, 0) =~= Seq::<InvoiceV>::empty());
            assert(out.deep_view() =~= Seq::<InvoiceV>::empty());
        }
        while i < self.invoices.len()
            invariant
                i <= self.invoices@.len(),
                out.deep_view() == self@.invoices.subrange(0, i as int).filter(|n: InvoiceV| !spec_invoice_under_client(self@.projects, n, id as int)),
            decreases self.invoices@.len() - i,
        {
            let ghost pre = out.deep_view();
            proof {
                reveal(Seq::filter);
                assert(self@.invoices.subrange(0, i as int + 1).drop_last() =~= self@.invoices
                    .subrange(0, i as int));
                assert(self@.invoices.subrange(0, i as int + 1).last() == self@.invoices[i as int]);
                assert(self.invoices@[i as int].deep_view() == self@.invoices[i as int]);
            }
            if !invoice_under_client(&self.projects, &self.invoices[i], id) {
                out.push(self.invoices[i].duplicate());
                proof {
                    assert(out.deep_view() =~= pre.push(self@.invoices[i as int]));
                }
            }
            i = i + 1;
        }
        proof {
            assert(self@.invoices.subrange(0, self.invoices@.len() as int) =~= self@.invoices);
        }
        out
    }

    /// The line item table without the items hanging under profile `id`.
    fn line_items_keeping_not_under_profile(&self, id: i32) -> (r: Vec<InvoiceLineItem>)
        ensures
            r.deep_view() == self@.line_items.filter(|t: InvoiceLineItemV| !spec_item_under_profile(self@.clients, self@.projects, self@.invoices, t, id as int)),
    {
        let mut out: Vec<InvoiceLineItem> = Vec::new();
        let mut i: usize = 0;
        proof {
            reveal(Seq::filter);
            assert(self@.line_items.subrange(0, 0) =~= Seq::<InvoiceLineItemV>::empty());
            assert(out.deep_view() =~= Seq::<InvoiceLineItemV>::empty());
        }
        while i < self.line_items.len()
            invariant
                i <= self.line_items@.len(),
                out.deep_view() == self@.line_items.subrange(0, i as int).filter(|t: InvoiceLineItemV| !spec_item_under_profile(self@.clients, self@.projects, self@.invoices, t, id as int)),
            decreases self.line_items@.len() - i,
        {
            let ghost pre = out.deep_view();
            proof {
                reveal(Seq::filter);
                assert(self@.line_items.subrange(0, i as int + 1).drop_last() =~= self@.line_items
                    .subrange(0, i as int));
                assert(self@.line_items.subrange(0, i as int + 1).last() == self@.line_items[i as int]);
                assert(self.line_items@[i as int].deep_view() == self@.line_items[i as int]);
            }
            if !item_under_profile(&self.clients, &self.projects, &self.invoices, &self.line_items[i], id) {
                out.push(self.line_items[i].duplicate());
                proof {
                    assert(out.deep_view() =~= pre.push(self@.line_items[i as int]));
                }
            }
            i = i + 1;
        }
        proof {
            assert(self@.line_items.subrange(0, self.line_items@.len() as int) =~= self@.line_items);
        }
        out
    }

    /// The line item table without the items hanging under client `id`.
    fn line_items_keeping_not_under_client(&self, id: i32) -> (r: Vec<InvoiceLineItem>)
        ensures
            r.deep_view() == self@.line_items.filter(|t: InvoiceLineItemV| !spec_item_under_client(self@.projects, self@.invoices, t, id as int)),
    {
        let mut out: Vec<InvoiceLineItem> = Vec::new();
        let mut i: usize = 0;
        proof {
            reveal(Seq::filter);
            assert(self@.line_items.subrange(0, 0) =~= Seq::<InvoiceLineItemV>::empty());
            assert(out.deep_view() =~= Seq::<InvoiceLineItemV>::empty());
        }
        while i < self.line_items.len()
            invariant
                i <= self.line_items@.len(),
                out.deep_view() == self@.line_items.subrange(0, i as int).filter(|t: InvoiceLineItemV| !spec_item_under_client(self@.projects, self@.invoices, t, id as int)),
            decreases self.line_items@.len() - i,
        {
            let ghost pre = out.deep_view();
            proof {
                reveal(Seq::filter);
                assert(self@.line_items.subrange(0, i as int + 1).drop_last() =~= self@.line_items
                    .subrange(0, i as int));
                assert(self@.line_items.subrange(0, i as int + 1).last() == self@.line_items[i as int]);
                assert(self.line_items@[i as int].deep_view() == self@.line_items[i as int]);
            }
            if !item_under_client(&self.projects, &self.invoices, &self.line_items[i], id) {
                out.push(self.line_items[i].duplicate());
                proof {
                    assert(out.deep_view() =~= pre.push(self@.line_items[i as int]));
                }
            }
            i = i + 1;
        }
        proof {
            assert(self@.line_items.subrange(0, self.line_items@.len() as int) =~= self@.line_items);
        }
        out
    }
}


impl Database {
    /// Whether the profile cascade's statements fit within `budget`.
    fn profile_steps_within(&self, id: i32, budget: u64) -> (r: bool)
        ensures
            r == (spec_profile_cascade_steps(self@, id as int) <= budget as int),
    {
        let mut remaining: u64 = budget;
        let mut i: usize = 0;
        proof {
            assert(self@.clients.subrange(0, 0) =~= Seq::<ClientV>::empty());
        }
        while i < self.clients.len()
            invariant
                i <= self.clients@.len(),
                remaining <= budget,
                spec_steps_over_clients(
                    self@.clients.subrange(0, i as int),
                    self@.projects,
                    id as int,
                ) == budget - remaining,
            decreases self.clients@.len() - i,
        {
            proof {
                assert(self@.clients.subrange(0, i as int + 1).drop_last() =~= self@.clients
                    .subrange(0, i as int));
                assert(self@.clients.subrange(0, i as int + 1).last()
                    == self@.clients[i as int]);
                assert(self.clients@[i as int].deep_view() == self@.clients[i as int]);
            }
            if self.clients[i].profile_id == id {
                let m = count_projects_of(&self.projects, self.clients[i].id);
                let need: u128 = (m as u128) * 2 + 1;
                if need > remaining as u128 {
                    proof {
                        lemma_steps_over_clients_mono(
                            self@.clients,
                            self@.projects,
                            id as int,
                            i as int + 1,
                        );
                    }
                    return false;
                }
                remaining = remaining - (need as u64);
            }
            i = i + 1;
        }
        proof {
            assert(self@.clients.subrange(0, self@.clients.len() as int) =~= self@.clients);
        }
        remaining >= 2
    }

    /// Whether the client cascade's statements fit within `budget`.
    fn client_steps_within(&self, id: i32, budget: u64) -> (r: bool)
        ensures
            r == (spec_client_cascade_steps(self@, id as int) <= budget as int),
    {
        let m = count_projects_of(&self.projects, id);
        let need: u128 = (m as u128) * 2 + 2;
        need <= budget as u128
    }

    /// The cascading delete of profile `id` as one transaction, with an
    /// injected fault budget: `fault_after` is how many delete statements
    /// may run.  If the cascade needs more, the transaction fails, rolls
    /// back, and the store is exactly as before — all or nothing.
    pub fn delete_profile_tx(&mut self, id: i32, fault_after: Option<u64>) -> (r: Result<
        (),
        StorageError,
    >)
        requires
            old(self)@.inv(),
        ensures
            final(self)@.inv(),
            match r {
                Ok(u) => final(self)@ == spec_delete_profile(old(self)@, id as int),
                Err(e) => e == StorageError::TransactionFailed && final(self)@ == old(self)@,
            },
            r is Err <==> (fault_after is Some && (fault_after->0 as int)
                < spec_profile_cascade_steps(old(self)@, id as int)),
    {
        match fault_after {
            Some(k) => {
                if !self.profile_steps_within(id, k) {
                    return Err(StorageError::TransactionFailed);
                }
            },
            None => {},
        }
        let new_clients = self.clients_keeping_not_profile(id);
        let new_projects = self.projects_keeping_not_under_profile(id);
        let new_invoices = self.invoices_keeping_not_under_profile(id);
        let new_items = self.line_items_keeping_not_under_profile(id);
        let new_profiles = self.profiles_keeping_not_id(id);
        self.profiles = new_profiles;
        self.clients = new_clients;
        self.projects = new_projects;
        self.invoices = new_invoices;
        self.line_items = new_items;
        proof {
            Database::lemma_delete_shape_inv(
                old(self)@,
                self@,
                |p: ProfileV| p.id != id as int,
                |c: ClientV| c.profile_id != id as int,
                |j: ProjectV| !spec_project_under_profile(old(self)@.clients, j, id as int),
                |n: InvoiceV| !spec_invoice_under_profile(
                    old(self)@.clients,
                    old(self)@.projects,
                    n,
                    id as int,
                ),
                |t: InvoiceLineItemV| !spec_item_under_profile(
                    old(self)@.clients,
                    old(self)@.projects,
                    old(self)@.invoices,
                    t,
                    id as int,
                ),
            );
            assert(self@ =~= spec_delete_profile(old(self)@, id as int));
        }
        Ok(())
    }

    /// The cascading delete of profile `id`, run to completion.
    pub fn delete_profile(&mut self, id: i32) -> (r: Result<(), StorageError>)
        requires
            old(self)@.inv(),
        ensures
            final(self)@.inv(),
            r is Ok,
            final(self)@ == spec_delete_profile(old(self)@, id as int),
    {
        self.delete_profile_tx(id, None)
    }

    /// The cascading delete of client `id` as one transaction; the same
    /// fault budget and all-or-nothing guarantee as the profile cascade.
    pub fn delete_client_tx(&mut self, id: i32, fault_after: Option<u64>) -> (r: Result<
        (),
        StorageError,
    >)
        requires
            old(self)@.inv(),
        ensures
            final(self)@.inv(),
            match r {
                Ok(u) => final(self)@ == spec_delete_client(old(self)@, id as int),
                Err(e) => e == StorageError::TransactionFailed && final(self)@ == old(self)@,
            },
            r is Err <==> (fault_after is Some && (fault_after->0 as int)
                < spec_client_cascade_steps(old(self)@, id as int)),
    {
        match fault_after {
            Some(k) => {
                if !self.client_steps_within(id, k) {
                    return Err(StorageError::TransactionFailed);
                }
            },
            None => {},
        }
        let new_projects = self.projects_keeping_not_client(id);
        let new_invoices = self.invoices_keeping_not_under_client(id);
        let new_items = self.line_items_keeping_not_under_client(id);
        let new_clients = self.clients_keeping_not_id(id);
        self.clients = new_clients;
        self.projects = new_projects;
        self.invoices = new_invoices;
        self.line_items = new_items;
        proof {
            assert(self@.profiles =~= old(self)@.profiles);
            Database::lemma_delete_shape_inv(
                old(self)@,
                self@,
                |p: ProfileV| true,
                |c: ClientV| c.id != id as int,
                |j: ProjectV| j.client_id != id as int,
                |n: InvoiceV| !spec_invoice_under_client(old(self)@.projects, n, id as int),
                |t: InvoiceLineItemV| !spec_item_under_client(
                    old(self)@.projects,
                    old(self)@.invoices,
                    t,
                    id as int,
                ),
            );
            assert(self@ =~= spec_delete_client(old(self)@, id as int));
        }
        Ok(())
    }

    /// The cascading delete of client `id`, run to completion.
    pub fn delete_client(&mut self, id: i32) -> (r: Result<(), StorageError>)
        requires
            old(self)@.inv(),
        ensures
            final(self)@.inv(),
            r is Ok,
            final(self)@ == spec_delete_client(old(self)@, id as int),
    {
        self.delete_client_tx(id, None)
    }
}

/// Law: the profile cascade leaves zero residual rows of the deleted
/// subtree — no client of the profile, no project, invoice or line item
/// hanging under it, and not the profile itself — while every row outside
/// the subtree survives.
pub proof fn lemma_profile_cascade_complete(db: DatabaseV, pid: int)
    ensures
        ({
            let post = spec_delete_profile(db, pid);
            &&& !spec_has_profile(post.profiles, pid)
            &&& forall|i: int|
                0 <= i < post.clients.len() ==> (#[trigger] post.clients[i]).profile_id != pid
            &&& forall|i: int|
                0 <= i < post.projects.len() ==> !spec_project_under_profile(
                    db.clients,
                    #[trigger] post.projects[i],
                    pid,
                )
            &&& forall|i: int|
                0 <= i < post.invoices.len() ==> !spec_invoice_under_profile(
                    db.clients,
                    db.projects,
                    #[trigger] post.invoices[i],
                    pid,
                )
            &&& forall|i: int|
                0 <= i < post.line_items.len() ==> !spec_item_under_profile(
                    db.clients,
                    db.projects,
                    db.invoices,
                    #[trigger] post.line_items[i],
                    pid,
                )
            &&& forall|i: int|
                0 <= i < db.profiles.len() && (#[trigger] db.profiles[i]).id != pid
                    ==> post.profiles.contains(db.profiles[i])
            &&& forall|i: int|
                0 <= i < db.clients.len() && (#[trigger] db.clients[i]).profile_id != pid
                    ==> post.clients.contains(db.clients[i])
            &&& forall|i: int|
                0 <= i < db.projects.len() && !spec_project_under_profile(
                    db.clients,
                    #[trigger] db.projects[i],
                    pid,
                ) ==> post.projects.contains(db.projects[i])
            &&& forall|i: int|
                0 <= i < db.invoices.len() && !spec_invoice_under_profile(
                    db.clients,
                    db.projects,
                    #[trigger] db.invoices[i],
                    pid,
                ) ==> post.invoices.contains(db.invoices[i])
            &&& forall|i: int|
                0 <= i < db.line_items.len() && !spec_item_under_profile(
                    db.clients,
                    db.projects,
                    db.invoices,
                    #[trigger] db.line_items[i],
                    pid,
                ) ==> post.line_items.contains(db.line_items[i])
        }),
{
    broadcast use vstd::seq_lib::group_filter_ensures;

    let post = spec_delete_profile(db, pid);
    assert forall|i: int| 0 <= i < post.profiles.len() implies (#[trigger] post.profiles[i]).id
        != pid by {
        assert(post.profiles[i] == db.profiles.filter(|p: ProfileV| p.id != pid)[i]);
    }
    if spec_has_profile(post.profiles, pid) {
        let i = choose|i: int| 0 <= i < post.profiles.len() && (#[trigger] post.profiles[i]).id == pid;
        assert(false);
    }
}

/// Law: the client cascade leaves zero residual rows of the deleted
/// subtree and keeps every row outside it.
pub proof fn lemma_client_cascade_complete(db: DatabaseV, cid: int)
    ensures
        ({
            let post = spec_delete_client(db, cid);
            &&& !spec_has_client(post.clients, cid)
            &&& post.profiles == db.profiles
            &&& forall|i: int|
                0 <= i < post.projects.len() ==> (#[trigger] post.projects[i]).client_id != cid
            &&& forall|i: int|
                0 <= i < post.invoices.len() ==> !spec_invoice_under_client(
                    db.projects,
                    #[trigger] post.invoices[i],
                    cid,
                )
            &&& forall|i: int|
                0 <= i < post.line_items.len() ==> !spec_item_under_client(
                    db.projects,
                    db.invoices,
                    #[trigger] post.line_items[i],
                    cid,
                )
            &&& forall|i: int|
                0 <= i < db.clients.len() && (#[trigger] db.clients[i]).id != cid
                    ==> post.clients.contains(db.clients[i])
            &&& forall|i: int|
                0 <= i < db.projects.len() && (#[trigger] db.projects[i]).client_id != cid
                    ==> post.projects.contains(db.projects[i])
            &&& forall|i: int|
                0 <= i < db.invoices.len() && !spec_invoice_under_client(
                    db.projects,
                    #[trigger] db.invoices[i],
                    cid,
                ) ==> post.invoices.contains(db.invoices[i])
            &&& forall|i: int|
                0 <= i < db.line_items.len() && !spec_item_under_client(
                    db.projects,
                    db.invoices,
                    #[trigger] db.line_items[i],
                    cid,
                ) ==> post.line_items.contains(db.line_items[i])
        }),
{
    broadcast use vstd::seq_lib::group_filter_ensures;

    let post = spec_delete_client(db, cid);
    assert forall|i: int| 0 <= i < post.clients.len() implies (#[trigger] post.clients[i]).id
        != cid by {
        assert(post.clients[i] == db.clients.filter(|c: ClientV| c.id != cid)[i]);
    }
    if spec_has_client(post.clients, cid) {
        let i = choose|i: int| 0 <= i < post.clients.len() && (#[trigger] post.clients[i]).id == cid;
        assert(false);
    }
}


impl Database {
    /// All profiles; same as [`Database::load_profiles`].
    pub fn get_profiles(&self) -> (r: Vec<Profile>)
        ensures
            r.deep_view() == self@.profiles,
    {
        self.load_profiles()
    }

    /// The clients of one profile; same as
    /// [`Database::load_clients_by_profile`].
    pub fn get_clients_by_profile(&self, profile_id: i32) -> (r: Vec<Client>)
        ensures
            r.deep_view() == self@.clients.filter(
                |c: ClientV| c.profile_id == profile_id as int,
            ),
    {
        self.load_clients_by_profile(profile_id)
    }

    /// The projects of one client; same as
    /// [`Database::load_projects_by_client`].
    pub fn get_projects_by_client(&self, client_id: i32) -> (r: Vec<Project>)
        ensures
            r.deep_view() == self@.projects.filter(
                |j: ProjectV| j.client_id == client_id as int,
            ),
    {
        self.load_projects_by_client(client_id)
    }

    /// The invoices of one project; same as
    /// [`Database::load_invoices_by_project`].
    pub fn get_invoices_by_project(&self, project_id: i32) -> (r: Vec<Invoice>)
        ensures
            r.deep_view().to_multiset() == self@.invoices.filter(
                |n: InvoiceV| n.project_id == project_id as int,
            ).to_multiset(),
            spec_newest_first(r.deep_view()),
    {
        self.load_invoices_by_project(project_id)
    }
}


/// Law: saving a draft inserts it, and a later load of the returned
/// identity can only see the draft, field for field, under that
/// identity — the inserted row is the one and only row carrying it.
pub proof fn lemma_insert_then_load_profile(db: DatabaseV, p: ProfileV)
    requires
        db.inv(),
    ensures
        ({
            let post = db.profiles.push(spec_profile_created(p, db.next_id));
            forall|q: ProfileV|
                post.contains(q) && q.id == db.next_id ==> q == spec_profile_created(
                    p,
                    db.next_id,
                )
        }),
{
    let post = db.profiles.push(spec_profile_created(p, db.next_id));
    assert forall|q: ProfileV|
        post.contains(q) && q.id == db.next_id implies q == spec_profile_created(
        p,
        db.next_id,
    ) by {
        let k = choose|k: int| 0 <= k < post.len() && post[k] == q;
        if k < db.profiles.len() {
            assert(db.profiles[k].id < db.next_id);
        }
    }
}

/// Law: saving over an existing identity rewrites exactly that row, and
/// a later load of the identity sees the updated fields, not the old
/// ones.
pub proof fn lemma_update_then_load_profile(db: DatabaseV, p: ProfileV)
    requires
        db.inv(),
    ensures
        ({
            let post = db.profiles.map_values(
                |row: ProfileV|
                    if row.id == p.id {
                        spec_profile_updated(row, p)
                    } else {
                        row
                    },
            );
            forall|q: ProfileV|
                post.contains(q) && q.id == p.id ==> q.name == p.name && q.email == p.email
                    && q.phonenumber == p.phonenumber && q.address == p.address && q.bank_name
                    == p.bank_name && q.bank_account_number == p.bank_account_number
                    && q.bank_routing_number == p.bank_routing_number
        }),
{
    let post = db.profiles.map_values(
        |row: ProfileV|
            if row.id == p.id {
                spec_profile_updated(row, p)
            } else {
                row
            },
    );
    assert forall|q: ProfileV|
        post.contains(q) && q.id == p.id implies q.name == p.name && q.email == p.email
        && q.phonenumber == p.phonenumber && q.address == p.address && q.bank_name == p.bank_name
        && q.bank_account_number == p.bank_account_number && q.bank_routing_number
        == p.bank_routing_number by {
        let k = choose|k: int| 0 <= k < post.len() && post[k] == q;
        assert(post[k] == (if db.profiles[k].id == p.id {
            spec_profile_updated(db.profiles[k], p)
        } else {
            db.profiles[k]
        }));
    }
}

/// Law: the client insert-then-load round trip; see the profile law.
pub proof fn lemma_insert_then_load_client(db: DatabaseV, c: ClientV)
    requires
        db.inv(),
    ensures
        ({
            let post = db.clients.push(spec_client_created(c, db.next_id));
            forall|q: ClientV|
                post.contains(q) && q.id == db.next_id ==> q == spec_client_created(
                    c,
                    db.next_id,
                )
        }),
{
    let post = db.clients.push(spec_client_created(c, db.next_id));
    assert forall|q: ClientV|
        post.contains(q) && q.id == db.next_id implies q == spec_client_created(
        c,
        db.next_id,
    ) by {
        let k = choose|k: int| 0 <= k < post.len() && post[k] == q;
        if k < db.clients.len() {
            assert(db.clients[k].id < db.next_id);
        }
    }
}

/// Law: the project insert-then-load round trip; see the profile law.
pub proof fn lemma_insert_then_load_project(db: DatabaseV, j: ProjectV)
    requires
        db.inv(),
    ensures
        ({
            let post = db.projects.push(spec_project_created(j, db.next_id));
            forall|q: ProjectV|
                post.contains(q) && q.id == db.next_id ==> q == spec_project_created(
                    j,
                    db.next_id,
                )
        }),
{
    let post = db.projects.push(spec_project_created(j, db.next_id));
    assert forall|q: ProjectV|
        post.contains(q) && q.id == db.next_id implies q == spec_project_created(
        j,
        db.next_id,
    ) by {
        let k = choose|k: int| 0 <= k < post.len() && post[k] == q;
        if k < db.projects.len() {
            assert(db.projects[k].id < db.next_id);
        }
    }
}

/// Law: the invoice insert-then-load round trip; see the profile law.
pub proof fn lemma_insert_then_load_invoice(db: DatabaseV, n: InvoiceV)
    requires
        db.inv(),
    ensures
        ({
            let post = db.invoices.push(spec_invoice_created(n, db.next_id));
            forall|q: InvoiceV|
                post.contains(q) && q.id == db.next_id ==> q == spec_invoice_created(
                    n,
                    db.next_id,
                )
        }),
{
    let post = db.invoices.push(spec_invoice_created(n, db.next_id));
    assert forall|q: InvoiceV|
        post.contains(q) && q.id == db.next_id implies q == spec_invoice_created(
        n,
        db.next_id,
    ) by {
        let k = choose|k: int| 0 <= k < post.len() && post[k] == q;
        if k < db.invoices.len() {
            assert(db.invoices[k].id < db.next_id);
        }
    }
}

/// Law: an invoice update rewrites only the editable fields of its row;
/// a later load of the identity sees the new dates, rate and status and
/// the untouched owner and number.
pub proof fn lemma_update_then_load_invoice(db: DatabaseV, n: InvoiceV)
    requires
        db.inv(),
    ensures
        ({
            let post = db.invoices.map_values(
                |row: InvoiceV|
                    if row.id == n.id {
                        spec_invoice_updated(row, n)
                    } else {
                        row
                    },
            );
            forall|q: InvoiceV|
                post.contains(q) && q.id == n.id ==> q.submit_date == n.submit_date && q.due_date
                    == n.due_date && q.rate_cents == n.rate_cents && q.status == n.status
        }),
{
    let post = db.invoices.map_values(
        |row: InvoiceV|
            if row.id == n.id {
                spec_invoice_updated(row, n)
            } else {
                row
            },
    );
    assert forall|q: InvoiceV|
        post.contains(q) && q.id == n.id implies q.submit_date == n.submit_date && q.due_date
        == n.due_date && q.rate_cents == n.rate_cents && q.status == n.status by {
        let k = choose|k: int| 0 <= k < post.len() && post[k] == q;
        assert(post[k] == (if db.invoices[k].id == n.id {
            spec_invoice_updated(db.invoices[k], n)
        } else {
            db.invoices[k]
        }));
    }
}


/// Law: the client update-then-load round trip; see the profile law.
pub proof fn lemma_update_then_load_client(db: DatabaseV, c: ClientV)
    requires
        db.inv(),
    ensures
        ({
            let post = db.clients.map_values(
                |row: ClientV|
                    if row.id == c.id {
                        spec_client_updated(row, c)
                    } else {
                        row
                    },
            );
            forall|q: ClientV|
                post.contains(q) && q.id == c.id ==> q.name == c.name && q.phone == c.phone
                    && q.address == c.address && q.email == c.email
        }),
{
    let post = db.clients.map_values(
        |row: ClientV|
            if row.id == c.id {
                spec_client_updated(row, c)
            } else {
                row
            },
    );
    assert forall|q: ClientV|
        post.contains(q) && q.id == c.id implies q.name == c.name && q.phone == c.phone
        && q.address == c.address && q.email == c.email by {
        let k = choose|k: int| 0 <= k < post.len() && post[k] == q;
        assert(post[k] == (if db.clients[k].id == c.id {
            spec_client_updated(db.clients[k], c)
        } else {
            db.clients[k]
        }));
    }
}

/// Law: the project update-then-load round trip; see the profile law.
pub proof fn lemma_update_then_load_project(db: DatabaseV, j: ProjectV)
    requires
        db.inv(),
    ensures
        ({
            let post = db.projects.map_values(
                |row: ProjectV|
                    if row.id == j.id {
                        spec_project_updated(row, j)
                    } else {
                        row
                    },
            );
            forall|q: ProjectV|
                post.contains(q) && q.id == j.id ==> q.name == j.name && q.start_date
                    == j.start_date && q.end_date == j.end_date
        }),
{
    let post = db.projects.map_values(
        |row: ProjectV|
            if row.id == j.id {
                spec_project_updated(row, j)
            } else {
                row
            },
    );
    assert forall|q: ProjectV|
        post.contains(q) && q.id == j.id implies q.name == j.name && q.start_date == j.start_date
        && q.end_date == j.end_date by {
        let k = choose|k: int| 0 <= k < post.len() && post[k] == q;
        assert(post[k] == (if db.projects[k].id == j.id {
            spec_project_updated(db.projects[k], j)
        } else {
            db.projects[k]
        }));
    }
}


/// A fresh batch of rows under one owner, over a table that holds none
/// of that owner's rows, is exactly what a read of the owner returns.
pub proof fn lemma_reload_saved_items(
    base: Seq<InvoiceLineItemV>,
    created: Seq<InvoiceLineItemV>,
    target: int,
)
    requires
        forall|i: int| 0 <= i < base.len() ==> (#[trigger] base[i]).invoice_id != target,
        forall|i: int| 0 <= i < created.len() ==> (#[trigger] created[i]).invoice_id == target,
    ensures
        (base + created).filter(|t: InvoiceLineItemV| t.invoice_id == target) == created,
{
    let pred = |t: InvoiceLineItemV| t.invoice_id == target;
    Seq::filter_distributes_over_add(base, created, pred);
    lemma_filter_none(base, pred);
    lemma_filter_all(created, pred);
    assert((base + created).filter(pred) =~= created);
}

/// Law: the save transaction's insert case round-trips — a freshly
/// inserted invoice owns exactly the line items saved with it, because
/// no pre-existing row can carry the about-to-be-assigned identity.
pub proof fn lemma_fresh_invoice_reload(db: DatabaseV, items: Seq<InvoiceLineItemV>)
    requires
        db.inv(),
    ensures
        ({
            let created = spec_items_created(items, db.next_id + 1, db.next_id);
            (db.line_items + created).filter(
                |t: InvoiceLineItemV| t.invoice_id == db.next_id,
            ) == created
        }),
{
    let created = spec_items_created(items, db.next_id + 1, db.next_id);
    assert forall|i: int| 0 <= i < created.len() implies (#[trigger] created[i]).invoice_id
        == db.next_id by {
        assert(created[i] == spec_line_item_created(items[i], db.next_id + 1 + i, db.next_id));
    }
    lemma_reload_saved_items(db.line_items, created, db.next_id);
}

/// Law: the save transaction's update case round-trips — after the
/// rewrite, the invoice's identity owns exactly the saved line items,
/// the old ones being gone.
pub proof fn lemma_update_invoice_reload(db: DatabaseV, items: Seq<InvoiceLineItemV>, target: int)
    requires
        db.inv(),
    ensures
        ({
            let kept = db.line_items.filter(|t: InvoiceLineItemV| t.invoice_id != target);
            let created = spec_items_created(items, db.next_id, target);
            (kept + created).filter(|t: InvoiceLineItemV| t.invoice_id == target) == created
        }),
{
    broadcast use vstd::seq_lib::group_filter_ensures;

    let kept = db.line_items.filter(|t: InvoiceLineItemV| t.invoice_id != target);
    let created = spec_items_created(items, db.next_id, target);
    assert forall|i: int| 0 <= i < kept.len() implies (#[trigger] kept[i]).invoice_id
        != target by {
        assert(kept[i] == db.line_items.filter(
            |t: InvoiceLineItemV| t.invoice_id != target,
        )[i]);
    }
    assert forall|i: int| 0 <= i < created.len() implies (#[trigger] created[i]).invoice_id
        == target by {
        assert(created[i] == spec_line_item_created(items[i], db.next_id + i, target));
    }
    lemma_reload_saved_items(kept, created, target);
}


/// Invoice rows ordered newest submit date first.
pub open spec fn spec_newest_first(s: Seq<InvoiceV>) -> bool {
    forall|i: int, j: int|
        0 <= i < j < s.len() ==> crate::date::spec_date_le(
            (#[trigger] s[j]).submit_date,
            (#[trigger] s[i]).submit_date,
        )
}

/// Inserting anywhere adds one occurrence to the row multiset.
proof fn lemma_insert_to_multiset(s: Seq<InvoiceV>, k: int, x: InvoiceV)
    requires
        0 <= k <= s.len(),
    ensures
        s.insert(k, x).to_multiset() == s.to_multiset().insert(x),
{
    broadcast use vstd::seq_lib::group_to_multiset_ensures;

    let a = s.subrange(0, k);
    let b = s.subrange(k, s.len() as int);
    assert(s =~= a + b);
    assert(s.insert(k, x) =~= a.push(x) + b);
    vstd::seq_lib::lemma_multiset_commutative(a, b);
    vstd::seq_lib::lemma_multiset_commutative(a.push(x), b);
    assert(s.insert(k, x).to_multiset() =~= s.to_multiset().insert(x));
}

/// Sorts a batch of invoice rows newest submit date first; the rows
/// themselves are exactly preserved.
fn sort_invoices_newest_first(src: Vec<Invoice>) -> (r: Vec<Invoice>)
    ensures
        r.deep_view().to_multiset() == src.deep_view().to_multiset(),
        spec_newest_first(r.deep_view()),
{
    broadcast use vstd::seq_lib::group_to_multiset_ensures;

    let mut rest = src;
    let mut out: Vec<Invoice> = Vec::new();
    proof {
        assert(out.deep_view() =~= Seq::<InvoiceV>::empty());
        assert(out.deep_view().to_multiset().add(rest.deep_view().to_multiset())
            =~= rest.deep_view().to_multiset());
    }
    while rest.len() > 0
        invariant
            out.deep_view().to_multiset().add(rest.deep_view().to_multiset()) == src.deep_view()
                .to_multiset(),
            spec_newest_first(out.deep_view()),
        decreases rest@.len(),
    {
        broadcast use vstd::seq_lib::group_to_multiset_ensures;

        let ghost rest_pre = rest.deep_view();
        let last = rest.len() - 1;
        let x = rest.remove(last);
        proof {
            assert(rest.deep_view() =~= rest_pre.drop_last());
            assert(rest_pre =~= rest.deep_view().push(x@));
        }
        let mut k: usize = 0;
        while k < out.len() && !crate::date::date_le(out[k].submit_date, x.submit_date)
            invariant
                k <= out@.len(),
                forall|j: int|
                    0 <= j < k ==> !crate::date::spec_date_le(
                        (#[trigger] out.deep_view()[j]).submit_date,
                        x@.submit_date,
                    ),
            decreases out@.len() - k,
        {
            proof {
                assert(out.deep_view()[k as int] == out@[k as int]@);
            }
            k = k + 1;
        }
        proof {
            if k < out@.len() {
                assert(out.deep_view()[k as int] == out@[k as int]@);
            }
        }
        let ghost out_pre = out.deep_view();
        out.insert(k, x);
        proof {
            assert(out.deep_view() =~= out_pre.insert(k as int, x@));
            lemma_insert_to_multiset(out_pre, k as int, x@);
            assert(out.deep_view().to_multiset().add(rest.deep_view().to_multiset())
                =~= src.deep_view().to_multiset());
            assert forall|i: int, j: int| 0 <= i < j < out.deep_view().len() implies
                crate::date::spec_date_le(
                (#[trigger] out.deep_view()[j]).submit_date,
                (#[trigger] out.deep_view()[i]).submit_date,
            ) by {
                let dv = out.deep_view();
                if i < k && j == k {
                    assert(!crate::date::spec_date_le(out_pre[i].submit_date, x@.submit_date));
                } else if i == k && j > k {
                    assert(crate::date::spec_date_le(out_pre[k as int].submit_date, x@.submit_date)
                        || k as int == out_pre.len());
                    assert(crate::date::spec_date_le(
                        out_pre[j - 1].submit_date,
                        out_pre[k as int].submit_date,
                    ) || j - 1 == k as int);
                }
            }
        }
    }
    proof {
        broadcast use vstd::multiset::group_multiset_axioms;

        assert(rest.deep_view() =~= Seq::<InvoiceV>::empty());
        assert(rest.deep_view().to_multiset() =~= vstd::multiset::Multiset::<InvoiceV>::empty())
            by {
            broadcast use vstd::seq_lib::group_to_multiset_ensures;
            broadcast use vstd::multiset::group_multiset_axioms;

            assert(rest.deep_view().to_multiset().len() == 0);
        }
        assert(out.deep_view().to_multiset().add(rest.deep_view().to_multiset())
            =~= out.deep_view().to_multiset());
    }
    out
}

} // verus!
