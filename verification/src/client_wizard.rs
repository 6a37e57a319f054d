//! The client wizard: the same field-cycling sub-machine as the profile
//! wizard, over a draft [`Client`] bound to its owning profile.

use vstd::prelude::*;

use crate::input::Key;
use crate::models::{Client, ClientV, Duplicate};
use crate::profile_wizard::spec_edit_text;
use crate::text::string_pop;

verus! {

/// What the wizard hands back to the workflow.
pub enum ClientWizardAction {
    Cancel,
    Save(Client),
}

/// The fields of the client form, in display order.
#[derive(Clone, Copy, PartialEq, Eq, Structural, Debug)]
pub enum ClientField {
    Name,
    Email,
    Phone,
    Address,
}

/// The wizard's state: the draft, its owning profile, the focused field,
/// and edit mode.
pub struct ClientWizardState {
    pub profile_id: i32,
    pub client: Client,
    pub current_field: ClientField,
    pub editing: bool,
}

/// Mathematical image of the wizard state.
#[verifier::ext_equal]
pub struct ClientWizardV {
    pub profile_id: int,
    pub client: ClientV,
    pub current_field: ClientField,
    pub editing: bool,
}

impl View for ClientWizardState {
    type V = ClientWizardV;

    open spec fn view(&self) -> ClientWizardV {
        ClientWizardV {
            profile_id: self.profile_id as int,
            client: self.client@,
            current_field: self.current_field,
            editing: self.editing,
        }
    }
}

/// Focus order, cycling downward with wraparound.
pub open spec fn spec_client_next_field(f: ClientField) -> ClientField {
    match f {
        ClientField::Name => ClientField::Email,
        ClientField::Email => ClientField::Phone,
        ClientField::Phone => ClientField::Address,
        ClientField::Address => ClientField::Name,
    }
}

/// Focus order, cycling upward with wraparound.
pub open spec fn spec_client_previous_field(f: ClientField) -> ClientField {
    match f {
        ClientField::Name => ClientField::Address,
        ClientField::Email => ClientField::Name,
        ClientField::Phone => ClientField::Email,
        ClientField::Address => ClientField::Phone,
    }
}

/// The text of one field; a missing address reads as empty.
pub open spec fn spec_client_field_text(c: ClientV, f: ClientField) -> Seq<char> {
    match f {
        ClientField::Name => c.name,
        ClientField::Email => c.email,
        ClientField::Phone => c.phone,
        ClientField::Address => match c.address {
            Some(a) => a,
            None => Seq::empty(),
        },
    }
}

/// The draft with one field's text replaced; editing the address
/// materializes it.
pub open spec fn spec_client_with_field_text(c: ClientV, f: ClientField, t: Seq<char>) -> ClientV {
    match f {
        ClientField::Name => ClientV { name: t, ..c },
        ClientField::Email => ClientV { email: t, ..c },
        ClientField::Phone => ClientV { phone: t, ..c },
        ClientField::Address => ClientV { address: Some(t), ..c },
    }
}

/// A client draft the wizard accepts: name, email and phone non-empty.
pub open spec fn spec_client_valid(c: ClientV) -> bool {
    &&& c.name.len() > 0
    &&& c.email.len() > 0
    &&& c.phone.len() > 0
}

impl ClientWizardState {
    /// A wizard over an empty draft under profile `profile_id`.
    pub fn new(profile_id: i32) -> (s: ClientWizardState)
        ensures
            s@.profile_id == profile_id as int,
            s@.client.id == 0,
            s@.client.profile_id == profile_id as int,
            s@.client.name.len() == 0,
            s@.client.email.len() == 0,
            s@.client.phone.len() == 0,
            s@.client.address == Some(Seq::<char>::empty()),
            s@.current_field == ClientField::Name,
            !s@.editing,
    {
        ClientWizardState {
            profile_id,
            client: Client {
                id: 0,
                profile_id,
                name: String::new(),
                email: String::new(),
                phone: String::new(),
                address: Some(String::new()),
            },
            current_field: ClientField::Name,
            editing: false,
        }
    }

    /// A wizard over an existing client, for editing it.
    pub fn from_existing(client: Client) -> (s: ClientWizardState)
        ensures
            s@.client == client@,
            s@.profile_id == client@.profile_id,
            s@.current_field == ClientField::Name,
            !s@.editing,
    {
        let profile_id = client.profile_id;
        ClientWizardState { profile_id, client, current_field: ClientField::Name, editing: false }
    }

    /// The owning profile's identity.
    pub fn profile_id(&self) -> (r: i32)
        ensures
            r as int == self@.profile_id,
    {
        self.profile_id
    }

    /// Flips edit mode for the focused field.
    pub fn toggle_editing(&mut self)
        ensures
            final(self)@ == (ClientWizardV { editing: !old(self).editing, ..old(self)@ }),
    {
        self.editing = !self.editing;
    }

    /// Moves focus down, with wraparound.
    pub fn next_field(&mut self)
        ensures
            final(self)@ == (ClientWizardV {
                current_field: spec_client_next_field(old(self).current_field),
                ..old(self)@
            }),
    {
        self.current_field = match self.current_field {
            ClientField::Name => ClientField::Email,
            ClientField::Email => ClientField::Phone,
            ClientField::Phone => ClientField::Address,
            ClientField::Address => ClientField::Name,
        };
    }

    /// Moves focus up, with wraparound.
    pub fn previous_field(&mut self)
        ensures
            final(self)@ == (ClientWizardV {
                current_field: spec_client_previous_field(old(self).current_field),
                ..old(self)@
            }),
    {
        self.current_field = match self.current_field {
            ClientField::Name => ClientField::Address,
            ClientField::Email => ClientField::Name,
            ClientField::Phone => ClientField::Email,
            ClientField::Address => ClientField::Phone,
        };
    }

    /// Applies one key to the focused field while in edit mode; see the
    /// profile wizard's editor for the rules.
    pub fn edit_current_field(&mut self, key: Key)
        ensures
            !old(self).editing ==> final(self)@ == old(self)@,
            old(self).editing ==> final(self)@ == (ClientWizardV {
                client: spec_client_with_field_text(
                    old(self)@.client,
                    old(self).current_field,
                    spec_edit_text(
                        spec_client_field_text(old(self)@.client, old(self).current_field),
                        key,
                    ),
                ),
                ..old(self)@
            }),
    {
        if !self.editing {
            return;
        }
        if self.current_field == ClientField::Address && self.client.address.is_none() {
            self.client.address = Some(String::new());
        }
        let field_value = match self.current_field {
            ClientField::Name => &mut self.client.name,
            ClientField::Email => &mut self.client.email,
            ClientField::Phone => &mut self.client.phone,
            ClientField::Address => match &mut self.client.address {
                Some(a) => a,
                None => {
                    return;  // unreachable: the address was just materialized
                },
            },
        };
        match key {
            Key::Char(c) => {
                crate::text::push_char(field_value, c);
            },
            Key::Backspace => {
                let _ = string_pop(field_value);
            },
            _ => {},
        }
    }

    /// Whether the draft may be saved; see [`spec_client_valid`].
    pub fn is_valid(&self) -> (r: bool)
        ensures
            r == spec_client_valid(self@.client),
    {
        self.client.name.as_str().unicode_len() > 0 && self.client.email.as_str().unicode_len()
            > 0 && self.client.phone.as_str().unicode_len() > 0
    }
}

/// One key of the client wizard; the same dispatch as the profile
/// wizard's, over the client's field set.
pub fn handle_input(state: &mut ClientWizardState, key: Key) -> (r: Option<ClientWizardAction>)
    ensures
        key == Key::Esc && old(state).editing ==> final(state)@ == (ClientWizardV {
            editing: false,
            ..old(state)@
        }) && r is None,
        key == Key::Esc && !old(state).editing ==> final(state)@ == old(state)@ && (
        r matches Some(ClientWizardAction::Cancel)),
        key == Key::Enter ==> final(state)@ == (ClientWizardV {
            editing: !old(state).editing,
            ..old(state)@
        }) && r is None,
        key == Key::Up && !old(state).editing ==> final(state)@ == (ClientWizardV {
            current_field: spec_client_previous_field(old(state).current_field),
            ..old(state)@
        }) && r is None,
        key == Key::Down && !old(state).editing ==> final(state)@ == (ClientWizardV {
            current_field: spec_client_next_field(old(state).current_field),
            ..old(state)@
        }) && r is None,
        key == Key::Char('s') && !old(state).editing && spec_client_valid(old(state)@.client)
            ==> final(state)@ == old(state)@ && (r matches Some(ClientWizardAction::Save(c))
            && c@ == old(state)@.client),
        key == Key::Char('s') && !old(state).editing && !spec_client_valid(old(state)@.client)
            ==> final(state)@ == old(state)@ && r is None,
        old(state).editing && key != Key::Esc && key != Key::Enter ==> final(state)@ == (
        ClientWizardV {
            client: spec_client_with_field_text(
                old(state)@.client,
                old(state).current_field,
                spec_edit_text(
                    spec_client_field_text(old(state)@.client, old(state).current_field),
                    key,
                ),
            ),
            ..old(state)@
        }) && r is None,
        !old(state).editing && !(key == Key::Esc || key == Key::Enter || key == Key::Up || key
            == Key::Down || key == Key::Char('s')) ==> final(state)@ == old(state)@ && r is None,
{
    match key {
        Key::Esc => {
            if state.editing {
                state.toggle_editing();
            } else {
                return Some(ClientWizardAction::Cancel);
            }
        },
        Key::Enter => {
            state.toggle_editing();
        },
        Key::Up if !state.editing => {
            state.previous_field();
        },
        Key::Down if !state.editing => {
            state.next_field();
        },
        Key::Char(c) if c == 's' && !state.editing => {
            if state.is_valid() {
                return Some(ClientWizardAction::Save(state.client.duplicate()));
            }
        },
        _ => {
            if state.editing {
                state.edit_current_field(key);
            }
        },
    }
    None
}

} // verus!
