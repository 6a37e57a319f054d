//! The profile wizard: a cyclic list of text fields over a draft
//! [`Profile`], with one field focused, an edit mode, and Save/Cancel
//! actions.  Save is accepted only when the required fields are filled.

use vstd::prelude::*;

use crate::input::Key;
use crate::models::{Duplicate, Profile, ProfileV};
use crate::text::string_pop;

verus! {

/// What the wizard hands back to the workflow.
pub enum ProfileWizardAction {
    Cancel,
    Save(Profile),
}

/// The fields of the profile form, in display order.
#[derive(Clone, Copy, PartialEq, Eq, Structural, Debug)]
pub enum ProfileField {
    Name,
    Email,
    PhoneNumber,
    Address,
    BankName,
    BankAccountNumber,
    BankRoutingNumber,
}

/// The wizard's state: the draft, the focused field, and edit mode.
pub struct ProfileWizardState {
    pub profile: Profile,
    pub current_field: ProfileField,
    pub editing: bool,
}

/// Mathematical image of the wizard state.
#[verifier::ext_equal]
pub struct ProfileWizardV {
    pub profile: ProfileV,
    pub current_field: ProfileField,
    pub editing: bool,
}

impl View for ProfileWizardState {
    type V = ProfileWizardV;

    open spec fn view(&self) -> ProfileWizardV {
        ProfileWizardV {
            profile: self.profile@,
            current_field: self.current_field,
            editing: self.editing,
        }
    }
}

/// Focus order, cycling downward with wraparound.
pub open spec fn spec_profile_next_field(f: ProfileField) -> ProfileField {
    match f {
        ProfileField::Name => ProfileField::Email,
        ProfileField::Email => ProfileField::PhoneNumber,
        ProfileField::PhoneNumber => ProfileField::Address,
        ProfileField::Address => ProfileField::BankName,
        ProfileField::BankName => ProfileField::BankAccountNumber,
        ProfileField::BankAccountNumber => ProfileField::BankRoutingNumber,
        ProfileField::BankRoutingNumber => ProfileField::Name,
    }
}

/// Focus order, cycling upward with wraparound.
pub open spec fn spec_profile_previous_field(f: ProfileField) -> ProfileField {
    match f {
        ProfileField::Name => ProfileField::BankRoutingNumber,
        ProfileField::Email => ProfileField::Name,
        ProfileField::PhoneNumber => ProfileField::Email,
        ProfileField::Address => ProfileField::PhoneNumber,
        ProfileField::BankName => ProfileField::Address,
        ProfileField::BankAccountNumber => ProfileField::BankName,
        ProfileField::BankRoutingNumber => ProfileField::BankAccountNumber,
    }
}

/// The text of one field; a missing address reads as empty.
pub open spec fn spec_profile_field_text(p: ProfileV, f: ProfileField) -> Seq<char> {
    match f {
        ProfileField::Name => p.name,
        ProfileField::Email => p.email,
        ProfileField::PhoneNumber => p.phonenumber,
        ProfileField::Address => match p.address {
            Some(a) => a,
            None => Seq::empty(),
        },
        ProfileField::BankName => p.bank_name,
        ProfileField::BankAccountNumber => p.bank_account_number,
        ProfileField::BankRoutingNumber => p.bank_routing_number,
    }
}

/// The draft with one field's text replaced; editing the address
/// materializes it.
pub open spec fn spec_profile_with_field_text(p: ProfileV, f: ProfileField, t: Seq<char>) -> ProfileV {
    match f {
        ProfileField::Name => ProfileV { name: t, ..p },
        ProfileField::Email => ProfileV { email: t, ..p },
        ProfileField::PhoneNumber => ProfileV { phonenumber: t, ..p },
        ProfileField::Address => ProfileV { address: Some(t), ..p },
        ProfileField::BankName => ProfileV { bank_name: t, ..p },
        ProfileField::BankAccountNumber => ProfileV { bank_account_number: t, ..p },
        ProfileField::BankRoutingNumber => ProfileV { bank_routing_number: t, ..p },
    }
}

/// What one key does to a text field: characters append, backspace drops
/// the last character, everything else leaves the text alone.
pub open spec fn spec_edit_text(t: Seq<char>, key: Key) -> Seq<char> {
    match key {
        Key::Char(c) => t.push(c),
        Key::Backspace => if t.len() == 0 {
            t
        } else {
            t.drop_last()
        },
        _ => t,
    }
}

/// A profile draft the wizard accepts: name, email, phone and the three
/// bank fields are non-empty; the address may stay empty.
pub open spec fn spec_profile_valid(p: ProfileV) -> bool {
    &&& p.name.len() > 0
    &&& p.email.len() > 0
    &&& p.phonenumber.len() > 0
    &&& p.bank_name.len() > 0
    &&& p.bank_account_number.len() > 0
    &&& p.bank_routing_number.len() > 0
}

impl ProfileWizardState {
    /// A wizard over an empty draft (identity zero), focused on the name.
    pub fn new() -> (s: ProfileWizardState)
        ensures
            s@.profile.id == 0,
            s@.profile.name.len() == 0,
            s@.profile.email.len() == 0,
            s@.profile.phonenumber.len() == 0,
            s@.profile.address == Some(Seq::<char>::empty()),
            s@.profile.bank_name.len() == 0,
            s@.profile.bank_account_number.len() == 0,
            s@.profile.bank_routing_number.len() == 0,
            s@.current_field == ProfileField::Name,
            !s@.editing,
    {
        ProfileWizardState {
            profile: Profile {
                id: 0,
                name: String::new(),
                email: String::new(),
                phonenumber: String::new(),
                address: Some(String::new()),
                bank_name: String::new(),
                bank_account_number: String::new(),
                bank_routing_number: String::new(),
            },
            current_field: ProfileField::Name,
            editing: false,
        }
    }

    /// A wizard over an existing profile, for editing it.
    pub fn from_existing(profile: Profile) -> (s: ProfileWizardState)
        ensures
            s@.profile == profile@,
            s@.current_field == ProfileField::Name,
            !s@.editing,
    {
        ProfileWizardState { profile, current_field: ProfileField::Name, editing: false }
    }

    /// Flips edit mode for the focused field.
    pub fn toggle_editing(&mut self)
        ensures
            final(self)@ == (ProfileWizardV { editing: !old(self).editing, ..old(self)@ }),
    {
        self.editing = !self.editing;
    }

    /// Moves focus down, with wraparound.
    pub fn next_field(&mut self)
        ensures
            final(self)@ == (ProfileWizardV {
                current_field: spec_profile_next_field(old(self).current_field),
                ..old(self)@
            }),
    {
        self.current_field = match self.current_field {
            ProfileField::Name => ProfileField::Email,
            ProfileField::Email => ProfileField::PhoneNumber,
            ProfileField::PhoneNumber => ProfileField::Address,
            ProfileField::Address => ProfileField::BankName,
            ProfileField::BankName => ProfileField::BankAccountNumber,
            ProfileField::BankAccountNumber => ProfileField::BankRoutingNumber,
            ProfileField::BankRoutingNumber => ProfileField::Name,
        };
    }

    /// Moves focus up, with wraparound.
    pub fn previous_field(&mut self)
        ensures
            final(self)@ == (ProfileWizardV {
                current_field: spec_profile_previous_field(old(self).current_field),
                ..old(self)@
            }),
    {
        self.current_field = match self.current_field {
            ProfileField::Name => ProfileField::BankRoutingNumber,
            ProfileField::Email => ProfileField::Name,
            ProfileField::PhoneNumber => ProfileField::Email,
            ProfileField::Address => ProfileField::PhoneNumber,
            ProfileField::BankName => ProfileField::Address,
            ProfileField::BankAccountNumber => ProfileField::BankName,
            ProfileField::BankRoutingNumber => ProfileField::BankAccountNumber,
        };
    }

    /// Applies one key to the focused field while in edit mode: text keys
    /// edit the field (materializing a missing address), anything else
    /// leaves the draft alone; outside edit mode nothing happens.
    pub fn edit_current_field(&mut self, key: Key)
        ensures
            !old(self).editing ==> final(self)@ == old(self)@,
            old(self).editing ==> final(self)@ == (ProfileWizardV {
                profile: spec_profile_with_field_text(
                    old(self)@.profile,
                    old(self).current_field,
                    spec_edit_text(
                        spec_profile_field_text(old(self)@.profile, old(self).current_field),
                        key,
                    ),
                ),
                ..old(self)@
            }),
    {
        if !self.editing {
            return;
        }
        if self.current_field == ProfileField::Address && self.profile.address.is_none() {
            self.profile.address = Some(String::new());
        }
        let field_value = match self.current_field {
            ProfileField::Name => &mut self.profile.name,
            ProfileField::Email => &mut self.profile.email,
            ProfileField::PhoneNumber => &mut self.profile.phonenumber,
            ProfileField::Address => match &mut self.profile.address {
                Some(a) => a,
                None => {
                    return;  // unreachable: the address was just materialized
                },
            },
            ProfileField::BankName => &mut self.profile.bank_name,
            ProfileField::BankAccountNumber => &mut self.profile.bank_account_number,
            ProfileField::BankRoutingNumber => &mut self.profile.bank_routing_number,
        };
        match key {
            Key::Char(c) => {
                crate::text::push_char(field_value, c);
            },
            Key::Backspace => {
                let _ = string_pop(field_value);
            },
            _ => {},
        }
    }

    /// Whether the draft may be saved; see [`spec_profile_valid`].
    pub fn is_valid(&self) -> (r: bool)
        ensures
            r == spec_profile_valid(self@.profile),
    {
        self.profile.name.as_str().unicode_len() > 0 && self.profile.email.as_str().unicode_len()
            > 0 && self.profile.phonenumber.as_str().unicode_len() > 0
            && self.profile.bank_name.as_str().unicode_len() > 0
            && self.profile.bank_account_number.as_str().unicode_len() > 0
            && self.profile.bank_routing_number.as_str().unicode_len() > 0
    }
}

/// One key of the profile wizard: Esc leaves edit mode or cancels, Enter
/// toggles edit mode, Up and Down move focus outside edit mode, `s`
/// outside edit mode saves a valid draft and does nothing on an invalid
/// one, and any other key edits the focused field while in edit mode.
pub fn handle_input(state: &mut ProfileWizardState, key: Key) -> (r: Option<ProfileWizardAction>)
    ensures
        key == Key::Esc && old(state).editing ==> final(state)@ == (ProfileWizardV {
            editing: false,
            ..old(state)@
        }) && r is None,
        key == Key::Esc && !old(state).editing ==> final(state)@ == old(state)@ && (
        r matches Some(ProfileWizardAction::Cancel)),
        key == Key::Enter ==> final(state)@ == (ProfileWizardV {
            editing: !old(state).editing,
            ..old(state)@
        }) && r is None,
        key == Key::Up && !old(state).editing ==> final(state)@ == (ProfileWizardV {
            current_field: spec_profile_previous_field(old(state).current_field),
            ..old(state)@
        }) && r is None,
        key == Key::Down && !old(state).editing ==> final(state)@ == (ProfileWizardV {
            current_field: spec_profile_next_field(old(state).current_field),
            ..old(state)@
        }) && r is None,
        key == Key::Char('s') && !old(state).editing && spec_profile_valid(old(state)@.profile)
            ==> final(state)@ == old(state)@ && (r matches Some(ProfileWizardAction::Save(p))
            && p@ == old(state)@.profile),
        key == Key::Char('s') && !old(state).editing && !spec_profile_valid(old(state)@.profile)
            ==> final(state)@ == old(state)@ && r is None,
        old(state).editing && key != Key::Esc && key != Key::Enter ==> final(state)@ == (
        ProfileWizardV {
            profile: spec_profile_with_field_text(
                old(state)@.profile,
                old(state).current_field,
                spec_edit_text(
                    spec_profile_field_text(old(state)@.profile, old(state).current_field),
                    key,
                ),
            ),
            ..old(state)@
        }) && r is None,
        !old(state).editing && !(key == Key::Esc || key == Key::Enter || key == Key::Up || key
            == Key::Down || key == Key::Char('s')) ==> final(state)@ == old(state)@ && r is None,
{
    match key {
        Key::Esc => {
            if state.editing {
                state.toggle_editing();
            } else {
                return Some(ProfileWizardAction::Cancel);
            }
        },
        Key::Enter => {
            state.toggle_editing();
        },
        Key::Up if !state.editing => {
            state.previous_field();
        },
        Key::Down if !state.editing => {
            state.next_field();
        },
        Key::Char(c) if c == 's' && !state.editing => {
            if state.is_valid() {
                return Some(ProfileWizardAction::Save(state.profile.duplicate()));
            }
        },
        _ => {
            if state.editing {
                state.edit_current_field(key);
            }
        },
    }
    None
}

} // verus!
