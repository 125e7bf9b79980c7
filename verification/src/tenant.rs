//! The tenant aggregate: identity, descriptive attributes, an activation
//! flag, and the collection of invitations it owns.

use vstd::prelude::*;

use crate::assertion::ArgumentError;
use crate::assertion::assert_argument_max_length;
use crate::assertion::assert_argument_not_empty;
use crate::assertion::max_length_msg;
use crate::assertion::required_msg;
use crate::invitation::Invitation;
use crate::invitation::InvitationView;
use crate::tenant_id::TenantId;

verus! {

/// The aggregate root owning a tenant's identity, name, optional
/// description, activation state and invitations.
#[derive(Debug)]
pub struct Tenant {
    tenant_id: TenantId,
    name: String,
    description: Option<String>,
    active: bool,
    invitations: Vec<Invitation>,
}

/// The abstract state of a [`Tenant`].
#[verifier::ext_equal]
pub struct TenantView {
    pub tenant_id: Seq<char>,
    pub name: Seq<char>,
    pub description: Option<Seq<char>>,
    pub active: bool,
    pub invitations: Seq<InvitationView>,
}

impl TenantView {
    /// The same state with the activation flag set to `active`.
    pub open spec fn with_active(self, active: bool) -> TenantView {
        TenantView { active, ..self }
    }
}

impl View for Tenant {
    type V = TenantView;

    closed spec fn view(&self) -> TenantView {
        TenantView {
            tenant_id: self.tenant_id@,
            name: self.name@,
            description: match self.description {
                Some(d) => Some(d@),
                None => None,
            },
            active: self.active,
            invitations: self.invitations@.map_values(|inv: Invitation| inv@),
        }
    }
}

impl Tenant {
    /// Well-formedness: the name is non-empty and at most 100 characters;
    /// the description, when present, likewise. Every tenant that can be
    /// constructed satisfies it, for its whole life.
    #[verifier::type_invariant]
    pub open spec fn wf(&self) -> bool {
        &&& 1 <= self@.name.len() <= 100
        &&& match self@.description {
            Some(d) => 1 <= d.len() <= 100,
            None => true,
        }
    }

    /// Creates a new [`Tenant`] with the supplied attributes and no
    /// invitations. The name must be 1 to 100 characters; a description,
    /// when supplied, at most 100, and an empty one is stored as absent.
    /// The first violated check determines the reported message.
    pub fn new(tenant_id: &TenantId, name: &str, description: Option<&str>, active: bool) -> (r:
        Result<Tenant, ArgumentError>)
        ensures
            r is Ok <==> (1 <= name@.len() <= 100 && (match description {
                Some(d) => d@.len() <= 100,
                None => true,
            })),
            r is Ok ==> ({
                let t = r->Ok_0;
                &&& t@.tenant_id == tenant_id@
                &&& t@.name == name@
                &&& t@.description == (match description {
                    Some(d) => if d@.len() == 0 {
                        None
                    } else {
                        Some(d@)
                    },
                    None => None::<Seq<char>>,
                })
                &&& t@.active == active
                &&& t@.invitations.len() == 0
                &&& t.wf()
            }),
            name@.len() == 0 ==> r is Err && r->Err_0@ == required_msg("name"@),
            name@.len() > 100 ==> r is Err && r->Err_0@ == max_length_msg("name"@, 100),
            1 <= name@.len() <= 100 && (description matches Some(d) && d@.len() > 100) ==> r is Err
                && r->Err_0@ == max_length_msg("description"@, 100),
    {
        if let Err(e) = assert_argument_not_empty(name, "name") {
            return Err(e);
        }
        if let Err(e) = assert_argument_max_length(name, 100, "name") {
            return Err(e);
        }
        let stored_description: Option<String> = match description {
            Some(d) => {
                if let Err(e) = assert_argument_max_length(d, 100, "description") {
                    return Err(e);
                }
                if d.is_empty() {
                    None
                } else {
                    Some(String::from_str(d))
                }
            },
            None => None,
        };
        Ok(
            Tenant {
                tenant_id: tenant_id.clone(),
                name: String::from_str(name),
                description: stored_description,
                active,
                invitations: Vec::new(),
            },
        )
    }

    /// The tenant's unique identifier.
    pub fn tenant_id(&self) -> (r: &TenantId)
        ensures
            r@ == self@.tenant_id,
    {
        &self.tenant_id
    }

    /// The tenant's name.
    pub fn name(&self) -> (r: &str)
        ensures
            r@ == self@.name,
    {
        self.name.as_str()
    }

    /// The tenant's description, when one is stored.
    pub fn description(&self) -> (r: Option<&str>)
        ensures
            match r {
                Some(d) => self@.description == Some(d@),
                None => self@.description is None,
            },
    {
        match &self.description {
            Some(d) => Some(d.as_str()),
            None => None,
        }
    }

    /// Whether the tenant is active.
    pub fn active(&self) -> (r: bool)
        ensures
            r == self@.active,
    {
        self.active
    }

    /// Activates the tenant; nothing else changes.
    pub fn activate(&mut self)
        ensures
            final(self)@ == old(self)@.with_active(true),
            final(self).wf(),
    {
        proof {
            use_type_invariant(&*self);
        }
        self.active = true;
        proof {
            assert(self@ =~= old(self)@.with_active(true));
        }
    }

    /// Deactivates the tenant; nothing else changes.
    pub fn deactivate(&mut self)
        ensures
            final(self)@ == old(self)@.with_active(false),
            final(self).wf(),
    {
        proof {
            use_type_invariant(&*self);
        }
        self.active = false;
        proof {
            assert(self@ =~= old(self)@.with_active(false));
        }
    }
}

/// Law: activation calls override one another. After two calls in a row the
/// flag equals the last call's target, whatever the starting state and
/// whatever the first call was, and no other attribute changes.
pub proof fn lemma_activation_last_call_wins(t: TenantView, first: bool, last: bool)
    ensures
        t.with_active(first).with_active(last) == t.with_active(last),
        t.with_active(last).active == last,
        t.with_active(last).tenant_id == t.tenant_id,
        t.with_active(last).name == t.name,
        t.with_active(last).description == t.description,
        t.with_active(last).invitations == t.invitations,
{
    assert(t.with_active(first).with_active(last) =~= t.with_active(last));
}

} // verus!
