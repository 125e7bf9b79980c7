//! A described grant, optionally bounded in time.

use vstd::prelude::*;

use crate::assertion::ArgumentError;
use crate::assertion::assert_argument_length_range;
use crate::assertion::assert_argument_max_length;
use crate::assertion::assert_argument_not_empty;
use crate::assertion::assert_true;
use crate::assertion::length_range_msg;
use crate::assertion::max_length_msg;
use crate::assertion::required_msg;
use crate::text::str_eq;
use crate::validity::Validity;

verus! {

/// Invitation structure: an identified, described grant whose availability
/// is ruled by a validity interval.
#[derive(Debug)]
pub struct Invitation {
    invitation_id: String,
    description: String,
    validity: Validity,
}

/// The abstract state of an [`Invitation`].
#[verifier::ext_equal]
pub struct InvitationView {
    pub invitation_id: Seq<char>,
    pub description: Seq<char>,
    pub validity: Validity,
}

impl View for Invitation {
    type V = InvitationView;

    closed spec fn view(&self) -> InvitationView {
        InvitationView {
            invitation_id: self.invitation_id@,
            description: self.description@,
            validity: self.validity,
        }
    }
}

/// Relies on chrono::Utc::now, read as timestamp_millis: the current instant,
/// in milliseconds since the Unix epoch.
#[verifier::external_body]
fn current_instant() -> i64 {
    chrono::Utc::now().timestamp_millis()
}

impl Invitation {
    /// Well-formedness: identifier and description are non-empty and within
    /// their length bounds, and the validity interval is ordered. Every
    /// invitation that can be constructed satisfies it, for its whole life.
    #[verifier::type_invariant]
    pub open spec fn wf(&self) -> bool {
        &&& 1 <= self@.invitation_id.len() <= 36
        &&& 1 <= self@.description.len() <= 100
        &&& self@.validity.wf()
    }

    /// Creates a new [`Invitation`] with unbounded validity. The identifier
    /// must be 1 to 36 characters and the description 1 to 100; the first
    /// violated check determines the reported message.
    pub fn new(invitation_id: &str, description: &str) -> (r: Result<Invitation, ArgumentError>)
        ensures
            r is Ok <==> (1 <= invitation_id@.len() <= 36 && 1 <= description@.len() <= 100),
            r is Ok ==> ({
                let inv = r->Ok_0;
                &&& inv@.invitation_id == invitation_id@
                &&& inv@.description == description@
                &&& inv@.validity == Validity::Unbounded
                &&& inv.wf()
            }),
            invitation_id@.len() == 0 ==> r is Err && r->Err_0@ == required_msg("invitation_id"@),
            invitation_id@.len() > 36 ==> r is Err && r->Err_0@ == length_range_msg(
                "invitation_id"@,
                1,
                36,
            ),
            1 <= invitation_id@.len() <= 36 && description@.len() == 0 ==> r is Err && r->Err_0@
                == required_msg("description"@),
            1 <= invitation_id@.len() <= 36 && description@.len() > 100 ==> r is Err && r->Err_0@
                == max_length_msg("description"@, 100),
    {
        if let Err(e) = assert_argument_not_empty(invitation_id, "invitation_id") {
            return Err(e);
        }
        if let Err(e) = assert_argument_length_range(invitation_id, 1, 36, "invitation_id") {
            return Err(e);
        }
        if let Err(e) = assert_argument_not_empty(description, "description") {
            return Err(e);
        }
        if let Err(e) = assert_argument_max_length(description, 100, "description") {
            return Err(e);
        }
        Ok(
            Invitation {
                invitation_id: String::from_str(invitation_id),
                description: String::from_str(description),
                validity: Validity::Unbounded,
            },
        )
    }

    /// Check if the [`Invitation`] is actually available: whether the current
    /// instant lies inside the validity interval. The answer is the interval's
    /// containment verdict at some instant — the one the clock read — so on an
    /// unbounded interval it is true whatever the clock reads.
    pub fn is_available(&self) -> (r: bool)
        ensures
            exists|instant: i64| r == self@.validity.spec_contains(instant),
            self@.validity == Validity::Unbounded ==> r,
    {
        let now = current_instant();
        let r = self.is_available_at(now);
        proof {
            assert(r == self@.validity.spec_contains(now));
        }
        r
    }

    /// Whether the [`Invitation`] is available at the given instant.
    pub fn is_available_at(&self, instant: i64) -> (r: bool)
        ensures
            r == self@.validity.spec_contains(instant),
    {
        self.validity.contains(instant)
    }

    /// Check if the [`Invitation`] is identified by the given identifier:
    /// true exactly when it equals the stored identifier or the stored
    /// description.
    pub fn is_identified_by(&self, identifier: &str) -> (r: bool)
        ensures
            r == (identifier@ == self@.invitation_id || identifier@ == self@.description),
    {
        str_eq(self.invitation_id.as_str(), identifier) || str_eq(
            self.description.as_str(),
            identifier,
        )
    }

    /// Redefine the [`Invitation`] as open-ended: afterwards it is available
    /// at every instant. The identity fields do not change.
    pub fn redefine_as_open_ended(&mut self)
        ensures
            final(self)@.invitation_id == old(self)@.invitation_id,
            final(self)@.description == old(self)@.description,
            final(self)@.validity == Validity::Unbounded,
            final(self).wf(),
    {
        proof {
            use_type_invariant(&*self);
        }
        self.validity = Validity::Unbounded;
    }

    /// Redefine the [`Invitation`] with the supplied validity range, both
    /// ends inclusive. Fails, leaving the invitation unchanged, when the
    /// start would fall after the end. The identity fields do not change.
    pub fn redefine_as(&mut self, starting_on: i64, until: i64) -> (r: Result<(), ArgumentError>)
        ensures
            r is Ok <==> starting_on <= until,
            r is Err ==> r->Err_0@ == "starting_on must occur before until"@ && *final(self)
                == *old(self),
            r is Ok ==> final(self)@.invitation_id == old(self)@.invitation_id
                && final(self)@.description == old(self)@.description
                && final(self)@.validity == Validity::Bounded(starting_on, until),
            final(self).wf(),
    {
        self.redefine_as_interval(Validity::Bounded(starting_on, until))
    }

    /// Redefine the [`Invitation`] with a validity interval of any shape; a
    /// half-open interval needs no sentinel instants. Fails, leaving the
    /// invitation unchanged, when a fully bounded interval's start falls
    /// after its end. The identity fields do not change.
    pub fn redefine_as_interval(&mut self, validity: Validity) -> (r: Result<(), ArgumentError>)
        ensures
            r is Ok <==> validity.wf(),
            r is Err ==> r->Err_0@ == "starting_on must occur before until"@ && *final(self)
                == *old(self),
            r is Ok ==> final(self)@.invitation_id == old(self)@.invitation_id
                && final(self)@.description == old(self)@.description
                && final(self)@.validity == validity,
            final(self).wf(),
    {
        proof {
            use_type_invariant(&*self);
        }
        let ordered = match validity {
            Validity::Bounded(start, end) => start <= end,
            _ => true,
        };
        if let Err(e) = assert_true(ordered, "starting_on must occur before until") {
            return Err(e);
        }
        self.validity = validity;
        Ok(())
    }

    /// The invitation's identifier.
    pub fn invitation_id(&self) -> (r: &str)
        ensures
            r@ == self@.invitation_id,
    {
        self.invitation_id.as_str()
    }

    /// The invitation's description.
    pub fn description(&self) -> (r: &str)
        ensures
            r@ == self@.description,
    {
        self.description.as_str()
    }

    /// The lower bound of the validity interval, when one is present.
    pub fn starting_on(&self) -> (r: Option<i64>)
        ensures
            r == self@.validity.spec_starting_on(),
    {
        self.validity.starting_on()
    }

    /// The upper bound of the validity interval, when one is present.
    pub fn until(&self) -> (r: Option<i64>)
        ensures
            r == self@.validity.spec_until(),
    {
        self.validity.until()
    }
}

/// What an invitation-shaped value can tell of itself: identity, description
/// and the bounds of its validity interval.
pub trait InvitationDescriptor {
    fn invitation_id(&self) -> &str;

    fn description(&self) -> &str;

    fn starting_on(&self) -> Option<i64>;

    fn until(&self) -> Option<i64>;
}

impl InvitationDescriptor for Invitation {
    fn invitation_id(&self) -> &str {
        self.invitation_id.as_str()
    }

    fn description(&self) -> &str {
        self.description.as_str()
    }

    fn starting_on(&self) -> Option<i64> {
        self.validity.starting_on()
    }

    fn until(&self) -> Option<i64> {
        self.validity.until()
    }
}

} // verus!
