//! The validated unique identifier of a tenant.

use vstd::prelude::*;

use crate::assertion::ArgumentError;
use crate::assertion::assert_argument_length_range;
use crate::assertion::assert_argument_not_empty;
use crate::assertion::exact_length_msg;
use crate::assertion::required_msg;

verus! {

/// Whether `c` is a hexadecimal digit, in either case.
pub open spec fn is_hex_digit(c: char) -> bool {
    ('0' as int <= c as int && c as int <= '9' as int) || ('a' as int <= c as int && c as int
        <= 'f' as int) || ('A' as int <= c as int && c as int <= 'F' as int)
}

/// What the canonical dashed form demands at position `i`: a dash at
/// positions 8, 13, 18 and 23, a hexadecimal digit everywhere else.
pub open spec fn uuid_position_ok(s: Seq<char>, i: int) -> bool {
    if i == 8 || i == 13 || i == 18 || i == 23 {
        s[i] == '-'
    } else {
        is_hex_digit(s[i])
    }
}

/// The canonical textual grammar of a unique identifier: 36 characters of
/// dashed hexadecimal.
pub open spec fn is_uuid_text(s: Seq<char>) -> bool {
    s.len() == 36 && (forall|i: int| 0 <= i < 36 ==> #[trigger] uuid_position_ok(s, i))
}

/// Relies on uuid::Uuid::parse_str: a 36-character string parses exactly when
/// it is in hyphenated form, dashes at positions 8, 13, 18 and 23 and
/// hexadecimal digits (either case) everywhere else.
#[verifier::external_body]
fn parse_uuid_text(value: &str) -> (r: bool)
    requires
        value@.len() == 36,
    ensures
        r == is_uuid_text(value@),
{
    uuid::Uuid::parse_str(value).is_ok()
}

/// Relies on uuid::Uuid::new_v4 and its rendering through to_string: the
/// hyphenated lowercase form, 36 characters of dashed hexadecimal.
#[verifier::external_body]
fn random_uuid_text() -> (r: String)
    ensures
        is_uuid_text(r@),
{
    uuid::Uuid::new_v4().to_string()
}

/// The unique identifier for a tenant: canonical dashed-hexadecimal text.
#[derive(Debug, Eq, Hash)]
pub struct TenantId(String);

impl View for TenantId {
    type V = Seq<char>;

    closed spec fn view(&self) -> Seq<char> {
        self.0@
    }
}

impl TenantId {
    /// Well-formedness: the held value is canonical unique-identifier text.
    /// Every identifier that can be constructed satisfies it.
    #[verifier::type_invariant]
    pub open spec fn wf(&self) -> bool {
        is_uuid_text(self@)
    }

    /// Creates a new tenant identifier from the supplied text. The value must
    /// be non-empty, exactly 36 characters, and in the canonical grammar; the
    /// first violated check determines the reported message.
    pub fn new(value: &str) -> (r: Result<TenantId, ArgumentError>)
        ensures
            r is Ok <==> is_uuid_text(value@),
            r is Ok ==> r->Ok_0@ == value@ && r->Ok_0.wf(),
            value@.len() == 0 ==> r is Err && r->Err_0@ == required_msg("value"@),
            value@.len() != 0 && value@.len() != 36 ==> r is Err && r->Err_0@ == exact_length_msg(
                "value"@,
                36,
            ),
            value@.len() == 36 && !is_uuid_text(value@) ==> r is Err && r->Err_0@
                == "The value as an invalid format."@,
    {
        if let Err(e) = assert_argument_not_empty(value, "value") {
            return Err(e);
        }
        if let Err(e) = assert_argument_length_range(value, 36, 36, "value") {
            return Err(e);
        }
        if !parse_uuid_text(value) {
            return Err(ArgumentError(String::from_str("The value as an invalid format.")));
        }
        Ok(TenantId(String::from_str(value)))
    }

    /// Generates a new random tenant identifier; its value is always in the
    /// canonical grammar, so it round-trips through [`TenantId::new`].
    pub fn random() -> (r: TenantId)
        ensures
            r.wf(),
    {
        TenantId(random_uuid_text())
    }

    /// Returns the value of the tenant identifier; it is always canonical
    /// unique-identifier text, so [`TenantId::new`] accepts it again.
    pub fn value(&self) -> (r: &str)
        ensures
            r@ == self@,
            is_uuid_text(r@),
    {
        proof {
            use_type_invariant(self);
        }
        self.0.as_str()
    }
}

/// Law: every tenant identifier round-trips through validated construction.
/// Its value is canonical unique-identifier text, which is exactly the
/// condition under which [`TenantId::new`] succeeds and returns the supplied
/// value unchanged.
pub proof fn lemma_tenant_id_round_trips(id: TenantId)
    requires
        id.wf(),
    ensures
        is_uuid_text(id@),
{
}

impl Clone for TenantId {
    /// Copies the identifier; the copy holds the same value.
    fn clone(&self) -> (r: Self)
        ensures
            r == *self,
    {
        proof {
            use_type_invariant(self);
        }
        TenantId(self.0.clone())
    }
}

impl PartialEq for TenantId {
    fn eq(&self, other: &Self) -> bool {
        self.0 == other.0
    }
}

impl vstd::std_specs::cmp::PartialEqSpecImpl for TenantId {
    open spec fn obeys_eq_spec() -> bool {
        true
    }

    open spec fn eq_spec(&self, other: &TenantId) -> bool {
        self@ == other@
    }
}

} // verus!
