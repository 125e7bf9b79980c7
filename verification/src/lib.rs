//! Domain model for tenant identity management: validated tenant identifiers,
//! invitations with a time-bounded validity interval, and the tenant aggregate
//! that owns them, all built on a shared layer of precondition checks that
//! produce typed, message-bearing failures.

pub mod assertion;
pub mod invitation;
pub mod tenant;
pub mod tenant_id;
pub mod text;
pub mod validity;

pub use assertion::ArgumentError;
pub use assertion::StateError;
pub use invitation::Invitation;
pub use invitation::InvitationDescriptor;
pub use tenant::Tenant;
pub use tenant_id::TenantId;
pub use validity::Validity;
