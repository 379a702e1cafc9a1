use vstd::prelude::*;

verus! {

/// Capability bits of the permission set. Each bit is an independently
/// grantable capability; `ADMIN` satisfies every check.
pub const READ_MYSELF: i64 = 1;

pub const UPDATE_MYSELF: i64 = 2;

pub const DELETE_MYSELF: i64 = 4;

pub const ADMIN: i64 = 8;

pub const CREATE_USERS: i64 = 16;

pub const READ_USERS: i64 = 32;

pub const UPDATE_USERS: i64 = 64;

pub const DELETE_USERS: i64 = 128;

/// The default grant for self-service signup: a fresh account may only
/// read, update and delete itself.
pub const USER_PERMISSIONS: i64 = READ_MYSELF | UPDATE_MYSELF | DELETE_MYSELF;

/// All bits of `required` are present in `bits`.
pub open spec fn spec_contains_bits(bits: i64, required: i64) -> bool {
    bits & required == required
}

/// A permission check succeeds iff the required bits are all set or the
/// admin bit is set.
pub open spec fn spec_has_permission(bits: i64, required: i64) -> bool {
    spec_contains_bits(bits, required) || spec_contains_bits(bits, ADMIN)
}

/// The single permission gate: grants access iff every required bit is
/// set or the admin override bit is set.
pub fn has_permission(bits: i64, required: i64) -> (r: bool)
    ensures
        r == spec_has_permission(bits, required),
{
    (bits & required) == required || (bits & ADMIN) == ADMIN
}

/// Capability checks are monotonic: granting more bits never removes
/// access that was already granted.
pub proof fn lemma_permission_monotonic(bits: i64, extra: i64, required: i64)
    requires
        spec_has_permission(bits, required),
    ensures
        spec_has_permission(bits | extra, required),
{
    assert((bits & required == required ==> (bits | extra) & required == required)
        && (bits & 8i64 == 8i64 ==> (bits | extra) & 8i64 == 8i64)) by (bit_vector);
    assert(ADMIN == 8i64);
}

/// The admin override alone satisfies any required bit combination.
pub proof fn lemma_admin_overrides(bits: i64, required: i64)
    requires
        spec_contains_bits(bits, ADMIN),
    ensures
        spec_has_permission(bits, required),
{
}

} // verus!
