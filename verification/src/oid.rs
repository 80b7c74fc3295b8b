//! Object identifiers of the switched-outlet tables.
//!
//! Both identifiers live under
//! `iso.org.dod.internet.private.enterprises.apc.products.hardware.rPDU2
//! .rPDU2Outlet.rPDU2OutletSwitched` and end in the outlet's number.

use vstd::prelude::*;

verus! {

/// Number of arcs in an outlet identifier.
pub const OID_LEN: usize = 16;

/// Position of the arc that selects the table: status or control.
pub const BRANCH_POSITION: usize = 12;

/// Arc of the status table (`rPDU2OutletSwitchedStatusTable`).
pub const STATUS_BRANCH: u32 = 3;

/// Arc of the control table (`rPDU2OutletSwitchedControlTable`).
pub const CONTROL_BRANCH: u32 = 4;

/// The identifier `1.3.6.1.4.1.318.1.1.26.9.2.<branch>.1.5.<n>`.
pub open spec fn outlet_oid(branch: u32, n: u32) -> Seq<u32> {
    seq![1u32, 3u32, 6u32, 1u32, 4u32, 1u32, 318u32, 1u32, 1u32, 26u32, 9u32, 2u32, branch, 1u32, 5u32, n]
}

/// `rPDU2OutletSwitchedStatusState.n`: `1.3.6.1.4.1.318.1.1.26.9.2.3.1.5.n`.
pub open spec fn status_oid(n: u32) -> Seq<u32> {
    outlet_oid(STATUS_BRANCH, n)
}

/// `rPDU2OutletSwitchedControlCommand.n`: `1.3.6.1.4.1.318.1.1.26.9.2.4.1.5.n`.
pub open spec fn control_oid(n: u32) -> Seq<u32> {
    outlet_oid(CONTROL_BRANCH, n)
}

/// The identifier read to learn the state of outlet `n`.
pub fn make_outlet_status_oid(n: u32) -> (oid: [u32; 16])
    ensures
        oid@ == status_oid(n),
{
    let oid: [u32; 16] = [1, 3, 6, 1, 4, 1, 318, 1, 1, 26, 9, 2, 3, 1, 5, n];
    assert(oid@ =~= status_oid(n));
    oid
}

/// The identifier written to command outlet `n`.
pub fn make_outlet_control_oid(n: u32) -> (oid: [u32; 16])
    ensures
        oid@ == control_oid(n),
{
    let oid: [u32; 16] = [1, 3, 6, 1, 4, 1, 318, 1, 1, 26, 9, 2, 4, 1, 5, n];
    assert(oid@ =~= control_oid(n));
    oid
}

/// Both identifiers of an outlet have sixteen arcs and end in the outlet's
/// number. They agree everywhere but at the branch position, where the
/// status identifier holds 3 and the control identifier holds 4.
pub proof fn lemma_status_and_control_differ_in_branch_only(n: u32)
    ensures
        status_oid(n).len() == OID_LEN,
        control_oid(n).len() == OID_LEN,
        status_oid(n)[OID_LEN - 1] == n,
        control_oid(n)[OID_LEN - 1] == n,
        status_oid(n)[BRANCH_POSITION as int] == STATUS_BRANCH,
        control_oid(n)[BRANCH_POSITION as int] == CONTROL_BRANCH,
        forall|j: int| 0 <= j < OID_LEN && j != BRANCH_POSITION ==> status_oid(n)[j] == control_oid(n)[j],
        status_oid(n) != control_oid(n),
{
    assert(status_oid(n)[12] != control_oid(n)[12]);
}

/// Identifiers of the same table for two outlets agree on every arc but the
/// last, and are equal only for the same outlet.
pub proof fn lemma_outlets_differ_in_last_arc_only(branch: u32, m: u32, n: u32)
    ensures
        forall|j: int| 0 <= j < OID_LEN - 1 ==> outlet_oid(branch, m)[j] == outlet_oid(branch, n)[j],
        outlet_oid(branch, m) == outlet_oid(branch, n) <==> m == n,
{
    assert(outlet_oid(branch, m)[15] == m);
    assert(outlet_oid(branch, n)[15] == n);
}

} // verus!
