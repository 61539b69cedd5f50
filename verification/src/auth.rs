use vstd::prelude::*;

verus! {

/// A user's role on the platform.
#[derive(Clone, Copy, Debug, PartialEq, Eq, Hash, Structural)]
pub enum Role {
    Student,
    Donor,
    University,
    CommunityValidator,
    TeamMember,
    Admin,
    SystemAdmin,
}

/// An operation a role may be allowed to perform.
#[derive(Clone, Copy, Debug, PartialEq, Eq, Hash, Structural)]
pub enum Permission {
    CreateProfile,
    UpdateProfile,
    SubmitLoanApplication,
    MakePayment,
    ViewOwnData,
    ValidateCredit,
    VoteOnProposals,
    CreateProposals,
    VerifyStudents,
    IssueCredentials,
    ManageUsers,
    ViewAllData,
    ManageSystem,
    AccessAuditLogs,
    ManageCanisters,
    SystemMaintenance,
}

/// Events recorded on the authentication audit trail.
#[derive(Clone, Copy, Debug, PartialEq, Eq, Structural)]
pub enum AuthEventType {
    SessionCreated,
    SessionExpired,
    SessionTerminated,
    RoleAssigned,
    RoleRevoked,
    PermissionDenied,
    InvalidAccess,
}

/// Aggregate session figures for reporting.
#[derive(Clone, Debug)]
pub struct SessionStats {
    pub total_sessions: u32,
    pub active_sessions: u32,
    pub expired_sessions: u32,
    pub total_users: u32,
    pub users_by_role: Vec<(Role, u32)>,
}

/// The roles assigned to one user, as stored.
#[derive(Clone, Debug)]
pub struct RoleList(pub Vec<Role>);

/// Session duration limits, in hours.
pub const DEFAULT_SESSION_DURATION_HOURS: u64 = 24;

pub const MAX_SESSION_DURATION_HOURS: u64 = 168;

pub const SESSION_CLEANUP_INTERVAL_HOURS: u64 = 1;

/// The access-control table: which permissions each role carries. The system
/// administrator carries every permission.
pub open spec fn spec_role_has_permission(role: Role, permission: Permission) -> bool {
    match role {
        Role::Student => permission is CreateProfile || permission is UpdateProfile || permission
            is SubmitLoanApplication || permission is MakePayment || permission is ViewOwnData
            || permission is VoteOnProposals,
        Role::Donor => permission is ViewOwnData || permission is VoteOnProposals || permission
            is CreateProposals,
        Role::University => permission is VerifyStudents || permission is IssueCredentials
            || permission is ViewOwnData,
        Role::CommunityValidator => permission is ValidateCredit || permission is VoteOnProposals
            || permission is ViewOwnData,
        Role::TeamMember => permission is ViewAllData || permission is ManageUsers || permission
            is AccessAuditLogs || permission is CreateProposals || permission is VoteOnProposals,
        Role::Admin => permission is ManageUsers || permission is ViewAllData || permission
            is ManageSystem || permission is AccessAuditLogs || permission is CreateProposals
            || permission is VoteOnProposals,
        Role::SystemAdmin => true,
    }
}

/// True when `role` carries `permission`.
pub fn role_has_permission(role: &Role, permission: &Permission) -> (r: bool)
    ensures
        r == spec_role_has_permission(*role, *permission),
{
    match role {
        Role::Student => matches!(
            permission,
            Permission::CreateProfile
                | Permission::UpdateProfile
                | Permission::SubmitLoanApplication
                | Permission::MakePayment
                | Permission::ViewOwnData
                | Permission::VoteOnProposals
        ),
        Role::Donor => matches!(
            permission,
            Permission::ViewOwnData | Permission::VoteOnProposals | Permission::CreateProposals
        ),
        Role::University => matches!(
            permission,
            Permission::VerifyStudents | Permission::IssueCredentials | Permission::ViewOwnData
        ),
        Role::CommunityValidator => matches!(
            permission,
            Permission::ValidateCredit | Permission::VoteOnProposals | Permission::ViewOwnData
        ),
        Role::TeamMember => matches!(
            permission,
            Permission::ViewAllData
                | Permission::ManageUsers
                | Permission::AccessAuditLogs
                | Permission::CreateProposals
                | Permission::VoteOnProposals
        ),
        Role::Admin => matches!(
            permission,
            Permission::ManageUsers
                | Permission::ViewAllData
                | Permission::ManageSystem
                | Permission::AccessAuditLogs
                | Permission::CreateProposals
                | Permission::VoteOnProposals
        ),
        Role::SystemAdmin => true,
    }
}

/// The permission list of each role, in a fixed order.
pub open spec fn spec_role_permissions(role: Role) -> Seq<Permission> {
    match role {
        Role::Student => seq![
            Permission::CreateProfile,
            Permission::UpdateProfile,
            Permission::SubmitLoanApplication,
            Permission::MakePayment,
            Permission::ViewOwnData,
            Permission::VoteOnProposals,
        ],
        Role::Donor => seq![
            Permission::ViewOwnData,
            Permission::VoteOnProposals,
            Permission::CreateProposals,
        ],
        Role::University => seq![
            Permission::VerifyStudents,
            Permission::IssueCredentials,
            Permission::ViewOwnData,
        ],
        Role::CommunityValidator => seq![
            Permission::ValidateCredit,
            Permission::VoteOnProposals,
            Permission::ViewOwnData,
        ],
        Role::TeamMember => seq![
            Permission::ViewAllData,
            Permission::ManageUsers,
            Permission::AccessAuditLogs,
            Permission::CreateProposals,
            Permission::VoteOnProposals,
        ],
        Role::Admin => seq![
            Permission::ManageUsers,
            Permission::ViewAllData,
            Permission::ManageSystem,
            Permission::AccessAuditLogs,
            Permission::CreateProposals,
            Permission::VoteOnProposals,
        ],
        Role::SystemAdmin => seq![
            Permission::CreateProfile,
            Permission::UpdateProfile,
            Permission::SubmitLoanApplication,
            Permission::MakePayment,
            Permission::ViewOwnData,
            Permission::VoteOnProposals,
            Permission::CreateProposals,
            Permission::ValidateCredit,
            Permission::VerifyStudents,
            Permission::IssueCredentials,
            Permission::ManageUsers,
            Permission::ViewAllData,
            Permission::ManageSystem,
            Permission::AccessAuditLogs,
            Permission::ManageCanisters,
            Permission::SystemMaintenance,
        ],
    }
}

/// The full permission list of a role, in a fixed order; every entry carries
/// the permission under the access-control table.
pub fn get_role_permissions(role: &Role) -> (r: Vec<Permission>)
    ensures
        r@ == spec_role_permissions(*role),
        forall|i: int|
            0 <= i < r@.len() ==> spec_role_has_permission(*role, #[trigger] r@[i]),
{
    let mut out: Vec<Permission> = Vec::new();
    match role {
        Role::Student => {
            out.push(Permission::CreateProfile);
            out.push(Permission::UpdateProfile);
            out.push(Permission::SubmitLoanApplication);
            out.push(Permission::MakePayment);
            out.push(Permission::ViewOwnData);
            out.push(Permission::VoteOnProposals);
        },
        Role::Donor => {
            out.push(Permission::ViewOwnData);
            out.push(Permission::VoteOnProposals);
            out.push(Permission::CreateProposals);
        },
        Role::University => {
            out.push(Permission::VerifyStudents);
            out.push(Permission::IssueCredentials);
            out.push(Permission::ViewOwnData);
        },
        Role::CommunityValidator => {
            out.push(Permission::ValidateCredit);
            out.push(Permission::VoteOnProposals);
            out.push(Permission::ViewOwnData);
        },
        Role::TeamMember => {
            out.push(Permission::ViewAllData);
            out.push(Permission::ManageUsers);
            out.push(Permission::AccessAuditLogs);
            out.push(Permission::CreateProposals);
            out.push(Permission::VoteOnProposals);
        },
        Role::Admin => {
            out.push(Permission::ManageUsers);
            out.push(Permission::ViewAllData);
            out.push(Permission::ManageSystem);
            out.push(Permission::AccessAuditLogs);
            out.push(Permission::CreateProposals);
            out.push(Permission::VoteOnProposals);
        },
        Role::SystemAdmin => {
            out.push(Permission::CreateProfile);
            out.push(Permission::UpdateProfile);
            out.push(Permission::SubmitLoanApplication);
            out.push(Permission::MakePayment);
            out.push(Permission::ViewOwnData);
            out.push(Permission::VoteOnProposals);
            out.push(Permission::CreateProposals);
            out.push(Permission::ValidateCredit);
            out.push(Permission::VerifyStudents);
            out.push(Permission::IssueCredentials);
            out.push(Permission::ManageUsers);
            out.push(Permission::ViewAllData);
            out.push(Permission::ManageSystem);
            out.push(Permission::AccessAuditLogs);
            out.push(Permission::ManageCanisters);
            out.push(Permission::SystemMaintenance);
        },
    }
    proof {
        assert(out@ =~= spec_role_permissions(*role));
    }
    out
}

} // verus!
