//! Authorization: role-based access control, users with roles, and permission checks.
use vstd::prelude::*;
use crate::security::{SecurityError, SecurityResult};
use crate::strmap::StrMap;
use crate::text::{owned, push_str};

verus! {

/// Maps role names to sets of permission names.
pub struct RoleBasedAccessControl {
    role_permissions: StrMap<StrMap<()>>,
}

/// A set of names: the keys of a map to `()`.
pub open spec fn name_set(m: StrMap<()>) -> Set<Seq<char>> {
    m@.dom()
}

pub open spec fn role_message(role: Seq<char>, tail: Seq<char>) -> Seq<char> {
    "Role '"@ + role + tail
}

fn denied(prefix: &str, name: &str, tail: &str) -> (e: SecurityError)
    ensures
        e matches SecurityError::AuthorizationDenied(m) && m@ == prefix@ + name@ + tail@,
{
    let mut m = owned(prefix);
    push_str(&mut m, name);
    push_str(&mut m, tail);
    SecurityError::AuthorizationDenied(m)
}

fn role_missing(role: &str) -> (e: SecurityError)
    ensures
        e matches SecurityError::AuthorizationDenied(m) && m@ == role_message(
            role@,
            "' does not exist"@,
        ),
{
    denied("Role '", role, "' does not exist")
}

impl RoleBasedAccessControl {
    /// The permissions of each role.
    pub closed spec fn view(self) -> Map<Seq<char>, Set<Seq<char>>> {
        self.role_permissions@.map_values(|s: StrMap<()>| name_set(s))
    }

    /// Creates an instance with the roles `admin`, `user` and `guest`, without permissions.
    pub fn new() -> (r: Self)
        ensures
            r@ == Map::<Seq<char>, Set<Seq<char>>>::empty().insert("admin"@, Set::empty()).insert(
                "user"@,
                Set::empty(),
            ).insert("guest"@, Set::empty()),
    {
        let mut rbac = RoleBasedAccessControl { role_permissions: StrMap::new() };
        assert(rbac@ =~= Map::<Seq<char>, Set<Seq<char>>>::empty());
        proof {
            reveal_strlit("admin");
            reveal_strlit("user");
            reveal_strlit("guest");
        }
        let _ = rbac.create_role("admin");
        let _ = rbac.create_role("user");
        let _ = rbac.create_role("guest");
        rbac
    }

    /// Creates a role without permissions; an existing role is an error.
    pub fn create_role(&mut self, role: &str) -> (r: SecurityResult<()>)
        ensures
            old(self)@.dom().contains(role@) ==> (r matches Err(SecurityError::AuthorizationDenied(m))
                && m@ == role_message(role@, "' already exists"@)) && final(self)@ == old(self)@,
            !old(self)@.dom().contains(role@) ==> r is Ok && final(self)@ == old(self)@.insert(
                role@,
                Set::empty(),
            ),
    {
        if self.role_permissions.contains_key(role) {
            return Err(denied("Role '", role, "' already exists"));
        }
        let empty: StrMap<()> = StrMap::new();
        self.role_permissions.insert(owned(role), empty);
        assert(self@ =~= old(self)@.insert(role@, Set::empty()));
        Ok(())
    }

    /// Grants `permission` to `role`; an unknown role is an error.
    pub fn grant_permission(&mut self, role: &str, permission: &str) -> (r: SecurityResult<()>)
        ensures
            old(self)@.dom().contains(role@) ==> r is Ok && final(self)@ == old(self)@.insert(
                role@,
                old(self)@[role@].insert(permission@),
            ),
            !old(self)@.dom().contains(role@) ==> (r matches Err(
                SecurityError::AuthorizationDenied(m),
            ) && m@ == role_message(role@, "' does not exist"@)) && final(self)@ == old(self)@,
    {
        match self.role_permissions.remove(role) {
            None => {
                assert(self@ =~= old(self)@);
                Err(role_missing(role))
            },
            Some(perms) => {
                let mut perms = perms;
                perms.insert(owned(permission), ());
                self.role_permissions.insert(owned(role), perms);
                assert(self@ =~= old(self)@.insert(role@, old(self)@[role@].insert(permission@)));
                Ok(())
            },
        }
    }

    /// Revokes `permission` from `role`; an unknown role, or a permission the role does not
    /// have, is an error.
    pub fn revoke_permission(&mut self, role: &str, permission: &str) -> (r: SecurityResult<()>)
        ensures
            !old(self)@.dom().contains(role@) ==> (r matches Err(
                SecurityError::AuthorizationDenied(m),
            ) && m@ == role_message(role@, "' does not exist"@)) && final(self)@ == old(self)@,
            old(self)@.dom().contains(role@) && !old(self)@[role@].contains(permission@) ==> (r
                matches Err(SecurityError::AuthorizationDenied(m)) && m@ == role_message(
                role@,
                "' does not have permission '"@ + permission@ + "'"@,
            )) && final(self)@ == old(self)@,
            old(self)@.dom().contains(role@) && old(self)@[role@].contains(permission@) ==> r is Ok
                && final(self)@ == old(self)@.insert(role@, old(self)@[role@].remove(permission@)),
    {
        match self.role_permissions.remove(role) {
            None => {
                assert(self@ =~= old(self)@);
                Err(role_missing(role))
            },
            Some(perms) => {
                let mut perms = perms;
                let removed = perms.remove(permission);
                self.role_permissions.insert(owned(role), perms);
                match removed {
                    Some(_) => {
                        assert(self@ =~= old(self)@.insert(
                            role@,
                            old(self)@[role@].remove(permission@),
                        ));
                        Ok(())
                    },
                    None => {
                        assert(name_set(self.role_permissions@[role@]) =~= old(self)@[role@]);
                        assert(self@ =~= old(self)@);
                        let mut m = owned("Role '");
                        push_str(&mut m, role);
                        push_str(&mut m, "' does not have permission '");
                        push_str(&mut m, permission);
                        push_str(&mut m, "'");
                        assert(m@ =~= role_message(
                            role@,
                            "' does not have permission '"@ + permission@ + "'"@,
                        ));
                        Err(SecurityError::AuthorizationDenied(m))
                    },
                }
            },
        }
    }

    /// Whether `role` has `permission`; an unknown role is an error.
    pub fn check_permission(&self, role: &str, permission: &str) -> (r: SecurityResult<bool>)
        ensures
            self@.dom().contains(role@) ==> r == Ok::<bool, SecurityError>(
                self@[role@].contains(permission@),
            ),
            !self@.dom().contains(role@) ==> (r matches Err(SecurityError::AuthorizationDenied(m))
                && m@ == role_message(role@, "' does not exist"@)),
    {
        match self.role_permissions.get(role) {
            None => Err(role_missing(role)),
            Some(perms) => Ok(perms.contains_key(permission)),
        }
    }

    /// The permissions of `role`, each once; an unknown role is an error.
    pub fn get_permissions(&self, role: &str) -> (r: SecurityResult<Vec<String>>)
        ensures
            self@.dom().contains(role@) ==> (r matches Ok(v) && v@.map_values(|s: String| s@).to_set()
                == self@[role@] && v@.map_values(|s: String| s@).no_duplicates()),
            !self@.dom().contains(role@) ==> (r matches Err(SecurityError::AuthorizationDenied(m))
                && m@ == role_message(role@, "' does not exist"@)),
    {
        match self.role_permissions.get(role) {
            None => Err(role_missing(role)),
            Some(perms) => Ok(perms.keys()),
        }
    }

    /// Whether `role` exists.
    pub fn role_exists(&self, role: &str) -> (b: bool)
        ensures
            b == self@.dom().contains(role@),
    {
        self.role_permissions.contains_key(role)
    }

    /// All roles, each once.
    pub fn get_roles(&self) -> (r: Vec<String>)
        ensures
            r@.map_values(|s: String| s@).to_set() == self@.dom(),
            r@.map_values(|s: String| s@).no_duplicates(),
    {
        let r = self.role_permissions.keys();
        assert(self@.dom() =~= self.role_permissions@.dom());
        r
    }
}

impl Default for RoleBasedAccessControl {
    fn default() -> (r: Self)
        ensures
            r@ == Map::<Seq<char>, Set<Seq<char>>>::empty().insert("admin"@, Set::empty()).insert(
                "user"@,
                Set::empty(),
            ).insert("guest"@, Set::empty()),
    {
        Self::new()
    }
}

/// A user with assigned roles.
pub struct User {
    pub id: String,
    pub roles: StrMap<()>,
}

impl User {
    /// The user's roles.
    pub open spec fn role_set(&self) -> Set<Seq<char>> {
        self.roles@.dom()
    }

    /// Creates a user without roles.
    pub fn new(id: &str) -> (u: Self)
        ensures
            u.id@ == id@,
            u.role_set() == Set::<Seq<char>>::empty(),
    {
        let u = User { id: owned(id), roles: StrMap::new() };
        assert(u.role_set() =~= Set::<Seq<char>>::empty());
        u
    }

    /// Adds a role.
    pub fn add_role(&mut self, role: &str)
        ensures
            final(self).role_set() == old(self).role_set().insert(role@),
            final(self).id == old(self).id,
    {
        self.roles.insert(owned(role), ());
    }

    /// Removes a role; whether the user had it.
    pub fn remove_role(&mut self, role: &str) -> (b: bool)
        ensures
            b == old(self).role_set().contains(role@),
            final(self).role_set() == old(self).role_set().remove(role@),
            final(self).id == old(self).id,
    {
        self.roles.remove(role).is_some()
    }

    /// Whether the user has `role`.
    pub fn has_role(&self, role: &str) -> (b: bool)
        ensures
            b == self.role_set().contains(role@),
    {
        self.roles.contains_key(role)
    }

    /// Whether the user has at least one of `roles`.
    pub fn has_any_role(&self, roles: &[&str]) -> (b: bool)
        ensures
            b == exists|i: int| 0 <= i < roles@.len() && self.role_set().contains(#[trigger] roles@[i]@),
    {
        let mut i: usize = 0;
        while i < roles.len()
            invariant
                i <= roles@.len(),
                forall|j: int| 0 <= j < i ==> !self.role_set().contains(#[trigger] roles@[j]@),
            decreases roles@.len() - i,
        {
            if self.roles.contains_key(roles[i]) {
                return true;
            }
            i = i + 1;
        }
        false
    }

    /// Whether the user has every one of `roles`.
    pub fn has_all_roles(&self, roles: &[&str]) -> (b: bool)
        ensures
            b == forall|i: int| 0 <= i < roles@.len() ==> self.role_set().contains(#[trigger] roles@[i]@),
    {
        let mut i: usize = 0;
        while i < roles.len()
            invariant
                i <= roles@.len(),
                forall|j: int| 0 <= j < i ==> self.role_set().contains(#[trigger] roles@[j]@),
            decreases roles@.len() - i,
        {
            if !self.roles.contains_key(roles[i]) {
                return false;
            }
            i = i + 1;
        }
        true
    }
}

/// The outcome of looking for `permission` through `roles` in order: the first role that
/// grants it gives `true`; the first role unknown to the access control before that is an
/// error naming it; otherwise `false`.
pub open spec fn permission_through(
    roles: Seq<Seq<char>>,
    grants: Map<Seq<char>, Set<Seq<char>>>,
    permission: Seq<char>,
) -> Result<bool, Seq<char>>
    decreases roles.len(),
{
    if roles.len() == 0 {
        Ok(false)
    } else if !grants.dom().contains(roles[0]) {
        Err(roles[0])
    } else if grants[roles[0]].contains(permission) {
        Ok(true)
    } else {
        permission_through(roles.drop_first(), grants, permission)
    }
}

/// When every role exists, a permission is granted exactly when some role grants it.
pub proof fn permission_granted_by_some_role(
    roles: Seq<Seq<char>>,
    grants: Map<Seq<char>, Set<Seq<char>>>,
    permission: Seq<char>,
)
    requires
        forall|i: int| 0 <= i < roles.len() ==> grants.dom().contains(#[trigger] roles[i]),
    ensures
        permission_through(roles, grants, permission) == Ok::<bool, Seq<char>>(
            exists|i: int| 0 <= i < roles.len() && grants[#[trigger] roles[i]].contains(permission),
        ),
    decreases roles.len(),
{
    if roles.len() > 0 {
        let rest = roles.drop_first();
        assert forall|i: int| 0 <= i < rest.len() implies grants.dom().contains(#[trigger] rest[i]) by {
            assert(rest[i] == roles[i + 1]);
        }
        permission_granted_by_some_role(rest, grants, permission);
        assert(grants.dom().contains(roles[0]));
        if !grants[roles[0]].contains(permission) {
            if exists|i: int| 0 <= i < roles.len() && grants[#[trigger] roles[i]].contains(permission) {
                let i = choose|i: int| 0 <= i < roles.len() && grants[#[trigger] roles[i]].contains(
                    permission,
                );
                assert(i > 0);
                assert(rest[i - 1] == roles[i]);
            }
            if exists|i: int| 0 <= i < rest.len() && grants[#[trigger] rest[i]].contains(permission) {
                let i = choose|i: int| 0 <= i < rest.len() && grants[#[trigger] rest[i]].contains(
                    permission,
                );
                assert(rest[i] == roles[i + 1]);
            }
        }
    }
}

/// Adding a role to a user never takes a permission away: a permission granted through
/// `roles` is still granted with one more role after them.
pub proof fn more_roles_keep_permissions(
    roles: Seq<Seq<char>>,
    role: Seq<char>,
    grants: Map<Seq<char>, Set<Seq<char>>>,
    permission: Seq<char>,
)
    requires
        permission_through(roles, grants, permission) == Ok::<bool, Seq<char>>(true),
    ensures
        permission_through(roles.push(role), grants, permission) == Ok::<bool, Seq<char>>(true),
    decreases roles.len(),
{
    if roles.len() > 0 {
        assert(roles.push(role)[0] == roles[0]);
        assert(roles.push(role).drop_first() =~= roles.drop_first().push(role));
        if !grants[roles[0]].contains(permission) {
            more_roles_keep_permissions(roles.drop_first(), role, grants, permission);
        }
    }
}

/// An access control and a user, for permission checks.
pub struct AuthorizationContext<'a> {
    pub rbac: &'a RoleBasedAccessControl,
    pub user: &'a User,
}

impl<'a> AuthorizationContext<'a> {
    /// Creates a context.
    pub fn new(rbac: &'a RoleBasedAccessControl, user: &'a User) -> (c: Self)
        ensures
            c.rbac == rbac,
            c.user == user,
    {
        AuthorizationContext { rbac, user }
    }

    /// Whether one of the user's roles, taken in order, grants `permission`.
    pub fn has_permission(&self, permission: &str) -> (r: SecurityResult<bool>)
        ensures
            match permission_through(self.user.roles.keys_seq(), self.rbac@, permission@) {
                Ok(b) => r == Ok::<bool, SecurityError>(b),
                Err(role) => r matches Err(SecurityError::AuthorizationDenied(m)) && m@
                    == role_message(role, "' does not exist"@),
            },
    {
        let roles = self.user.roles.keys();
        let ghost ks = self.user.roles.keys_seq();
        let mut i: usize = 0;
        assert(ks.skip(0) =~= ks);
        while i < roles.len()
            invariant
                i <= roles@.len(),
                roles@.map_values(|s: String| s@) == ks,
                ks == self.user.roles.keys_seq(),
                permission_through(ks, self.rbac@, permission@) == permission_through(
                    ks.skip(i as int),
                    self.rbac@,
                    permission@,
                ),
            decreases roles@.len() - i,
        {
            let ghost rest = ks.skip(i as int);
            assert(ks[i as int] == roles@[i as int]@);
            assert(rest.len() > 0);
            assert(rest[0] == roles@[i as int]@);
            assert(rest.drop_first() =~= ks.skip(i + 1));
            match self.rbac.check_permission(roles[i].as_str(), permission) {
                Err(e) => return Err(e),
                Ok(true) => return Ok(true),
                Ok(false) => {},
            }
            i = i + 1;
        }
        assert(ks.skip(i as int).len() == 0);
        Ok(false)
    }

    /// Requires `permission`: denied with the user's id when no role grants it.
    pub fn require_permission(&self, permission: &str) -> (r: SecurityResult<()>)
        ensures
            match permission_through(self.user.roles.keys_seq(), self.rbac@, permission@) {
                Ok(true) => r is Ok,
                Ok(false) => r matches Err(SecurityError::AuthorizationDenied(m)) && m@ == "User '"@
                    + self.user.id@ + "' does not have permission '"@ + permission@ + "'"@,
                Err(role) => r matches Err(SecurityError::AuthorizationDenied(m)) && m@
                    == role_message(role, "' does not exist"@),
            },
    {
        match self.has_permission(permission) {
            Err(e) => Err(e),
            Ok(true) => Ok(()),
            Ok(false) => {
                let mut m = owned("User '");
                push_str(&mut m, self.user.id.as_str());
                push_str(&mut m, "' does not have permission '");
                push_str(&mut m, permission);
                push_str(&mut m, "'");
                Err(SecurityError::AuthorizationDenied(m))
            },
        }
    }
}

/// Granting a permission to an existing role makes `has_permission` answer `true`; revoking it
/// afterwards makes it answer `false`; the other roles keep their permissions and
/// no role appears or disappears. `granted` is the instance after `grant_permission` on
/// `before`, `revoked` the one after `revoke_permission` on `granted`, as their contracts
/// state for a role that exists.
pub proof fn grant_then_revoke(
    before: RoleBasedAccessControl,
    granted: RoleBasedAccessControl,
    revoked: RoleBasedAccessControl,
    role: Seq<char>,
    permission: Seq<char>,
    other: Seq<char>,
)
    requires
        before@.dom().contains(role),
        granted@ == before@.insert(role, before@[role].insert(permission)),
        revoked@ == granted@.insert(role, granted@[role].remove(permission)),
        other != role,
    ensures
        granted@.dom().contains(role) && granted@[role].contains(permission),
        revoked@.dom().contains(role) && !revoked@[role].contains(permission),
        granted@.dom() == before@.dom() && revoked@.dom() == before@.dom(),
        before@.dom().contains(other) ==> granted@[other] == before@[other] && revoked@[other]
            == before@[other],
{
    assert(granted@.dom() =~= before@.dom());
    assert(revoked@.dom() =~= before@.dom());
}


/// One change to the roles of a `RoleBasedAccessControl`, as its view sees it.
pub enum RbacOperation {
    /// `create_role(role)`.
    CreateRole(Seq<char>),
    /// `grant_permission(role, permission)`.
    GrantPermission(Seq<char>, Seq<char>),
    /// `revoke_permission(role, permission)`.
    RevokePermission(Seq<char>, Seq<char>),
}

/// What an operation does to the permissions of each role, as the contracts of
/// `create_role`, `grant_permission` and `revoke_permission` state it (a refused call
/// changes nothing).
pub open spec fn rbac_step(
    before: Map<Seq<char>, Set<Seq<char>>>,
    op: RbacOperation,
    after: Map<Seq<char>, Set<Seq<char>>>,
) -> bool {
    match op {
        RbacOperation::CreateRole(r) => after == if before.dom().contains(r) {
            before
        } else {
            before.insert(r, Set::empty())
        },
        RbacOperation::GrantPermission(r, p) => after == if before.dom().contains(r) {
            before.insert(r, before[r].insert(p))
        } else {
            before
        },
        RbacOperation::RevokePermission(r, p) => after == if before.dom().contains(r)
            && before[r].contains(p) {
            before.insert(r, before[r].remove(p))
        } else {
            before
        },
    }
}

/// The roles that `new` creates.
pub open spec fn default_roles() -> Set<Seq<char>> {
    set!["admin"@, "user"@, "guest"@]
}

/// The roles that the `create_role` operations among `ops` name.
pub open spec fn created_roles(ops: Seq<RbacOperation>) -> Set<Seq<char>>
    decreases ops.len(),
{
    if ops.len() == 0 {
        Set::empty()
    } else {
        created_roles(ops.drop_last()) + match ops.last() {
            RbacOperation::CreateRole(r) => set![r],
            _ => Set::empty(),
        }
    }
}

/// Roles are never removed, and the roles are exactly the three that `new` creates
/// together with those named by `create_role` calls: for a run of operations from a new
/// instance (`views[i + 1]` is the view after `ops[i]` on `views[i]`), a role that exists
/// at one point exists at every later one, and the roles at the end are the default roles
/// and the created ones.
pub proof fn roles_persist(views: Seq<Map<Seq<char>, Set<Seq<char>>>>, ops: Seq<RbacOperation>)
    requires
        views.len() == ops.len() + 1,
        views[0].dom() == default_roles(),
        forall|i: int| 0 <= i < ops.len() ==> #[trigger] rbac_step(views[i], ops[i], views[i + 1]),
    ensures
        forall|i: int, j: int|
            0 <= i <= j < views.len() ==> (#[trigger] views[i]).dom().subset_of(
                (#[trigger] views[j]).dom(),
            ),
        views.last().dom() == default_roles() + created_roles(ops),
    decreases ops.len(),
{
    let n = ops.len() as int;
    if n > 0 {
        let vs = views.drop_last();
        let os = ops.drop_last();
        assert forall|i: int| 0 <= i < os.len() implies #[trigger] rbac_step(
            vs[i],
            os[i],
            vs[i + 1],
        ) by {
            assert(rbac_step(views[i], ops[i], views[i + 1]));
        }
        roles_persist(vs, os);
        assert(rbac_step(views[n - 1], ops[n - 1], views[n]));
        let before = views[n - 1];
        let after = views[n];
        let added = match ops.last() {
            RbacOperation::CreateRole(r) => set![r],
            _ => Set::<Seq<char>>::empty(),
        };
        assert(after.dom() =~= before.dom() + added);
        assert(before == vs.last());
        assert(views.last().dom() =~= default_roles() + created_roles(ops));
        assert forall|i: int, j: int|
            0 <= i <= j < views.len() implies (#[trigger] views[i]).dom().subset_of(
                (#[trigger] views[j]).dom(),
            ) by {
            if j < n {
                assert(views[i] == vs[i] && views[j] == vs[j]);
            } else {
                assert(views[i] == vs[i] || i == n);
                if i < n {
                    assert(vs[i].dom().subset_of(vs[n - 1].dom()));
                }
            }
        }
    }
}

} // verus!
