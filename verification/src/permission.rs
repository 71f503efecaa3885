//! Permission levels, the principal a request is made for, and the grants
//! kept with each resource.
use vstd::prelude::*;

verus! {

/// What a principal may do with one resource. The levels are ordered
/// `NoAccess < Read < Write < Execute`, and each includes those below it.
#[derive(Clone, Copy, Debug, PartialEq, Eq, Structural, Hash)]
pub enum PermissionLevel {
    NoAccess,
    Read,
    Write,
    Execute,
}

impl PermissionLevel {
    /// The place of the level in the order, from 0 for `NoAccess`.
    pub open spec fn rank(self) -> nat {
        match self {
            PermissionLevel::NoAccess => 0,
            PermissionLevel::Read => 1,
            PermissionLevel::Write => 2,
            PermissionLevel::Execute => 3,
        }
    }

    /// Whether holding `self` is enough where `required` is asked for.
    pub open spec fn covers(self, required: PermissionLevel) -> bool {
        self.rank() >= required.rank()
    }

    fn rank_value(self) -> (r: u8)
        ensures
            r == self.rank(),
    {
        match self {
            PermissionLevel::NoAccess => 0,
            PermissionLevel::Read => 1,
            PermissionLevel::Write => 2,
            PermissionLevel::Execute => 3,
        }
    }

    /// The name of the level on the wire.
    pub open spec fn name_text(self) -> Seq<char> {
        match self {
            PermissionLevel::NoAccess => "None"@,
            PermissionLevel::Read => "Read"@,
            PermissionLevel::Write => "Write"@,
            PermissionLevel::Execute => "Execute"@,
        }
    }

    /// The name of the level on the wire.
    pub fn name(self) -> (s: &'static str)
        ensures
            s@ == self.name_text(),
    {
        match self {
            PermissionLevel::NoAccess => "None",
            PermissionLevel::Read => "Read",
            PermissionLevel::Write => "Write",
            PermissionLevel::Execute => "Execute",
        }
    }

    /// Whether holding `self` is enough where `required` is asked for.
    pub fn allows(self, required: PermissionLevel) -> (r: bool)
        ensures
            r == self.covers(required),
    {
        self.rank_value() >= required.rank_value()
    }
}

/// The order of the levels is total, and `covers` is its "at least".
pub proof fn covers_is_a_total_order(a: PermissionLevel, b: PermissionLevel, c: PermissionLevel)
    ensures
        a.covers(a),
        a.covers(b) || b.covers(a),
        a.covers(b) && b.covers(a) ==> a == b,
        a.covers(b) && b.covers(c) ==> a.covers(c),
        PermissionLevel::Execute.covers(a),
        a.covers(PermissionLevel::NoAccess),
{
}

/// The five families of managed resources.
#[derive(Clone, Copy, Debug, PartialEq, Eq, Structural, Hash)]
pub enum ResourceType {
    Server,
    Deployment,
    Build,
    Builder,
    Repo,
}

impl ResourceType {
    /// The name of the family on the wire.
    pub open spec fn name_text(self) -> Seq<char> {
        match self {
            ResourceType::Server => "Server"@,
            ResourceType::Deployment => "Deployment"@,
            ResourceType::Build => "Build"@,
            ResourceType::Builder => "Builder"@,
            ResourceType::Repo => "Repo"@,
        }
    }

    /// The name of the family on the wire.
    pub fn name(self) -> (s: &'static str)
        ensures
            s@ == self.name_text(),
    {
        match self {
            ResourceType::Server => "Server",
            ResourceType::Deployment => "Deployment",
            ResourceType::Build => "Build",
            ResourceType::Builder => "Builder",
            ResourceType::Repo => "Repo",
        }
    }
}

/// The principal a request is made for.
#[derive(Debug, PartialEq, Eq)]
pub struct RequestUser {
    pub id: String,
    pub is_admin: bool,
    pub enabled: bool,
}

/// A [`RequestUser`] as plain values.
pub struct RequestUserView {
    pub id: Seq<char>,
    pub is_admin: bool,
    pub enabled: bool,
}

impl View for RequestUser {
    type V = RequestUserView;

    open spec fn view(&self) -> RequestUserView {
        RequestUserView { id: self.id@, is_admin: self.is_admin, enabled: self.enabled }
    }
}

/// One recorded grant: a principal and the level it holds.
#[derive(Debug, PartialEq, Eq)]
pub struct Grant {
    pub user_id: String,
    pub level: PermissionLevel,
}

/// A [`Grant`] as plain values.
pub struct GrantView {
    pub user_id: Seq<char>,
    pub level: PermissionLevel,
}

impl View for Grant {
    type V = GrantView;

    open spec fn view(&self) -> GrantView {
        GrantView { user_id: self.user_id@, level: self.level }
    }
}

/// Whether `grants` records anything for `user_id`.
pub open spec fn has_grant(grants: Seq<GrantView>, user_id: Seq<char>) -> bool {
    exists|i: int| 0 <= i < grants.len() && #[trigger] grants[i].user_id == user_id
}

/// The place of the grant for `user_id`, where there is one.
pub open spec fn grant_index(grants: Seq<GrantView>, user_id: Seq<char>) -> int {
    choose|i: int| 0 <= i < grants.len() && #[trigger] grants[i].user_id == user_id
}

/// No principal has two grants.
pub open spec fn grants_distinct(grants: Seq<GrantView>) -> bool {
    forall|i: int, j: int|
        0 <= i < grants.len() && 0 <= j < grants.len() && i != j ==> #[trigger] grants[i].user_id
            != #[trigger] grants[j].user_id
}

/// The level that `grants` records for `user_id`: `NoAccess` where it records
/// nothing.
pub open spec fn recorded_level(grants: Seq<GrantView>, user_id: Seq<char>) -> PermissionLevel {
    if has_grant(grants, user_id) {
        grants[grant_index(grants, user_id)].level
    } else {
        PermissionLevel::NoAccess
    }
}

/// `grants` with the level of `user_id` set to `level`: the grant is replaced
/// in its place, or added at the end where there was none.
pub open spec fn with_level(grants: Seq<GrantView>, user_id: Seq<char>, level: PermissionLevel) -> Seq<
    GrantView,
> {
    if has_grant(grants, user_id) {
        grants.update(grant_index(grants, user_id), GrantView { user_id, level })
    } else {
        grants.push(GrantView { user_id, level })
    }
}

/// The level that `user` effectively holds where `grants` are the grants of a
/// resource: an administrator holds `Execute` on everything.
pub open spec fn effective_level(user: RequestUserView, grants: Seq<GrantView>) -> PermissionLevel {
    if user.is_admin {
        PermissionLevel::Execute
    } else {
        recorded_level(grants, user.id)
    }
}

/// Setting a level changes what is recorded for that principal and for no
/// other, and keeps the grants distinct.
pub proof fn with_level_sets_one(
    grants: Seq<GrantView>,
    user_id: Seq<char>,
    level: PermissionLevel,
    other: Seq<char>,
)
    requires
        grants_distinct(grants),
    ensures
        grants_distinct(with_level(grants, user_id, level)),
        recorded_level(with_level(grants, user_id, level), user_id) == level,
        other != user_id ==> recorded_level(with_level(grants, user_id, level), other)
            == recorded_level(grants, other),
{
    let after = with_level(grants, user_id, level);
    if has_grant(grants, user_id) {
        let k = grant_index(grants, user_id);
        assert(after[k].user_id == user_id);
        assert(has_grant(after, user_id));
        assert forall|i: int| 0 <= i < after.len() implies #[trigger] after[i].user_id
            == grants[i].user_id by {}
        let k2 = grant_index(after, user_id);
        assert(grants[k2].user_id == after[k2].user_id);
        assert(k2 == k);
        if other != user_id {
            if has_grant(grants, other) {
                let m = grant_index(grants, other);
                assert(after[m].user_id == other);
                assert(has_grant(after, other));
                let m2 = grant_index(after, other);
                assert(grants[m2].user_id == after[m2].user_id);
                assert(m2 == m);
            } else {
                if has_grant(after, other) {
                    let m2 = grant_index(after, other);
                    assert(grants[m2].user_id == other);
                    assert(false);
                }
            }
        }
    } else {
        let k = grants.len() as int;
        assert(after[k].user_id == user_id);
        assert(has_grant(after, user_id));
        assert forall|i: int, j: int|
            0 <= i < after.len() && 0 <= j < after.len() && i != j implies #[trigger] after[i].user_id
            != #[trigger] after[j].user_id by {
            if i < k {
                assert(after[i] == grants[i]);
            }
            if j < k {
                assert(after[j] == grants[j]);
            }
        }
        let k2 = grant_index(after, user_id);
        if k2 != k {
            assert(after[k2] == grants[k2]);
            assert(false);
        }
        if other != user_id {
            if has_grant(grants, other) {
                let m = grant_index(grants, other);
                assert(after[m] == grants[m]);
                assert(has_grant(after, other));
                let m2 = grant_index(after, other);
                assert(m2 == m);
            } else {
                if has_grant(after, other) {
                    let m2 = grant_index(after, other);
                    assert(after[m2] == grants[m2]);
                    assert(false);
                }
            }
        }
    }
}

/// The grants kept with one resource: for each principal at most one level.
#[derive(Debug, PartialEq, Eq)]
pub struct Permissions {
    grants: Vec<Grant>,
}

impl View for Permissions {
    type V = Seq<GrantView>;

    closed spec fn view(&self) -> Seq<GrantView> {
        Seq::new(self.grants@.len(), |i: int| self.grants@[i]@)
    }
}

impl Permissions {
    #[verifier::type_invariant]
    spec fn distinct(self) -> bool {
        grants_distinct(self@)
    }

    /// Grants to nobody.
    pub fn new() -> (p: Permissions)
        ensures
            p@ == Seq::<GrantView>::empty(),
    {
        let p = Permissions { grants: Vec::new() };
        assert(p@ =~= Seq::<GrantView>::empty());
        p
    }

    /// A copy with the same grants.
    pub fn duplicate(&self) -> (p: Permissions)
        ensures
            p@ == self@,
    {
        proof {
            use_type_invariant(self);
        }
        let mut grants: Vec<Grant> = Vec::new();
        let mut i: usize = 0;
        while i < self.grants.len()
            invariant
                i <= self.grants.len(),
                grants@.len() == i,
                forall|k: int| 0 <= k < i ==> (#[trigger] grants@[k])@ == self.grants@[k]@,
            decreases self.grants.len() - i,
        {
            grants.push(Grant { user_id: self.grants[i].user_id.clone(), level: self.grants[i].level });
            i += 1;
        }
        assert(Seq::new(grants@.len(), |m: int| grants@[m]@) =~= self@);
        Permissions { grants }
    }

    /// States what every value of this type satisfies: no principal has two
    /// grants.
    pub fn distinct_grants(&self)
        ensures
            grants_distinct(self@),
    {
        proof {
            use_type_invariant(self);
        }
    }

    /// How many grants are recorded.
    pub fn len(&self) -> (n: usize)
        ensures
            n == self@.len(),
    {
        self.grants.len()
    }

    /// The grant at place `i`.
    pub fn get(&self, i: usize) -> (g: &Grant)
        requires
            i < self@.len(),
        ensures
            g@ == self@[i as int],
    {
        &self.grants[i]
    }

    fn position(&self, user_id: &String) -> (r: Option<usize>)
        ensures
            match r {
                Some(i) => i < self@.len() && self@[i as int].user_id == user_id@ && has_grant(
                    self@,
                    user_id@,
                ) && grant_index(self@, user_id@) == i,
                None => !has_grant(self@, user_id@),
            },
    {
        proof {
            use_type_invariant(self);
        }
        let mut i: usize = 0;
        while i < self.grants.len()
            invariant
                i <= self.grants.len(),
                self@.len() == self.grants@.len(),
                grants_distinct(self@),
                forall|j: int| 0 <= j < i ==> #[trigger] self@[j].user_id != user_id@,
            decreases self.grants.len() - i,
        {
            if self.grants[i].user_id == *user_id {
                assert(self@[i as int].user_id == user_id@);
                assert(has_grant(self@, user_id@));
                return Some(i);
            }
            i += 1;
        }
        None
    }

    /// The level recorded for `user_id`.
    pub fn level_of(&self, user_id: &String) -> (level: PermissionLevel)
        ensures
            level == recorded_level(self@, user_id@),
    {
        match self.position(user_id) {
            Some(i) => self.grants[i].level,
            None => PermissionLevel::NoAccess,
        }
    }

    /// Records `level` for `user_id`, in place of what was recorded for it.
    pub fn set_level(&mut self, user_id: String, level: PermissionLevel)
        ensures
            final(self)@ == with_level(old(self)@, user_id@, level),
    {
        proof {
            use_type_invariant(&*self);
            with_level_sets_one(self@, user_id@, level, user_id@);
        }
        let ghost before = self@;
        let found = self.position(&user_id);
        let mut grants: Vec<Grant> = Vec::new();
        core::mem::swap(&mut grants, &mut self.grants);
        assert(before =~= Seq::new(grants@.len(), |m: int| grants@[m]@));
        match found {
            Some(i) => {
                grants.set(i, Grant { user_id, level });
            },
            None => {
                grants.push(Grant { user_id, level });
            },
        }
        assert(Seq::new(grants@.len(), |m: int| grants@[m]@) =~= with_level(
            before,
            user_id@,
            level,
        ));
        self.grants = grants;
    }
}

/// Whether `user` may act at `required` on a resource with these `grants`.
/// An administrator always may; anyone else may exactly where the level
/// recorded for that resource covers `required`.
pub open spec fn permits(user: RequestUserView, grants: Seq<GrantView>, required: PermissionLevel) -> bool {
    effective_level(user, grants).covers(required)
}

/// Decides whether `user` may act at `required` on a resource with these
/// `grants`.
pub fn check_level(user: &RequestUser, grants: &Permissions, required: PermissionLevel) -> (ok: bool)
    ensures
        ok == permits(user@, grants@, required),
{
    if user.is_admin {
        true
    } else {
        grants.level_of(&user.id).allows(required)
    }
}

} // verus!
