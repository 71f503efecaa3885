//! Managed resources and the collections that hold them. A collection keeps
//! the names of its resources distinct and gives every resource an id of its
//! own, which no later resource of the collection gets again.
use vstd::prelude::*;
use crate::permission::{
    grants_distinct, permits, with_level, with_level_sets_one, GrantView, PermissionLevel,
    Permissions, RequestUser, RequestUserView,
};
use crate::text::{
    fixed_hex, fixed_hex_injective, nothing_above_sixteen_digits, write_fixed_hex,
};

verus! {

/// A managed resource: who it is, how it is set up, what is known of it, and
/// who may do what with it.
#[derive(Debug, PartialEq, Eq)]
pub struct Resource<Config, Info> {
    /// Given when the resource is made, and never changed.
    pub id: String,
    /// Chosen by its owner, and distinct within its collection.
    pub name: String,
    /// The settings, which its owner writes.
    pub config: Config,
    /// What the system has found out about it.
    pub info: Info,
    pub permissions: Permissions,
}

/// A [`Resource`] as plain values.
pub struct ResourceView<Config, Info> {
    pub id: Seq<char>,
    pub name: Seq<char>,
    pub config: Config,
    pub info: Info,
    pub permissions: Seq<GrantView>,
}

impl<Config: View, Info: View> View for Resource<Config, Info> {
    type V = ResourceView<Config::V, Info::V>;

    open spec fn view(&self) -> ResourceView<Config::V, Info::V> {
        ResourceView {
            id: self.id@,
            name: self.name@,
            config: self.config@,
            info: self.info@,
            permissions: self.permissions@,
        }
    }
}

/// Values that can be copied so that the copy reads as the original.
pub trait Duplicate: View + Sized {
    /// A copy that reads as `self`.
    fn duplicate(&self) -> (copy: Self)
        ensures
            copy@ == self@,
    ;
}

impl Duplicate for () {
    fn duplicate(&self) -> (copy: ()) {
        ()
    }
}

impl<Config: Duplicate, Info: Duplicate> Duplicate for Resource<Config, Info> {
    fn duplicate(&self) -> (copy: Self) {
        Resource {
            id: self.id.clone(),
            name: self.name.clone(),
            config: self.config.duplicate(),
            info: self.info.duplicate(),
            permissions: self.permissions.duplicate(),
        }
    }
}

impl<Config: View, Info: Duplicate> Resource<Config, Info> {
    /// What a listing shows of the resource.
    pub fn list_item(&self) -> (item: ResourceListItem<Info>)
        ensures
            item@ == self@.list_item(),
    {
        ResourceListItem {
            id: self.id.clone(),
            name: self.name.clone(),
            info: self.info.duplicate(),
        }
    }
}

impl<C, I> ResourceView<C, I> {
    /// What a listing shows of the resource: its id, its name and what is
    /// known of it.
    pub open spec fn list_item(self) -> ResourceListItemView<I> {
        ResourceListItemView { id: self.id, name: self.name, info: self.info }
    }
}

/// What a listing shows of a resource.
#[derive(Debug, PartialEq, Eq)]
pub struct ResourceListItem<Info> {
    pub id: String,
    pub name: String,
    pub info: Info,
}

/// A [`ResourceListItem`] as plain values.
pub struct ResourceListItemView<Info> {
    pub id: Seq<char>,
    pub name: Seq<char>,
    pub info: Info,
}

impl<Info: View> View for ResourceListItem<Info> {
    type V = ResourceListItemView<Info::V>;

    open spec fn view(&self) -> ResourceListItemView<Info::V> {
        ResourceListItemView { id: self.id@, name: self.name@, info: self.info@ }
    }
}

/// The id of the resource that was made with this serial number: sixteen
/// hexadecimal digits.
pub open spec fn id_text(serial: nat) -> Seq<char> {
    fixed_hex(serial, 16)
}

/// Different serial numbers give different ids.
pub proof fn id_text_injective(a: nat, b: nat)
    requires
        a <= u64::MAX,
        b <= u64::MAX,
        id_text(a) == id_text(b),
    ensures
        a == b,
{
    nothing_above_sixteen_digits(a as u64);
    nothing_above_sixteen_digits(b as u64);
    fixed_hex_injective(a, b, 16);
}

/// Whether `id` is the id of one of the first `issued` serial numbers.
pub open spec fn was_issued(id: Seq<char>, issued: nat) -> bool {
    exists|serial: nat| serial < issued && #[trigger] id_text(serial) == id
}

/// What a listing that `user` asks for shows of `items`: the resources that
/// `user` may read, in the order of `items`.
pub open spec fn visible<C, I>(items: Seq<ResourceView<C, I>>, user: RequestUserView) -> Seq<
    ResourceView<C, I>,
>
    decreases items.len(),
{
    if items.len() == 0 {
        Seq::empty()
    } else {
        let before = visible(items.drop_last(), user);
        if permits(user, items.last().permissions, PermissionLevel::Read) {
            before.push(items.last())
        } else {
            before
        }
    }
}

/// The listing of `items`: of each its id, its name and what is known of it.
pub open spec fn listing<C, I>(items: Seq<ResourceView<C, I>>) -> Seq<ResourceListItemView<I>> {
    Seq::new(items.len(), |i: int| items[i].list_item())
}

/// The entries of a listing as plain values.
pub open spec fn entries<I: View>(items: Seq<ResourceListItem<I>>) -> Seq<ResourceListItemView<I::V>> {
    Seq::new(items.len(), |i: int| items[i]@)
}

/// Whether a listing for `user` shows the resource `r` of `items`.
proof fn visible_contains<C, I>(
    items: Seq<ResourceView<C, I>>,
    user: RequestUserView,
    r: ResourceView<C, I>,
)
    ensures
        visible(items, user).contains(r) <==> items.contains(r) && permits(
            user,
            r.permissions,
            PermissionLevel::Read,
        ),
    decreases items.len(),
{
    if items.len() > 0 {
        let rest = items.drop_last();
        let last = items.last();
        let shown = visible(items, user);
        let before = visible(rest, user);
        visible_contains(rest, user, r);
        if shown.contains(r) {
            let k = choose|k: int| 0 <= k < shown.len() && shown[k] == r;
            if k < before.len() {
                assert(before[k] == r);
                assert(before.contains(r));
                assert(rest.contains(r));
                let m = choose|m: int| 0 <= m < rest.len() && rest[m] == r;
                assert(items[m] == r);
            } else {
                assert(r == last);
                assert(items[items.len() - 1] == r);
            }
        }
        if items.contains(r) && permits(user, r.permissions, PermissionLevel::Read) {
            let m = choose|m: int| 0 <= m < items.len() && items[m] == r;
            if m < rest.len() {
                assert(rest[m] == r);
                assert(rest.contains(r));
                assert(before.contains(r));
                let k = choose|k: int| 0 <= k < before.len() && before[k] == r;
                assert(shown[k] == r);
            } else {
                assert(r == last);
                assert(shown[shown.len() - 1] == r);
            }
        }
    }
}

/// A listing holds exactly the resources that the caller may read: every one
/// of them and nothing else, in the order of the collection. Where the caller
/// may read everything the listing is the whole collection, and where the
/// caller may read nothing it is empty.
pub proof fn visible_is_the_readable_part<C, I>(items: Seq<ResourceView<C, I>>, user: RequestUserView)
    ensures
        forall|r: ResourceView<C, I>|
            visible(items, user).contains(r) <==> items.contains(r) && permits(
                user,
                r.permissions,
                PermissionLevel::Read,
            ),
        visible(items, user).len() <= items.len(),
        (forall|i: int|
            0 <= i < items.len() ==> permits(
                user,
                (#[trigger] items[i]).permissions,
                PermissionLevel::Read,
            )) ==> visible(items, user) == items,
        (forall|i: int|
            0 <= i < items.len() ==> !permits(
                user,
                (#[trigger] items[i]).permissions,
                PermissionLevel::Read,
            )) ==> visible(items, user).len() == 0,
    decreases items.len(),
{
    assert forall|r: ResourceView<C, I>|
        visible(items, user).contains(r) <==> items.contains(r) && permits(
            user,
            r.permissions,
            PermissionLevel::Read,
        ) by {
        visible_contains(items, user, r);
    }
    if items.len() > 0 {
        let rest = items.drop_last();
        visible_is_the_readable_part(rest, user);
        let shown = visible(items, user);
        if forall|i: int|
            0 <= i < items.len() ==> permits(
                user,
                (#[trigger] items[i]).permissions,
                PermissionLevel::Read,
            ) {
            assert forall|i: int| 0 <= i < rest.len() implies permits(
                user,
                (#[trigger] rest[i]).permissions,
                PermissionLevel::Read,
            ) by {
                assert(rest[i] == items[i]);
            }
            assert(permits(user, items[items.len() - 1].permissions, PermissionLevel::Read));
            assert(shown =~= items);
        }
        if forall|i: int|
            0 <= i < items.len() ==> !permits(
                user,
                (#[trigger] items[i]).permissions,
                PermissionLevel::Read,
            ) {
            assert forall|i: int| 0 <= i < rest.len() implies !permits(
                user,
                (#[trigger] rest[i]).permissions,
                PermissionLevel::Read,
            ) by {
                assert(rest[i] == items[i]);
            }
            assert(!permits(user, items[items.len() - 1].permissions, PermissionLevel::Read));
        }
    } else {
        assert(visible(items, user) =~= items);
    }
}

/// A collection of resources as plain values: the resources in the order in
/// which they were made, and how many serial numbers were given out.
pub struct CollectionView<Config, Info> {
    pub items: Seq<ResourceView<Config, Info>>,
    pub issued: nat,
}

impl<C, I> CollectionView<C, I> {
    /// Whether a resource has this id.
    pub open spec fn has_id(self, id: Seq<char>) -> bool {
        exists|i: int| 0 <= i < self.items.len() && (#[trigger] self.items[i]).id == id
    }

    /// The place of the resource with this id, where there is one.
    pub open spec fn index_of_id(self, id: Seq<char>) -> int {
        choose|i: int| 0 <= i < self.items.len() && (#[trigger] self.items[i]).id == id
    }

    /// Whether a resource has this name.
    pub open spec fn has_name(self, name: Seq<char>) -> bool {
        exists|i: int| 0 <= i < self.items.len() && (#[trigger] self.items[i]).name == name
    }

    /// The place of the resource with this name, where there is one.
    pub open spec fn index_of_name(self, name: Seq<char>) -> int {
        choose|i: int| 0 <= i < self.items.len() && (#[trigger] self.items[i]).name == name
    }

    /// The place of the resource that `reference` stands for: the one with
    /// that id, else the one with that name.
    pub open spec fn find(self, reference: Seq<char>) -> Option<int> {
        if self.has_id(reference) {
            Some(self.index_of_id(reference))
        } else if self.has_name(reference) {
            Some(self.index_of_name(reference))
        } else {
            None
        }
    }

    /// What holds of every collection: names are distinct, ids are distinct
    /// and were all given out by this collection, and no principal has two
    /// grants on one resource.
    pub open spec fn wf(self) -> bool {
        &&& self.issued <= u64::MAX
        &&& forall|i: int, j: int|
            0 <= i < self.items.len() && 0 <= j < self.items.len() && i != j ==> (
            #[trigger] self.items[i]).name != (#[trigger] self.items[j]).name
        &&& forall|i: int, j: int|
            0 <= i < self.items.len() && 0 <= j < self.items.len() && i != j ==> (
            #[trigger] self.items[i]).id != (#[trigger] self.items[j]).id
        &&& forall|i: int|
            0 <= i < self.items.len() ==> was_issued((#[trigger] self.items[i]).id, self.issued)
        &&& forall|i: int|
            0 <= i < self.items.len() ==> grants_distinct((#[trigger] self.items[i]).permissions)
    }

    /// Whether a resource named `name` can be made: the name is free and a
    /// serial number is left.
    pub open spec fn can_create(self, name: Seq<char>) -> bool {
        !self.has_name(name) && self.issued < u64::MAX
    }

    /// The resource that `created` adds.
    pub open spec fn fresh(self, name: Seq<char>, config: C, info: I) -> ResourceView<C, I> {
        ResourceView { id: id_text(self.issued), name, config, info, permissions: Seq::empty() }
    }

    /// The collection with one more resource at its end, made with the next
    /// serial number and with grants to nobody.
    pub open spec fn created(self, name: Seq<char>, config: C, info: I) -> CollectionView<C, I> {
        CollectionView {
            items: self.items.push(self.fresh(name, config, info)),
            issued: self.issued + 1,
        }
    }

    /// The collection without the resource at place `i`.
    pub open spec fn removed(self, i: int) -> CollectionView<C, I> {
        CollectionView { items: self.items.remove(i), issued: self.issued }
    }

    /// Whether the resource at place `i` can take the name `name`: no other
    /// resource has it.
    pub open spec fn can_rename(self, i: int, name: Seq<char>) -> bool {
        forall|j: int|
            0 <= j < self.items.len() && j != i ==> (#[trigger] self.items[j]).name != name
    }

    /// The collection with the resource at place `i` named `name`.
    pub open spec fn renamed(self, i: int, name: Seq<char>) -> CollectionView<C, I> {
        CollectionView {
            items: self.items.update(i, ResourceView { name, ..self.items[i] }),
            issued: self.issued,
        }
    }

    /// The collection with the settings of the resource at place `i`, and
    /// what is known of it, replaced.
    pub open spec fn configured(self, i: int, config: C, info: I) -> CollectionView<C, I> {
        CollectionView {
            items: self.items.update(i, ResourceView { config, info, ..self.items[i] }),
            issued: self.issued,
        }
    }

    /// The collection with `level` recorded for `user_id` on the resource at
    /// place `i`.
    pub open spec fn granted(self, i: int, user_id: Seq<char>, level: PermissionLevel) -> CollectionView<
        C,
        I,
    > {
        CollectionView {
            items: self.items.update(
                i,
                ResourceView {
                    permissions: with_level(self.items[i].permissions, user_id, level),
                    ..self.items[i]
                },
            ),
            issued: self.issued,
        }
    }
}

/// In a well-formed collection a resource is found by its id and by its
/// name, and by nothing that is neither an id nor a name.
pub proof fn find_by_id_or_name<C, I>(c: CollectionView<C, I>, i: int)
    requires
        c.wf(),
        0 <= i < c.items.len(),
    ensures
        c.find(c.items[i].id) == Some(i),
        !c.has_id(c.items[i].name) ==> c.find(c.items[i].name) == Some(i),
        forall|reference: Seq<char>|
            c.find(reference) is Some ==> 0 <= c.find(reference).unwrap() < c.items.len() && (
            c.items[c.find(reference).unwrap()].id == reference || c.items[c.find(
                reference,
            ).unwrap()].name == reference),
{
    let id = c.items[i].id;
    assert(c.has_id(id));
    let name = c.items[i].name;
    assert(c.has_name(name));
}

/// Every operation keeps a collection well formed, and none of them takes
/// back a serial number: an id that was given out stays given out.
pub proof fn operations_keep_wf<C, I>(
    c: CollectionView<C, I>,
    i: int,
    name: Seq<char>,
    config: C,
    info: I,
    user_id: Seq<char>,
    level: PermissionLevel,
)
    requires
        c.wf(),
    ensures
        c.can_create(name) ==> c.created(name, config, info).wf(),
        0 <= i < c.items.len() ==> c.removed(i).wf(),
        0 <= i < c.items.len() && c.can_rename(i, name) ==> c.renamed(i, name).wf(),
        0 <= i < c.items.len() ==> c.configured(i, config, info).wf(),
        0 <= i < c.items.len() ==> c.granted(i, user_id, level).wf(),
{
    if c.can_create(name) {
        let after = c.created(name, config, info);
        let n = c.items.len() as int;
        assert forall|k: int| 0 <= k < after.items.len() implies was_issued(
            (#[trigger] after.items[k]).id,
            after.issued,
        ) by {
            if k < n {
                assert(after.items[k] == c.items[k]);
                assert(was_issued(c.items[k].id, c.issued));
                let serial = choose|serial: nat|
                    serial < c.issued && #[trigger] id_text(serial) == c.items[k].id;
                assert(serial < after.issued && id_text(serial) == after.items[k].id);
            } else {
                assert(c.issued < after.issued && id_text(c.issued) == after.items[k].id);
            }
        }
        assert forall|a: int, b: int|
            0 <= a < after.items.len() && 0 <= b < after.items.len() && a != b implies (
        #[trigger] after.items[a]).id != (#[trigger] after.items[b]).id by {
            if a < n && b < n {
                assert(after.items[a] == c.items[a] && after.items[b] == c.items[b]);
            } else {
                let old_one = if a < n {
                    a
                } else {
                    b
                };
                assert(after.items[old_one] == c.items[old_one]);
                assert(was_issued(c.items[old_one].id, c.issued));
                let serial = choose|serial: nat|
                    serial < c.issued && #[trigger] id_text(serial) == c.items[old_one].id;
                if id_text(serial) == id_text(c.issued) {
                    id_text_injective(serial, c.issued);
                }
            }
        }
        assert forall|a: int, b: int|
            0 <= a < after.items.len() && 0 <= b < after.items.len() && a != b implies (
        #[trigger] after.items[a]).name != (#[trigger] after.items[b]).name by {
            if a < n {
                assert(after.items[a] == c.items[a]);
            }
            if b < n {
                assert(after.items[b] == c.items[b]);
            }
        }
        assert forall|k: int| 0 <= k < after.items.len() implies grants_distinct(
            (#[trigger] after.items[k]).permissions,
        ) by {
            if k < n {
                assert(after.items[k] == c.items[k]);
            }
        }
    }
    if 0 <= i < c.items.len() {
        let after = c.removed(i);
        assert forall|k: int| 0 <= k < after.items.len() implies (#[trigger] after.items[k])
            == c.items[if k < i {
            k
        } else {
            k + 1
        }] by {}
        assert forall|k: int| 0 <= k < after.items.len() implies was_issued(
            (#[trigger] after.items[k]).id,
            after.issued,
        ) && grants_distinct(after.items[k].permissions) by {
            let m = if k < i {
                k
            } else {
                k + 1
            };
            assert(after.items[k] == c.items[m]);
        }
        assert forall|a: int, b: int|
            0 <= a < after.items.len() && 0 <= b < after.items.len() && a != b implies (
        #[trigger] after.items[a]).id != (#[trigger] after.items[b]).id && after.items[a].name
            != after.items[b].name by {
            let ma = if a < i {
                a
            } else {
                a + 1
            };
            let mb = if b < i {
                b
            } else {
                b + 1
            };
            assert(after.items[a] == c.items[ma] && after.items[b] == c.items[mb]);
        }

        let configured = c.configured(i, config, info);
        assert forall|k: int| 0 <= k < configured.items.len() implies (
        #[trigger] configured.items[k]).id == c.items[k].id && configured.items[k].name
            == c.items[k].name && configured.items[k].permissions == c.items[k].permissions by {}
        assert(configured.wf());

        let granted = c.granted(i, user_id, level);
        with_level_sets_one(c.items[i].permissions, user_id, level, user_id);
        assert forall|k: int| 0 <= k < granted.items.len() implies (#[trigger] granted.items[k]).id
            == c.items[k].id && granted.items[k].name == c.items[k].name && grants_distinct(
            granted.items[k].permissions,
        ) by {}
        assert(granted.wf());

        if c.can_rename(i, name) {
            let renamed = c.renamed(i, name);
            assert forall|k: int| 0 <= k < renamed.items.len() implies (
            #[trigger] renamed.items[k]).id == c.items[k].id && renamed.items[k].permissions
                == c.items[k].permissions && (k != i ==> renamed.items[k].name
                == c.items[k].name) by {}
            assert(renamed.wf());
        }
    }
}

/// No id is given out twice. The id of a resource that is made was never
/// given out by its collection before, whatever was removed in the meantime;
/// and what was given out stays given out through every operation.
pub proof fn ids_are_never_reused<C, I>(
    c: CollectionView<C, I>,
    i: int,
    name: Seq<char>,
    config: C,
    info: I,
    user_id: Seq<char>,
    level: PermissionLevel,
    id: Seq<char>,
)
    requires
        c.wf(),
    ensures
        c.can_create(name) ==> !was_issued(c.fresh(name, config, info).id, c.issued)
            && !c.has_id(c.fresh(name, config, info).id) && was_issued(
            c.fresh(name, config, info).id,
            c.created(name, config, info).issued,
        ),
        was_issued(id, c.issued) ==> was_issued(id, c.created(name, config, info).issued)
            && was_issued(id, c.removed(i).issued) && was_issued(id, c.renamed(i, name).issued)
            && was_issued(id, c.configured(i, config, info).issued) && was_issued(
            id,
            c.granted(i, user_id, level).issued,
        ),
{
    if c.can_create(name) {
        let fresh = id_text(c.issued);
        if was_issued(fresh, c.issued) {
            let serial = choose|serial: nat| serial < c.issued && #[trigger] id_text(serial) == fresh;
            id_text_injective(serial, c.issued);
        }
        if c.has_id(fresh) {
            let k = c.index_of_id(fresh);
            assert(was_issued(c.items[k].id, c.issued));
        }
        assert(c.issued < c.issued + 1 && id_text(c.issued) == fresh);
    }
    if was_issued(id, c.issued) {
        let serial = choose|serial: nat| serial < c.issued && #[trigger] id_text(serial) == id;
        assert(serial < c.issued + 1 && id_text(serial) == id);
    }
}

/// The grants of the resource of `c` with this id, where there is one.
pub open spec fn grants_in<C, I>(c: CollectionView<C, I>, id: Seq<char>) -> Option<Seq<GrantView>> {
    if c.has_id(id) {
        Some(c.items[c.index_of_id(id)].permissions)
    } else {
        None
    }
}

/// The grants of the resource at place `i` are the grants that go with its
/// id.
pub proof fn grants_at_place<C, I>(c: CollectionView<C, I>, i: int)
    requires
        c.wf(),
        0 <= i < c.items.len(),
    ensures
        grants_in(c, c.items[i].id) == Some(c.items[i].permissions),
{
    assert(c.has_id(c.items[i].id));
}

/// Making, removing, renaming and configuring resources leaves the grants
/// of every resource as they were: a resource that is there before and
/// after has the same grants, and one that was just made has none.
pub proof fn grants_stay_with_their_resource<C, I>(
    c: CollectionView<C, I>,
    i: int,
    name: Seq<char>,
    config: C,
    info: I,
    id: Seq<char>,
)
    requires
        c.wf(),
    ensures
        c.can_create(name) ==> grants_in(c.created(name, config, info), id) == if c.has_id(id) {
            grants_in(c, id)
        } else if id == id_text(c.issued) {
            Some(Seq::<GrantView>::empty())
        } else {
            None
        },
        0 <= i < c.items.len() ==> grants_in(c.removed(i), id) == if id == c.items[i].id {
            None
        } else {
            grants_in(c, id)
        },
        0 <= i < c.items.len() ==> grants_in(c.renamed(i, name), id) == grants_in(c, id),
        0 <= i < c.items.len() ==> grants_in(c.configured(i, config, info), id) == grants_in(c, id),
{
    if c.can_create(name) {
        let after = c.created(name, config, info);
        let n = c.items.len() as int;
        operations_keep_wf(c, 0, name, config, info, Seq::empty(), PermissionLevel::NoAccess);
        assert forall|k: int| 0 <= k < n implies #[trigger] after.items[k] == c.items[k] by {}
        assert(after.items[n] == c.fresh(name, config, info));
        if c.has_id(id) {
            let k = c.index_of_id(id);
            grants_at_place(after, k);
        } else if id == id_text(c.issued) {
            grants_at_place(after, n);
        } else if after.has_id(id) {
            let k = after.index_of_id(id);
            if k < n {
                assert(c.items[k].id == id);
            }
        }
    }
    if 0 <= i < c.items.len() {
        operations_keep_wf(c, i, name, config, info, Seq::empty(), PermissionLevel::NoAccess);
        let removed = c.removed(i);
        assert forall|k: int| 0 <= k < removed.items.len() implies #[trigger] removed.items[k]
            == c.items[if k < i {
            k
        } else {
            k + 1
        }] by {}
        if removed.has_id(id) {
            let k = removed.index_of_id(id);
            let m = if k < i {
                k
            } else {
                k + 1
            };
            assert(c.items[m].id == id);
            grants_at_place(c, m);
        } else if c.has_id(id) {
            let m = c.index_of_id(id);
            if m != i {
                let k = if m < i {
                    m
                } else {
                    m - 1
                };
                assert(removed.items[k].id == id);
            }
        }
        let configured = c.configured(i, config, info);
        assert forall|k: int| 0 <= k < c.items.len() implies (#[trigger] configured.items[k]).id
            == c.items[k].id && configured.items[k].permissions == c.items[k].permissions by {}
        if c.has_id(id) {
            let k = c.index_of_id(id);
            grants_at_place(configured, k);
        } else if configured.has_id(id) {
            let k = configured.index_of_id(id);
            assert(c.items[k].id == id);
        }
        let renamed = c.renamed(i, name);
        assert forall|k: int| 0 <= k < c.items.len() implies (#[trigger] renamed.items[k]).id
            == c.items[k].id && renamed.items[k].permissions == c.items[k].permissions by {}
        if c.has_id(id) {
            let k = c.index_of_id(id);
            assert(renamed.items[k].id == id);
            assert(renamed.has_id(id));
            let k2 = renamed.index_of_id(id);
            assert(c.items[k2].id == id);
        } else if renamed.has_id(id) {
            let k = renamed.index_of_id(id);
            assert(c.items[k].id == id);
        }
    }
}

/// The resources of one family.
#[derive(Debug, PartialEq, Eq)]
pub struct Collection<Config: View, Info: View> {
    items: Vec<Resource<Config, Info>>,
    issued: u64,
}

impl<Config: View, Info: View> View for Collection<Config, Info> {
    type V = CollectionView<Config::V, Info::V>;

    closed spec fn view(&self) -> CollectionView<Config::V, Info::V> {
        CollectionView {
            items: Seq::new(self.items@.len(), |i: int| self.items@[i]@),
            issued: self.issued as nat,
        }
    }
}

impl<Config: View, Info: View> Collection<Config, Info> {
    #[verifier::type_invariant]
    spec fn well_formed(self) -> bool {
        self@.wf()
    }

    /// A collection with nothing in it.
    pub fn new() -> (c: Self)
        ensures
            c@.items.len() == 0,
            c@.issued == 0,
    {
        let c = Collection { items: Vec::new(), issued: 0 };
        assert(c@.items.len() == 0);
        c
    }

    /// States what every collection satisfies.
    pub fn well_formedness(&self)
        ensures
            self@.wf(),
    {
        proof {
            use_type_invariant(self);
        }
    }

    /// How many resources the collection holds.
    pub fn len(&self) -> (n: usize)
        ensures
            n == self@.items.len(),
    {
        self.items.len()
    }

    /// The resource at place `i`.
    pub fn get(&self, i: usize) -> (r: &Resource<Config, Info>)
        requires
            i < self@.items.len(),
        ensures
            r@ == self@.items[i as int],
    {
        &self.items[i]
    }

    fn position_by_id(&self, id: &String) -> (r: Option<usize>)
        ensures
            match r {
                Some(i) => i < self@.items.len() && self@.has_id(id@) && self@.index_of_id(id@)
                    == i,
                None => !self@.has_id(id@),
            },
    {
        proof {
            use_type_invariant(self);
        }
        let mut i: usize = 0;
        while i < self.items.len()
            invariant
                i <= self.items.len(),
                self@.wf(),
                self@.items.len() == self.items@.len(),
                forall|j: int| 0 <= j < i ==> (#[trigger] self@.items[j]).id != id@,
            decreases self.items.len() - i,
        {
            if self.items[i].id == *id {
                assert(self@.items[i as int].id == id@);
                assert(self@.has_id(id@));
                return Some(i);
            }
            i += 1;
        }
        None
    }

    fn position_by_name(&self, name: &String) -> (r: Option<usize>)
        ensures
            match r {
                Some(i) => i < self@.items.len() && self@.has_name(name@) && self@.index_of_name(
                    name@,
                ) == i,
                None => !self@.has_name(name@),
            },
    {
        proof {
            use_type_invariant(self);
        }
        let mut i: usize = 0;
        while i < self.items.len()
            invariant
                i <= self.items.len(),
                self@.wf(),
                self@.items.len() == self.items@.len(),
                forall|j: int| 0 <= j < i ==> (#[trigger] self@.items[j]).name != name@,
            decreases self.items.len() - i,
        {
            if self.items[i].name == *name {
                assert(self@.items[i as int].name == name@);
                assert(self@.has_name(name@));
                return Some(i);
            }
            i += 1;
        }
        None
    }

    /// The place of the resource that `reference` stands for: the one with
    /// that id, else the one with that name.
    pub fn find(&self, reference: &String) -> (r: Option<usize>)
        ensures
            match r {
                Some(i) => i < self@.items.len() && self@.find(reference@) == Some(i as int),
                None => self@.find(reference@) is None,
            },
    {
        match self.position_by_id(reference) {
            Some(i) => Some(i),
            None => self.position_by_name(reference),
        }
    }

    /// Whether a resource has this name.
    pub fn has_name(&self, name: &String) -> (taken: bool)
        ensures
            taken == self@.has_name(name@),
    {
        self.position_by_name(name).is_some()
    }

    /// Whether a serial number is left for one more resource.
    pub fn has_room(&self) -> (room: bool)
        ensures
            room == (self@.issued < u64::MAX),
    {
        self.issued < u64::MAX
    }

    /// Makes a resource named `name` at the end of the collection, with a
    /// new id and grants to nobody, and returns its place. Where the name is
    /// taken or no serial number is left, nothing changes.
    pub fn create(&mut self, name: String, config: Config, info: Info) -> (r: Option<usize>)
        ensures
            old(self)@.can_create(name@) ==> r is Some && r->Some_0 == old(self)@.items.len()
                && final(self)@ == old(self)@.created(name@, config@, info@),
            !old(self)@.can_create(name@) ==> r is None && final(self)@ == old(self)@,
    {
        proof {
            use_type_invariant(&*self);
        }
        if self.issued == u64::MAX || self.position_by_name(&name).is_some() {
            return None;
        }
        let ghost before = self@;
        proof {
            operations_keep_wf(
                before,
                0,
                name@,
                config@,
                info@,
                Seq::empty(),
                PermissionLevel::NoAccess,
            );
        }
        let mut id = String::new();
        write_fixed_hex(self.issued, 16, &mut id);
        assert(id@ =~= id_text(before.issued));
        let mut items: Vec<Resource<Config, Info>> = Vec::new();
        core::mem::swap(&mut items, &mut self.items);
        assert(before.items =~= Seq::new(items@.len(), |i: int| items@[i]@));
        let place = items.len();
        items.push(Resource { id, name, config, info, permissions: Permissions::new() });
        assert(Seq::new(items@.len(), |i: int| items@[i]@) =~= before.created(
            name@,
            config@,
            info@,
        ).items);
        self.issued = self.issued + 1;
        self.items = items;
        Some(place)
    }

    /// Takes the resource at place `i` out of the collection.
    pub fn remove(&mut self, i: usize) -> (r: Resource<Config, Info>)
        requires
            i < old(self)@.items.len(),
        ensures
            r@ == old(self)@.items[i as int],
            final(self)@ == old(self)@.removed(i as int),
    {
        proof {
            use_type_invariant(&*self);
        }
        let ghost before = self@;
        let mut items: Vec<Resource<Config, Info>> = Vec::new();
        core::mem::swap(&mut items, &mut self.items);
        assert(before.items =~= Seq::new(items@.len(), |i: int| items@[i]@));
        let r = items.remove(i);
        proof {
            operations_keep_wf(
                before,
                i as int,
                Seq::empty(),
                r.config@,
                r.info@,
                Seq::empty(),
                PermissionLevel::NoAccess,
            );
            assert(Seq::new(items@.len(), |i: int| items@[i]@) =~= before.removed(i as int).items);
        }
        self.items = items;
        r
    }

    /// Whether the resource at place `i` can take the name `name`.
    pub fn can_rename(&self, i: usize, name: &String) -> (free: bool)
        requires
            i < self@.items.len(),
        ensures
            free == self@.can_rename(i as int, name@),
    {
        match self.position_by_name(name) {
            Some(j) => {
                proof {
                    use_type_invariant(self);
                    if j == i {
                        assert forall|k: int|
                            0 <= k < self@.items.len() && k != i implies (
                        #[trigger] self@.items[k]).name != name@ by {
                            assert(self@.items[i as int].name == name@);
                        }
                    } else {
                        assert(self@.items[j as int].name == name@);
                    }
                }
                j == i
            },
            None => true,
        }
    }

    /// Names the resource at place `i` `name`.
    pub fn rename(&mut self, i: usize, name: String)
        requires
            i < old(self)@.items.len(),
            old(self)@.can_rename(i as int, name@),
        ensures
            final(self)@ == old(self)@.renamed(i as int, name@),
    {
        proof {
            use_type_invariant(&*self);
        }
        let ghost before = self@;
        let mut items: Vec<Resource<Config, Info>> = Vec::new();
        core::mem::swap(&mut items, &mut self.items);
        assert(before.items =~= Seq::new(items@.len(), |i: int| items@[i]@));
        let mut r = items.remove(i);
        r.name = name;
        proof {
            operations_keep_wf(
                before,
                i as int,
                name@,
                r.config@,
                r.info@,
                Seq::empty(),
                PermissionLevel::NoAccess,
            );
        }
        items.insert(i, r);
        assert(Seq::new(items@.len(), |i: int| items@[i]@) =~= before.renamed(i as int, name@).items);
        self.items = items;
    }

    /// Replaces the settings of the resource at place `i`, and what is known
    /// of it.
    pub fn configure(&mut self, i: usize, config: Config, info: Info)
        requires
            i < old(self)@.items.len(),
        ensures
            final(self)@ == old(self)@.configured(i as int, config@, info@),
    {
        proof {
            use_type_invariant(&*self);
        }
        let ghost before = self@;
        let mut items: Vec<Resource<Config, Info>> = Vec::new();
        core::mem::swap(&mut items, &mut self.items);
        assert(before.items =~= Seq::new(items@.len(), |i: int| items@[i]@));
        let mut r = items.remove(i);
        r.config = config;
        r.info = info;
        proof {
            operations_keep_wf(
                before,
                i as int,
                Seq::empty(),
                config@,
                info@,
                Seq::empty(),
                PermissionLevel::NoAccess,
            );
        }
        items.insert(i, r);
        assert(Seq::new(items@.len(), |i: int| items@[i]@) =~= before.configured(
            i as int,
            config@,
            info@,
        ).items);
        self.items = items;
    }

    /// Records `level` for `user_id` on the resource at place `i`.
    pub fn grant(&mut self, i: usize, user_id: String, level: PermissionLevel)
        requires
            i < old(self)@.items.len(),
        ensures
            final(self)@ == old(self)@.granted(i as int, user_id@, level),
    {
        proof {
            use_type_invariant(&*self);
        }
        let ghost before = self@;
        let mut items: Vec<Resource<Config, Info>> = Vec::new();
        core::mem::swap(&mut items, &mut self.items);
        assert(before.items =~= Seq::new(items@.len(), |i: int| items@[i]@));
        let mut r = items.remove(i);
        proof {
            operations_keep_wf(
                before,
                i as int,
                Seq::empty(),
                r.config@,
                r.info@,
                user_id@,
                level,
            );
        }
        r.permissions.set_level(user_id, level);
        items.insert(i, r);
        assert(Seq::new(items@.len(), |i: int| items@[i]@) =~= before.granted(
            i as int,
            user_id@,
            level,
        ).items);
        self.items = items;
    }

    /// Whether `user` may act at `required` on the resource at place `i`.
    pub fn permits(&self, i: usize, user: &RequestUser, required: PermissionLevel) -> (ok: bool)
        requires
            i < self@.items.len(),
        ensures
            ok == permits(user@, self@.items[i as int].permissions, required),
    {
        crate::permission::check_level(user, &self.items[i].permissions, required)
    }

    /// What a listing that `user` asks for shows: of each resource that
    /// `user` may read its id, its name and what is known of it, in the
    /// order of the collection. A caller who may read nothing gets an empty
    /// listing.
    pub fn list(&self, user: &RequestUser) -> (items: Vec<ResourceListItem<Info>>) where
        Info: Duplicate,

        ensures
            entries(items@) == listing(visible(self@.items, user@)),
    {
        let places = self.visible_places(user);
        let mut items: Vec<ResourceListItem<Info>> = Vec::new();
        let mut k: usize = 0;
        while k < places.len()
            invariant
                k <= places.len(),
                items@.len() == k,
                self@.items.len() == self.items@.len(),
                places@.len() == visible(self@.items, user@).len(),
                forall|m: int|
                    0 <= m < places@.len() ==> (#[trigger] places@[m]) < self@.items.len()
                        && self@.items[places@[m] as int] == visible(self@.items, user@)[m],
                forall|m: int|
                    0 <= m < k ==> (#[trigger] items@[m])@ == visible(
                        self@.items,
                        user@,
                    )[m].list_item(),
            decreases places.len() - k,
        {
            let place = places[k];
            items.push(self.items[place].list_item());
            k += 1;
        }
        assert(entries(items@) =~= listing(visible(self@.items, user@)));
        items
    }

    /// A copy of the resource at place `i`.
    pub fn copy_of(&self, i: usize) -> (r: Resource<Config, Info>) where
        Config: Duplicate,
        Info: Duplicate,

        requires
            i < self@.items.len(),
        ensures
            r@ == self@.items[i as int],
    {
        self.items[i].duplicate()
    }

    /// The places of the resources that `user` may read, in order.
    pub fn visible_places(&self, user: &RequestUser) -> (places: Vec<usize>)
        ensures
            places@.len() == visible(self@.items, user@).len(),
            forall|k: int|
                0 <= k < places@.len() ==> (#[trigger] places@[k]) < self@.items.len()
                    && self@.items[places@[k] as int] == visible(self@.items, user@)[k],
    {
        let mut places: Vec<usize> = Vec::new();
        let mut i: usize = 0;
        assert(self@.items.take(0) =~= Seq::empty());
        while i < self.items.len()
            invariant
                i <= self.items.len(),
                self@.items.len() == self.items@.len(),
                places@.len() == visible(self@.items.take(i as int), user@).len(),
                forall|k: int|
                    0 <= k < places@.len() ==> (#[trigger] places@[k]) < i && self@.items[places@[k] as int]
                        == visible(self@.items.take(i as int), user@)[k],
            decreases self.items.len() - i,
        {
            let ghost seen = self@.items.take(i as int);
            let ghost next = self@.items.take(i as int + 1);
            assert(next.drop_last() =~= seen);
            assert(next.last() == self@.items[i as int]);
            if crate::permission::check_level(user, &self.items[i].permissions, PermissionLevel::Read) {
                places.push(i);
            }
            i += 1;
        }
        assert(self@.items.take(i as int) =~= self@.items);
        places
    }
}


} // verus!
