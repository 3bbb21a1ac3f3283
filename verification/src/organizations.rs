use crate::error::LedgerError;
use crate::records::Organization;
use crate::store::{ResourceStore, StoreView};
use vstd::prelude::*;

verus! {

/// `after` is `before` with `entity_ids` for its entities and nothing else
/// changed.
pub open spec fn with_entities(before: Organization, after: Organization, entity_ids: Seq<u64>) -> bool {
    &&& after.id == before.id
    &&& after.name@ == before.name@
    &&& after.description@ == before.description@
    &&& after.created_at == before.created_at
    &&& after.created_by@ == before.created_by@
    &&& after.entity_ids@ == entity_ids
}

/// The ids without every occurrence of `gone`, in their order.
pub open spec fn without_id(ids: Seq<u64>, gone: u64) -> Seq<u64>
    decreases ids.len(),
{
    if ids.len() == 0 {
        ids
    } else if ids.last() == gone {
        without_id(ids.drop_last(), gone)
    } else {
        without_id(ids.drop_last(), gone).push(ids.last())
    }
}

/// The store differs from `before` in nothing but the organization that is
/// now stored under the id of `organization`, which has `entity_ids` for its
/// entities.
pub open spec fn entities_changed(
    before: StoreView,
    after: StoreView,
    organization: Organization,
    entity_ids: Seq<u64>,
) -> bool {
    &&& after == (StoreView { organizations: after.organizations, ..before })
    &&& after.organizations.dom() == before.organizations.dom().insert(organization.id)
    &&& with_entities(organization, after.organizations[organization.id], entity_ids)
    &&& forall|k: u64|
        k != organization.id && before.organizations.contains_key(k)
            ==> after.organizations[k] == before.organizations[k]
}

fn holds(ids: &Vec<u64>, id: u64) -> (yes: bool)
    ensures
        yes == ids@.contains(id),
{
    let mut i: usize = 0;
    while i < ids.len()
        invariant
            i <= ids@.len(),
            forall|k: int| 0 <= k < i ==> ids@[k] != id,
        decreases ids@.len() - i,
    {
        if ids[i] == id {
            return true;
        }
        i += 1;
    }
    false
}

fn copy_with_entities(organization: &Organization, entity_ids: Vec<u64>) -> (copy: Organization)
    ensures
        with_entities(*organization, copy, entity_ids@),
{
    Organization {
        id: organization.id,
        name: organization.name.clone(),
        description: organization.description.clone(),
        created_at: organization.created_at,
        created_by: organization.created_by.clone(),
        entity_ids,
    }
}

/// Records that an entity belongs to an organization, unless the
/// organization lists it already.
pub fn add_entity_to_organization(
    store: &mut ResourceStore,
    org_id: u64,
    entity_id: u64,
) -> (outcome: Result<(), LedgerError>)
    requires
        old(store).wf(),
    ensures
        final(store).wf(),
        match outcome {
            Ok(_) => {
                &&& old(store)@.organizations.contains_key(org_id)
                &&& {
                    let organization = old(store)@.organizations[org_id];
                    if organization.entity_ids@.contains(entity_id) {
                        final(store)@ == old(store)@
                    } else {
                        entities_changed(
                            old(store)@,
                            final(store)@,
                            organization,
                            organization.entity_ids@.push(entity_id),
                        )
                    }
                }
            },
            Err(e) => {
                &&& e == LedgerError::OrganizationNotFound
                &&& !old(store)@.organizations.contains_key(org_id)
                &&& final(store)@ == old(store)@
            },
        },
{
    let changed = match store.organizations.get(org_id) {
        None => {
            return Err(LedgerError::OrganizationNotFound);
        },
        Some(organization) => {
            if holds(&organization.entity_ids, entity_id) {
                return Ok(());
            }
            let mut entity_ids = organization.entity_ids.clone();
            assert(entity_ids@ =~= organization.entity_ids@);
            entity_ids.push(entity_id);
            copy_with_entities(organization, entity_ids)
        },
    };
    let ghost before = store@;
    store.organizations.insert(changed.id, changed);
    proof {
        assert(store@.organizations.dom() =~= before.organizations.dom().insert(changed.id));
    }
    Ok(())
}

/// Records that an entity no longer belongs to an organization.
pub fn remove_entity_from_organization(
    store: &mut ResourceStore,
    org_id: u64,
    entity_id: u64,
) -> (outcome: Result<(), LedgerError>)
    requires
        old(store).wf(),
    ensures
        final(store).wf(),
        match outcome {
            Ok(_) => {
                &&& old(store)@.organizations.contains_key(org_id)
                &&& entities_changed(
                    old(store)@,
                    final(store)@,
                    old(store)@.organizations[org_id],
                    without_id(old(store)@.organizations[org_id].entity_ids@, entity_id),
                )
            },
            Err(e) => {
                &&& e == LedgerError::OrganizationNotFound
                &&& !old(store)@.organizations.contains_key(org_id)
                &&& final(store)@ == old(store)@
            },
        },
{
    let changed = match store.organizations.get(org_id) {
        None => {
            return Err(LedgerError::OrganizationNotFound);
        },
        Some(organization) => {
            let ids = &organization.entity_ids;
            let mut kept: Vec<u64> = Vec::new();
            let mut i: usize = 0;
            assert(ids@.take(0) =~= Seq::<u64>::empty());
            while i < ids.len()
                invariant
                    i <= ids@.len(),
                    kept@ == without_id(ids@.take(i as int), entity_id),
                decreases ids@.len() - i,
            {
                proof {
                    let more = ids@.take(i + 1);
                    assert(more.drop_last() =~= ids@.take(i as int));
                    assert(more.last() == ids@[i as int]);
                }
                if ids[i] != entity_id {
                    kept.push(ids[i]);
                }
                i += 1;
            }
            assert(ids@.take(i as int) =~= ids@);
            copy_with_entities(organization, kept)
        },
    };
    let ghost before = store@;
    store.organizations.insert(changed.id, changed);
    proof {
        assert(store@.organizations.dom() =~= before.organizations.dom().insert(changed.id));
    }
    Ok(())
}

} // verus!
