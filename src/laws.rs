//! Laws that relate the registry's operations to one another.
use vstd::prelude::*;
use crate::ErrorKind;
use crate::document::{data_or_empty, DocModel};
use crate::registry::{added, created, created_from, list_error, looked_up, removed, RegistryError, RegistryModel};

verus! {

/// Creating a dataset a second time changes nothing: the registry, and so the
/// dataset's document, are those the first creation left.
pub proof fn lemma_create_idempotent(
    reg: RegistryModel,
    name: Seq<char>,
    template: Option<DocModel>,
    default: DocModel,
)
    ensures
        created(created(reg, name, template, default), name, template, default) == created(
            reg,
            name,
            template,
            default,
        ),
        created(reg, name, template, default).contains_key(name),
        reg.contains_key(name) ==> created(reg, name, template, default)[name] == reg[name],
{
}

/// Creating a dataset from a template catalog a second time changes nothing:
/// the second call reads what the first one left.
pub proof fn lemma_create_from_idempotent(
    reg: RegistryModel,
    name: Seq<char>,
    store: Map<Seq<char>, Seq<char>>,
)
    requires
        created_from(reg, name, store).is_ok(),
    ensures
        created_from(created_from(reg, name, store).unwrap(), name, store) == created_from(
            reg,
            name,
            store,
        ),
        created_from(reg, name, store).unwrap().contains_key(name),
{
}

/// After a successful add, looking the entry up gives the path that was stored.
pub proof fn lemma_add_then_get(
    reg: RegistryModel,
    dataset: Seq<char>,
    datatype: Seq<char>,
    path: Option<Seq<char>>,
    overwrite: bool,
)
    requires
        added(reg, dataset, datatype, path, overwrite).is_ok(),
    ensures
        looked_up(added(reg, dataset, datatype, path, overwrite).unwrap(), dataset, datatype)
            == Ok::<Seq<char>, RegistryError>(path.unwrap()),
{
}

/// Once an entry was added, adding it again without overwrite fails with
/// `AlreadyExists`; with overwrite it succeeds and a lookup gives the new path.
pub proof fn lemma_add_conflict(
    reg: RegistryModel,
    dataset: Seq<char>,
    datatype: Seq<char>,
    first: Option<Seq<char>>,
    second: Option<Seq<char>>,
)
    requires
        added(reg, dataset, datatype, first, false).is_ok(),
    ensures
        added(added(reg, dataset, datatype, first, false).unwrap(), dataset, datatype, second, false)
            == Err::<RegistryModel, RegistryError>(RegistryError::AlreadyExists),
        second.is_some() ==> {
            let m = added(reg, dataset, datatype, first, false).unwrap();
            &&& added(m, dataset, datatype, second, true).is_ok()
            &&& looked_up(added(m, dataset, datatype, second, true).unwrap(), dataset, datatype)
                == Ok::<Seq<char>, RegistryError>(second.unwrap())
        },
{
    let m = added(reg, dataset, datatype, first, false).unwrap();
    assert(data_or_empty(m[dataset]).contains_key(datatype));
}

/// Add, then remove, then look up the same entry: the lookup fails with a
/// not-found error.
pub proof fn lemma_add_remove_get(
    reg: RegistryModel,
    dataset: Seq<char>,
    datatype: Seq<char>,
    path: Option<Seq<char>>,
    overwrite: bool,
)
    requires
        added(reg, dataset, datatype, path, overwrite).is_ok(),
    ensures
        removed(added(reg, dataset, datatype, path, overwrite).unwrap(), dataset, datatype).is_ok(),
        looked_up(
            removed(added(reg, dataset, datatype, path, overwrite).unwrap(), dataset, datatype).unwrap(),
            dataset,
            datatype,
        ) == Err::<Seq<char>, RegistryError>(RegistryError::DatatypeNotFound),
        RegistryError::DatatypeNotFound.spec_kind() == ErrorKind::NotFound,
{
}

/// Listing the datatypes of an existing dataset whose table is absent or
/// empty fails with `NoData`; it never gives an empty list.
pub proof fn lemma_list_empty(reg: RegistryModel, dataset: Seq<char>)
    requires
        reg.contains_key(dataset),
        reg[dataset].data.is_none() || reg[dataset].data.unwrap() == Map::<
            Seq<char>,
            Seq<char>,
        >::empty(),
    ensures
        list_error(reg, dataset) == Some(RegistryError::NoData),
        RegistryError::NoData.spec_kind() == ErrorKind::NotFound,
{
    assert(data_or_empty(reg[dataset]).dom() =~= Set::<Seq<char>>::empty());
}

} // verus!
