//! The registry of datasets and its operations.
use vstd::prelude::*;
use crate::ErrorKind;
use crate::document::{
    data_or_empty, name_key, with_entry, without_entry, DocModel, Document,
};
use crate::json::{quote, quoted};
use crate::keyed::{
    find_key, keys_of, keys_unique, lemma_keys, lemma_push, lemma_update, map_of,
};
use crate::string_map::strings_view;
use crate::templates::{default_name, template_lookup, TemplateStore};

verus! {

/// Why a registry operation failed.
#[derive(Clone, Copy, Debug, PartialEq, Eq, Structural)]
pub enum RegistryError {
    /// No dataset of that name exists.
    DatasetNotFound,
    /// The dataset has no datatype table, or (for listing) an empty one.
    NoData,
    /// The dataset has no entry for that datatype.
    DatatypeNotFound,
    /// The datatype is present and overwriting was not asked for.
    AlreadyExists,
    /// The path to register does not exist on the filesystem.
    PathNotFound,
    /// A configuration document is not a JSON object of the expected shape.
    Malformed,
    /// The template catalog has no default template.
    NoDefaultTemplate,
}

impl RegistryError {
    /// The kind of failure an error is.
    pub open spec fn spec_kind(self) -> ErrorKind {
        match self {
            RegistryError::AlreadyExists => ErrorKind::AlreadyExists,
            RegistryError::Malformed => ErrorKind::IoFailure,
            RegistryError::NoDefaultTemplate => ErrorKind::IoFailure,
            _ => ErrorKind::NotFound,
        }
    }

    /// The kind of failure this is.
    pub fn kind(&self) -> (r: ErrorKind)
        ensures
            r == self.spec_kind(),
    {
        match self {
            RegistryError::AlreadyExists => ErrorKind::AlreadyExists,
            RegistryError::Malformed => ErrorKind::IoFailure,
            RegistryError::NoDefaultTemplate => ErrorKind::IoFailure,
            _ => ErrorKind::NotFound,
        }
    }
}

/// The registry's contents: each dataset's name with its document.
pub type RegistryModel = Map<Seq<char>, DocModel>;

/// The document a new dataset starts with: the template named after it,
/// verbatim, if there is one; else the default with `name` set.
pub open spec fn initial_document(
    name: Seq<char>,
    template: Option<DocModel>,
    default: DocModel,
) -> DocModel {
    match template {
        Some(t) => t,
        None => DocModel { fields: default.fields.insert(name_key(), quoted(name)), ..default },
    }
}

/// The registry after creating dataset `name`: unchanged where it exists.
pub open spec fn created(
    reg: RegistryModel,
    name: Seq<char>,
    template: Option<DocModel>,
    default: DocModel,
) -> RegistryModel {
    if reg.contains_key(name) {
        reg
    } else {
        reg.insert(name, initial_document(name, template, default))
    }
}

/// The outcome of creating dataset `name` from a template catalog: the new
/// registry (the same one where the dataset exists), or the error.
pub open spec fn created_from(
    reg: RegistryModel,
    name: Seq<char>,
    store: Map<Seq<char>, Seq<char>>,
) -> Result<RegistryModel, RegistryError> {
    if reg.contains_key(name) {
        Ok(reg)
    } else {
        match template_lookup(store, name) {
            Err(e) => Err(e),
            Ok(Some(t)) => Ok(reg.insert(name, t)),
            Ok(None) => match template_lookup(store, default_name()) {
                Err(e) => Err(e),
                Ok(None) => Err(RegistryError::NoDefaultTemplate),
                Ok(Some(d)) => Ok(created(reg, name, None, d)),
            },
        }
    }
}

/// The outcome of adding an entry: the new registry, or the error.
/// `path` is the canonical path, or `None` where the path does not exist.
pub open spec fn added(
    reg: RegistryModel,
    dataset: Seq<char>,
    datatype: Seq<char>,
    path: Option<Seq<char>>,
    overwrite: bool,
) -> Result<RegistryModel, RegistryError> {
    if !reg.contains_key(dataset) {
        Err(RegistryError::DatasetNotFound)
    } else if !overwrite && data_or_empty(reg[dataset]).contains_key(datatype) {
        Err(RegistryError::AlreadyExists)
    } else if path.is_none() {
        Err(RegistryError::PathNotFound)
    } else {
        Ok(reg.insert(dataset, with_entry(reg[dataset], datatype, path.unwrap())))
    }
}

/// The outcome of looking up an entry.
pub open spec fn looked_up(
    reg: RegistryModel,
    dataset: Seq<char>,
    datatype: Seq<char>,
) -> Result<Seq<char>, RegistryError> {
    if !reg.contains_key(dataset) {
        Err(RegistryError::DatasetNotFound)
    } else if reg[dataset].data.is_none() {
        Err(RegistryError::NoData)
    } else if !reg[dataset].data.unwrap().contains_key(datatype) {
        Err(RegistryError::DatatypeNotFound)
    } else {
        Ok(reg[dataset].data.unwrap()[datatype])
    }
}

/// The outcome of removing an entry: the new registry, or the error.
pub open spec fn removed(
    reg: RegistryModel,
    dataset: Seq<char>,
    datatype: Seq<char>,
) -> Result<RegistryModel, RegistryError> {
    match looked_up(reg, dataset, datatype) {
        Err(e) => Err(e),
        Ok(_) => Ok(reg.insert(dataset, without_entry(reg[dataset], datatype))),
    }
}

/// The error that listing the datatypes of `dataset` gives, if any.
pub open spec fn list_error(reg: RegistryModel, dataset: Seq<char>) -> Option<RegistryError> {
    if !reg.contains_key(dataset) {
        Some(RegistryError::DatasetNotFound)
    } else if data_or_empty(reg[dataset]).dom().is_empty() {
        Some(RegistryError::NoData)
    } else {
        None
    }
}

/// What an answer to "create the missing dataset?" decides: `Some(true)` to
/// create it, `Some(false)` to give up, `None` to ask again.
pub fn create_answer(c: char) -> (r: Option<bool>)
    ensures
        r == (if c == 'y' || c == 'Y' {
            Some(true)
        } else if c == 'n' || c == 'N' {
            Some(false)
        } else {
            None::<bool>
        }),
{
    if c == 'y' || c == 'Y' {
        Some(true)
    } else if c == 'n' || c == 'N' {
        Some(false)
    } else {
        None
    }
}

/// A set of datasets, each with its configuration document.
pub struct Registry {
    datasets: Vec<(String, Document)>,
}

impl View for Registry {
    type V = RegistryModel;

    closed spec fn view(&self) -> RegistryModel {
        map_of(self.datasets@)
    }
}

/// Whether a dataset of that name exists.
pub fn ds_exists(registry: &Registry, ds_name: &String) -> (r: bool)
    requires
        registry.wf(),
    ensures
        r == registry@.contains_key(ds_name@),
{
    find_key(&registry.datasets, ds_name).is_some()
}

impl Registry {
    /// The registry's internal invariant.
    pub closed spec fn wf(&self) -> bool {
        &&& keys_unique(self.datasets@)
        &&& forall|i: int| 0 <= i < self.datasets@.len() ==> self.datasets@[i].1.wf()
    }

    /// A registry with no datasets.
    pub fn new() -> (r: Registry)
        ensures
            r.wf(),
            r@ == RegistryModel::empty(),
    {
        let r = Registry { datasets: Vec::new() };
        assert(r@ =~= RegistryModel::empty());
        r
    }

    /// Puts a dataset's document in place, replacing any it had.
    pub fn insert_dataset(&mut self, name: String, doc: Document)
        requires
            old(self).wf(),
            doc.wf(),
        ensures
            final(self).wf(),
            final(self)@ == old(self)@.insert(name@, doc@),
    {
        match find_key(&self.datasets, &name) {
            Some(i) => self.replace(i, name, doc),
            None => {
                proof {
                    lemma_push(self.datasets@, (name, doc));
                }
                self.datasets.push((name, doc));
            },
        }
    }

    fn replace(&mut self, i: usize, name: String, doc: Document)
        requires
            old(self).wf(),
            doc.wf(),
            i < old(self).datasets@.len(),
            old(self).datasets@[i as int].0@ == name@,
        ensures
            final(self).wf(),
            final(self)@ == old(self)@.insert(name@, doc@),
    {
        proof {
            lemma_update(self.datasets@, i as int, (name, doc));
        }
        self.datasets.set(i, (name, doc));
    }

    /// The document of a dataset, where it exists.
    pub fn load_config(&self, dsn: &String) -> (r: Option<&Document>)
        requires
            self.wf(),
        ensures
            r.is_some() == self@.contains_key(dsn@),
            r.is_some() ==> r.unwrap().wf() && r.unwrap()@ == self@[dsn@],
    {
        match find_key(&self.datasets, dsn) {
            Some(i) => Some(&self.datasets[i].1),
            None => None,
        }
    }

    /// Creates dataset `ds_name` unless it exists, from `template` if given
    /// or else from `default`; tells whether it was created.
    pub fn create_with(
        &mut self,
        ds_name: String,
        template: Option<Document>,
        default: Document,
    ) -> (r: bool)
        requires
            old(self).wf(),
            default.wf(),
            template.is_some() ==> template.unwrap().wf(),
        ensures
            final(self).wf(),
            r == !old(self)@.contains_key(ds_name@),
            final(self)@ == created(
                old(self)@,
                ds_name@,
                match template {
                    Some(t) => Some(t@),
                    None => None,
                },
                default@,
            ),
    {
        if ds_exists(self, &ds_name) {
            return false;
        }
        let doc = match template {
            Some(t) => t,
            None => {
                let mut d = default;
                let key = String::from_str("name");
                proof {
                    reveal_strlit("name");
                    reveal_strlit("data");
                    assert(key@ =~= name_key());
                }
                let json = quote(ds_name.as_str());
                d.set_field(key, json);
                d
            },
        };
        self.insert_dataset(ds_name, doc);
        true
    }

    /// Creates dataset `ds_name` unless it exists, from the catalog's
    /// template of that name if there is one, else from its default; tells
    /// whether it was created. An existing dataset is left as it is.
    pub fn create_dataset(&mut self, ds_name: String, templates: &TemplateStore) -> (r: Result<
        bool,
        RegistryError,
    >)
        requires
            old(self).wf(),
            templates.wf(),
        ensures
            final(self).wf(),
            match created_from(old(self)@, ds_name@, templates@) {
                Ok(m) => r == Ok::<bool, RegistryError>(!old(self)@.contains_key(ds_name@))
                    && final(self)@ == m,
                Err(e) => r == Err::<bool, RegistryError>(e) && final(self)@ == old(self)@,
            },
    {
        if ds_exists(self, &ds_name) {
            return Ok(false);
        }
        let template = match templates.get_config_template(&ds_name) {
            Ok(t) => t,
            Err(e) => return Err(e),
        };
        let default = match template {
            Some(_) => Document::new(),
            None => match templates.get_default_config() {
                Ok(d) => d,
                Err(e) => return Err(e),
            },
        };
        let made = self.create_with(ds_name, template, default);
        Ok(made)
    }

    /// Registers `path` as the `datatype` entry of `dataset`. `path` is the
    /// canonical form of the path given, or `None` where that path does not
    /// exist. Gives back the dataset and datatype names.
    pub fn add(
        &mut self,
        dataset: &String,
        datatype: String,
        path: Option<String>,
        overwrite: bool,
    ) -> (r: Result<(String, String), RegistryError>)
        requires
            old(self).wf(),
        ensures
            final(self).wf(),
            match added(
                old(self)@,
                dataset@,
                datatype@,
                match path {
                    Some(p) => Some(p@),
                    None => None,
                },
                overwrite,
            ) {
                Ok(m) => r.is_ok() && final(self)@ == m && r.unwrap().0@ == dataset@
                    && r.unwrap().1@ == datatype@,
                Err(e) => r == Err::<(String, String), RegistryError>(e) && final(self)@
                    == old(self)@,
            },
    {
        let i = match find_key(&self.datasets, dataset) {
            Some(i) => i,
            None => return Err(RegistryError::DatasetNotFound),
        };
        proof {
            crate::keyed::lemma_index_of(self.datasets@, i as int);
        }
        if !overwrite && self.datasets[i].1.data_entry(&datatype).is_some() {
            return Err(RegistryError::AlreadyExists);
        }
        let p = match path {
            Some(p) => p,
            None => return Err(RegistryError::PathNotFound),
        };
        let mut doc = self.datasets[i].1.duplicate();
        let dt = datatype.clone();
        doc.set_entry(datatype, p);
        let name = dataset.clone();
        self.replace(i, name, doc);
        Ok((dataset.clone(), dt))
    }

    /// Adds an entry as `add` does; where `dataset` is missing, first creates
    /// it from the catalog if `create` holds (the user's answer), else fails
    /// with `DatasetNotFound`. A dataset created here stays when the add
    /// itself then fails.
    pub fn add_or_create(
        &mut self,
        dataset: &String,
        datatype: String,
        path: Option<String>,
        overwrite: bool,
        create: bool,
        templates: &TemplateStore,
    ) -> (r: Result<(String, String), RegistryError>)
        requires
            old(self).wf(),
            templates.wf(),
        ensures
            final(self).wf(),
            !old(self)@.contains_key(dataset@) && !create ==> r == Err::<
                (String, String),
                RegistryError,
            >(RegistryError::DatasetNotFound) && final(self)@ == old(self)@,
            old(self)@.contains_key(dataset@) || create ==> match created_from(
                old(self)@,
                dataset@,
                templates@,
            ) {
                Err(e) => r == Err::<(String, String), RegistryError>(e) && final(self)@
                    == old(self)@,
                Ok(m) => match added(
                    m,
                    dataset@,
                    datatype@,
                    match path {
                        Some(p) => Some(p@),
                        None => None,
                    },
                    overwrite,
                ) {
                    Ok(m2) => r.is_ok() && final(self)@ == m2 && r.unwrap().0@ == dataset@
                        && r.unwrap().1@ == datatype@,
                    Err(e) => r == Err::<(String, String), RegistryError>(e) && final(self)@
                        == m,
                },
            },
    {
        if !ds_exists(self, dataset) {
            if !create {
                return Err(RegistryError::DatasetNotFound);
            }
            match self.create_dataset(dataset.clone(), templates) {
                Ok(_) => {},
                Err(e) => return Err(e),
            }
        }
        self.add(dataset, datatype, path, overwrite)
    }

    /// The path registered as the `datatype` entry of `dataset`.
    pub fn get(&self, dataset: &String, datatype: &String) -> (r: Result<String, RegistryError>)
        requires
            self.wf(),
        ensures
            match looked_up(self@, dataset@, datatype@) {
                Ok(p) => r.is_ok() && r.unwrap()@ == p,
                Err(e) => r == Err::<String, RegistryError>(e),
            },
    {
        let doc = match self.load_config(dataset) {
            Some(d) => d,
            None => return Err(RegistryError::DatasetNotFound),
        };
        if !doc.has_data() {
            return Err(RegistryError::NoData);
        }
        match doc.data_entry(datatype) {
            Some(p) => Ok(p.clone()),
            None => Err(RegistryError::DatatypeNotFound),
        }
    }

    /// Takes the `datatype` entry out of `dataset`. Gives back the dataset
    /// and datatype names.
    pub fn remove(&mut self, dataset: &String, datatype: &String) -> (r: Result<
        (String, String),
        RegistryError,
    >)
        requires
            old(self).wf(),
        ensures
            final(self).wf(),
            match removed(old(self)@, dataset@, datatype@) {
                Ok(m) => r.is_ok() && final(self)@ == m && r.unwrap().0@ == dataset@
                    && r.unwrap().1@ == datatype@,
                Err(e) => r == Err::<(String, String), RegistryError>(e) && final(self)@
                    == old(self)@,
            },
    {
        let i = match find_key(&self.datasets, dataset) {
            Some(i) => i,
            None => return Err(RegistryError::DatasetNotFound),
        };
        proof {
            crate::keyed::lemma_index_of(self.datasets@, i as int);
        }
        if !self.datasets[i].1.has_data() {
            return Err(RegistryError::NoData);
        }
        if self.datasets[i].1.data_entry(datatype).is_none() {
            return Err(RegistryError::DatatypeNotFound);
        }
        let mut doc = self.datasets[i].1.duplicate();
        doc.remove_entry(datatype);
        let name = dataset.clone();
        self.replace(i, name, doc);
        Ok((dataset.clone(), datatype.clone()))
    }

    /// The names of all datasets, each once; empty for an empty registry.
    pub fn list_ds(&self) -> (r: Vec<String>)
        requires
            self.wf(),
        ensures
            strings_view(r@).no_duplicates(),
            strings_view(r@).to_set() == self@.dom(),
    {
        let mut r: Vec<String> = Vec::new();
        let mut i: usize = 0;
        while i < self.datasets.len()
            invariant
                0 <= i <= self.datasets@.len(),
                r@.len() == i,
                forall|j: int| 0 <= j < i ==> r@[j]@ == self.datasets@[j].0@,
            decreases self.datasets@.len() - i,
        {
            r.push(self.datasets[i].0.clone());
            i = i + 1;
        }
        proof {
            lemma_keys(self.datasets@);
            assert(strings_view(r@) =~= keys_of(self.datasets@));
        }
        r
    }

    /// The datatypes of `dataset`, each once. A dataset with no table, or an
    /// empty one, is an error rather than an empty list.
    pub fn list_datatypes(&self, ds_name: &String) -> (r: Result<Vec<String>, RegistryError>)
        requires
            self.wf(),
        ensures
            match list_error(self@, ds_name@) {
                Some(e) => r == Err::<Vec<String>, RegistryError>(e),
                None => r.is_ok() && strings_view(r.unwrap()@).no_duplicates()
                    && strings_view(r.unwrap()@).to_set() == data_or_empty(self@[ds_name@]).dom(),
            },
    {
        let doc = match self.load_config(ds_name) {
            Some(d) => d,
            None => return Err(RegistryError::DatasetNotFound),
        };
        let types = doc.datatypes();
        if types.len() == 0 {
            proof {
                assert(strings_view(types@).to_set() =~= Set::<Seq<char>>::empty());
            }
            return Err(RegistryError::NoData);
        }
        proof {
            assert(strings_view(types@)[0] == types@[0]@);
            assert(strings_view(types@).contains(types@[0]@));
            assert(strings_view(types@).to_set().contains(types@[0]@));
        }
        Ok(types)
    }

    /// With a dataset, its datatypes as `list_datatypes` gives them; without,
    /// the names of all datasets.
    pub fn list(&self, dataset: Option<&String>) -> (r: Result<Vec<String>, RegistryError>)
        requires
            self.wf(),
        ensures
            dataset.is_none() ==> r.is_ok() && strings_view(r.unwrap()@).no_duplicates()
                && strings_view(r.unwrap()@).to_set() == self@.dom(),
            dataset.is_some() ==> match list_error(self@, dataset.unwrap()@) {
                Some(e) => r == Err::<Vec<String>, RegistryError>(e),
                None => r.is_ok() && strings_view(r.unwrap()@).no_duplicates()
                    && strings_view(r.unwrap()@).to_set() == data_or_empty(
                    self@[dataset.unwrap()@],
                ).dom(),
            },
    {
        match dataset {
            Some(ds) => self.list_datatypes(ds),
            None => Ok(self.list_ds()),
        }
    }
}

} // verus!
