//! A dataset's configuration document.
use vstd::prelude::*;
use crate::string_map::{strings_view, StringMap};

verus! {

/// The reserved key under which a document holds its datatype table.
pub open spec fn data_key() -> Seq<char> {
    seq!['d', 'a', 't', 'a']
}

/// The reserved key under which a document holds the dataset's name.
pub open spec fn name_key() -> Seq<char> {
    seq!['n', 'a', 'm', 'e']
}

/// What a document holds: every key but `data` with its value as JSON text,
/// and the datatype table under `data`, if the key is there.
pub struct DocModel {
    pub fields: Map<Seq<char>, Seq<char>>,
    pub data: Option<Map<Seq<char>, Seq<char>>>,
}

/// The datatype table of a document, empty where the key is absent.
pub open spec fn data_or_empty(d: DocModel) -> Map<Seq<char>, Seq<char>> {
    match d.data {
        Some(m) => m,
        None => Map::empty(),
    }
}

/// The document with `datatype` set to `path` in its datatype table.
pub open spec fn with_entry(d: DocModel, datatype: Seq<char>, path: Seq<char>) -> DocModel {
    DocModel { fields: d.fields, data: Some(data_or_empty(d).insert(datatype, path)) }
}

/// The document with `datatype` taken out of its datatype table.
pub open spec fn without_entry(d: DocModel, datatype: Seq<char>) -> DocModel {
    DocModel { fields: d.fields, data: Some(data_or_empty(d).remove(datatype)) }
}

/// A configuration document: template-defined keys passed through as JSON
/// text, and the table from datatype to path.
pub struct Document {
    fields: StringMap,
    data: Option<StringMap>,
}

impl View for Document {
    type V = DocModel;

    closed spec fn view(&self) -> DocModel {
        DocModel {
            fields: self.fields@,
            data: match self.data {
                Some(m) => Some(m@),
                None => None,
            },
        }
    }
}

impl Document {
    /// The document's internal invariant.
    pub closed spec fn wf(&self) -> bool {
        &&& self.fields.wf()
        &&& !self.fields@.contains_key(data_key())
        &&& match self.data {
            Some(m) => m.wf(),
            None => true,
        }
    }

    /// The fields in the order they are written out.
    pub closed spec fn field_pairs(&self) -> Seq<(Seq<char>, Seq<char>)> {
        self.fields.pairs()
    }

    /// The datatype entries in the order they are written out.
    pub closed spec fn data_pairs(&self) -> Option<Seq<(Seq<char>, Seq<char>)>> {
        match self.data {
            Some(m) => Some(m.pairs()),
            None => None,
        }
    }

    /// A document with no keys.
    pub fn new() -> (r: Document)
        ensures
            r.wf(),
            r@.fields == Map::<Seq<char>, Seq<char>>::empty(),
            r@.data.is_none(),
    {
        Document { fields: StringMap::new(), data: None }
    }

    /// Sets a key other than `data` to a value given as JSON text.
    pub fn set_field(&mut self, key: String, json: String)
        requires
            old(self).wf(),
            key@ != data_key(),
        ensures
            final(self).wf(),
            final(self)@ == (DocModel { fields: old(self)@.fields.insert(key@, json@), ..old(self)@ }),
    {
        self.fields.insert(key, json);
    }

    /// The JSON text stored under a key other than `data`.
    pub fn field(&self, key: &String) -> (r: Option<&String>)
        requires
            self.wf(),
        ensures
            r.is_some() == self@.fields.contains_key(key@),
            r.is_some() ==> r.unwrap()@ == self@.fields[key@],
    {
        self.fields.get(key)
    }

    /// Whether the document has a `data` key.
    pub fn has_data(&self) -> (r: bool)
        ensures
            r == self@.data.is_some(),
    {
        self.data.is_some()
    }

    /// The path stored for `datatype`, if the document has a table holding it.
    pub fn data_entry(&self, datatype: &String) -> (r: Option<&String>)
        requires
            self.wf(),
        ensures
            r.is_some() == (self@.data.is_some() && self@.data.unwrap().contains_key(datatype@)),
            r.is_some() ==> r.unwrap()@ == self@.data.unwrap()[datatype@],
    {
        match &self.data {
            Some(m) => m.get(datatype),
            None => None,
        }
    }

    /// The datatypes in the table, each once; empty where there is no table.
    pub fn datatypes(&self) -> (r: Vec<String>)
        requires
            self.wf(),
        ensures
            strings_view(r@).no_duplicates(),
            strings_view(r@).to_set() == data_or_empty(self@).dom(),
    {
        match &self.data {
            Some(m) => m.keys(),
            None => {
                let r: Vec<String> = Vec::new();
                assert(strings_view(r@).to_set() =~= Set::<Seq<char>>::empty());
                r
            },
        }
    }

    /// Puts `table` in place as the datatype table.
    pub fn set_table(&mut self, table: StringMap)
        requires
            old(self).wf(),
            table.wf(),
        ensures
            final(self).wf(),
            final(self)@ == (DocModel { data: Some(table@), ..old(self)@ }),
            final(self).field_pairs() == old(self).field_pairs(),
            final(self).data_pairs() == Some(table.pairs()),
    {
        self.data = Some(table);
    }

    /// The key-value pairs other than `data`, in the order they are written out.
    pub fn fields(&self) -> (r: &StringMap)
        ensures
            r.pairs() == self.field_pairs(),
    {
        &self.fields
    }

    /// The datatype table, if the document has one.
    pub fn table(&self) -> (r: Option<&StringMap>)
        ensures
            r.is_some() == self.data_pairs().is_some(),
            r.is_some() ==> r.unwrap().pairs() == self.data_pairs().unwrap(),
    {
        match &self.data {
            Some(m) => Some(m),
            None => None,
        }
    }

    /// Sets `datatype` to `path`, making the table if there is none.
    pub fn set_entry(&mut self, datatype: String, path: String)
        requires
            old(self).wf(),
        ensures
            final(self).wf(),
            final(self)@ == with_entry(old(self)@, datatype@, path@),
    {
        let mut m = match self.data.take() {
            Some(m) => m,
            None => StringMap::new(),
        };
        m.insert(datatype, path);
        self.data = Some(m);
    }

    /// Takes `datatype` out of the table, making an empty table if there is none.
    pub fn remove_entry(&mut self, datatype: &String)
        requires
            old(self).wf(),
        ensures
            final(self).wf(),
            final(self)@ == without_entry(old(self)@, datatype@),
    {
        let mut m = match self.data.take() {
            Some(m) => m,
            None => StringMap::new(),
        };
        m.remove(datatype);
        self.data = Some(m);
    }

    /// A copy of the document.
    pub fn duplicate(&self) -> (r: Document)
        requires
            self.wf(),
        ensures
            r.wf(),
            r@ == self@,
            r.field_pairs() == self.field_pairs(),
            r.data_pairs() == self.data_pairs(),
    {
        let data = match &self.data {
            Some(m) => Some(m.duplicate()),
            None => None,
        };
        Document { fields: self.fields.duplicate(), data }
    }
}

} // verus!
