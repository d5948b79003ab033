//! The catalog of configuration templates, keyed by dataset name.
use vstd::prelude::*;
use crate::codec::decoded;
use crate::document::{DocModel, Document};
use crate::registry::RegistryError;
use crate::string_map::StringMap;

verus! {

/// The name under which the default template is kept.
pub open spec fn default_name() -> Seq<char> {
    seq!['d', 'e', 'f', 'a', 'u', 'l', 't']
}

/// A read-only catalog from template name to the template's JSON text.
pub struct TemplateStore {
    texts: StringMap,
}

impl View for TemplateStore {
    type V = Map<Seq<char>, Seq<char>>;

    closed spec fn view(&self) -> Map<Seq<char>, Seq<char>> {
        self.texts@
    }
}

/// What looking up template `name` gives: none, a document, or `Malformed`.
pub open spec fn template_lookup(store: Map<Seq<char>, Seq<char>>, name: Seq<char>) -> Result<
    Option<DocModel>,
    RegistryError,
> {
    if !store.contains_key(name) {
        Ok(None)
    } else {
        match decoded(store[name]) {
            Some(d) => Ok(Some(d)),
            None => Err(RegistryError::Malformed),
        }
    }
}

impl TemplateStore {
    pub closed spec fn wf(&self) -> bool {
        self.texts.wf()
    }

    /// A catalog holding the given templates.
    pub fn new(texts: StringMap) -> (r: TemplateStore)
        requires
            texts.wf(),
        ensures
            r.wf(),
            r@ == texts@,
    {
        TemplateStore { texts }
    }

    /// The template named `name`, read from its JSON text; `None` where the
    /// catalog has none of that name.
    pub fn get_config_template(&self, name: &String) -> (r: Result<Option<Document>, RegistryError>)
        requires
            self.wf(),
        ensures
            match template_lookup(self@, name@) {
                Ok(None) => r == Ok::<Option<Document>, RegistryError>(None),
                Ok(Some(d)) => r.is_ok() && r.unwrap().is_some() && r.unwrap().unwrap().wf()
                    && r.unwrap().unwrap()@ == d,
                Err(e) => r == Err::<Option<Document>, RegistryError>(e),
            },
    {
        match self.texts.get(name) {
            None => Ok(None),
            Some(text) => match Document::from_json(text.as_str()) {
                Ok(d) => Ok(Some(d)),
                Err(e) => Err(e),
            },
        }
    }

    /// The default template; `NoDefaultTemplate` where the catalog lacks it.
    pub fn get_default_config(&self) -> (r: Result<Document, RegistryError>)
        requires
            self.wf(),
        ensures
            match template_lookup(self@, default_name()) {
                Ok(None) => r == Err::<Document, RegistryError>(RegistryError::NoDefaultTemplate),
                Ok(Some(d)) => r.is_ok() && r.unwrap().wf() && r.unwrap()@ == d,
                Err(e) => r == Err::<Document, RegistryError>(e),
            },
    {
        let name = String::from_str("default");
        proof {
            reveal_strlit("default");
            assert(name@ =~= default_name());
        }
        match self.get_config_template(&name) {
            Ok(Some(d)) => Ok(d),
            Ok(None) => Err(RegistryError::NoDefaultTemplate),
            Err(e) => Err(e),
        }
    }
}

} // verus!
