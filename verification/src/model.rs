use crate::adapter::AdapterKind;
use crate::auth_data::AuthData;
use crate::endpoint::Endpoint;
use vstd::prelude::*;
use vstd::string::StringExecFns;

verus! {

/// Which model, at which provider, independent of network details.
#[derive(Debug, Clone)]
pub struct ModelIden {
    pub adapter_kind: AdapterKind,
    pub model_name: String,
}

impl ModelIden {
    pub fn new(adapter_kind: AdapterKind, model_name: String) -> (m: ModelIden)
        ensures
            m.adapter_kind == adapter_kind,
            m.model_name == model_name,
    {
        ModelIden { adapter_kind, model_name }
    }

    pub fn from_static(adapter_kind: AdapterKind, model_name: &'static str) -> (m: ModelIden)
        ensures
            m.adapter_kind == adapter_kind,
            m.model_name@ == model_name@,
    {
        ModelIden { adapter_kind, model_name: String::from_str(model_name) }
    }
}

/// The fully concrete, adapter-ready destination for one request. Immutable
/// once constructed; safe to clone and reuse across retries. It embeds auth
/// data, so it has no debug rendering.
#[derive(Clone)]
pub struct ServiceTarget {
    pub endpoint: Endpoint,
    pub auth: AuthData,
    pub model: ModelIden,
}

/// The caller's possibly-underspecified way of naming a desired model.
/// Resolution precedence: a full target passes through untouched, an
/// identity only needs registry defaults, a bare name is parsed or inferred.
/// It can embed auth data, so it has no debug rendering.
#[derive(Clone)]
pub enum ModelSpec {
    Name(String),
    Iden(ModelIden),
    Target(ServiceTarget),
}

impl ModelSpec {
    pub fn from_name(name: String) -> (r: ModelSpec)
        ensures
            r == ModelSpec::Name(name),
    {
        ModelSpec::Name(name)
    }

    pub fn from_static_name(name: &'static str) -> (r: ModelSpec)
        ensures
            r matches ModelSpec::Name(n) && n@ == name@,
    {
        ModelSpec::Name(String::from_str(name))
    }

    pub fn from_iden(iden: ModelIden) -> (r: ModelSpec)
        ensures
            r == ModelSpec::Iden(iden),
    {
        ModelSpec::Iden(iden)
    }
}

} // verus!
