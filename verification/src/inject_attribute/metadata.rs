use vstd::prelude::*;

verus! {

/// How an injected object is made: once, or each time it is asked for.
pub enum ObjetType {
    IsSingleton,
    IsFactory,
}

/// What is known of an injectable type.
pub struct StructMeta {
    pub object_type: ObjetType,
    pub tag: String,
    pub identifier: String,
    pub dependencies: Vec<String>,
    pub cache: Option<String>,
}

} // verus!
