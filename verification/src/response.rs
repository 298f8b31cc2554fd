//! Responses that the contracts hand back to the chain.

use vstd::prelude::*;

verus! {

/// A key/value pair attached to a response.
#[derive(Clone, Debug, PartialEq)]
pub struct Attribute {
    pub key: String,
    pub value: String,
}

/// What a contract call answers: the attributes it reports and the messages
/// of type `M` it asks the chain to dispatch.
#[derive(Clone, Debug, PartialEq)]
pub struct Response<M> {
    pub messages: Vec<M>,
    pub attributes: Vec<Attribute>,
}

/// `resp` carries no message and exactly the one attribute `key = value`.
pub open spec fn single_attribute<M>(resp: Response<M>, key: Seq<char>, value: Seq<char>) -> bool {
    &&& resp.messages@.len() == 0
    &&& resp.attributes@.len() == 1
    &&& resp.attributes@[0].key@ == key
    &&& resp.attributes@[0].value@ == value
}

/// Builds the attribute `key = value`.
pub fn attribute(key: &str, value: &str) -> (a: Attribute)
    ensures
        a.key@ == key@,
        a.value@ == value@,
{
    Attribute { key: String::from_str(key), value: String::from_str(value) }
}

/// A response with no message and the single attribute `key = value`.
pub fn with_attribute<M>(key: &str, value: &str) -> (resp: Response<M>)
    ensures
        single_attribute(resp, key@, value@),
{
    let mut attributes: Vec<Attribute> = Vec::new();
    attributes.push(attribute(key, value));
    Response { messages: Vec::new(), attributes }
}

} // verus!
