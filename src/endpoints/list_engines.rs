use crate::{Method, Request};
use vstd::prelude::*;

verus! {

/// One engine (model) that the API offers.
#[derive(Clone, Debug)]
pub struct Engine {
    pub id: String,
    pub object: String,
    pub owner: String,
    pub ready: bool,
}

/// The answer to [`ListEngines`].
#[derive(Debug)]
pub struct ListEnginesResponse {
    pub data: Vec<Engine>,
    pub object: String,
}

/// Lists the engines that the API offers. Engines are deprecated in favour
/// of models.
#[derive(Clone, Copy, Debug)]
pub struct ListEngines {}

impl Request for ListEngines {
    open spec fn method_spec(&self) -> Method {
        Method::GET
    }

    open spec fn endpoint_spec(&self) -> Seq<char> {
        seq!['e', 'n', 'g', 'i', 'n', 'e', 's']
    }

    fn method(&self) -> (r: Method) {
        Method::GET
    }

    open spec fn has_body_spec(&self) -> bool {
        false
    }

    fn has_body(&self) -> (r: bool) {
        false
    }

    fn endpoint(&self) -> (r: String) {
        let r = String::from_str("engines");
        proof {
            reveal_strlit("engines");
        }
        r
    }
}

} // verus!
