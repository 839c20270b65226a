//! The router's map of named route parameters, as the verified code sees it.
//!
//! `leptos_router::ParamsMap` is kept as it is. Nothing in this file is proved:
//! each contract below is a claim about the router's code.

use leptos_router::ParamsMap;
use vstd::prelude::*;

verus! {

/// `leptos_router::ParamsMap`, held as an opaque value.
#[verifier::external_type_specification]
#[verifier::external_body]
pub struct ExParamsMap(leptos_router::ParamsMap);

/// The entries of a parameter map: each name with the value stored under it.
pub uninterp spec fn params_entries(params: ParamsMap) -> Map<Seq<char>, Seq<char>>;

/// `ParamsMap::new` makes a map without entries.
pub assume_specification[ ParamsMap::new ]() -> (params: ParamsMap)
    ensures
        params_entries(params) == (Map::<Seq<char>, Seq<char>>::empty()),
;

/// `ParamsMap::insert` stores `value` under `key`, in place of whatever was
/// stored under it, and leaves every other entry alone. It returns what `key`
/// held before, if anything.
pub assume_specification[ ParamsMap::insert ](
    params: &mut ParamsMap,
    key: String,
    value: String,
) -> (previous: Option<String>)
    ensures
        params_entries(*final(params)) == params_entries(*old(params)).insert(key@, value@),
        match previous {
            Some(text) => params_entries(*old(params)).contains_key(key@) && text@
                == params_entries(*old(params))[key@],
            None => !params_entries(*old(params)).contains_key(key@),
        },
;

/// `ParamsMap::get` returns the value stored under `key`, and `None` where
/// the map has no entry of that name.
pub assume_specification<'a>[ ParamsMap::get ](params: &'a ParamsMap, key: &str) -> (value:
    Option<&'a String>)
    ensures
        match value {
            Some(text) => params_entries(*params).contains_key(key@) && text@ == params_entries(
                *params,
            )[key@],
            None => !params_entries(*params).contains_key(key@),
        },
;

} // verus!
