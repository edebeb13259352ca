//! Query parameters of the table request and their validation.

use vstd::prelude::*;

use crate::order::text_eq;
use crate::response::{
    handle_400_missing_parameter,
    handle_400_wrong_parameter,
    is_text_reply,
    missing_parameter_message,
    wrong_parameter_message,
    Reply,
};

verus! {

/// The name/value pairs that `application/x-www-form-urlencoded` decoding
/// gives for `query`, in their order.
pub uninterp spec fn form_pairs(query: Seq<char>) -> Seq<(Seq<char>, Seq<char>)>;

/// Relies on `form_urlencoded::parse`: splits on `&`, splits each piece at
/// its first `=`, and decodes both halves; the pairs depend on the query
/// alone.
#[verifier::external_body]
fn parse_form(query: &str) -> (r: Vec<(String, String)>)
    ensures
        pairs_view(r@) == form_pairs(query@),
{
    form_urlencoded::parse(query.as_bytes()).map(|(k, v)| (k.into_owned(), v.into_owned())).collect()
}

pub open spec fn pairs_view(s: Seq<(String, String)>) -> Seq<(Seq<char>, Seq<char>)> {
    s.map_values(|p: (String, String)| (p.0@, p.1@))
}

/// The value of the last of the first `n` pairs whose name is `key`.
pub open spec fn last_value_upto(pairs: Seq<(Seq<char>, Seq<char>)>, key: Seq<char>, n: int) -> Option<
    Seq<char>,
>
    decreases n,
{
    if n <= 0 || n > pairs.len() {
        None
    } else if pairs[n - 1].0 == key {
        Some(pairs[n - 1].1)
    } else {
        last_value_upto(pairs, key, n - 1)
    }
}

/// The value of the last pair named `key`: a later occurrence wins.
pub open spec fn last_value(pairs: Seq<(Seq<char>, Seq<char>)>, key: Seq<char>) -> Option<Seq<char>> {
    last_value_upto(pairs, key, pairs.len() as int)
}

/// The query parameters of a request: no query gives no pairs.
pub fn parse_query(query: Option<&str>) -> (r: Vec<(String, String)>)
    ensures
        query matches Some(q) ==> pairs_view(r@) == form_pairs(q@),
        query is None ==> r@.len() == 0,
{
    match query {
        Some(q) => parse_form(q),
        None => Vec::new(),
    }
}

/// The value of the last parameter named `key`, or the 400 reply that
/// names the missing parameter.
pub fn get_required_parameter<'a>(query_pairs: &'a Vec<(String, String)>, key: &str) -> (r: Result<
    &'a String,
    Reply,
>)
    ensures
        last_value(pairs_view(query_pairs@), key@) matches Some(v) ==> (r matches Ok(s) && s@ == v),
        last_value(pairs_view(query_pairs@), key@) is None ==> (r matches Err(e) && is_text_reply(
            e,
            400,
            missing_parameter_message(key@),
        )),
{
    let ghost pv = pairs_view(query_pairs@);
    let mut i: usize = query_pairs.len();
    while i > 0
        invariant
            i <= query_pairs@.len(),
            pv == pairs_view(query_pairs@),
            last_value_upto(pv, key@, i as int) == last_value(pv, key@),
        decreases i,
    {
        if text_eq(query_pairs[i - 1].0.as_str(), key) {
            return Ok(&query_pairs[i - 1].1);
        }
        i = i - 1;
    }
    Err(handle_400_missing_parameter(key))
}

/// The kinds of monitored object that can be listed.
#[derive(Clone, Copy, Debug, PartialEq, Eq, Structural)]
pub enum ObjectType {
    Hosts,
    Services,
}

pub open spec fn objtype_name(t: ObjectType) -> Seq<char> {
    match t {
        ObjectType::Hosts => "hosts"@,
        ObjectType::Services => "services"@,
    }
}

impl ObjectType {
    /// The object type named `s`, if any.
    pub fn from_name(s: &str) -> (r: Option<ObjectType>)
        ensures
            r matches Some(t) ==> objtype_name(t) == s@,
            r is None ==> s@ != "hosts"@ && s@ != "services"@,
    {
        if text_eq(s, "hosts") {
            Some(ObjectType::Hosts)
        } else if text_eq(s, "services") {
            Some(ObjectType::Services)
        } else {
            None
        }
    }

    /// The name of the object type, as the upstream API spells it.
    pub fn name(&self) -> (r: &'static str)
        ensures
            r@ == objtype_name(*self),
    {
        match self {
            ObjectType::Hosts => "hosts",
            ObjectType::Services => "services",
        }
    }
}

/// A validated table request.
#[derive(Debug)]
pub struct TableQuery {
    pub objtype: ObjectType,
    pub filter: String,
}

/// What a validation of the parameters `pairs` gives: the request, or the
/// status and body of its 400 reply.
pub open spec fn query_outcome(pairs: Seq<(Seq<char>, Seq<char>)>) -> Result<
    (ObjectType, Seq<char>),
    Seq<char>,
> {
    match last_value(pairs, "objtype"@) {
        None => Err(missing_parameter_message("objtype"@)),
        Some(ot) => if ot != "hosts"@ && ot != "services"@ {
            Err(wrong_parameter_message("objtype"@, ot))
        } else {
            match last_value(pairs, "filter"@) {
                None => Err(missing_parameter_message("filter"@)),
                Some(f) => Ok(
                    (if ot == "hosts"@ {
                        ObjectType::Hosts
                    } else {
                        ObjectType::Services
                    }, f),
                ),
            }
        },
    }
}

/// Validates the table parameters: `objtype` must be present and one of
/// `hosts` and `services`, and `filter` must be present. The last
/// occurrence of each parameter counts.
pub fn validate_table_query(query_pairs: &Vec<(String, String)>) -> (r: Result<TableQuery, Reply>)
    ensures
        query_outcome(pairs_view(query_pairs@)) matches Ok((t, f)) ==> (r matches Ok(q)
            && q.objtype == t && q.filter@ == f),
        query_outcome(pairs_view(query_pairs@)) matches Err(msg) ==> (r matches Err(e)
            && is_text_reply(e, 400, msg)),
{
    proof {
        reveal_strlit("hosts");
        reveal_strlit("services");
        assert("hosts"@.len() != "services"@.len());
    }
    let objtype_value = match get_required_parameter(query_pairs, "objtype") {
        Ok(v) => v,
        Err(e) => return Err(e),
    };
    let objtype = match ObjectType::from_name(objtype_value.as_str()) {
        Some(t) => t,
        None => return Err(handle_400_wrong_parameter("objtype", objtype_value.as_str())),
    };
    let filter = match get_required_parameter(query_pairs, "filter") {
        Ok(v) => v,
        Err(e) => return Err(e),
    };
    Ok(TableQuery { objtype, filter: filter.clone() })
}

/// A parameter's last occurrence gives its value, whatever came before.
pub proof fn law_last_occurrence_wins(pairs: Seq<(Seq<char>, Seq<char>)>, key: Seq<char>, i: int)
    requires
        0 <= i < pairs.len(),
        pairs[i].0 == key,
        forall|j: int| i < j < pairs.len() ==> (#[trigger] pairs[j]).0 != key,
    ensures
        last_value(pairs, key) == Some(pairs[i].1),
    decreases pairs.len() - i,
{
    lemma_last_value_upto(pairs, key, i, pairs.len() as int);
}

proof fn lemma_last_value_upto(pairs: Seq<(Seq<char>, Seq<char>)>, key: Seq<char>, i: int, n: int)
    requires
        0 <= i < n <= pairs.len(),
        pairs[i].0 == key,
        forall|j: int| i < j < pairs.len() ==> (#[trigger] pairs[j]).0 != key,
    ensures
        last_value_upto(pairs, key, n) == Some(pairs[i].1),
    decreases n,
{
    if n - 1 > i {
        lemma_last_value_upto(pairs, key, i, n - 1);
    }
}

/// A query that lacks `objtype` or `filter` is rejected, so no upstream
/// request is made for it.
pub proof fn law_missing_parameter_rejected(pairs: Seq<(Seq<char>, Seq<char>)>)
    requires
        last_value(pairs, "objtype"@) is None || last_value(pairs, "filter"@) is None,
    ensures
        query_outcome(pairs) is Err,
{
}

/// An `objtype` other than `hosts` and `services` is rejected with a message
/// that names the parameter and the value.
pub proof fn law_unknown_objtype_rejected(pairs: Seq<(Seq<char>, Seq<char>)>, v: Seq<char>)
    requires
        last_value(pairs, "objtype"@) == Some(v),
        v != "hosts"@,
        v != "services"@,
    ensures
        query_outcome(pairs) == Err::<(ObjectType, Seq<char>), Seq<char>>(
            wrong_parameter_message("objtype"@, v),
        ),
{
}

} // verus!
