//! The JSON encodings of what identifies and describes a plugin: its
//! identifier, its ports, and its description.

use crate::json::{
    as_text, as_u64, get_required, get_text, lemma_array_view, lemma_key_concat, lemma_key_empty,
    lemma_key_one, lemma_object_view, one, outcome, required, required_text, DecodeError, Json,
    JsonView, Members, Number,
};
use crate::{PluginId, PluginMeta, PluginMetaView, Port, PortId};
use vstd::prelude::*;

verus! {

/// The encoding of a [`PluginId`]: its number.
pub open spec fn encode_id(id: PluginId) -> JsonView {
    JsonView::Number(Number::PosInt(id.0))
}

/// What a document decodes to as a [`PluginId`].
pub open spec fn decode_id(j: JsonView) -> Result<PluginId, DecodeError> {
    match as_u64(j) {
        Err(e) => Err(e),
        Ok(u) => Ok(PluginId(u)),
    }
}

/// The encoding of a [`Port`]: an object with the name under `id`.
pub open spec fn encode_port(name: Seq<char>) -> JsonView {
    JsonView::Object(one("id"@, JsonView::String(name)))
}

/// What a document decodes to as a [`Port`].
pub open spec fn decode_port(j: JsonView) -> Result<Seq<char>, DecodeError> {
    match j {
        JsonView::Object(members) => required_text(members, "id"@),
        _ => Err(DecodeError::InvalidType),
    }
}

/// The encoding of one variable: the array of its name and its value.
pub open spec fn var_json(v: (Seq<char>, JsonView)) -> JsonView {
    JsonView::Array(seq![JsonView::String(v.0), v.1])
}

/// The encoding of a list of variables.
pub open spec fn vars_json(vars: Members) -> JsonView {
    JsonView::Array(Seq::new(vars.len(), |i: int| var_json(vars[i])))
}

/// What a document decodes to as one variable.
pub open spec fn as_var(j: JsonView) -> Result<(Seq<char>, JsonView), DecodeError> {
    match j {
        JsonView::Array(pair) => if pair.len() != 2 {
            Err(DecodeError::InvalidLength)
        } else {
            match as_text(pair[0]) {
                Err(e) => Err(e),
                Ok(name) => Ok((name, pair[1])),
            }
        },
        _ => Err(DecodeError::InvalidType),
    }
}

/// What a run of documents decodes to as variables; the first that is in
/// error decides.
pub open spec fn var_list(items: Seq<JsonView>) -> Result<Members, DecodeError>
    decreases items.len(),
{
    if items.len() == 0 {
        Ok(Seq::empty())
    } else {
        match var_list(items.drop_last()) {
            Err(e) => Err(e),
            Ok(before) => match as_var(items.last()) {
                Err(e) => Err(e),
                Ok(v) => Ok(before.push(v)),
            },
        }
    }
}

/// What a document decodes to as a list of variables.
pub open spec fn as_vars(j: JsonView) -> Result<Members, DecodeError> {
    match j {
        JsonView::Array(items) => var_list(items),
        _ => Err(DecodeError::InvalidType),
    }
}

/// The encoding of a [`PluginMeta`]: an object with `name`, `fixed_vars` and
/// `default_vars`.
pub open spec fn encode_meta(m: PluginMetaView) -> JsonView {
    JsonView::Object(
        one("name"@, JsonView::String(m.name)) + one("fixed_vars"@, vars_json(m.fixed_vars)) + one(
            "default_vars"@,
            vars_json(m.default_vars),
        ),
    )
}

/// What a document decodes to as a [`PluginMeta`]. All three fields are
/// required; the first that is in error decides.
pub open spec fn decode_meta(j: JsonView) -> Result<PluginMetaView, DecodeError> {
    match j {
        JsonView::Object(members) => match required_text(members, "name"@) {
            Err(e) => Err(e),
            Ok(name) => match required(members, "fixed_vars"@) {
                Err(e) => Err(e),
                Ok(f) => match as_vars(f) {
                    Err(e) => Err(e),
                    Ok(fixed_vars) => match required(members, "default_vars"@) {
                        Err(e) => Err(e),
                        Ok(d) => match as_vars(d) {
                            Err(e) => Err(e),
                            Ok(default_vars) => Ok(
                                PluginMetaView { name, fixed_vars, default_vars },
                            ),
                        },
                    },
                },
            },
        },
        _ => Err(DecodeError::InvalidType),
    }
}

impl PluginId {
    /// Encodes the identifier as a JSON document.
    pub fn to_json(&self) -> (r: Json)
        ensures
            r@ == encode_id(*self),
    {
        Json::Number(Number::from_u64(self.0))
    }

    /// Decodes a JSON document.
    pub fn from_json(j: &Json) -> (r: Result<PluginId, DecodeError>)
        ensures
            r == decode_id(j@),
    {
        match j.to_u64() {
            Err(e) => Err(e),
            Ok(u) => Ok(PluginId(u)),
        }
    }
}

impl PortId {
    /// Encodes the name as a JSON document, a string.
    pub fn to_json(&self) -> (r: Json)
        ensures
            r@ == JsonView::String(self@),
    {
        Json::String(self.0.clone())
    }

    /// Decodes a JSON document.
    pub fn from_json(j: &Json) -> (r: Result<PortId, DecodeError>)
        ensures
            outcome(r) == as_text(j@),
    {
        match j.to_text() {
            Err(e) => Err(e),
            Ok(s) => Ok(PortId(s)),
        }
    }
}

impl Port {
    /// Encodes the port as a JSON document.
    pub fn to_json(&self) -> (r: Json)
        ensures
            r@ == encode_port(self@),
    {
        let mut members: Vec<(String, Json)> = Vec::new();
        members.push(("id".to_owned(), self.id.to_json()));
        proof {
            lemma_object_view(members);
            assert(members.deep_view() =~= encode_port(self@)->Object_0);
        }
        Json::Object(members)
    }

    /// Decodes a JSON document.
    pub fn from_json(j: &Json) -> (r: Result<Port, DecodeError>)
        ensures
            outcome(r) == decode_port(j@),
    {
        match j {
            Json::Object(members) => {
                proof {
                    lemma_object_view(*members);
                }
                let name = get_text(members, "id")?;
                Ok(Port { id: PortId(name) })
            },
            _ => Err(DecodeError::InvalidType),
        }
    }
}

/// Encodes a list of variables.
fn vars_to_json(vars: &Vec<(String, Json)>) -> (r: Json)
    ensures
        r@ == vars_json(vars.deep_view()),
{
    let mut out: Vec<Json> = Vec::new();
    let mut i: usize = 0;
    while i < vars.len()
        invariant
            i <= vars.len(),
            out.len() == i,
            forall|k: int| 0 <= k < i ==> out[k]@ == var_json((vars[k].0@, vars[k].1@)),
        decreases vars.len() - i,
    {
        let mut pair: Vec<Json> = Vec::new();
        pair.push(Json::String(vars[i].0.clone()));
        pair.push(vars[i].1.clone());
        proof {
            lemma_array_view(pair);
            assert(pair.deep_view() =~= seq![
                JsonView::String(vars[i as int].0@),
                vars[i as int].1@,
            ]);
        }
        out.push(Json::Array(pair));
        i = i + 1;
    }
    proof {
        lemma_array_view(out);
        assert(out.deep_view() =~= vars_json(vars.deep_view())->Array_0);
    }
    Json::Array(out)
}

/// Decodes one variable.
fn var_from_json(j: &Json) -> (r: Result<(String, Json), DecodeError>)
    ensures
        match r {
            Ok(v) => as_var(j@) == Ok::<_, DecodeError>((v.0@, v.1@)),
            Err(e) => as_var(j@) == Err::<(Seq<char>, JsonView), _>(e),
        },
{
    match j {
        Json::Array(pair) => {
            proof {
                lemma_array_view(*pair);
            }
            if pair.len() != 2 {
                Err(DecodeError::InvalidLength)
            } else {
                let name = pair[0].to_text()?;
                Ok((name, pair[1].clone()))
            }
        },
        _ => Err(DecodeError::InvalidType),
    }
}

/// An error among the first documents of a run is the error of the whole run.
proof fn lemma_var_list_error(items: Seq<JsonView>, n: int)
    requires
        0 <= n <= items.len(),
        var_list(items.take(n)) is Err,
    ensures
        var_list(items) == var_list(items.take(n)),
    decreases items.len() - n,
{
    if n < items.len() {
        assert(items.take(n + 1).drop_last() =~= items.take(n));
        lemma_var_list_error(items, n + 1);
    } else {
        assert(items.take(n) =~= items);
    }
}

/// Decodes a list of variables.
fn vars_from_json(j: &Json) -> (r: Result<Vec<(String, Json)>, DecodeError>)
    ensures
        match r {
            Ok(v) => as_vars(j@) == Ok::<_, DecodeError>(v.deep_view()),
            Err(e) => as_vars(j@) == Err::<Members, _>(e),
        },
{
    match j {
        Json::Array(items) => {
            proof {
                lemma_array_view(*items);
            }
            let ghost views = items.deep_view();
            let mut out: Vec<(String, Json)> = Vec::new();
            let mut i: usize = 0;
            proof {
                assert(views.take(0) =~= Seq::empty());
                assert(out.deep_view() =~= Seq::empty());
            }
            while i < items.len()
                invariant
                    i <= items.len(),
                    views == items.deep_view(),
                    as_vars(j@) == var_list(views),
                    var_list(views.take(i as int)) == Ok::<_, DecodeError>(out.deep_view()),
                decreases items.len() - i,
            {
                proof {
                    assert(views.take(i + 1).drop_last() =~= views.take(i as int));
                    assert(views.take(i + 1).last() == items[i as int]@);
                }
                let ghost before = out.deep_view();
                match var_from_json(&items[i]) {
                    Err(e) => {
                        proof {
                            lemma_var_list_error(views, i + 1);
                        }
                        return Err(e);
                    },
                    Ok(v) => {
                        let ghost vv = (v.0@, v.1@);
                        out.push(v);
                        proof {
                            assert(out.deep_view() =~= before.push(vv));
                        }
                    },
                }
                i = i + 1;
            }
            proof {
                assert(views.take(i as int) =~= views);
            }
            Ok(out)
        },
        _ => Err(DecodeError::InvalidType),
    }
}

impl PluginMeta {
    /// Encodes the description as a JSON document.
    pub fn to_json(&self) -> (r: Json)
        ensures
            r@ == encode_meta(self@),
    {
        let mut members: Vec<(String, Json)> = Vec::new();
        members.push(("name".to_owned(), Json::String(self.name.clone())));
        members.push(("fixed_vars".to_owned(), vars_to_json(&self.fixed_vars)));
        members.push(("default_vars".to_owned(), vars_to_json(&self.default_vars)));
        proof {
            lemma_object_view(members);
            assert(members.deep_view() =~= encode_meta(self@)->Object_0);
        }
        Json::Object(members)
    }

    /// Decodes a JSON document.
    pub fn from_json(j: &Json) -> (r: Result<PluginMeta, DecodeError>)
        ensures
            outcome(r) == decode_meta(j@),
    {
        match j {
            Json::Object(members) => {
                proof {
                    lemma_object_view(*members);
                }
                let name = get_text(members, "name")?;
                let f = get_required(members, "fixed_vars")?;
                let fixed_vars = vars_from_json(f)?;
                let d = get_required(members, "default_vars")?;
                let default_vars = vars_from_json(d)?;
                Ok(PluginMeta { name, fixed_vars, default_vars })
            },
            _ => Err(DecodeError::InvalidType),
        }
    }
}

/// The encoding of the ports of a plugin: the array of their encodings, in
/// order.
pub open spec fn encode_ports(names: Seq<Seq<char>>) -> JsonView {
    JsonView::Array(Seq::new(names.len(), |i: int| encode_port(names[i])))
}

/// The names of some ports, in order.
pub open spec fn port_names(ports: Seq<Port>) -> Seq<Seq<char>> {
    Seq::new(ports.len(), |i: int| ports[i]@)
}

/// Encodes the inputs or the outputs of a plugin as a JSON document.
pub fn ports_to_json(ports: &[Port]) -> (r: Json)
    ensures
        r@ == encode_ports(port_names(ports@)),
{
    let mut out: Vec<Json> = Vec::new();
    let mut i: usize = 0;
    while i < ports.len()
        invariant
            i <= ports.len(),
            out.len() == i,
            forall|k: int| 0 <= k < i ==> out[k]@ == encode_port(ports[k]@),
        decreases ports.len() - i,
    {
        out.push(ports[i].to_json());
        i = i + 1;
    }
    proof {
        lemma_array_view(out);
        assert(out.deep_view() =~= encode_ports(port_names(ports@))->Array_0);
    }
    Json::Array(out)
}

/// Decoding the encoding of any [`PluginId`] and of any [`Port`] gives it
/// back.
pub proof fn lemma_id_and_port_round_trip(id: PluginId, name: Seq<char>)
    ensures
        decode_id(encode_id(id)) == Ok::<_, DecodeError>(id),
        decode_port(encode_port(name)) == Ok::<_, DecodeError>(name),
{
    broadcast use {lemma_key_empty, lemma_key_one, lemma_key_concat};

}

/// Decoding the encoding of any list of variables gives it back.
pub proof fn lemma_vars_round_trip(vars: Members)
    ensures
        as_vars(vars_json(vars)) == Ok::<_, DecodeError>(vars),
    decreases vars.len(),
{
    let items = vars_json(vars)->Array_0;
    if vars.len() > 0 {
        let shorter = vars.drop_last();
        let v = vars.last();
        lemma_vars_round_trip(shorter);
        assert(items.drop_last() =~= vars_json(shorter)->Array_0);
        assert(items.last() == var_json(v));
        let pair = var_json(v)->Array_0;
        assert(pair.len() == 2 && pair[0] == JsonView::String(v.0) && pair[1] == v.1);
        assert(as_var(var_json(v)) == Ok::<_, DecodeError>(v));
        assert(shorter.push(v) =~= vars);
    } else {
        assert(vars =~= Seq::empty());
    }
}

/// Decoding the encoding of any [`PluginMeta`] gives it back.
pub proof fn lemma_meta_round_trip(m: PluginMetaView)
    ensures
        decode_meta(encode_meta(m)) == Ok::<_, DecodeError>(m),
{
    broadcast use {lemma_key_empty, lemma_key_one, lemma_key_concat};

    reveal_strlit("name");
    reveal_strlit("fixed_vars");
    reveal_strlit("default_vars");
    assert("name"@.len() == 4 && "fixed_vars"@.len() == 10 && "default_vars"@.len() == 12);
    lemma_vars_round_trip(m.fixed_vars);
    lemma_vars_round_trip(m.default_vars);
}

} // verus!
