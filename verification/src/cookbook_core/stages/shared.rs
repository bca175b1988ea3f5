//! What the stages of the core cookbook share.

use vstd::prelude::*;

use crate::json;
use crate::json::{add_entry, object, text_value, Json, JsonView};

verus! {

/// One component of a training or an evaluation: what kind it is, its name, and
/// its own configuration.
#[derive(Debug, PartialEq, Eq)]
pub struct IngredientCfg {
    pub kind: String,
    pub name: String,
    pub config: Json,
}

/// An ingredient as values.
#[verifier::ext_equal]
pub struct IngredientView {
    pub kind: Seq<char>,
    pub name: Seq<char>,
    pub config: JsonView,
}

impl View for IngredientCfg {
    type V = IngredientView;

    open spec fn view(&self) -> IngredientView {
        IngredientView { kind: self.kind@, name: self.name@, config: self.config@ }
    }
}

/// An ingredient as JSON.
pub open spec fn ingredient_json(i: IngredientView) -> JsonView {
    JsonView::Object(
        seq![
            ("kind"@, JsonView::Text(i.kind)),
            ("name"@, JsonView::Text(i.name)),
            ("config"@, i.config),
        ],
    )
}

/// The ingredient that a value stands for: a record of a kind, a name and a
/// configuration, which is `null` where there is none.
pub open spec fn ingredient_of(v: JsonView) -> Option<IngredientView> {
    match (json::field(v, "kind"@, 0), json::field(v, "name"@, 1)) {
        (Some(JsonView::Text(kind)), Some(JsonView::Text(name))) => if json::is_record(v, 3) {
            Some(
                IngredientView {
                    kind,
                    name,
                    config: match json::field(v, "config"@, 2) {
                        Some(c) => c,
                        None => JsonView::Null,
                    },
                },
            )
        } else {
            None
        },
        _ => None,
    }
}

/// The ingredient in a field; `None` where there is none.
pub open spec fn ingredient_at(v: JsonView, key: Seq<char>, place: nat) -> Option<IngredientView> {
    match json::field(v, key, place) {
        Some(x) => ingredient_of(x),
        None => None,
    }
}

/// The ingredient in a field, `default` where the field is missing.
pub open spec fn ingredient_or(
    v: JsonView,
    key: Seq<char>,
    place: nat,
    default: IngredientView,
) -> Option<IngredientView> {
    match json::field(v, key, place) {
        Some(x) => ingredient_of(x),
        None => Some(default),
    }
}

/// What is written as an ingredient is read back as the same ingredient.
pub proof fn lemma_ingredients_read_back(i: IngredientView)
    ensures
        ingredient_of(ingredient_json(i)) == Some(i),
{
    reveal_strlit("kind");
    reveal_strlit("name");
    reveal_strlit("config");
    reveal_with_fuel(json::lookup, 4);
    let e = ingredient_json(i)->Object_0;
    assert("kind"@[0] == 'k');
    assert("name"@[0] == 'n');
    assert("config"@.len() == 6 && "name"@.len() == 4 && "kind"@.len() == 4);
    assert(e.drop_first()[0] == ("name"@, JsonView::Text(i.name)));
    assert(e.drop_first().drop_first()[0] == ("config"@, i.config));
}

impl Clone for IngredientCfg {
    fn clone(&self) -> (r: Self)
        ensures
            r@ == self@,
    {
        IngredientCfg {
            kind: self.kind.clone(),
            name: self.name.clone(),
            config: self.config.duplicate(),
        }
    }
}

impl IngredientCfg {
    /// An ingredient without configuration.
    pub fn plain(kind: &str, name: &str) -> (r: Self)
        ensures
            r@ == (IngredientView { kind: kind@, name: name@, config: JsonView::Object(Seq::empty()) }),
    {
        let none: Vec<(String, Json)> = Vec::new();
        assert(json::entries_view(none@) =~= Seq::<(Seq<char>, JsonView)>::empty());
        IngredientCfg { kind: kind.to_string(), name: name.to_string(), config: object(none) }
    }

    /// Reads an ingredient. `None` where the value is not one.
    pub fn from_json(v: &Json) -> (r: Option<Self>)
        ensures
            match r {
                Some(i) => ingredient_of(v@) == Some(i@),
                None => ingredient_of(v@) is None,
            },
    {
        if !v.is_record(3) {
            return None;
        }
        match (v.field("kind", 0), v.field("name", 1)) {
            (Some(Json::Text(kind)), Some(Json::Text(name))) => {
                let config = match v.field("config", 2) {
                    Some(c) => c.duplicate(),
                    None => Json::Null,
                };
                Some(IngredientCfg { kind: kind.clone(), name: name.clone(), config })
            },
            _ => None,
        }
    }

    /// The ingredient as JSON.
    pub fn to_json(&self) -> (r: Json)
        ensures
            r@ == ingredient_json(self@),
    {
        let mut e: Vec<(String, Json)> = Vec::new();
        assert(json::entries_view(e@) =~= Seq::<(Seq<char>, JsonView)>::empty());
        add_entry(&mut e, "kind", text_value(self.kind.as_str()));
        add_entry(&mut e, "name", text_value(self.name.as_str()));
        add_entry(&mut e, "config", self.config.duplicate());
        assert(json::entries_view(e@) =~= ingredient_json(self@)->Object_0);
        object(e)
    }
}

/// The ingredient in a field.
pub fn get_ingredient(v: &Json, key: &str, place: usize) -> (r: Option<IngredientCfg>)
    ensures
        match r {
            Some(i) => ingredient_at(v@, key@, place as nat) == Some(i@),
            None => ingredient_at(v@, key@, place as nat) is None,
        },
{
    match v.field(key, place) {
        Some(x) => IngredientCfg::from_json(x),
        None => None,
    }
}

/// The ingredient in a field, `default` where the field is missing.
pub fn get_ingredient_or(v: &Json, key: &str, place: usize, default: IngredientCfg) -> (r: Option<
    IngredientCfg,
>)
    ensures
        match r {
            Some(i) => ingredient_or(v@, key@, place as nat, default@) == Some(i@),
            None => ingredient_or(v@, key@, place as nat, default@) is None,
        },
{
    match v.field(key, place) {
        Some(x) => IngredientCfg::from_json(x),
        None => Some(default),
    }
}

/// The three parts of an ingredient are written under their own keys.
pub proof fn lemma_every_part_stands_under_its_key(i: IngredientView)
    ensures
        json::member(ingredient_json(i), "kind"@) == Some(JsonView::Text(i.kind)),
        json::member(ingredient_json(i), "name"@) == Some(JsonView::Text(i.name)),
        json::member(ingredient_json(i), "config"@) == Some(i.config),
{
    reveal_strlit("kind");
    reveal_strlit("name");
    reveal_strlit("config");
    assert("kind"@.len() == 4 && "kind"@[0] == 'k');
    assert("name"@.len() == 4 && "name"@[0] == 'n');
    assert("config"@.len() == 6);
    let e = ingredient_json(i)->Object_0;
    assert(e[0].0 == "kind"@);
    json::lemma_lookup_at(e, 0);
    assert(e[1].0 == "name"@);
    json::lemma_lookup_at(e, 1);
    assert(e[2].0 == "config"@);
    json::lemma_lookup_at(e, 2);
}

/// An ingredient is read from an object by its keys and from an array by its places, the
/// kind, the name and then the configuration. The first two are required texts; without a
/// configuration it is `null`; an array with an item more is no ingredient.
pub proof fn lemma_how_an_ingredient_is_read(
    kind: Seq<char>,
    name: Seq<char>,
    config: JsonView,
    more: JsonView,
    v: JsonView,
)
    ensures
        ({
            let k = JsonView::Text(kind);
            let n = JsonView::Text(name);
            &&& ingredient_of(JsonView::Array(seq![k, n, config])) == Some(
                IngredientView { kind, name, config },
            )
            &&& ingredient_of(JsonView::Array(seq![k, n])) == Some(
                IngredientView { kind, name, config: JsonView::Null },
            )
            &&& ingredient_of(JsonView::Array(seq![k])) is None
            &&& ingredient_of(JsonView::Array(seq![k, n, config, more])) is None
        }),
        v is Object && !(json::member(v, "kind"@) matches Some(JsonView::Text(t)))
            ==> ingredient_of(v) is None,
        v is Object && !(json::member(v, "name"@) matches Some(JsonView::Text(t)))
            ==> ingredient_of(v) is None,
        !(v is Object) && !(v is Array) ==> ingredient_of(v) is None,
        ingredient_of(v) matches Some(i) ==> {
            &&& json::field(v, "kind"@, 0) == Some(JsonView::Text(i.kind))
            &&& json::field(v, "name"@, 1) == Some(JsonView::Text(i.name))
            &&& json::field(v, "config"@, 2) == Some(i.config) || (json::field(
                v,
                "config"@,
                2,
            ) is None && i.config is Null)
        },
{
}

/// A field without an ingredient gives none, or the default where there is one; a field
/// with something gives what that something is read as.
pub proof fn lemma_where_an_ingredient_is_read(
    v: JsonView,
    key: Seq<char>,
    place: nat,
    default: IngredientView,
)
    ensures
        json::field(v, key, place) is None ==> ingredient_at(v, key, place) is None
            && ingredient_or(v, key, place, default) == Some(default),
        json::field(v, key, place) matches Some(x) ==> ingredient_at(v, key, place)
            == ingredient_of(x) && ingredient_or(v, key, place, default) == ingredient_of(x),
{
}

} // verus!
